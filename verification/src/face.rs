//! The comparison of a live image with the reference photo of a signer.
//! The comparator itself is an outside program; this module decides what to
//! hand it and what to make of its answer.

use vstd::prelude::*;
use crate::documents::{active_signer, Signer, SignerView};
use crate::json::{flag_member, json_flags, parse_json, parsed_flags};
use crate::state::AppState;

verus! {

/// Why a comparison gave no answer.
#[derive(Clone, Copy, Debug, PartialEq, Eq, Structural)]
pub enum FaceError {
    /// The signer has no reference photo.
    NoReferencePhoto,
    /// The reference photo could not be read.
    PhotoUnreadable,
    /// The comparator could not be started or fed.
    ComparatorUnavailable,
    /// The comparator ended with an error.
    ComparatorFailed,
    /// The comparator's answer is no JSON text.
    InvalidOutput,
}

impl FaceError {
    /// The text of the message for this failure.
    pub open spec fn message_text(self) -> Seq<char> {
        match self {
            FaceError::NoReferencePhoto => "Signatário sem foto de referência."@,
            FaceError::PhotoUnreadable => "Erro ao ler a foto de referência"@,
            FaceError::ComparatorUnavailable => "Erro ao iniciar Python"@,
            FaceError::ComparatorFailed => "Python retornou erro"@,
            FaceError::InvalidOutput => "Erro ao parsear JSON do Python"@,
        }
    }

    /// The message that describes the failure.
    pub fn message(self) -> (text: String)
        ensures
            text@ == self.message_text(),
    {
        match self {
            FaceError::NoReferencePhoto => "Signatário sem foto de referência.".to_owned(),
            FaceError::PhotoUnreadable => "Erro ao ler a foto de referência".to_owned(),
            FaceError::ComparatorUnavailable => "Erro ao iniciar Python".to_owned(),
            FaceError::ComparatorFailed => "Python retornou erro".to_owned(),
            FaceError::InvalidOutput => "Erro ao parsear JSON do Python".to_owned(),
        }
    }
}

/// What has happened in a comparison since the signer was looked up.
pub enum FaceStep {
    /// The reference photo was read.
    PhotoRead(Vec<u8>),
    /// The reference photo could not be read.
    PhotoUnreadable,
    /// The comparator could not be started or fed.
    ComparatorUnavailable,
    /// The comparator ran: whether it ended well, and what it wrote.
    Compared { success: bool, output: Vec<u8> },
}

/// What to do next in a comparison.
pub enum FaceAction {
    /// Read the reference photo at this path.
    ReadPhoto(String),
    /// Run the comparator on the two images, both in base64.
    RunComparator { ref_image_base64: String, live_image_base64: String },
    /// The comparison is over: whether the faces match, `None` for an
    /// unknown signer, or why there is no answer.
    Finish(Result<Option<bool>, FaceError>),
}

/// The standard base64 text of `bytes`, with padding.
pub uninterp spec fn base64_standard(bytes: Seq<u8>) -> Seq<char>;

/// Encodes bytes with `base64::engine::general_purpose::STANDARD`. The
/// encoder needs the length of its output to fit the machine's integers,
/// which the bound on the input secures.
#[verifier::external_body]
fn encode_base64(bytes: &[u8]) -> (text: String)
    requires
        bytes@.len() <= usize::MAX / 2,
    ensures
        text@ == base64_standard(bytes@),
{
    base64::Engine::encode(&base64::engine::general_purpose::STANDARD, bytes)
}

/// What the comparator's answer says: the boolean under `match`, and no
/// match where there is none.
pub open spec fn match_flag(flags: Map<Seq<char>, bool>) -> bool {
    if flags.dom().contains("match"@) {
        flags["match"@]
    } else {
        false
    }
}

/// Reads the verdict out of the comparator's parsed answer.
pub fn verdict_of(answer: &serde_json::Value) -> (matches: bool)
    ensures
        matches == match_flag(json_flags(*answer)),
{
    match flag_member(answer, "match") {
        Some(flag) => flag,
        None => false,
    }
}

/// The signer's reference photo, or the end of the comparison where
/// there is none to read: no answer for an unknown signer, an error for a
/// signer without a photo.
pub open spec fn first_action(found: Option<SignerView>) -> Result<
    Seq<char>,
    Result<Option<bool>, FaceError>,
> {
    match found {
        None => Err(Ok(None)),
        Some(signer) => match signer.photo_id_url {
            None => Err(Err(FaceError::NoReferencePhoto)),
            Some(path) => Ok(path),
        },
    }
}

/// Whether `action` is what `expected` calls for.
pub open spec fn begins_as(
    action: FaceAction,
    expected: Result<Seq<char>, Result<Option<bool>, FaceError>>,
) -> bool {
    match expected {
        Ok(path) => action matches FaceAction::ReadPhoto(p) && p@ == path,
        Err(end) => action matches FaceAction::Finish(r) && r == end,
    }
}

/// Decides how the comparison begins for the signer that was looked up.
pub fn reference_photo(found: &Option<Signer>) -> (action: FaceAction)
    ensures
        begins_as(
            action,
            first_action(
                match *found {
                    Some(signer) => Some(signer@),
                    None => None,
                },
            ),
        ),
{
    match found {
        None => FaceAction::Finish(Ok(None)),
        Some(signer) => match &signer.photo_id_url {
            None => FaceAction::Finish(Err(FaceError::NoReferencePhoto)),
            Some(path) => FaceAction::ReadPhoto(path.clone()),
        },
    }
}

/// Begins the comparison for the signer with `national_id`.
pub fn verify_signer_face(data: &AppState, national_id: &str) -> (action: FaceAction)
    ensures
        begins_as(action, first_action(active_signer(data@.signers, national_id@))),
{
    let found = data.registry.signers().find_by_national_id(national_id);
    reference_photo(&found)
}

/// What an answer of the comparator comes to, given its boolean members
/// where it is a JSON text: an answer that is none fails, and any other
/// gives the verdict under `match`.
pub open spec fn answer_read(flags: Option<Map<Seq<char>, bool>>) -> Result<Option<bool>, FaceError> {
    match flags {
        Some(flags) => Ok(Some(match_flag(flags))),
        None => Err(FaceError::InvalidOutput),
    }
}

/// Decides the next step of the comparison of `live_image_base64` with the
/// reference photo. A photo too large to encode counts as unreadable. The
/// comparator's answer, where it ended well, is read as JSON: an answer that
/// is none fails, and any other gives the boolean under `match` as the
/// verdict, or no match where there is none.
pub fn face_step(live_image_base64: &str, step: &FaceStep) -> (action: FaceAction)
    ensures
        match *step {
            FaceStep::PhotoRead(photo) => if photo@.len() <= usize::MAX / 2 {
                action matches FaceAction::RunComparator { ref_image_base64, live_image_base64: live }
                    && ref_image_base64@ == base64_standard(photo@) && live@ == live_image_base64@
            } else {
                action matches FaceAction::Finish(r) && r == Err::<Option<bool>, FaceError>(
                    FaceError::PhotoUnreadable,
                )
            },
            FaceStep::PhotoUnreadable => action matches FaceAction::Finish(r) && r == Err::<
                Option<bool>,
                FaceError,
            >(FaceError::PhotoUnreadable),
            FaceStep::ComparatorUnavailable => action matches FaceAction::Finish(r) && r == Err::<
                Option<bool>,
                FaceError,
            >(FaceError::ComparatorUnavailable),
            FaceStep::Compared { success, output } => if success {
                action matches FaceAction::Finish(r) && r == answer_read(parsed_flags(output@))
            } else {
                action matches FaceAction::Finish(r) && r == Err::<Option<bool>, FaceError>(
                    FaceError::ComparatorFailed,
                )
            },
        },
{
    match step {
        FaceStep::PhotoRead(photo) => {
            if photo.len() <= usize::MAX / 2 {
                FaceAction::RunComparator {
                    ref_image_base64: encode_base64(photo.as_slice()),
                    live_image_base64: live_image_base64.to_owned(),
                }
            } else {
                FaceAction::Finish(Err(FaceError::PhotoUnreadable))
            }
        },
        FaceStep::PhotoUnreadable => FaceAction::Finish(Err(FaceError::PhotoUnreadable)),
        FaceStep::ComparatorUnavailable => FaceAction::Finish(
            Err(FaceError::ComparatorUnavailable),
        ),
        FaceStep::Compared { success, output } => {
            if !*success {
                FaceAction::Finish(Err(FaceError::ComparatorFailed))
            } else {
                match parse_json(output.as_slice()) {
                    Ok(answer) => FaceAction::Finish(Ok(Some(verdict_of(&answer)))),
                    Err(_) => FaceAction::Finish(Err(FaceError::InvalidOutput)),
                }
            }
        },
    }
}

} // verus!

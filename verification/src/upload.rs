//! The upload of a document with the photo of its signer: the fields of
//! the form, the places in storage and the registration request they make.

use vstd::prelude::*;
use vstd::utf8::{decode_utf8, valid_utf8};
use crate::documents::{empty_request, CreateDocument, CreateDocumentView};
use crate::chance::{fresh_uuid, is_uuid_text};
use crate::text::{clone_text, integer_within, parse_integer, text_eq, text_view};

verus! {

/// The directory that takes the uploaded files.
pub const UPLOAD_DIR: &'static str = "./uploads";

/// The status of a document whose form names none.
pub const DEFAULT_STATUS: i32 = 1;

/// One part of the submitted form: its name, the name of the file it
/// carries if it carries one, and its content.
pub struct FormField {
    pub name: Option<String>,
    pub filename: Option<String>,
    pub data: Vec<u8>,
}

/// What has been gathered from the parts of a form.
pub struct UploadForm {
    pub request: CreateDocument,
    pub document_file_data: Vec<u8>,
    pub document_filename: String,
    pub photo_id_file_data: Vec<u8>,
    pub photo_id_filename: String,
}

/// A gathered form as a value.
pub struct UploadFormView {
    pub request: CreateDocumentView,
    pub document_file_data: Seq<u8>,
    pub document_filename: Seq<char>,
    pub photo_id_file_data: Seq<u8>,
    pub photo_id_filename: Seq<char>,
}

impl View for UploadForm {
    type V = UploadFormView;

    open spec fn view(&self) -> UploadFormView {
        UploadFormView {
            request: self.request@,
            document_file_data: self.document_file_data@,
            document_filename: self.document_filename@,
            photo_id_file_data: self.photo_id_file_data@,
            photo_id_filename: self.photo_id_filename@,
        }
    }
}

/// Why an upload was refused.
#[derive(Clone, Copy, Debug, PartialEq, Eq, Structural)]
pub enum UploadError {
    /// The form carries no document file, or an empty one.
    MissingDocumentFile,
    /// The form carries no identification photo, or an empty one.
    MissingPhotoFile,
}

impl UploadError {
    /// The text of the message for this failure.
    pub open spec fn message_text(self) -> Seq<char> {
        match self {
            UploadError::MissingDocumentFile => "Arquivo PDF do documento é obrigatório."@,
            UploadError::MissingPhotoFile => "Arquivo da foto de identificação é obrigatório."@,
        }
    }

    /// The message sent back for this failure.
    pub fn message(self) -> (text: String)
        ensures
            text@ == self.message_text(),
    {
        match self {
            UploadError::MissingDocumentFile => "Arquivo PDF do documento é obrigatório.".to_owned(),
            UploadError::MissingPhotoFile => "Arquivo da foto de identificação é obrigatório.".to_owned(),
        }
    }
}

/// The file name that `sanitize_filename` makes of `name`, with or without
/// the rules for Windows.
pub uninterp spec fn sanitized_name(name: Seq<char>, windows: bool) -> Seq<char>;

/// The SHA-256 digest of `data` in lower-case hexadecimal digits.
pub uninterp spec fn sha256_hex(data: Seq<u8>) -> Seq<char>;

/// Cleans a file name with `sanitize_filename::sanitize_with_options`,
/// under the crate's default options but for the Windows rules, which are
/// applied as `windows` says. The result depends on the name and that choice
/// alone.
#[verifier::external_body]
fn sanitize_name(name: &str, windows: bool) -> (clean: String)
    ensures
        clean@ == sanitized_name(name@, windows),
{
    let options = sanitize_filename::Options { windows, ..Default::default() };
    sanitize_filename::sanitize_with_options(name, options)
}

/// Hashes `data` with `sha2::Sha256` and writes the digest in lower-case
/// hexadecimal digits.
#[verifier::external_body]
fn content_hash(data: &[u8]) -> (hex: String)
    ensures
        hex@ == sha256_hex(data@),
{
    format!("{:x}", <sha2::Sha256 as sha2::Digest>::digest(data))
}

/// Decodes bytes with `String::from_utf8`: the text they encode in UTF-8,
/// or nothing where they encode none.
#[verifier::external_body]
fn utf8_text(bytes: &Vec<u8>) -> (text: Option<String>)
    ensures
        match text {
            Some(t) => valid_utf8(bytes@) && t@ == decode_utf8(bytes@),
            None => !valid_utf8(bytes@),
        },
{
    String::from_utf8(bytes.clone()).ok()
}

/// The text that `bytes` encode, or the empty text where they encode none.
pub open spec fn text_or_empty(bytes: Seq<u8>) -> Seq<char> {
    if valid_utf8(bytes) {
        decode_utf8(bytes)
    } else {
        Seq::empty()
    }
}

/// The number that a form value writes, or `fallback` where it writes
/// none between `low` and `high`.
pub open spec fn number_or(value: Seq<char>, low: int, high: int, fallback: int) -> int {
    match integer_within(value, low, high) {
        Some(n) => n,
        None => fallback,
    }
}

/// The request after the text field `name` with `value` was taken in:
/// the company and the status are read as numbers, with 0 and 1 standing in
/// for a value that writes none; the signer's fields are taken as they are;
/// other fields are passed over.
pub open spec fn text_field_applied(
    request: CreateDocumentView,
    name: Seq<char>,
    value: Seq<char>,
) -> CreateDocumentView {
    if name == "company_id"@ {
        CreateDocumentView {
            company_id: number_or(value, i64::MIN as int, i64::MAX as int, 0),
            ..request
        }
    } else if name == "status_id"@ {
        CreateDocumentView {
            status_id: number_or(value, i32::MIN as int, i32::MAX as int, DEFAULT_STATUS as int),
            ..request
        }
    } else if name == "signer_full_name"@ {
        CreateDocumentView { signer_full_name: Some(value), ..request }
    } else if name == "signer_phone_number"@ {
        CreateDocumentView { signer_phone_number: Some(value), ..request }
    } else if name == "signer_email"@ {
        CreateDocumentView { signer_email: Some(value), ..request }
    } else if name == "signer_national_id"@ {
        CreateDocumentView { signer_national_id: Some(value), ..request }
    } else {
        request
    }
}

/// The form after one more part was taken in. A part with a file name is
/// a file: the document or the photo, by its name, kept with its cleaned
/// file name. A part without one is a text field.
pub open spec fn field_applied(
    form: UploadFormView,
    name: Option<Seq<char>>,
    filename: Option<Seq<char>>,
    data: Seq<u8>,
    windows: bool,
) -> UploadFormView {
    match (filename, name) {
        (Some(raw), Some(name)) => if name == "document_file"@ {
            UploadFormView {
                document_file_data: data,
                document_filename: sanitized_name(raw, windows),
                ..form
            }
        } else if name == "signer_photo_id_file"@ {
            UploadFormView {
                photo_id_file_data: data,
                photo_id_filename: sanitized_name(raw, windows),
                ..form
            }
        } else {
            form
        },
        (Some(_), None) => form,
        (None, Some(name)) => UploadFormView {
            request: text_field_applied(form.request, name, text_or_empty(data)),
            ..form
        },
        (None, None) => form,
    }
}

impl UploadForm {
    /// A form of which no part has been seen.
    pub fn new() -> (form: UploadForm)
        ensures
            form@ == (UploadFormView {
                request: empty_request(),
                document_file_data: Seq::empty(),
                document_filename: Seq::empty(),
                photo_id_file_data: Seq::empty(),
                photo_id_filename: Seq::empty(),
            }),
    {
        UploadForm {
            request: CreateDocument::default(),
            document_file_data: Vec::new(),
            document_filename: String::new(),
            photo_id_file_data: Vec::new(),
            photo_id_filename: String::new(),
        }
    }

    /// Takes in the text field `name` with `value`.
    pub fn accept_text(&mut self, name: &str, value: String)
        ensures
            final(self)@ == (UploadFormView {
                request: text_field_applied(old(self).request@, name@, value@),
                ..old(self)@
            }),
    {
        if text_eq(name, "company_id") {
            self.request.company_id = match parse_integer(value.as_str(), i64::MIN, i64::MAX) {
                Some(n) => n,
                None => 0,
            };
        } else if text_eq(name, "status_id") {
            self.request.status_id = match parse_integer(
                value.as_str(),
                i32::MIN as i64,
                i32::MAX as i64,
            ) {
                Some(n) => n as i32,
                None => DEFAULT_STATUS,
            };
        } else if text_eq(name, "signer_full_name") {
            self.request.signer_full_name = Some(value);
        } else if text_eq(name, "signer_phone_number") {
            self.request.signer_phone_number = Some(value);
        } else if text_eq(name, "signer_email") {
            self.request.signer_email = Some(value);
        } else if text_eq(name, "signer_national_id") {
            self.request.signer_national_id = Some(value);
        }
    }

    /// Takes in one part of the form.
    pub fn accept(&mut self, field: FormField, windows: bool)
        ensures
            final(self)@ == field_applied(
                old(self)@,
                text_view(field.name),
                text_view(field.filename),
                field.data@,
                windows,
            ),
    {
        let FormField { name, filename, data } = field;
        match filename {
            Some(raw) => {
                let clean = sanitize_name(raw.as_str(), windows);
                match name {
                    Some(name) => {
                        if text_eq(name.as_str(), "document_file") {
                            self.document_file_data = data;
                            self.document_filename = clean;
                        } else if text_eq(name.as_str(), "signer_photo_id_file") {
                            self.photo_id_file_data = data;
                            self.photo_id_filename = clean;
                        }
                    },
                    None => {},
                }
            },
            None => {
                match name {
                    Some(name) => {
                        let value = match utf8_text(&data) {
                            Some(text) => text,
                            None => String::new(),
                        };
                        self.accept_text(name.as_str(), value);
                    },
                    None => {},
                }
            },
        }
    }
}

/// Where an upload goes and what is registered for it.
pub struct StoredUpload {
    pub request: CreateDocument,
    pub document_path: String,
    pub photo_path: String,
}

/// The place in storage of the file `filename` under the key `key`.
pub open spec fn storage_path(key: Seq<char>, filename: Seq<char>) -> Seq<char> {
    UPLOAD_DIR@ + "/"@ + key + "-"@ + filename
}

/// Builds the place in storage of the file `filename` under the key `key`.
pub fn make_storage_path(key: &str, filename: &str) -> (path: String)
    ensures
        path@ == storage_path(key@, filename@),
{
    let mut path = UPLOAD_DIR.to_owned();
    path.append("/");
    path.append(key);
    path.append("-");
    path.append(filename);
    path
}

/// The request that a complete form makes once its files have their
/// places: the document goes by its cleaned name, its place and the hash of
/// its content, the photo by its place.
pub open spec fn completed_request(
    form: UploadFormView,
    document_key: Seq<char>,
    photo_key: Seq<char>,
) -> CreateDocumentView {
    CreateDocumentView {
        file_name: Some(form.document_filename),
        file_path: Some(storage_path(document_key, form.document_filename)),
        hash_sha256: Some(sha256_hex(form.document_file_data)),
        photo_id_url: Some(storage_path(photo_key, form.photo_id_filename)),
        ..form.request
    }
}

/// What stands in the way of storing the form's files, if anything.
pub open spec fn upload_obstacle(form: UploadFormView) -> Option<UploadError> {
    if form.document_file_data.len() == 0 {
        Some(UploadError::MissingDocumentFile)
    } else if form.photo_id_file_data.len() == 0 {
        Some(UploadError::MissingPhotoFile)
    } else {
        None
    }
}

/// Plans the storage of the form's files under the two keys and completes
/// the registration request. A form without a document file or without a
/// photo is refused.
pub fn plan_storage(form: &UploadForm, document_key: &str, photo_key: &str) -> (outcome: Result<
    StoredUpload,
    UploadError,
>)
    ensures
        match outcome {
            Ok(stored) => {
                &&& upload_obstacle(form@).is_none()
                &&& stored.request@ == completed_request(form@, document_key@, photo_key@)
                &&& stored.document_path@ == storage_path(document_key@, form.document_filename@)
                &&& stored.photo_path@ == storage_path(photo_key@, form.photo_id_filename@)
            },
            Err(e) => upload_obstacle(form@) == Some(e),
        },
{
    if form.document_file_data.len() == 0 {
        return Err(UploadError::MissingDocumentFile);
    }
    if form.photo_id_file_data.len() == 0 {
        return Err(UploadError::MissingPhotoFile);
    }
    let document_path = make_storage_path(document_key, form.document_filename.as_str());
    let photo_path = make_storage_path(photo_key, form.photo_id_filename.as_str());
    let request = CreateDocument {
        company_id: form.request.company_id,
        file_name: Some(form.document_filename.clone()),
        file_path: Some(document_path.clone()),
        hash_sha256: Some(content_hash(form.document_file_data.as_slice())),
        status_id: form.request.status_id,
        signer_full_name: clone_text(&form.request.signer_full_name),
        signer_phone_number: clone_text(&form.request.signer_phone_number),
        signer_email: clone_text(&form.request.signer_email),
        signer_national_id: clone_text(&form.request.signer_national_id),
        photo_id_url: Some(photo_path.clone()),
    };
    Ok(StoredUpload { request, document_path, photo_path })
}

/// Plans the storage of the form's files under two fresh random keys and
/// completes the registration request.
pub fn prepare_upload(form: &UploadForm) -> (outcome: Result<StoredUpload, UploadError>)
    ensures
        match outcome {
            Ok(stored) => upload_obstacle(form@).is_none() && exists|
                document_key: Seq<char>,
                photo_key: Seq<char>,
            |
                {
                    &&& is_uuid_text(document_key)
                    &&& is_uuid_text(photo_key)
                    &&& stored.request@ == #[trigger] completed_request(
                        form@,
                        document_key,
                        photo_key,
                    )
                    &&& stored.document_path@ == storage_path(document_key, form.document_filename@)
                    &&& stored.photo_path@ == storage_path(photo_key, form.photo_id_filename@)
                },
            Err(e) => upload_obstacle(form@) == Some(e),
        },
{
    if form.document_file_data.len() == 0 {
        return Err(UploadError::MissingDocumentFile);
    }
    if form.photo_id_file_data.len() == 0 {
        return Err(UploadError::MissingPhotoFile);
    }
    let document_key = fresh_uuid();
    let photo_key = fresh_uuid();
    let outcome = plan_storage(form, document_key.as_str(), photo_key.as_str());
    proof {
        if outcome.is_ok() {
            assert(outcome.unwrap().request@ == completed_request(
                form@,
                document_key@,
                photo_key@,
            ));
        }
    }
    outcome
}

} // verus!

//! Account linking over a messaging channel: a one-time link token is
//! created for an email, confirmed once by the channel, and exchanged for a
//! session token and a passcode.

use vstd::prelude::*;
use crate::auth::{create_jwt_at, issued_token, AuthError};
use crate::clock::{current_time, format_rfc3339, rfc3339_utc, valid_timestamp, MAX_TIMESTAMP};
use crate::json::{json_texts, text_member};
use crate::chance::{fresh_uuid, is_uuid_text, random_in};
use crate::otp::{issued, OtpCode, OtpEntry, OTP_BOUND, OTP_MIN, OTP_TTL};
use crate::state::{AppState, AppStateView};
use crate::text::{
    decimal, i64_to_string, instant_view, join, signed_decimal, text_eq, u64_to_string,
};
use crate::users::{active_account, User, UserView};

verus! {

/// A link token with the state of its confirmation.
pub struct TelegramLink {
    pub id: i32,
    pub email: String,
    pub token: String,
    pub chat_id: Option<i64>,
    pub confirmed: bool,
    pub created_at: Option<i64>,
    pub confirmed_at: Option<i64>,
}

/// A link token as a value.
pub struct LinkView {
    pub id: int,
    pub email: Seq<char>,
    pub token: Seq<char>,
    pub chat_id: Option<int>,
    pub confirmed: bool,
    pub created_at: Option<int>,
    pub confirmed_at: Option<int>,
}

impl View for TelegramLink {
    type V = LinkView;

    open spec fn view(&self) -> LinkView {
        LinkView {
            id: self.id as int,
            email: self.email@,
            token: self.token@,
            chat_id: instant_view(self.chat_id),
            confirmed: self.confirmed,
            created_at: instant_view(self.created_at),
            confirmed_at: instant_view(self.confirmed_at),
        }
    }
}

impl TelegramLink {
    /// A copy of the link.
    pub fn duplicate(&self) -> (copy: TelegramLink)
        ensures
            copy@ == self@,
    {
        TelegramLink {
            id: self.id,
            email: self.email.clone(),
            token: self.token.clone(),
            chat_id: self.chat_id,
            confirmed: self.confirmed,
            created_at: self.created_at,
            confirmed_at: self.confirmed_at,
        }
    }
}

/// The channel's confirmation of a link token.
pub struct ConfirmTelegramRequest {
    pub token: String,
    pub chat_id: i64,
}

/// Why a link was not created or not confirmed.
#[derive(Clone, Copy, Debug, PartialEq, Eq, Structural)]
pub enum LinkError {
    /// The request names no email.
    MissingField,
    /// No link with this token awaits confirmation.
    UnknownOrAlreadyConfirmed,
    /// The account that owns the link's email does not exist.
    AccountNotFound,
    /// The store could not take the change.
    PersistenceError,
    /// A link with this token exists already.
    Conflict,
    /// No session token could be issued.
    Session(AuthError),
    /// No passcode could be issued.
    OtpUnavailable,
}

/// Whether row `i` holds `token`.
pub open spec fn has_token(rows: Seq<LinkView>, token: Seq<char>, i: int) -> bool {
    0 <= i < rows.len() && rows[i].token == token
}

/// The position of the link with `token`, if there is one.
pub open spec fn link_position(rows: Seq<LinkView>, token: Seq<char>) -> Option<int> {
    if exists|i: int| has_token(rows, token, i) {
        Some(choose|i: int| has_token(rows, token, i))
    } else {
        None
    }
}

/// The link with `token` that awaits confirmation, if there is one.
pub open spec fn pending_link(rows: Seq<LinkView>, token: Seq<char>) -> Option<LinkView> {
    match link_position(rows, token) {
        Some(i) => if rows[i].confirmed {
            None
        } else {
            Some(rows[i])
        },
        None => None,
    }
}

/// Links are numbered from 1 in the order of their creation, and no two
/// share a token.
pub open spec fn links_wf(rows: Seq<LinkView>) -> bool {
    &&& rows.len() <= i32::MAX
    &&& forall|i: int| 0 <= i < rows.len() ==> (#[trigger] rows[i]).id == i + 1
    &&& forall|i: int, j: int|
        #![trigger rows[i], rows[j]]
        0 <= i < rows.len() && 0 <= j < rows.len() && rows[i].token == rows[j].token ==> i == j
}

/// The link that `create_link` records.
pub open spec fn new_link(rows: Seq<LinkView>, email: Seq<char>, token: Seq<char>, now: int) -> LinkView {
    LinkView {
        id: rows.len() as int + 1,
        email,
        token,
        chat_id: None,
        confirmed: false,
        created_at: Some(now),
        confirmed_at: None,
    }
}

/// The link `link` once the channel `chat_id` has confirmed it at `now`.
pub open spec fn confirmed_link(link: LinkView, chat_id: int, now: int) -> LinkView {
    LinkView { chat_id: Some(chat_id), confirmed: true, confirmed_at: Some(now), ..link }
}

/// The links after the pending link with `token` has been confirmed; without
/// such a link nothing changes.
pub open spec fn links_confirmed(
    rows: Seq<LinkView>,
    token: Seq<char>,
    chat_id: int,
    now: int,
) -> Seq<LinkView> {
    match link_position(rows, token) {
        Some(i) => if rows[i].confirmed {
            rows
        } else {
            rows.update(i, confirmed_link(rows[i], chat_id, now))
        },
        None => rows,
    }
}

/// The link tokens on record.
pub struct LinkTable {
    rows: Vec<TelegramLink>,
}

/// Among distinct tokens, the position of a token is that of its link.
proof fn lemma_position(rows: Seq<LinkView>, i: int)
    requires
        links_wf(rows),
        0 <= i < rows.len(),
    ensures
        link_position(rows, rows[i].token) == Some(i),
{
    assert(has_token(rows, rows[i].token, i));
    let chosen = choose|k: int| has_token(rows, rows[i].token, k);
    assert(rows[chosen].token == rows[i].token);
}

impl LinkTable {
    #[verifier::type_invariant]
    spec fn well_formed(&self) -> bool {
        links_wf(self.rows@.map_values(|l: TelegramLink| l@))
    }

    /// The links in the order of their creation.
    pub closed spec fn view(&self) -> Seq<LinkView> {
        self.rows@.map_values(|l: TelegramLink| l@)
    }

    /// The number of links on record.
    pub fn len(&self) -> (n: usize)
        ensures
            n == self@.len(),
            links_wf(self@),
    {
        proof {
            use_type_invariant(self);
        }
        self.rows.len()
    }

    /// A table without links.
    pub fn new() -> (table: LinkTable)
        ensures
            table@ == Seq::<LinkView>::empty(),
    {
        let table = LinkTable { rows: Vec::new() };
        assert(table@ =~= Seq::<LinkView>::empty());
        table
    }

    fn position(&self, token: &str) -> (at: Option<usize>)
        ensures
            links_wf(self@),
            match at {
                Some(i) => link_position(self@, token@) == Some(i as int) && i < self@.len(),
                None => link_position(self@, token@).is_none(),
            },
    {
        proof {
            use_type_invariant(self);
        }
        let mut i: usize = 0;
        while i < self.rows.len()
            invariant
                i <= self.rows.len(),
                self@ == self.rows@.map_values(|l: TelegramLink| l@),
                links_wf(self@),
                forall|j: int| 0 <= j < i ==> !has_token(self@, token@, j),
            decreases self.rows.len() - i,
        {
            if text_eq(self.rows[i].token.as_str(), token) {
                proof {
                    lemma_position(self@, i as int);
                }
                return Some(i);
            }
            i += 1;
        }
        None
    }

    /// The link with `token`, confirmed or not.
    pub fn find(&self, token: &str) -> (found: Option<TelegramLink>)
        ensures
            links_wf(self@),
            match found {
                Some(link) => link_position(self@, token@) matches Some(i) && self@[i] == link@,
                None => link_position(self@, token@).is_none(),
            },
    {
        match self.position(token) {
            Some(i) => Some(self.rows[i].duplicate()),
            None => None,
        }
    }

    /// The link with `token` that awaits confirmation.
    pub fn find_pending(&self, token: &str) -> (found: Option<TelegramLink>)
        ensures
            links_wf(self@),
            match found {
                Some(link) => pending_link(self@, token@) == Some(link@),
                None => pending_link(self@, token@).is_none(),
            },
    {
        match self.position(token) {
            Some(i) => if self.rows[i].confirmed {
                None
            } else {
                Some(self.rows[i].duplicate())
            },
            None => None,
        }
    }

    /// Records a link for `email` under `token`, created at `now` and not
    /// yet confirmed. Fails with `Conflict` when the token is taken, and
    /// with `PersistenceError` when the numbers for links are used up.
    pub fn insert(&mut self, email: &str, token: &str, now: i64) -> (outcome: Result<(), LinkError>)
        ensures
            links_wf(old(self)@),
            links_wf(final(self)@),
            match outcome {
                Ok(()) => link_position(old(self)@, token@).is_none() && old(self)@.len()
                    < i32::MAX && final(self)@ == old(self)@.push(
                    new_link(old(self)@, email@, token@, now as int),
                ),
                Err(e) => final(self)@ == old(self)@ && e == (if link_position(
                    old(self)@,
                    token@,
                ).is_some() {
                    LinkError::Conflict
                } else {
                    LinkError::PersistenceError
                }) && (e == LinkError::PersistenceError ==> old(self)@.len() >= i32::MAX),
            },
    {
        if self.position(token).is_some() {
            return Err(LinkError::Conflict);
        }
        if self.rows.len() >= i32::MAX as usize {
            return Err(LinkError::PersistenceError);
        }
        let link = TelegramLink {
            id: (self.rows.len() + 1) as i32,
            email: email.to_owned(),
            token: token.to_owned(),
            chat_id: None,
            confirmed: false,
            created_at: Some(now),
            confirmed_at: None,
        };
        let mut rows: Vec<TelegramLink> = Vec::new();
        core::mem::swap(&mut self.rows, &mut rows);
        let ghost before = rows@.map_values(|l: TelegramLink| l@);
        rows.push(link);
        proof {
            let after = rows@.map_values(|l: TelegramLink| l@);
            assert(after =~= before.push(new_link(before, email@, token@, now as int)));
            assert forall|i: int, j: int|
                #![trigger after[i], after[j]]
                0 <= i < after.len() && 0 <= j < after.len() && after[i].token
                    == after[j].token implies i == j by {
                if i < before.len() && j < before.len() {
                    assert(before[i].token == before[j].token);
                } else if i < before.len() {
                    assert(has_token(before, token@, i));
                } else if j < before.len() {
                    assert(has_token(before, token@, j));
                }
            }
        }
        self.rows = rows;
        Ok(())
    }

    /// Confirms the pending link with `token` for the channel `chat_id` at
    /// `now`, and says how many links that changed: one or none.
    pub fn confirm(&mut self, token: &str, chat_id: i64, now: i64) -> (changed: u64)
        ensures
            links_wf(old(self)@),
            links_wf(final(self)@),
            final(self)@ == links_confirmed(old(self)@, token@, chat_id as int, now as int),
            changed == (if pending_link(old(self)@, token@).is_some() {
                1u64
            } else {
                0u64
            }),
    {
        match self.position(token) {
            Some(i) => {
                if self.rows[i].confirmed {
                    0
                } else {
                    let mut rows: Vec<TelegramLink> = Vec::new();
                    core::mem::swap(&mut self.rows, &mut rows);
                    let ghost before = rows@.map_values(|l: TelegramLink| l@);
                    let link = TelegramLink {
                        id: rows[i].id,
                        email: rows[i].email.clone(),
                        token: rows[i].token.clone(),
                        chat_id: Some(chat_id),
                        confirmed: true,
                        created_at: rows[i].created_at,
                        confirmed_at: Some(now),
                    };
                    rows[i] = link;
                    proof {
                        let after = rows@.map_values(|l: TelegramLink| l@);
                        assert(after =~= before.update(
                            i as int,
                            confirmed_link(before[i as int], chat_id as int, now as int),
                        ));
                        assert forall|a: int, b: int|
                            #![trigger after[a], after[b]]
                            0 <= a < after.len() && 0 <= b < after.len() && after[a].token
                                == after[b].token implies a == b by {
                            assert(before[a].token == before[b].token);
                        }
                    }
                    self.rows = rows;
                    1
                }
            },
            None => 0,
        }
    }
}

/// The address under which the messaging client opens a link token.
pub const SHARE_LINK_BASE: &'static str = "https://web.telegram.org/k/#@e_signature_bot?start=";

/// A created link: its token and the address to share.
pub struct LinkCreated {
    pub token: String,
    pub link: String,
}

/// A created link as a value.
pub struct LinkCreatedView {
    pub token: Seq<char>,
    pub link: Seq<char>,
}

impl View for LinkCreated {
    type V = LinkCreatedView;

    open spec fn view(&self) -> LinkCreatedView {
        LinkCreatedView { token: self.token@, link: self.link@ }
    }
}

/// What a confirmed link is exchanged for.
pub struct SessionBundle {
    pub session_token: String,
    pub otp_code: String,
    pub otp_expiry: String,
}

/// A session bundle as a value.
pub struct SessionBundleView {
    pub session_token: Seq<char>,
    pub otp_code: Seq<char>,
    pub otp_expiry: Seq<char>,
}

impl View for SessionBundle {
    type V = SessionBundleView;

    open spec fn view(&self) -> SessionBundleView {
        SessionBundleView {
            session_token: self.session_token@,
            otp_code: self.otp_code@,
            otp_expiry: self.otp_expiry@,
        }
    }
}

/// The outcome of an operation, with its value as a view.
pub open spec fn outcome_view<T: View>(outcome: Result<T, LinkError>) -> Result<T::V, LinkError> {
    match outcome {
        Ok(value) => Ok(value@),
        Err(e) => Err(e),
    }
}

/// The records and the outcome after a link was requested for `email` with
/// the token `token` at `now`.
pub open spec fn link_creation(
    s: AppStateView,
    email: Option<Seq<char>>,
    token: Seq<char>,
    now: int,
) -> (AppStateView, Result<LinkCreatedView, LinkError>) {
    match email {
        None => (s, Err(LinkError::MissingField)),
        Some(email) => if link_position(s.telegram_links, token).is_some() {
            (s, Err(LinkError::Conflict))
        } else if s.telegram_links.len() >= i32::MAX {
            (s, Err(LinkError::PersistenceError))
        } else {
            (
                AppStateView {
                    telegram_links: s.telegram_links.push(
                        new_link(s.telegram_links, email, token, now),
                    ),
                    ..s
                },
                Ok(LinkCreatedView { token, link: SHARE_LINK_BASE@ + token }),
            )
        },
    }
}

/// The email that a link request names.
pub open spec fn requested_email(payload: serde_json::Value) -> Option<Seq<char>> {
    if json_texts(payload).dom().contains("email"@) {
        Some(json_texts(payload)["email"@])
    } else {
        None
    }
}

/// Records a link for the email that `payload` names, under `token`, as of
/// the instant `now`.
pub fn create_link_with(
    data: &mut AppState,
    payload: &serde_json::Value,
    token: &str,
    now: i64,
) -> (outcome: Result<LinkCreated, LinkError>)
    ensures
        (final(data)@, outcome_view(outcome)) == link_creation(
            old(data)@,
            requested_email(*payload),
            token@,
            now as int,
        ),
        links_wf(old(data).telegram_links@),
        links_wf(final(data).telegram_links@),
{
    let _ = data.telegram_links.len();
    let email = match text_member(payload, "email") {
        Some(email) => email,
        None => {
            return Err(LinkError::MissingField);
        },
    };
    match data.telegram_links.insert(email.as_str(), token, now) {
        Ok(()) => Ok(LinkCreated { token: token.to_owned(), link: join(SHARE_LINK_BASE, token) }),
        Err(e) => Err(e),
    }
}

/// What the creation of a link under `token` at some instant reports and
/// leaves on record.
pub open spec fn link_creation_at(
    before: AppStateView,
    email: Option<Seq<char>>,
    token: Seq<char>,
    now: int,
    outcome: Result<LinkCreatedView, LinkError>,
    after: AppStateView,
) -> bool {
    valid_timestamp(now) && (after, outcome) == link_creation(before, email, token, now)
}

/// Creates a link for the email that `payload` names, with a fresh random
/// token, at the current time. Fails with `MissingField` exactly when the
/// payload names no email; otherwise only a clock outside the instants the
/// service handles, a token that is taken or a full store keep the link from
/// being recorded. A failure leaves every record as it was.
pub fn create_link(data: &mut AppState, payload: &serde_json::Value) -> (outcome: Result<
    LinkCreated,
    LinkError,
>)
    ensures
        outcome == Err::<LinkCreated, LinkError>(LinkError::MissingField) <==> requested_email(
            *payload,
        ).is_none(),
        match outcome {
            Ok(created) => is_uuid_text(created.token@) && exists|now: int| #[trigger]
                link_creation_at(
                    old(data)@,
                    requested_email(*payload),
                    created.token@,
                    now,
                    outcome_view(outcome),
                    final(data)@,
                ),
            Err(_) => final(data)@ == old(data)@,
        },
{
    if text_member(payload, "email").is_none() {
        return Err(LinkError::MissingField);
    }
    let now = match current_time() {
        Some(now) => now,
        None => {
            return Err(LinkError::PersistenceError);
        },
    };
    let token = fresh_uuid();
    let outcome = create_link_with(data, payload, token.as_str(), now);
    proof {
        if outcome.is_ok() {
            assert(link_creation_at(
                old(data)@,
                requested_email(*payload),
                token@,
                now as int,
                outcome_view(outcome),
                data@,
            ));
        }
    }
    outcome
}

/// The records and the outcome after the channel `chat_id` confirmed
/// `token` at `now`, with `n` as the number drawn for the passcode. The
/// steps run in order and a failed step keeps the later ones from running:
/// the pending link is confirmed, the account that owns its email is looked
/// up, a session token is issued for the account's number, and a passcode is
/// issued for its email.
pub open spec fn confirmation(
    s: AppStateView,
    token: Seq<char>,
    chat_id: int,
    secret: Seq<char>,
    now: int,
    n: nat,
) -> (AppStateView, Result<SessionBundleView, LinkError>) {
    match pending_link(s.telegram_links, token) {
        None => (s, Err(LinkError::UnknownOrAlreadyConfirmed)),
        Some(link) => {
            let linked = AppStateView {
                telegram_links: links_confirmed(s.telegram_links, token, chat_id, now),
                ..s
            };
            match active_account(s.users, link.email) {
                None => (linked, Err(LinkError::AccountNotFound)),
                Some(user) => match issued_token(signed_decimal(user.user_id), secret, now) {
                    Err(e) => (linked, Err(LinkError::Session(e))),
                    Ok(session_token) => if now > MAX_TIMESTAMP - OTP_TTL {
                        (linked, Err(LinkError::OtpUnavailable))
                    } else {
                        (
                            AppStateView {
                                otp_codes: issued(s.otp_codes, user.email, decimal(n), now),
                                ..linked
                            },
                            Ok(
                                SessionBundleView {
                                    session_token,
                                    otp_code: decimal(n),
                                    otp_expiry: rfc3339_utc(now + OTP_TTL),
                                },
                            ),
                        )
                    },
                },
            }
        },
    }
}

/// What a confirmation writes and reports, decided from the rows it
/// found.
pub struct ConfirmationPlan {
    /// Whether the link is to be marked as confirmed.
    pub mark: bool,
    /// The instant of the confirmation.
    pub confirmed_at: i64,
    /// The passcode to record in place of the one its email had, if one
    /// is issued.
    pub passcode: Option<OtpCode>,
    /// What the confirmation reports.
    pub outcome: Result<SessionBundle, LinkError>,
}

/// A plan as a value.
pub struct ConfirmationPlanView {
    pub mark: bool,
    pub confirmed_at: int,
    pub passcode: Option<(Seq<char>, OtpEntry)>,
    pub outcome: Result<SessionBundleView, LinkError>,
}

impl View for ConfirmationPlan {
    type V = ConfirmationPlanView;

    open spec fn view(&self) -> ConfirmationPlanView {
        ConfirmationPlanView {
            mark: self.mark,
            confirmed_at: self.confirmed_at as int,
            passcode: match self.passcode {
                Some(row) => Some((row.email@, row.entry())),
                None => None,
            },
            outcome: outcome_view(self.outcome),
        }
    }
}

/// The plan of a confirmation at `now`, given the pending link that was
/// found for the token and the account that was found for the link's email,
/// with `n` as the number drawn for the passcode. Without a pending link
/// nothing is written. With one, the link is marked as confirmed whatever
/// follows; a session token and a passcode are issued only for an account
/// that is on record, and the passcode only after the session token.
pub open spec fn planned_confirmation(
    link: Option<LinkView>,
    account: Option<UserView>,
    secret: Seq<char>,
    now: int,
    n: nat,
) -> ConfirmationPlanView {
    let refused = |mark: bool, error: LinkError|
        ConfirmationPlanView { mark, confirmed_at: now, passcode: None, outcome: Err(error) };
    match link {
        None => refused(false, LinkError::UnknownOrAlreadyConfirmed),
        Some(_) => match account {
            None => refused(true, LinkError::AccountNotFound),
            Some(user) => match issued_token(signed_decimal(user.user_id), secret, now) {
                Err(e) => refused(true, LinkError::Session(e)),
                Ok(session_token) => if now > MAX_TIMESTAMP - OTP_TTL {
                    refused(true, LinkError::OtpUnavailable)
                } else {
                    ConfirmationPlanView {
                        mark: true,
                        confirmed_at: now,
                        passcode: Some(
                            (
                                user.email,
                                OtpEntry { code: decimal(n), expires_at: now + OTP_TTL, used: false },
                            ),
                        ),
                        outcome: Ok(
                            SessionBundleView {
                                session_token,
                                otp_code: decimal(n),
                                otp_expiry: rfc3339_utc(now + OTP_TTL),
                            },
                        ),
                    }
                },
            },
        },
    }
}

/// The account that a confirmation of `token` looks up: the one on record
/// with the email of the pending link.
pub open spec fn linked_account(s: AppStateView, token: Seq<char>) -> Option<UserView> {
    match pending_link(s.telegram_links, token) {
        Some(link) => active_account(s.users, link.email),
        None => None,
    }
}

/// The records after the writes of `plan` were made for `token` and
/// `chat_id`: the link is marked where the plan says so, and the passcode
/// recorded where the plan has one.
pub open spec fn plan_applied(
    s: AppStateView,
    token: Seq<char>,
    chat_id: int,
    plan: ConfirmationPlanView,
) -> AppStateView {
    AppStateView {
        telegram_links: if plan.mark {
            links_confirmed(s.telegram_links, token, chat_id, plan.confirmed_at)
        } else {
            s.telegram_links
        },
        otp_codes: match plan.passcode {
            Some((email, entry)) => s.otp_codes.insert(email, entry),
            None => s.otp_codes,
        },
        ..s
    }
}

/// A confirmation is its plan carried out: it reports what the plan for
/// the rows on record reports, and leaves on record what the plan's writes
/// leave.
pub proof fn law_confirmation_follows_plan(
    s: AppStateView,
    token: Seq<char>,
    chat_id: int,
    secret: Seq<char>,
    now: int,
    n: nat,
)
    ensures
        ({
            let plan = planned_confirmation(
                pending_link(s.telegram_links, token),
                linked_account(s, token),
                secret,
                now,
                n,
            );
            confirmation(s, token, chat_id, secret, now, n) == (
                plan_applied(s, token, chat_id, plan),
                plan.outcome,
            )
        }),
{
    let plan = planned_confirmation(
        pending_link(s.telegram_links, token),
        linked_account(s, token),
        secret,
        now,
        n,
    );
    let applied = plan_applied(s, token, chat_id, plan);
    let expected = confirmation(s, token, chat_id, secret, now, n).0;
    assert(applied.telegram_links == expected.telegram_links);
    assert(applied.otp_codes == expected.otp_codes);
}

/// A link that was looked up, as a value.
pub open spec fn found_link(link: Option<TelegramLink>) -> Option<LinkView> {
    match link {
        Some(l) => Some(l@),
        None => None,
    }
}

/// An account that was looked up, as a value.
pub open spec fn found_account(account: Option<User>) -> Option<UserView> {
    match account {
        Some(u) => Some(u@),
        None => None,
    }
}

/// Plans a confirmation at `now` from the rows that were found, with `n`
/// as the number drawn for the passcode.
pub fn plan_confirmation(
    link: &Option<TelegramLink>,
    account: &Option<User>,
    secret: &str,
    now: i64,
    n: u32,
) -> (plan: ConfirmationPlan)
    requires
        valid_timestamp(now as int),
    ensures
        plan@ == planned_confirmation(
            found_link(*link),
            found_account(*account),
            secret@,
            now as int,
            n as nat,
        ),
{
    if link.is_none() {
        return ConfirmationPlan {
            mark: false,
            confirmed_at: now,
            passcode: None,
            outcome: Err(LinkError::UnknownOrAlreadyConfirmed),
        };
    }
    let user = match account {
        Some(user) => user,
        None => {
            return ConfirmationPlan {
                mark: true,
                confirmed_at: now,
                passcode: None,
                outcome: Err(LinkError::AccountNotFound),
            };
        },
    };
    let subject = i64_to_string(user.user_id);
    let session_token = match create_jwt_at(subject.as_str(), secret, now) {
        Ok(token) => token,
        Err(e) => {
            return ConfirmationPlan {
                mark: true,
                confirmed_at: now,
                passcode: None,
                outcome: Err(LinkError::Session(e)),
            };
        },
    };
    if now > MAX_TIMESTAMP - OTP_TTL {
        return ConfirmationPlan {
            mark: true,
            confirmed_at: now,
            passcode: None,
            outcome: Err(LinkError::OtpUnavailable),
        };
    }
    let code = u64_to_string(n as u64);
    let expires_at: i64 = now + OTP_TTL;
    ConfirmationPlan {
        mark: true,
        confirmed_at: now,
        passcode: Some(
            OtpCode { email: user.email.clone(), code: code.clone(), expires_at, used: false },
        ),
        outcome: Ok(
            SessionBundle {
                session_token,
                otp_code: code,
                otp_expiry: format_rfc3339(expires_at),
            },
        ),
    }
}

/// What the plan of a confirmation at some instant, with some number
/// drawn for the passcode, is.
pub open spec fn planned_at(
    link: Option<LinkView>,
    account: Option<UserView>,
    secret: Seq<char>,
    now: int,
    n: nat,
    plan: ConfirmationPlanView,
) -> bool {
    &&& valid_timestamp(now)
    &&& OTP_MIN <= n < OTP_BOUND
    &&& plan == planned_confirmation(link, account, secret, now, n)
}

/// Plans a confirmation from the rows that were found, at the current
/// time and with a number drawn at random for the passcode. There is no plan
/// when the clock lies outside the instants the service handles.
pub fn plan_confirmation_now(link: &Option<TelegramLink>, account: &Option<User>, secret: &str) -> (plan:
    Option<ConfirmationPlan>)
    ensures
        plan matches Some(p) ==> exists|now: int, n: nat| #[trigger]
            planned_at(
                found_link(*link),
                found_account(*account),
                secret@,
                now,
                n,
                p@,
            ),
{
    match current_time() {
        Some(now) => {
            let n = random_in(OTP_MIN, OTP_BOUND);
            let plan = plan_confirmation(link, account, secret, now, n);
            assert(planned_at(
                found_link(*link),
                found_account(*account),
                secret@,
                now as int,
                n as nat,
                plan@,
            ));
            Some(plan)
        },
        None => None,
    }
}

/// Confirms a link as of the instant `now`, with `n` as the number drawn
/// for the passcode: the plan for the rows on record is made and carried
/// out.
pub fn confirm_link_at(
    data: &mut AppState,
    payload: &ConfirmTelegramRequest,
    secret: &str,
    now: i64,
    n: u32,
) -> (outcome: Result<SessionBundle, LinkError>)
    requires
        valid_timestamp(now as int),
    ensures
        (final(data)@, outcome_view(outcome)) == confirmation(
            old(data)@,
            payload.token@,
            payload.chat_id as int,
            secret@,
            now as int,
            n as nat,
        ),
{
    let link = data.telegram_links.find_pending(payload.token.as_str());
    let account = match &link {
        Some(found) => data.users.find_by_email(found.email.as_str()),
        None => None,
    };
    proof {
        law_confirmation_follows_plan(
            data@,
            payload.token@,
            payload.chat_id as int,
            secret@,
            now as int,
            n as nat,
        );
    }
    let ConfirmationPlan { mark, confirmed_at, passcode, outcome } = plan_confirmation(
        &link,
        &account,
        secret,
        now,
        n,
    );
    if mark {
        let _ = data.telegram_links.confirm(payload.token.as_str(), payload.chat_id, confirmed_at);
    }
    match passcode {
        Some(row) => {
            data.otp_codes.upsert(row.email.as_str(), row.code.as_str(), row.expires_at);
        },
        None => {},
    }
    outcome
}

/// What a confirmation of `token` at some instant, with some number drawn
/// for the passcode, reports and leaves on record.
pub open spec fn confirmation_at(
    before: AppStateView,
    token: Seq<char>,
    chat_id: int,
    secret: Seq<char>,
    now: int,
    n: nat,
    outcome: Result<SessionBundleView, LinkError>,
    after: AppStateView,
) -> bool {
    &&& valid_timestamp(now)
    &&& OTP_MIN <= n < OTP_BOUND
    &&& (after, outcome) == confirmation(before, token, chat_id, secret, now, n)
}

/// Confirms the link token of `payload` for its channel and exchanges it
/// for a session token and a passcode. A token that is unknown or already
/// confirmed fails with `UnknownOrAlreadyConfirmed` and changes nothing; so
/// does, with `PersistenceError`, a clock outside the instants the service
/// handles. Otherwise the steps of `confirmation` run at the current time.
pub fn confirm_link(data: &mut AppState, payload: &ConfirmTelegramRequest, secret: &str) -> (outcome:
    Result<SessionBundle, LinkError>)
    ensures
        pending_link(old(data).telegram_links@, payload.token@).is_none() ==> outcome == Err::<
            SessionBundle,
            LinkError,
        >(LinkError::UnknownOrAlreadyConfirmed) && final(data)@ == old(data)@,
        pending_link(old(data).telegram_links@, payload.token@).is_some() ==> (exists|
            now: int,
            n: nat,
        | #[trigger]
            confirmation_at(
                old(data)@,
                payload.token@,
                payload.chat_id as int,
                secret@,
                now,
                n,
                outcome_view(outcome),
                final(data)@,
            )) || (outcome == Err::<SessionBundle, LinkError>(LinkError::PersistenceError)
            && final(data)@ == old(data)@),
{
    if data.telegram_links.find_pending(payload.token.as_str()).is_none() {
        return Err(LinkError::UnknownOrAlreadyConfirmed);
    }
    match current_time() {
        Some(now) => {
            let n = random_in(OTP_MIN, OTP_BOUND);
            let outcome = confirm_link_at(data, payload, secret, now, n);
            assert(confirmation_at(
                old(data)@,
                payload.token@,
                payload.chat_id as int,
                secret@,
                now as int,
                n as nat,
                outcome_view(outcome),
                data@,
            ));
            outcome
        },
        None => Err(LinkError::PersistenceError),
    }
}

/// The link with `token` is confirmed at most once: whatever the outcome
/// of a confirmation that found the link pending, no link with that token is
/// pending afterwards.
pub proof fn lemma_confirmation_settles(
    s: AppStateView,
    token: Seq<char>,
    chat_id: int,
    secret: Seq<char>,
    now: int,
    n: nat,
)
    requires
        links_wf(s.telegram_links),
    ensures
        links_wf(confirmation(s, token, chat_id, secret, now, n).0.telegram_links),
        pending_link(
            confirmation(s, token, chat_id, secret, now, n).0.telegram_links,
            token,
        ).is_none(),
{
    let rows = s.telegram_links;
    let after = confirmation(s, token, chat_id, secret, now, n).0.telegram_links;
    match link_position(rows, token) {
        Some(i) => {
            if !rows[i].confirmed {
                assert(after == rows.update(i, confirmed_link(rows[i], chat_id, now)));
                assert forall|a: int, b: int|
                    #![trigger after[a], after[b]]
                    0 <= a < after.len() && 0 <= b < after.len() && after[a].token
                        == after[b].token implies a == b by {
                    assert(rows[a].token == rows[b].token);
                }
                assert(after[i].token == token);
                lemma_position(after, i);
            } else {
                assert(after == rows);
            }
        },
        None => {
            assert(after == rows);
        },
    }
}

/// Confirming a token that is unknown or already confirmed fails, issues
/// no session token and no passcode, and leaves every record as it was. In
/// particular a second confirmation of a token fails, whatever the first one
/// returned.
pub proof fn law_confirm_once(
    s: AppStateView,
    token: Seq<char>,
    chat_id: int,
    secret: Seq<char>,
    now: int,
    n: nat,
    again_chat: int,
    again_at: int,
    again_n: nat,
)
    requires
        links_wf(s.telegram_links),
    ensures
        pending_link(s.telegram_links, token).is_none() ==> confirmation(
            s,
            token,
            chat_id,
            secret,
            now,
            n,
        ) == (s, Err::<SessionBundleView, LinkError>(LinkError::UnknownOrAlreadyConfirmed)),
        ({
            let first = confirmation(s, token, chat_id, secret, now, n);
            confirmation(first.0, token, again_chat, secret, again_at, again_n) == (
                first.0,
                Err::<SessionBundleView, LinkError>(LinkError::UnknownOrAlreadyConfirmed),
            )
        }),
{
    lemma_confirmation_settles(s, token, chat_id, secret, now, n);
}

/// Confirmation is final: a link that is confirmed stays as it is under
/// every later confirmation and every later creation of a link, whatever
/// their tokens.
pub proof fn law_confirmed_is_final(
    s: AppStateView,
    i: int,
    token: Seq<char>,
    chat_id: int,
    secret: Seq<char>,
    now: int,
    n: nat,
    email: Option<Seq<char>>,
)
    requires
        links_wf(s.telegram_links),
        0 <= i < s.telegram_links.len(),
        s.telegram_links[i].confirmed,
    ensures
        confirmation(s, token, chat_id, secret, now, n).0.telegram_links[i] == s.telegram_links[i],
        link_creation(s, email, token, now).0.telegram_links[i] == s.telegram_links[i],
{
    lemma_position(s.telegram_links, i);
}

} // verus!

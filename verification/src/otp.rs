//! One-time passcodes: issued per email, valid for five minutes, spent by
//! the first successful verification.

use vstd::prelude::*;
use crate::chance::random_in;
use crate::clock::{current_time, format_rfc3339, rfc3339_utc, valid_timestamp, MAX_TIMESTAMP};
use crate::state::{AppState, AppStateView};
use crate::text::{decimal, lemma_six_digits, text_eq, u64_to_string};

verus! {

/// Seconds for which a passcode stays valid.
pub const OTP_TTL: i64 = 300;

/// A request for a fresh passcode.
pub struct OtpRequest {
    pub email: String,
}

/// The passcode handed back to the requester, with the RFC 3339 text of
/// the instant it stops being valid.
pub struct OtpResponse {
    pub otp: String,
    pub expires_at: String,
}

/// A passcode submitted for verification.
pub struct VerifyRequest {
    pub email: String,
    pub code: String,
}

/// A stored passcode.
pub struct OtpCode {
    pub email: String,
    pub code: String,
    pub expires_at: i64,
    pub used: bool,
}

/// What the store holds for one email.
pub struct OtpEntry {
    pub code: Seq<char>,
    pub expires_at: int,
    pub used: bool,
}

impl OtpCode {
    /// The stored passcode without its key.
    pub open spec fn entry(self) -> OtpEntry {
        OtpEntry { code: self.code@, expires_at: self.expires_at as int, used: self.used }
    }
}

/// What is on record for `email`, if anything.
pub open spec fn lookup(codes: Map<Seq<char>, OtpEntry>, email: Seq<char>) -> Option<OtpEntry> {
    if codes.dom().contains(email) {
        Some(codes[email])
    } else {
        None
    }
}

/// Whether `email` has a passcode on record that has not been used.
pub open spec fn spendable(codes: Map<Seq<char>, OtpEntry>, email: Seq<char>) -> bool {
    codes.dom().contains(email) && !codes[email].used
}

/// The record after the passcode of `email` has been spent: an unused
/// passcode becomes used, and nothing else changes.
pub open spec fn spent(codes: Map<Seq<char>, OtpEntry>, email: Seq<char>) -> Map<
    Seq<char>,
    OtpEntry,
> {
    if spendable(codes, email) {
        codes.insert(
            email,
            OtpEntry { code: codes[email].code, expires_at: codes[email].expires_at, used: true },
        )
    } else {
        codes
    }
}

/// The passcodes on record, at most one per email.
pub struct OtpTable {
    rows: Vec<OtpCode>,
}

/// Whether a row holds `email`.
spec fn has_email(rows: Seq<OtpCode>, email: Seq<char>) -> bool {
    exists|i: int| 0 <= i < rows.len() && #[trigger] rows[i].email@ == email
}

/// The position of a row that holds `email`.
spec fn row_of(rows: Seq<OtpCode>, email: Seq<char>) -> int {
    choose|i: int| 0 <= i < rows.len() && #[trigger] rows[i].email@ == email
}

/// No two rows hold the same email.
spec fn distinct_emails(rows: Seq<OtpCode>) -> bool {
    forall|i: int, j: int|
        0 <= i < rows.len() && 0 <= j < rows.len() && #[trigger] rows[i].email@ == #[trigger] rows[j].email@
            ==> i == j
}

/// The rows as a map from emails to passcodes.
spec fn model(rows: Seq<OtpCode>) -> Map<Seq<char>, OtpEntry> {
    Map::new(
        |email: Seq<char>| has_email(rows, email),
        |email: Seq<char>| rows[row_of(rows, email)].entry(),
    )
}

/// Among distinct emails, the row of an email is the one that holds it.
proof fn lemma_lookup(rows: Seq<OtpCode>, i: int)
    requires
        distinct_emails(rows),
        0 <= i < rows.len(),
    ensures
        has_email(rows, rows[i].email@),
        row_of(rows, rows[i].email@) == i,
        model(rows).dom().contains(rows[i].email@),
        model(rows)[rows[i].email@] == rows[i].entry(),
{
    assert(rows[i].email@ == rows[i].email@);
}

/// Appending a row with a new email inserts it into the map.
proof fn lemma_push(rows: Seq<OtpCode>, fresh: OtpCode)
    requires
        distinct_emails(rows),
        !has_email(rows, fresh.email@),
    ensures
        distinct_emails(rows.push(fresh)),
        model(rows.push(fresh)) == model(rows).insert(fresh.email@, fresh.entry()),
{
    let grown = rows.push(fresh);
    let last = rows.len() as int;
    assert forall|i: int, j: int|
        0 <= i < grown.len() && 0 <= j < grown.len() && #[trigger] grown[i].email@
            == #[trigger] grown[j].email@ implies i == j by {
        if i < last && j < last {
            assert(rows[i].email@ == rows[j].email@);
        } else if i < last {
            assert(rows[i].email@ == fresh.email@);
        } else if j < last {
            assert(rows[j].email@ == fresh.email@);
        }
    }
    assert(grown[last].email@ == fresh.email@);
    assert forall|email: Seq<char>| has_email(grown, email) <==> (has_email(rows, email) || email
        == fresh.email@) by {
        if has_email(grown, email) {
            let k = row_of(grown, email);
            if k < last {
                assert(rows[k].email@ == email);
            }
        }
        if has_email(rows, email) {
            let k = row_of(rows, email);
            assert(grown[k].email@ == email);
        }
    }
    assert forall|email: Seq<char>| has_email(grown, email) implies #[trigger] model(grown)[email]
        == model(rows).insert(fresh.email@, fresh.entry())[email] by {
        let k = row_of(grown, email);
        lemma_lookup(grown, k);
        if k < last {
            assert(rows[k].email@ == email);
            lemma_lookup(rows, k);
        }
    }
    assert(model(grown) =~= model(rows).insert(fresh.email@, fresh.entry()));
}

/// Replacing a row by one with the same email overwrites it in the map.
proof fn lemma_update(rows: Seq<OtpCode>, at: int, fresh: OtpCode)
    requires
        distinct_emails(rows),
        0 <= at < rows.len(),
        rows[at].email@ == fresh.email@,
    ensures
        distinct_emails(rows.update(at, fresh)),
        model(rows.update(at, fresh)) == model(rows).insert(fresh.email@, fresh.entry()),
{
    let changed = rows.update(at, fresh);
    assert forall|i: int| 0 <= i < rows.len() implies #[trigger] changed[i].email@
        == rows[i].email@ by {}
    assert forall|i: int, j: int|
        0 <= i < changed.len() && 0 <= j < changed.len() && #[trigger] changed[i].email@
            == #[trigger] changed[j].email@ implies i == j by {
        assert(rows[i].email@ == rows[j].email@);
    }
    assert forall|email: Seq<char>| has_email(changed, email) <==> has_email(rows, email) by {
        if has_email(changed, email) {
            let k = row_of(changed, email);
            assert(rows[k].email@ == email);
        }
        if has_email(rows, email) {
            let k = row_of(rows, email);
            assert(changed[k].email@ == email);
        }
    }
    lemma_lookup(rows, at);
    assert forall|email: Seq<char>| has_email(changed, email) implies #[trigger] model(
        changed,
    )[email] == model(rows).insert(fresh.email@, fresh.entry())[email] by {
        let k = row_of(changed, email);
        lemma_lookup(changed, k);
        assert(rows[k].email@ == email);
        lemma_lookup(rows, k);
    }
    assert(model(changed) =~= model(rows).insert(fresh.email@, fresh.entry()));
}

impl OtpTable {
    #[verifier::type_invariant]
    spec fn distinct(&self) -> bool {
        distinct_emails(self.rows@)
    }

    /// The passcode on record for each email that has one.
    pub closed spec fn view(&self) -> Map<Seq<char>, OtpEntry> {
        model(self.rows@)
    }

    /// A table without passcodes.
    pub fn new() -> (table: OtpTable)
        ensures
            table@ == Map::<Seq<char>, OtpEntry>::empty(),
    {
        let table = OtpTable { rows: Vec::new() };
        assert(table@ =~= Map::<Seq<char>, OtpEntry>::empty());
        table
    }

    fn position(&self, email: &str) -> (at: Option<usize>)
        ensures
            match at {
                Some(i) => i < self.rows.len() && self.rows[i as int].email@ == email@,
                None => !has_email(self.rows@, email@),
            },
    {
        let mut i: usize = 0;
        while i < self.rows.len()
            invariant
                i <= self.rows.len(),
                forall|j: int| 0 <= j < i ==> self.rows[j].email@ != email@,
            decreases self.rows.len() - i,
        {
            if text_eq(self.rows[i].email.as_str(), email) {
                return Some(i);
            }
            i += 1;
        }
        None
    }

    /// Records `code` for `email`, replacing what was on record for it.
    pub fn upsert(&mut self, email: &str, code: &str, expires_at: i64)
        ensures
            final(self)@ == old(self)@.insert(
                email@,
                OtpEntry { code: code@, expires_at: expires_at as int, used: false },
            ),
    {
        proof {
            use_type_invariant(&*self);
        }
        let fresh = OtpCode { email: email.to_owned(), code: code.to_owned(), expires_at, used: false };
        let at = self.position(email);
        let mut rows: Vec<OtpCode> = Vec::new();
        core::mem::swap(&mut self.rows, &mut rows);
        match at {
            Some(i) => {
                proof {
                    lemma_update(rows@, i as int, fresh);
                }
                rows[i] = fresh;
            },
            None => {
                proof {
                    lemma_push(rows@, fresh);
                }
                rows.push(fresh);
            },
        }
        self.rows = rows;
    }

    /// The passcode on record for `email`, if there is one.
    pub fn find(&self, email: &str) -> (found: Option<OtpCode>)
        ensures
            match found {
                Some(row) => row.email@ == email@ && lookup(self@, email@) == Some(row.entry()),
                None => lookup(self@, email@).is_none(),
            },
    {
        proof {
            use_type_invariant(self);
        }
        match self.position(email) {
            Some(i) => {
                proof {
                    lemma_lookup(self.rows@, i as int);
                }
                let row = &self.rows[i];
                Some(
                    OtpCode {
                        email: row.email.clone(),
                        code: row.code.clone(),
                        expires_at: row.expires_at,
                        used: row.used,
                    },
                )
            },
            None => None,
        }
    }

    /// Marks the passcode of `email` as used if it is on record and still
    /// unused, and says how many passcodes that changed: one or none.
    pub fn mark_used(&mut self, email: &str) -> (changed: u64)
        ensures
            final(self)@ == spent(old(self)@, email@),
            changed == (if spendable(old(self)@, email@) { 1u64 } else { 0u64 }),
    {
        proof {
            use_type_invariant(&*self);
        }
        match self.position(email) {
            Some(i) => {
                proof {
                    lemma_lookup(self.rows@, i as int);
                }
                if self.rows[i].used {
                    0
                } else {
                    let mut rows: Vec<OtpCode> = Vec::new();
                    core::mem::swap(&mut self.rows, &mut rows);
                    let fresh = OtpCode {
                        email: rows[i].email.clone(),
                        code: rows[i].code.clone(),
                        expires_at: rows[i].expires_at,
                        used: true,
                    };
                    proof {
                        lemma_update(rows@, i as int, fresh);
                    }
                    rows[i] = fresh;
                    self.rows = rows;
                    1
                }
            },
            None => 0,
        }
    }
}

/// Why a submitted passcode was turned down.
#[derive(Clone, Copy, Debug, PartialEq, Eq, Structural)]
pub enum OtpError {
    /// The code differs from the one on record.
    InvalidCode,
    /// The passcode was submitted after its expiry.
    Expired,
    /// The passcode has been spent by an earlier verification.
    AlreadyUsed,
    /// No passcode is on record for the email.
    NotFound,
}

impl OtpError {
    /// The failure as shown to the requester: a missing passcode is not
    /// told apart from a wrong code.
    pub open spec fn surfaced_spec(self) -> OtpError {
        match self {
            OtpError::NotFound => OtpError::InvalidCode,
            other => other,
        }
    }

    /// Hides whether a passcode was on record at all.
    pub fn surfaced(self) -> (shown: OtpError)
        ensures
            shown == self.surfaced_spec(),
            shown != OtpError::NotFound,
    {
        match self {
            OtpError::NotFound => OtpError::InvalidCode,
            OtpError::InvalidCode => OtpError::InvalidCode,
            OtpError::Expired => OtpError::Expired,
            OtpError::AlreadyUsed => OtpError::AlreadyUsed,
        }
    }

    /// The text of the message for this failure.
    pub open spec fn message_text(self) -> Seq<char> {
        match self.surfaced_spec() {
            OtpError::AlreadyUsed => "Código já utilizado"@,
            OtpError::Expired => "Código expirado"@,
            _ => "Código inválido"@,
        }
    }

    /// The message sent back for this failure.
    pub fn message(self) -> (text: String)
        ensures
            text@ == self.message_text(),
    {
        match self {
            OtpError::AlreadyUsed => "Código já utilizado".to_owned(),
            OtpError::Expired => "Código expirado".to_owned(),
            OtpError::InvalidCode => "Código inválido".to_owned(),
            OtpError::NotFound => "Código inválido".to_owned(),
        }
    }
}

/// The judgement on `code` submitted at `now` against what is on record:
/// a missing record, a spent passcode, an expired one and a wrong code are
/// turned down, in that order.
pub open spec fn verdict(entry: Option<OtpEntry>, code: Seq<char>, now: int) -> Result<
    (),
    OtpError,
> {
    match entry {
        None => Err(OtpError::NotFound),
        Some(e) => if e.used {
            Err(OtpError::AlreadyUsed)
        } else if now > e.expires_at {
            Err(OtpError::Expired)
        } else if e.code != code {
            Err(OtpError::InvalidCode)
        } else {
            Ok(())
        },
    }
}

/// The record after `code` was submitted for `email` at `now`: an accepted
/// passcode is spent, a refused one leaves the record as it was.
pub open spec fn verified(
    codes: Map<Seq<char>, OtpEntry>,
    email: Seq<char>,
    code: Seq<char>,
    now: int,
) -> Map<Seq<char>, OtpEntry> {
    if verdict(lookup(codes, email), code, now).is_ok() {
        spent(codes, email)
    } else {
        codes
    }
}

/// The record after `code` was issued for `email` at `now`.
pub open spec fn issued(
    codes: Map<Seq<char>, OtpEntry>,
    email: Seq<char>,
    code: Seq<char>,
    now: int,
) -> Map<Seq<char>, OtpEntry> {
    codes.insert(email, OtpEntry { code, expires_at: now + OTP_TTL, used: false })
}

/// Judges a submitted code against the passcode read from the store.
pub fn check_code(row: &Option<OtpCode>, code: &str, now: i64) -> (outcome: Result<(), OtpError>)
    ensures
        outcome == verdict(
            match row {
                Some(r) => Some(r.entry()),
                None => None,
            },
            code@,
            now as int,
        ),
{
    match row {
        None => Err(OtpError::NotFound),
        Some(r) => {
            if r.used {
                Err(OtpError::AlreadyUsed)
            } else if now > r.expires_at {
                Err(OtpError::Expired)
            } else if !text_eq(r.code.as_str(), code) {
                Err(OtpError::InvalidCode)
            } else {
                Ok(())
            }
        },
    }
}

/// Concludes a verification from the number of passcodes that the
/// conditional update marked as used: none means that another
/// verification spent the passcode first.
pub fn conclude(changed: u64) -> (outcome: Result<(), OtpError>)
    ensures
        outcome == (if changed == 0 {
            Err::<(), OtpError>(OtpError::AlreadyUsed)
        } else {
            Ok::<(), OtpError>(())
        }),
{
    if changed == 0 {
        Err(OtpError::AlreadyUsed)
    } else {
        Ok(())
    }
}

/// Verifies `code` for `email` at the instant `now`, spending the passcode
/// when it is accepted.
pub fn verify_at(table: &mut OtpTable, email: &str, code: &str, now: i64) -> (outcome: Result<
    (),
    OtpError,
>)
    ensures
        outcome == verdict(lookup(old(table)@, email@), code@, now as int),
        final(table)@ == verified(old(table)@, email@, code@, now as int),
{
    let row = table.find(email);
    match check_code(&row, code, now) {
        Err(e) => Err(e),
        Ok(()) => {
            let changed = table.mark_used(email);
            conclude(changed)
        },
    }
}

/// The smallest passcode number.
pub const OTP_MIN: u32 = 100_000;

/// The bound below which passcode numbers are drawn; the bound itself is
/// never drawn.
pub const OTP_BOUND: u32 = 999_999;

/// A passcode as it is drawn: the numeral of a number from `OTP_MIN` up to,
/// but not including, `OTP_BOUND`.
pub open spec fn is_fresh_code(code: Seq<char>) -> bool {
    exists|n: nat| OTP_MIN <= n < OTP_BOUND && code == #[trigger] decimal(n)
}

/// A fresh passcode has six characters.
pub proof fn law_fresh_code_has_six_digits(code: Seq<char>)
    requires
        is_fresh_code(code),
    ensures
        code.len() == 6,
{
    let n = choose|n: nat| OTP_MIN <= n < OTP_BOUND && code == #[trigger] decimal(n);
    lemma_six_digits(n);
}

/// Records the passcode numbered `n` for `email` as issued at `now`, in
/// place of any passcode the email had, and gives the response for the
/// requester.
pub fn issue_otp(table: &mut OtpTable, email: &str, n: u32, now: i64) -> (response: OtpResponse)
    requires
        0 <= now <= MAX_TIMESTAMP - OTP_TTL,
    ensures
        final(table)@ == issued(old(table)@, email@, decimal(n as nat), now as int),
        response.otp@ == decimal(n as nat),
        response.expires_at@ == rfc3339_utc(now + OTP_TTL),
{
    let code = u64_to_string(n as u64);
    let expires_at: i64 = now + OTP_TTL;
    table.upsert(email, code.as_str(), expires_at);
    OtpResponse { otp: code, expires_at: format_rfc3339(expires_at) }
}

/// Issuing a second passcode for an email invalidates the first: unless the
/// two codes happen to be equal, the first code is never accepted again, and
/// within the validity of the second it is turned down as a wrong code.
pub proof fn law_reissue_invalidates(
    codes: Map<Seq<char>, OtpEntry>,
    email: Seq<char>,
    first: Seq<char>,
    first_at: int,
    second: Seq<char>,
    second_at: int,
    now: int,
)
    requires
        first != second,
    ensures
        ({
            let twice = issued(issued(codes, email, first, first_at), email, second, second_at);
            &&& verdict(lookup(twice, email), first, now).is_err()
            &&& now <= second_at + OTP_TTL ==> verdict(lookup(twice, email), first, now) == Err::<
                (),
                OtpError,
            >(OtpError::InvalidCode)
            &&& verified(twice, email, first, now) == twice
        }),
{
}

/// A passcode is accepted once: after an accepted verification every
/// further verification for that email, with the same code or another, at
/// any time, fails as already used and changes nothing.
pub proof fn law_single_use(
    codes: Map<Seq<char>, OtpEntry>,
    email: Seq<char>,
    code: Seq<char>,
    now: int,
    again: Seq<char>,
    later: int,
)
    requires
        verdict(lookup(codes, email), code, now).is_ok(),
    ensures
        ({
            let after = verified(codes, email, code, now);
            &&& verdict(lookup(after, email), again, later) == Err::<(), OtpError>(
                OtpError::AlreadyUsed,
            )
            &&& verified(after, email, again, later) == after
        }),
{
}

/// A passcode is accepted up to and including its expiry, five minutes
/// after it was issued, and fails as expired afterwards, even with the
/// right code.
pub proof fn law_expiry(
    codes: Map<Seq<char>, OtpEntry>,
    email: Seq<char>,
    code: Seq<char>,
    issued_at: int,
    now: int,
)
    ensures
        ({
            let after = issued(codes, email, code, issued_at);
            &&& now > issued_at + OTP_TTL ==> verdict(lookup(after, email), code, now) == Err::<
                (),
                OtpError,
            >(OtpError::Expired)
            &&& now <= issued_at + OTP_TTL ==> verdict(lookup(after, email), code, now).is_ok()
        }),
{
}

/// A verification touches the passcode of its own email only.
pub proof fn law_verify_is_local(
    codes: Map<Seq<char>, OtpEntry>,
    email: Seq<char>,
    code: Seq<char>,
    now: int,
    other: Seq<char>,
)
    requires
        other != email,
    ensures
        lookup(verified(codes, email, code, now), other) == lookup(codes, other),
        lookup(issued(codes, email, code, now), other) == lookup(codes, other),
{
}

/// Whether a passcode can be issued at the clock reading `now`: the
/// reading is an instant of the service, and so is the expiry five minutes
/// later.
pub open spec fn issuable_at(now: Option<i64>) -> bool {
    now matches Some(t) && 0 <= t <= MAX_TIMESTAMP - OTP_TTL
}

/// Issues the passcode numbered `n` for the email of `req` at the clock
/// reading `now`, in place of any passcode the email had. Without a reading
/// at which a passcode can be issued, nothing is issued and nothing changes.
pub fn generate_otp_with(
    data: &mut AppState,
    req: &OtpRequest,
    now: Option<i64>,
    n: u32,
) -> (response: Option<OtpResponse>)
    ensures
        match response {
            Some(r) => {
                &&& issuable_at(now)
                &&& r.otp@ == decimal(n as nat)
                &&& r.expires_at@ == rfc3339_utc(now.unwrap() + OTP_TTL)
                &&& final(data).otp_codes@ == issued(
                    old(data).otp_codes@,
                    req.email@,
                    decimal(n as nat),
                    now.unwrap() as int,
                )
            },
            None => !issuable_at(now) && final(data).otp_codes@ == old(data).otp_codes@,
        },
        final(data)@ == (AppStateView { otp_codes: final(data).otp_codes@, ..old(data)@ }),
{
    match now {
        Some(t) => {
            if 0 <= t && t <= MAX_TIMESTAMP - OTP_TTL {
                Some(issue_otp(&mut data.otp_codes, req.email.as_str(), n, t))
            } else {
                None
            }
        },
        None => None,
    }
}

/// Issues a fresh passcode for the email of `req`: a number drawn at
/// random, valid for five minutes from the current time, recorded in place
/// of any passcode the email had. Nothing is issued, and nothing changes,
/// when the clock lies outside the instants the service handles. The clock
/// and the draw decide the outcome; `generate_otp_with` says what it is for
/// each reading and each number.
pub fn generate_otp(data: &mut AppState, req: &OtpRequest) -> (response: Option<OtpResponse>)
    ensures
        match response {
            Some(r) => {
                let entry = final(data).otp_codes@[req.email@];
                &&& is_fresh_code(r.otp@)
                &&& entry.code == r.otp@
                &&& !entry.used
                &&& valid_timestamp(entry.expires_at - OTP_TTL)
                &&& valid_timestamp(entry.expires_at)
                &&& r.expires_at@ == rfc3339_utc(entry.expires_at)
                &&& final(data).otp_codes@ == old(data).otp_codes@.insert(req.email@, entry)
            },
            None => final(data).otp_codes@ == old(data).otp_codes@,
        },
        final(data)@ == (AppStateView { otp_codes: final(data).otp_codes@, ..old(data)@ }),
{
    let now = current_time();
    let n = random_in(OTP_MIN, OTP_BOUND);
    let response = generate_otp_with(data, req, now, n);
    proof {
        if response.is_some() {
            assert(response.unwrap().otp@ == decimal(n as nat));
        }
    }
    response
}

/// What a verification of `code` for `email` at `now` reports to the
/// requester and leaves on record.
pub open spec fn verification_at(
    before: Map<Seq<char>, OtpEntry>,
    email: Seq<char>,
    code: Seq<char>,
    now: int,
    outcome: Result<(), OtpError>,
    after: Map<Seq<char>, OtpEntry>,
) -> bool {
    &&& valid_timestamp(now)
    &&& outcome == match verdict(lookup(before, email), code, now) {
        Ok(()) => Ok::<(), OtpError>(()),
        Err(e) => Err(e.surfaced_spec()),
    }
    &&& after == verified(before, email, code, now)
}

/// Verifies the passcode of `req` at the current time and spends it when
/// it is accepted. A failure is reported as the requester sees it: a missing
/// passcode reads as a wrong code. When the clock lies outside the instants
/// the service handles, the passcode is turned down as a wrong code and
/// nothing changes.
pub fn verify_otp(data: &mut AppState, req: &VerifyRequest) -> (outcome: Result<(), OtpError>)
    ensures
        (exists|now: int| #[trigger]
            verification_at(
                old(data).otp_codes@,
                req.email@,
                req.code@,
                now,
                outcome,
                final(data).otp_codes@,
            )) || (outcome == Err::<(), OtpError>(OtpError::InvalidCode) && final(data).otp_codes@
            == old(data).otp_codes@),
        final(data)@ == (AppStateView { otp_codes: final(data).otp_codes@, ..old(data)@ }),
{
    match current_time() {
        Some(now) => {
            let outcome = match verify_at(
                &mut data.otp_codes,
                req.email.as_str(),
                req.code.as_str(),
                now,
            ) {
                Ok(()) => Ok(()),
                Err(e) => Err(e.surfaced()),
            };
            assert(verification_at(
                old(data).otp_codes@,
                req.email@,
                req.code@,
                now as int,
                outcome,
                data.otp_codes@,
            ));
            outcome
        },
        None => Err(OtpError::InvalidCode),
    }
}

} // verus!

//! Accounts and their roles.

use vstd::prelude::*;
use crate::auth::{create_jwt, issued_token, token_outcome_is, AuthError};
use crate::clock::{current_time, valid_timestamp};
use crate::documents::{active_signer, signer_by_id, Signer, SignerView};
use crate::state::{AppState, AppStateView};
use crate::text::{i64_to_string, instant_view, signed_decimal, text_eq, text_view};

verus! {

/// The credentials submitted at login.
pub struct LoginPayload {
    pub email: String,
    pub password: String,
}

/// A live image submitted for comparison with a signer's reference photo.
pub struct FaceVerificationPayload {
    pub live_image_base64: String,
}

/// What an account is allowed to act as.
#[derive(Clone, Copy, Debug, PartialEq, Eq, Structural)]
pub enum Role {
    Company,
    Admin,
    Signer,
}

impl Role {
    /// The number under which the role is stored.
    pub open spec fn code(self) -> int {
        match self {
            Role::Company => 0,
            Role::Admin => 1,
            Role::Signer => 2,
        }
    }

    /// The number under which the role is stored.
    pub fn to_i32(self) -> (n: i32)
        ensures
            n == self.code(),
    {
        match self {
            Role::Company => 0,
            Role::Admin => 1,
            Role::Signer => 2,
        }
    }

    /// The role stored under `n`; numbers other than 0, 1 and 2 name none.
    pub fn from_i32(n: i32) -> (role: Option<Role>)
        ensures
            match role {
                Some(r) => r.code() == n,
                None => n < 0 || n > 2,
            },
    {
        if n == 0 {
            Some(Role::Company)
        } else if n == 1 {
            Some(Role::Admin)
        } else if n == 2 {
            Some(Role::Signer)
        } else {
            None
        }
    }
}

/// An account.
pub struct User {
    pub user_id: i64,
    pub email: String,
    pub password_hash: String,
    pub role: Role,
    pub created_at: i64,
    pub updated_at: Option<i64>,
    pub deleted_at: Option<i64>,
    pub face_embedding: Option<Vec<u8>>,
}

/// An account as a value.
pub struct UserView {
    pub user_id: int,
    pub email: Seq<char>,
    pub password_hash: Seq<char>,
    pub role: Role,
    pub created_at: int,
    pub updated_at: Option<int>,
    pub deleted_at: Option<int>,
    pub face_embedding: Option<Seq<u8>>,
}

impl View for User {
    type V = UserView;

    open spec fn view(&self) -> UserView {
        UserView {
            user_id: self.user_id as int,
            email: self.email@,
            password_hash: self.password_hash@,
            role: self.role,
            created_at: self.created_at as int,
            updated_at: instant_view(self.updated_at),
            deleted_at: instant_view(self.deleted_at),
            face_embedding: match self.face_embedding {
                Some(bytes) => Some(bytes@),
                None => None,
            },
        }
    }
}

impl User {
    /// A copy of the account.
    pub fn duplicate(&self) -> (copy: User)
        ensures
            copy@ == self@,
    {
        User {
            user_id: self.user_id,
            email: self.email.clone(),
            password_hash: self.password_hash.clone(),
            role: self.role,
            created_at: self.created_at,
            updated_at: self.updated_at,
            deleted_at: self.deleted_at,
            face_embedding: match &self.face_embedding {
                Some(bytes) => Some(bytes.clone()),
                None => None,
            },
        }
    }
}

/// A request to create an account.
pub struct CreateUser {
    pub email: String,
    pub password: String,
    pub role: Role,
    pub legal_name: Option<String>,
    pub tax_id: Option<String>,
    pub full_name: Option<String>,
    pub phone_number: Option<String>,
    pub is_verified: Option<i32>,
    pub national_id: Option<String>,
}

/// The changes to make to an account; an absent field stays as it is.
pub struct UpdateUser {
    pub email: Option<String>,
    pub role: Option<Role>,
}

/// Whether row `i` is an account with `email` that has not been deleted.
pub open spec fn is_active_account(rows: Seq<UserView>, email: Seq<char>, i: int) -> bool {
    0 <= i < rows.len() && rows[i].email == email && rows[i].deleted_at.is_none()
}

/// The account with `email` that has not been deleted, if there is one.
pub open spec fn active_account(rows: Seq<UserView>, email: Seq<char>) -> Option<UserView> {
    if exists|i: int| is_active_account(rows, email, i) {
        Some(rows[choose|i: int| is_active_account(rows, email, i)])
    } else {
        None
    }
}

/// Accounts are numbered from 1 in the order of their creation, and no two
/// accounts that have not been deleted share an email.
pub open spec fn accounts_wf(rows: Seq<UserView>) -> bool {
    &&& rows.len() <= i64::MAX
    &&& forall|i: int| 0 <= i < rows.len() ==> (#[trigger] rows[i]).user_id == i + 1
    &&& forall|i: int, j: int|
        #![trigger rows[i], rows[j]]
        0 <= i < rows.len() && 0 <= j < rows.len() && rows[i].email == rows[j].email
            && rows[i].deleted_at.is_none() && rows[j].deleted_at.is_none() ==> i == j
}

/// The accounts on record.
pub struct UserTable {
    rows: Vec<User>,
}

impl UserTable {
    #[verifier::type_invariant]
    spec fn well_formed(&self) -> bool {
        accounts_wf(self.rows@.map_values(|u: User| u@))
    }

    /// The accounts in the order of their creation.
    pub closed spec fn view(&self) -> Seq<UserView> {
        self.rows@.map_values(|u: User| u@)
    }

    /// A table without accounts.
    pub fn new() -> (table: UserTable)
        ensures
            table@ == Seq::<UserView>::empty(),
    {
        let table = UserTable { rows: Vec::new() };
        assert(table@ =~= Seq::<UserView>::empty());
        table
    }

    /// The number of accounts, deleted ones included.
    pub fn len(&self) -> (n: usize)
        ensures
            n == self@.len(),
            accounts_wf(self@),
    {
        proof {
            use_type_invariant(self);
        }
        self.rows.len()
    }

    /// The account with `email` that has not been deleted.
    pub fn find_by_email(&self, email: &str) -> (found: Option<User>)
        ensures
            accounts_wf(self@),
            match found {
                Some(user) => active_account(self@, email@) == Some(user@),
                None => active_account(self@, email@).is_none(),
            },
    {
        proof {
            use_type_invariant(self);
        }
        let mut i: usize = 0;
        while i < self.rows.len()
            invariant
                i <= self.rows.len(),
                self@ == self.rows@.map_values(|u: User| u@),
                accounts_wf(self@),
                forall|j: int| 0 <= j < i ==> !is_active_account(self@, email@, j),
            decreases self.rows.len() - i,
        {
            let row = &self.rows[i];
            if row.deleted_at.is_none() && text_eq(row.email.as_str(), email) {
                proof {
                    assert(is_active_account(self@, email@, i as int));
                    let chosen = choose|k: int| is_active_account(self@, email@, k);
                    assert(self@[chosen].email == self@[i as int].email);
                }
                return Some(row.duplicate());
            }
            i += 1;
        }
        None
    }

    /// Whether the table can take another account.
    pub fn has_room(&self) -> (room: bool)
        ensures
            room == (self@.len() < i64::MAX),
            accounts_wf(self@),
    {
        proof {
            use_type_invariant(self);
        }
        (self.rows.len() as u64) < i64::MAX as u64
    }

    /// Appends `user`, which carries the next free number and an email that
    /// no account on record has.
    pub fn push(&mut self, user: User)
        requires
            old(self)@.len() < i64::MAX,
            user.user_id == old(self)@.len() + 1,
            active_account(old(self)@, user.email@).is_none(),
        ensures
            final(self)@ == old(self)@.push(user@),
            accounts_wf(final(self)@),
    {
        proof {
            use_type_invariant(&*self);
        }
        let mut rows: Vec<User> = Vec::new();
        core::mem::swap(&mut self.rows, &mut rows);
        let ghost before = rows@.map_values(|u: User| u@);
        rows.push(user);
        proof {
            let after = rows@.map_values(|u: User| u@);
            assert(after =~= before.push(user@));
            lemma_account_added(before, user@);
        }
        self.rows = rows;
    }

    /// Puts `user` in the place of the account with its number. The new
    /// value is deleted, keeps the email of an account that was not deleted,
    /// or has an email that no account on record has.
    pub fn put(&mut self, user: User)
        requires
            1 <= user.user_id <= old(self)@.len(),
            user.deleted_at.is_some() || user.email@ == old(self)@[user.user_id - 1].email
                && old(self)@[user.user_id - 1].deleted_at.is_none() || active_account(
                old(self)@,
                user.email@,
            ).is_none(),
        ensures
            final(self)@ == old(self)@.update(user.user_id - 1, user@),
            accounts_wf(final(self)@),
    {
        proof {
            use_type_invariant(&*self);
        }
        let count = self.rows.len();
        assert(self@.len() == count);
        let at: usize = (user.user_id - 1) as usize;
        let mut rows: Vec<User> = Vec::new();
        core::mem::swap(&mut self.rows, &mut rows);
        let ghost before = rows@.map_values(|u: User| u@);
        rows[at] = user;
        proof {
            let after = rows@.map_values(|u: User| u@);
            assert(after =~= before.update(at as int, user@));
            lemma_account_replaced(before, at as int, user@);
        }
        self.rows = rows;
    }

    /// The accounts that have not been deleted, in the order of their
    /// numbers.
    pub fn active(&self) -> (list: Vec<User>)
        ensures
            list@.map_values(|u: User| u@) == active_accounts(self@),
    {
        let mut list: Vec<User> = Vec::new();
        let mut i: usize = 0;
        proof {
            assert(self@.take(0) =~= Seq::<UserView>::empty());
            reveal(Seq::filter);
            assert(list@.map_values(|u: User| u@) =~= active_accounts(self@.take(0)));
        }
        while i < self.rows.len()
            invariant
                i <= self.rows.len(),
                self@ == self.rows@.map_values(|u: User| u@),
                list@.map_values(|u: User| u@) == active_accounts(self@.take(i as int)),
            decreases self.rows.len() - i,
        {
            let ghost before = list@.map_values(|u: User| u@);
            proof {
                assert(self@.take(i + 1) =~= self@.take(i as int).push(self@[i as int]));
                self@.take(i as int).lemma_filter_push(
                    self@[i as int],
                    |u: UserView| u.deleted_at.is_none(),
                );
            }
            if self.rows[i].deleted_at.is_none() {
                list.push(self.rows[i].duplicate());
                assert(list@.map_values(|u: User| u@) =~= before.push(self@[i as int]));
            }
            i += 1;
        }
        assert(self@.take(i as int) =~= self@);
        list
    }

    /// The account numbered `user_id` that has not been deleted.
    pub fn get(&self, user_id: i64) -> (found: Option<User>)
        ensures
            accounts_wf(self@),
            found matches Some(user) ==> account_by_id(self@, user_id as int) == Some(user@),
            found.is_none() ==> account_by_id(self@, user_id as int).is_none(),
    {
        proof {
            use_type_invariant(self);
        }
        if user_id < 1 || user_id as u64 > self.rows.len() as u64 {
            return None;
        }
        let row = &self.rows[(user_id - 1) as usize];
        if row.deleted_at.is_none() {
            Some(row.duplicate())
        } else {
            None
        }
    }
}

/// The account numbered `user_id`, unless it has been deleted.
pub open spec fn account_by_id(rows: Seq<UserView>, user_id: int) -> Option<UserView> {
    if 1 <= user_id <= rows.len() && rows[user_id - 1].deleted_at.is_none() {
        Some(rows[user_id - 1])
    } else {
        None
    }
}

/// The accounts that have not been deleted, in the order of their numbers.
pub open spec fn active_accounts(rows: Seq<UserView>) -> Seq<UserView> {
    rows.filter(|u: UserView| u.deleted_at.is_none())
}

/// Adding an account whose email no account on record has keeps the
/// accounts well formed.
pub proof fn lemma_account_added(rows: Seq<UserView>, user: UserView)
    requires
        accounts_wf(rows),
        rows.len() < i64::MAX,
        user.user_id == rows.len() + 1,
        active_account(rows, user.email).is_none(),
    ensures
        accounts_wf(rows.push(user)),
{
    let after = rows.push(user);
    assert forall|i: int, j: int|
        #![trigger after[i], after[j]]
        0 <= i < after.len() && 0 <= j < after.len() && after[i].email == after[j].email
            && after[i].deleted_at.is_none() && after[j].deleted_at.is_none() implies i == j by {
        if i < rows.len() && j < rows.len() {
            assert(rows[i].email == rows[j].email);
        } else if i < rows.len() {
            assert(is_active_account(rows, user.email, i));
        } else if j < rows.len() {
            assert(is_active_account(rows, user.email, j));
        }
    }
}

/// Replacing an account keeps the accounts well formed when the new value
/// is deleted, keeps the email of an account that was not deleted, or takes
/// an email that no account on record has.
pub proof fn lemma_account_replaced(rows: Seq<UserView>, at: int, user: UserView)
    requires
        accounts_wf(rows),
        0 <= at < rows.len(),
        user.user_id == at + 1,
        user.deleted_at.is_some() || user.email == rows[at].email && rows[at].deleted_at.is_none()
            || active_account(rows, user.email).is_none(),
    ensures
        accounts_wf(rows.update(at, user)),
{
    let after = rows.update(at, user);
    assert forall|i: int, j: int|
        #![trigger after[i], after[j]]
        0 <= i < after.len() && 0 <= j < after.len() && after[i].email == after[j].email
            && after[i].deleted_at.is_none() && after[j].deleted_at.is_none() implies i == j by {
        if i != at && j != at {
            assert(rows[i].email == rows[j].email);
        } else if i == at && j != at {
            assert(is_active_account(rows, user.email, j));
            assert(rows[j].email == rows[at].email || active_account(rows, user.email).is_none());
        } else if j == at && i != at {
            assert(is_active_account(rows, user.email, i));
            assert(rows[i].email == rows[at].email || active_account(rows, user.email).is_none());
        }
    }
}

/// An organisation that owns documents.
pub struct Company {
    pub company_id: i64,
    pub legal_name: String,
    pub tax_id: String,
    pub contact_email: String,
    pub user_id: i64,
}

/// A company as a value.
pub struct CompanyView {
    pub company_id: int,
    pub legal_name: Seq<char>,
    pub tax_id: Seq<char>,
    pub contact_email: Seq<char>,
    pub user_id: int,
}

impl View for Company {
    type V = CompanyView;

    open spec fn view(&self) -> CompanyView {
        CompanyView {
            company_id: self.company_id as int,
            legal_name: self.legal_name@,
            tax_id: self.tax_id@,
            contact_email: self.contact_email@,
            user_id: self.user_id as int,
        }
    }
}

/// A request to create an account, as a value.
pub struct CreateUserView {
    pub email: Seq<char>,
    pub password: Seq<char>,
    pub role: Role,
    pub legal_name: Option<Seq<char>>,
    pub tax_id: Option<Seq<char>>,
    pub full_name: Option<Seq<char>>,
    pub phone_number: Option<Seq<char>>,
    pub is_verified: Option<int>,
    pub national_id: Option<Seq<char>>,
}

impl View for CreateUser {
    type V = CreateUserView;

    open spec fn view(&self) -> CreateUserView {
        CreateUserView {
            email: self.email@,
            password: self.password@,
            role: self.role,
            legal_name: text_view(self.legal_name),
            tax_id: text_view(self.tax_id),
            full_name: text_view(self.full_name),
            phone_number: text_view(self.phone_number),
            is_verified: match self.is_verified {
                Some(v) => Some(v as int),
                None => None,
            },
            national_id: text_view(self.national_id),
        }
    }
}

/// Why an account was not created or changed.
#[derive(Clone, Copy, Debug, PartialEq, Eq, Structural)]
pub enum UserError {
    /// The email belongs to an account that has not been deleted, or the
    /// national identifier to a signer that has not been deleted.
    Conflict,
    /// A company account was requested without a legal name.
    MissingLegalName,
    /// A company account was requested without a tax identifier.
    MissingTaxId,
    /// A signer account was requested without a full name.
    MissingFullName,
    /// A signer account was requested without a phone number.
    MissingPhoneNumber,
    /// A signer account was requested without a national identifier.
    MissingNationalId,
    /// The password could not be hashed.
    HashingFailed,
    /// The store could not take the change.
    PersistenceError,
}

impl UserError {
    /// The text of the message for this failure.
    pub open spec fn message_text(self) -> Seq<char> {
        match self {
            UserError::Conflict => "E-mail já está em uso por um usuário ativo."@,
            UserError::MissingLegalName => "Missing 'legal_name' for company user"@,
            UserError::MissingTaxId => "Missing 'tax_id' (CNPJ) for company user"@,
            UserError::MissingFullName => "Missing 'full_name' for Signer user"@,
            UserError::MissingPhoneNumber => "Missing 'phone_number' for signer user"@,
            UserError::MissingNationalId => "Missing 'national_id' (CPF) for signer user"@,
            UserError::HashingFailed => "Failed to hash password"@,
            UserError::PersistenceError => "Failed to create user"@,
        }
    }

    /// The message that describes the failure.
    pub fn message(self) -> (text: String)
        ensures
            text@ == self.message_text(),
    {
        match self {
            UserError::Conflict => "E-mail já está em uso por um usuário ativo.".to_owned(),
            UserError::MissingLegalName => "Missing 'legal_name' for company user".to_owned(),
            UserError::MissingTaxId => "Missing 'tax_id' (CNPJ) for company user".to_owned(),
            UserError::MissingFullName => "Missing 'full_name' for Signer user".to_owned(),
            UserError::MissingPhoneNumber => "Missing 'phone_number' for signer user".to_owned(),
            UserError::MissingNationalId => "Missing 'national_id' (CPF) for signer user".to_owned(),
            UserError::HashingFailed => "Failed to hash password".to_owned(),
            UserError::PersistenceError => "Failed to create user".to_owned(),
        }
    }
}

/// The field that a request for `role` lacks, if it lacks one: a company
/// needs a legal name and a tax identifier, a signer a full name, a phone
/// number and a national identifier, an administrator nothing more.
pub open spec fn missing_field(req: CreateUserView) -> Option<UserError> {
    match req.role {
        Role::Company => if req.legal_name.is_none() {
            Some(UserError::MissingLegalName)
        } else if req.tax_id.is_none() {
            Some(UserError::MissingTaxId)
        } else {
            None
        },
        Role::Admin => None,
        Role::Signer => if req.full_name.is_none() {
            Some(UserError::MissingFullName)
        } else if req.phone_number.is_none() {
            Some(UserError::MissingPhoneNumber)
        } else if req.national_id.is_none() {
            Some(UserError::MissingNationalId)
        } else {
            None
        },
    }
}

/// Says which field the request lacks for its role.
pub fn check_required(req: &CreateUser) -> (missing: Option<UserError>)
    ensures
        missing == missing_field(req@),
{
    match req.role {
        Role::Company => if req.legal_name.is_none() {
            Some(UserError::MissingLegalName)
        } else if req.tax_id.is_none() {
            Some(UserError::MissingTaxId)
        } else {
            None
        },
        Role::Admin => None,
        Role::Signer => if req.full_name.is_none() {
            Some(UserError::MissingFullName)
        } else if req.phone_number.is_none() {
            Some(UserError::MissingPhoneNumber)
        } else if req.national_id.is_none() {
            Some(UserError::MissingNationalId)
        } else {
            None
        },
    }
}

/// The account that a creation at `now` adds to `rows`.
pub open spec fn new_account(
    rows: Seq<UserView>,
    req: CreateUserView,
    password_hash: Seq<char>,
    now: int,
) -> UserView {
    UserView {
        user_id: rows.len() as int + 1,
        email: req.email,
        password_hash,
        role: req.role,
        created_at: now,
        updated_at: None,
        deleted_at: None,
        face_embedding: None,
    }
}

/// The company that the creation of a company account adds.
pub open spec fn new_company(s: AppStateView, req: CreateUserView) -> CompanyView {
    CompanyView {
        company_id: s.companies.len() as int + 1,
        legal_name: req.legal_name.unwrap(),
        tax_id: req.tax_id.unwrap(),
        contact_email: req.email,
        user_id: s.users.len() as int + 1,
    }
}

/// The signer that the creation of a signer account at `now` adds.
pub open spec fn new_account_signer(s: AppStateView, req: CreateUserView, now: int) -> SignerView {
    SignerView {
        signer_id: s.signers.len() as int + 1,
        full_name: req.full_name.unwrap(),
        national_id: req.national_id.unwrap(),
        phone_number: req.phone_number.unwrap(),
        contact_email: req.email,
        public_key: Seq::empty(),
        created_at: now,
        updated_at: None,
        deleted_at: None,
        user_id: Some(s.users.len() as int + 1),
        photo_id_url: None,
    }
}

/// The records and the outcome after an account was requested at `now`
/// with `password_hash` as the hash of its password. The account is created
/// together with the company or the signer that its role calls for; a
/// failure leaves every record as it was.
pub open spec fn user_creation(
    s: AppStateView,
    req: CreateUserView,
    password_hash: Seq<char>,
    now: int,
) -> (AppStateView, Result<UserView, UserError>) {
    let account = new_account(s.users, req, password_hash, now);
    if active_account(s.users, req.email).is_some() {
        (s, Err(UserError::Conflict))
    } else if missing_field(req).is_some() {
        (s, Err(missing_field(req).unwrap()))
    } else if s.users.len() >= i64::MAX {
        (s, Err(UserError::PersistenceError))
    } else {
        match req.role {
            Role::Admin => (AppStateView { users: s.users.push(account), ..s }, Ok(account)),
            Role::Company => if s.companies.len() >= i64::MAX {
                (s, Err(UserError::PersistenceError))
            } else {
                (
                    AppStateView {
                        users: s.users.push(account),
                        companies: s.companies.push(new_company(s, req)),
                        ..s
                    },
                    Ok(account),
                )
            },
            Role::Signer => if active_signer(s.signers, req.national_id.unwrap()).is_some() {
                (s, Err(UserError::Conflict))
            } else if s.signers.len() >= i64::MAX {
                (s, Err(UserError::PersistenceError))
            } else {
                (
                    AppStateView {
                        users: s.users.push(account),
                        signers: s.signers.push(new_account_signer(s, req, now)),
                        ..s
                    },
                    Ok(account),
                )
            },
        }
    }
}

/// The outcome of an operation on accounts, with its account as a view.
pub open spec fn user_outcome_view(outcome: Result<User, UserError>) -> Result<UserView, UserError> {
    match outcome {
        Ok(user) => Ok(user@),
        Err(e) => Err(e),
    }
}

/// Creates an account as of the instant `now`, with `password_hash` as the
/// hash of its password.
pub fn create_user_with(
    data: &mut AppState,
    new_user: &CreateUser,
    password_hash: &str,
    now: i64,
) -> (outcome: Result<User, UserError>)
    ensures
        (final(data)@, user_outcome_view(outcome)) == user_creation(
            old(data)@,
            new_user@,
            password_hash@,
            now as int,
        ),
{
    if data.users.find_by_email(new_user.email.as_str()).is_some() {
        return Err(UserError::Conflict);
    }
    match check_required(new_user) {
        Some(e) => {
            return Err(e);
        },
        None => {},
    }
    if !data.users.has_room() {
        return Err(UserError::PersistenceError);
    }
    let user_id: i64 = (data.users.len() as u64 + 1) as i64;
    let user = User {
        user_id,
        email: new_user.email.clone(),
        password_hash: password_hash.to_owned(),
        role: new_user.role,
        created_at: now,
        updated_at: None,
        deleted_at: None,
        face_embedding: None,
    };
    let copy = user.duplicate();
    match new_user.role {
        Role::Admin => {
            data.users.push(user);
        },
        Role::Company => {
            if data.companies.len() as u64 >= i64::MAX as u64 {
                return Err(UserError::PersistenceError);
            }
            let (legal_name, tax_id) = match (&new_user.legal_name, &new_user.tax_id) {
                (Some(name), Some(tax)) => (name.clone(), tax.clone()),
                _ => {
                    return Err(UserError::PersistenceError);
                },
            };
            let company = Company {
                company_id: (data.companies.len() as u64 + 1) as i64,
                legal_name,
                tax_id,
                contact_email: new_user.email.clone(),
                user_id,
            };
            let ghost before = data.companies@.map_values(|c: Company| c@);
            data.users.push(user);
            data.companies.push(company);
            assert(data.companies@.map_values(|c: Company| c@) =~= before.push(company@));
        },
        Role::Signer => {
            let (full_name, phone_number, national_id) = match (
                &new_user.full_name,
                &new_user.phone_number,
                &new_user.national_id,
            ) {
                (Some(name), Some(phone), Some(id)) => (name.clone(), phone.clone(), id.clone()),
                _ => {
                    return Err(UserError::PersistenceError);
                },
            };
            if data.registry.signers().find_by_national_id(national_id.as_str()).is_some() {
                return Err(UserError::Conflict);
            }
            if !data.registry.signers().has_room() {
                return Err(UserError::PersistenceError);
            }
            let signer = Signer {
                signer_id: (data.registry.signers().len() as u64 + 1) as i64,
                full_name,
                national_id,
                phone_number,
                contact_email: new_user.email.clone(),
                public_key: String::new(),
                created_at: now,
                updated_at: None,
                deleted_at: None,
                user_id: Some(user_id),
                photo_id_url: None,
            };
            data.users.push(user);
            data.registry.add_signer(signer);
        },
    }
    Ok(copy)
}

/// `bcrypt::BcryptError`, the reason a password was not hashed or not
/// checked, carried without looking inside.
#[verifier::external_type_specification]
#[verifier::external_body]
pub struct ExBcryptError(bcrypt::BcryptError);

/// Whether `password` matches the bcrypt hash `hash`, as `bcrypt::verify`
/// finds it, or `None` where it gives an error.
pub uninterp spec fn bcrypt_verdict(password: Seq<char>, hash: Seq<char>) -> Option<bool>;

/// Hashes a password with `bcrypt::hash` at `bcrypt::DEFAULT_COST`. The
/// salt is drawn at random, so nothing is claimed of the hash.
#[verifier::external_body]
fn hash_password(password: &str) -> Result<String, bcrypt::BcryptError> {
    bcrypt::hash(password, bcrypt::DEFAULT_COST)
}

/// Checks a password against a hash with `bcrypt::verify`, which depends
/// on the two texts alone.
#[verifier::external_body]
fn verify_password(password: &str, hash: &str) -> (checked: Result<bool, bcrypt::BcryptError>)
    ensures
        match checked {
            Ok(matches) => bcrypt_verdict(password@, hash@) == Some(matches),
            Err(_) => bcrypt_verdict(password@, hash@).is_none(),
        },
{
    bcrypt::verify(password, hash)
}

/// What the creation of an account at some instant, under some hash of
/// the password, reports and leaves on record.
pub open spec fn user_creation_at(
    before: AppStateView,
    req: CreateUserView,
    password_hash: Seq<char>,
    now: int,
    outcome: Result<UserView, UserError>,
    after: AppStateView,
) -> bool {
    valid_timestamp(now) && (after, outcome) == user_creation(before, req, password_hash, now)
}

/// Creates an account at the current time, with its password hashed. A
/// password that cannot be hashed fails with `HashingFailed`, a clock
/// outside the instants the service handles with `PersistenceError`; both
/// leave every record as it was.
pub fn create_user(data: &mut AppState, new_user: &CreateUser) -> (outcome: Result<User, UserError>)
    ensures
        (exists|password_hash: Seq<char>, now: int| #[trigger]
            user_creation_at(
                old(data)@,
                new_user@,
                password_hash,
                now,
                user_outcome_view(outcome),
                final(data)@,
            )) || ((outcome == Err::<User, UserError>(UserError::HashingFailed) || outcome == Err::<
            User,
            UserError,
        >(UserError::PersistenceError)) && final(data)@ == old(data)@),
{
    let password_hash = match hash_password(new_user.password.as_str()) {
        Ok(hash) => hash,
        Err(_) => {
            return Err(UserError::HashingFailed);
        },
    };
    match current_time() {
        Some(now) => {
            let outcome = create_user_with(data, new_user, password_hash.as_str(), now);
            assert(user_creation_at(
                old(data)@,
                new_user@,
                password_hash@,
                now as int,
                user_outcome_view(outcome),
                data@,
            ));
            outcome
        },
        None => Err(UserError::PersistenceError),
    }
}

/// Why a login was refused.
#[derive(Clone, Copy, Debug, PartialEq, Eq, Structural)]
pub enum LoginError {
    /// No account has the email, or the password does not match.
    InvalidCredentials,
    /// The credentials are right but no session token could be issued.
    TokenFailed(AuthError),
}

/// Whether `password` opens the account `user`: the hash on record must
/// verify, and a hash that cannot be checked opens nothing.
pub open spec fn password_opens(user: UserView, password: Seq<char>) -> bool {
    bcrypt_verdict(password, user.password_hash) == Some(true)
}

/// The account that the credentials open, if they open one.
pub open spec fn authenticated(users: Seq<UserView>, email: Seq<char>, password: Seq<char>) -> Option<
    UserView,
> {
    match active_account(users, email) {
        Some(user) => if password_opens(user, password) {
            Some(user)
        } else {
            None
        },
        None => None,
    }
}

/// Checks `password` against the hash on record for `user`.
pub fn password_matches(user: &User, password: &str) -> (opens: bool)
    ensures
        opens == password_opens(user@, password@),
{
    match verify_password(password, user.password_hash.as_str()) {
        Ok(valid) => valid,
        Err(_) => false,
    }
}

/// Finds the account that the credentials open.
pub fn authenticate(data: &AppState, body: &LoginPayload) -> (found: Option<User>)
    ensures
        match found {
            Some(user) => authenticated(data.users@, body.email@, body.password@) == Some(user@),
            None => authenticated(data.users@, body.email@, body.password@).is_none(),
        },
{
    let user = match data.users.find_by_email(body.email.as_str()) {
        Some(user) => user,
        None => {
            return None;
        },
    };
    if password_matches(&user, body.password.as_str()) {
        Some(user)
    } else {
        None
    }
}

/// Logs in with an email and a password and issues a session token for
/// the account, valid for one hour from the current time. Credentials that
/// open no account fail with `InvalidCredentials`.
pub fn login_handler(data: &AppState, body: &LoginPayload, secret: &str) -> (outcome: Result<
    String,
    LoginError,
>)
    ensures
        match authenticated(data.users@, body.email@, body.password@) {
            None => outcome == Err::<String, LoginError>(LoginError::InvalidCredentials),
            Some(user) => (exists|now: int|
                valid_timestamp(now) && login_outcome_is(
                    outcome,
                    #[trigger] issued_token(signed_decimal(user.user_id), secret@, now),
                )) || outcome == Err::<String, LoginError>(
                LoginError::TokenFailed(AuthError::ClockOutOfRange),
            ),
        },
{
    let user = match authenticate(data, body) {
        Some(user) => user,
        None => {
            return Err(LoginError::InvalidCredentials);
        },
    };
    let subject = i64_to_string(user.user_id);
    match create_jwt(subject.as_str(), secret) {
        Ok(token) => {
            assert(forall|now: int|
                token_outcome_is(
                    Ok(token),
                    #[trigger] issued_token(signed_decimal(user@.user_id), secret@, now),
                ) ==> login_outcome_is(
                    Ok(token),
                    issued_token(signed_decimal(user@.user_id), secret@, now),
                ));
            Ok(token)
        },
        Err(e) => {
            assert(forall|now: int|
                token_outcome_is(
                    Err(e),
                    #[trigger] issued_token(signed_decimal(user@.user_id), secret@, now),
                ) ==> login_outcome_is(
                    Err(LoginError::TokenFailed(e)),
                    issued_token(signed_decimal(user@.user_id), secret@, now),
                ));
            Err(LoginError::TokenFailed(e))
        },
    }
}

/// Whether a login ended as the issuing of its token did.
pub open spec fn login_outcome_is(
    outcome: Result<String, LoginError>,
    token: Result<Seq<char>, AuthError>,
) -> bool {
    match (outcome, token) {
        (Ok(text), Ok(expected)) => text@ == expected,
        (Err(LoginError::TokenFailed(e)), Err(f)) => e == f,
        _ => false,
    }
}

/// The accounts that have not been deleted, in the order of their numbers.
pub fn get_all_users(data: &AppState) -> (list: Vec<User>)
    ensures
        list@.map_values(|u: User| u@) == active_accounts(data.users@),
{
    data.users.active()
}

/// The account numbered `user_id`, unless it has been deleted.
pub fn get_user_by_id(data: &AppState, user_id: i64) -> (found: Option<User>)
    ensures
        match found {
            Some(user) => account_by_id(data.users@, user_id as int) == Some(user@),
            None => account_by_id(data.users@, user_id as int).is_none(),
        },
{
    data.users.get(user_id)
}

/// The signer numbered `signer_id`, unless it has been deleted.
pub fn get_signer_by_id(data: &AppState, signer_id: i64) -> (found: Option<Signer>)
    ensures
        match found {
            Some(signer) => signer_by_id(data@.signers, signer_id as int) == Some(signer@),
            None => signer_by_id(data@.signers, signer_id as int).is_none(),
        },
{
    data.registry.signers().get(signer_id)
}

/// The account `current` after `email` and `role` were applied at `now`; an
/// absent field keeps its value.
pub open spec fn updated_account(
    current: UserView,
    email: Option<Seq<char>>,
    role: Option<Role>,
    now: int,
) -> UserView {
    UserView {
        email: match email {
            Some(e) => e,
            None => current.email,
        },
        role: match role {
            Some(r) => r,
            None => current.role,
        },
        updated_at: Some(now),
        ..current
    }
}

/// The accounts and the outcome after account `user_id` was updated at
/// `now`: an unknown or deleted account gives `None`, an email that another
/// account holds gives `Conflict`, and either leaves the accounts as they
/// were.
pub open spec fn account_update(
    rows: Seq<UserView>,
    user_id: int,
    email: Option<Seq<char>>,
    role: Option<Role>,
    now: int,
) -> (Seq<UserView>, Result<Option<UserView>, UserError>) {
    match account_by_id(rows, user_id) {
        None => (rows, Ok(None)),
        Some(current) => {
            let updated = updated_account(current, email, role, now);
            if updated.email != current.email && active_account(rows, updated.email).is_some() {
                (rows, Err(UserError::Conflict))
            } else {
                (rows.update(user_id - 1, updated), Ok(Some(updated)))
            }
        },
    }
}

/// The outcome of an update, with its account as a view.
pub open spec fn update_outcome_view(outcome: Result<Option<User>, UserError>) -> Result<
    Option<UserView>,
    UserError,
> {
    match outcome {
        Ok(Some(user)) => Ok(Some(user@)),
        Ok(None) => Ok(None),
        Err(e) => Err(e),
    }
}

impl User {
    /// The account after `update` was applied at `now`.
    pub fn updated(&self, update: &UpdateUser, now: i64) -> (changed: User)
        ensures
            changed@ == updated_account(self@, text_view(update.email), update.role, now as int),
    {
        User {
            user_id: self.user_id,
            email: match &update.email {
                Some(e) => e.clone(),
                None => self.email.clone(),
            },
            password_hash: self.password_hash.clone(),
            role: match update.role {
                Some(r) => r,
                None => self.role,
            },
            created_at: self.created_at,
            updated_at: Some(now),
            deleted_at: self.deleted_at,
            face_embedding: match &self.face_embedding {
                Some(bytes) => Some(bytes.clone()),
                None => None,
            },
        }
    }
}

/// Updates the account `user_id` as of the instant `now`.
pub fn update_user_at(data: &mut AppState, user_id: i64, update: &UpdateUser, now: i64) -> (outcome:
    Result<Option<User>, UserError>)
    ensures
        (final(data).users@, update_outcome_view(outcome)) == account_update(
            old(data).users@,
            user_id as int,
            text_view(update.email),
            update.role,
            now as int,
        ),
        final(data)@ == (AppStateView { users: final(data).users@, ..old(data)@ }),
{
    let current = match data.users.get(user_id) {
        Some(user) => user,
        None => {
            return Ok(None);
        },
    };
    let updated = current.updated(update, now);
    if !text_eq(updated.email.as_str(), current.email.as_str()) && data.users.find_by_email(
        updated.email.as_str(),
    ).is_some() {
        return Err(UserError::Conflict);
    }
    let copy = updated.duplicate();
    data.users.put(updated);
    Ok(Some(copy))
}

/// Updates the account `user_id` at the current time. Fails with
/// `PersistenceError`, and changes nothing, when the clock lies outside the
/// instants the service handles.
pub fn update_user(data: &mut AppState, user_id: i64, update: &UpdateUser) -> (outcome: Result<
    Option<User>,
    UserError,
>)
    ensures
        (exists|now: int|
            valid_timestamp(now) && (final(data).users@, update_outcome_view(outcome))
                == #[trigger] account_update(
                old(data).users@,
                user_id as int,
                text_view(update.email),
                update.role,
                now,
            )) || (outcome == Err::<Option<User>, UserError>(UserError::PersistenceError)
            && final(data).users@ == old(data).users@),
        final(data)@ == (AppStateView { users: final(data).users@, ..old(data)@ }),
{
    match current_time() {
        Some(now) => {
            let outcome = update_user_at(data, user_id, update, now);
            assert((data.users@, update_outcome_view(outcome)) == account_update(
                old(data).users@,
                user_id as int,
                text_view(update.email),
                update.role,
                now as int,
            ));
            outcome
        },
        None => Err(UserError::PersistenceError),
    }
}

/// The accounts after account `user_id` was deleted at `now`, and the
/// number of accounts that this changed: an unknown or already deleted
/// account changes none.
pub open spec fn account_deletion(rows: Seq<UserView>, user_id: int, now: int) -> (
    Seq<UserView>,
    u64,
) {
    match account_by_id(rows, user_id) {
        None => (rows, 0),
        Some(current) => (
            rows.update(user_id - 1, UserView { deleted_at: Some(now), ..current }),
            1,
        ),
    }
}

/// Deletes the account `user_id` as of the instant `now`: the account
/// stays on record, marked as deleted.
pub fn delete_user_at(data: &mut AppState, user_id: i64, now: i64) -> (changed: u64)
    ensures
        (final(data).users@, changed) == account_deletion(
            old(data).users@,
            user_id as int,
            now as int,
        ),
        final(data)@ == (AppStateView { users: final(data).users@, ..old(data)@ }),
{
    let current = match data.users.get(user_id) {
        Some(user) => user,
        None => {
            return 0;
        },
    };
    let deleted = User {
        user_id: current.user_id,
        email: current.email,
        password_hash: current.password_hash,
        role: current.role,
        created_at: current.created_at,
        updated_at: current.updated_at,
        deleted_at: Some(now),
        face_embedding: current.face_embedding,
    };
    data.users.put(deleted);
    1
}

/// Deletes the account `user_id` at the current time and says how many
/// accounts that changed. Fails with `PersistenceError`, and changes
/// nothing, when the clock lies outside the instants the service handles.
pub fn delete_user(data: &mut AppState, user_id: i64) -> (outcome: Result<u64, UserError>)
    ensures
        match outcome {
            Ok(changed) => exists|now: int|
                valid_timestamp(now) && (final(data).users@, changed)
                    == #[trigger] account_deletion(old(data).users@, user_id as int, now),
            Err(e) => e == UserError::PersistenceError && final(data).users@ == old(data).users@,
        },
        final(data)@ == (AppStateView { users: final(data).users@, ..old(data)@ }),
{
    match current_time() {
        Some(now) => {
            let changed = delete_user_at(data, user_id, now);
            assert((data.users@, changed) == account_deletion(
                old(data).users@,
                user_id as int,
                now as int,
            ));
            Ok(changed)
        },
        None => Err(UserError::PersistenceError),
    }
}

} // verus!

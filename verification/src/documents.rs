//! Documents, their signers, and the registration that creates a document
//! together with its signer association.

use vstd::prelude::*;
use crate::clock::{current_time, valid_timestamp};
use crate::state::{AppState, AppStateView};
use crate::text::{clone_text, instant_view, text_eq, text_view};

verus! {

/// The status with which a signer is attached to a new document.
pub const INITIAL_SIGNING_STATUS: i32 = 1;

/// A stored document.
pub struct Document {
    pub document_id: i64,
    pub company_id: i64,
    pub file_name: String,
    pub file_path: String,
    pub hash_sha256: String,
    pub status_id: i32,
    pub created_at: i64,
    pub updated_at: Option<i64>,
    pub deleted_at: Option<i64>,
}

/// A document as a value.
pub struct DocumentView {
    pub document_id: int,
    pub company_id: int,
    pub file_name: Seq<char>,
    pub file_path: Seq<char>,
    pub hash_sha256: Seq<char>,
    pub status_id: int,
    pub created_at: int,
    pub updated_at: Option<int>,
    pub deleted_at: Option<int>,
}

impl View for Document {
    type V = DocumentView;

    open spec fn view(&self) -> DocumentView {
        DocumentView {
            document_id: self.document_id as int,
            company_id: self.company_id as int,
            file_name: self.file_name@,
            file_path: self.file_path@,
            hash_sha256: self.hash_sha256@,
            status_id: self.status_id as int,
            created_at: self.created_at as int,
            updated_at: instant_view(self.updated_at),
            deleted_at: instant_view(self.deleted_at),
        }
    }
}

impl Document {
    /// A copy of the document.
    pub fn duplicate(&self) -> (copy: Document)
        ensures
            copy@ == self@,
    {
        Document {
            document_id: self.document_id,
            company_id: self.company_id,
            file_name: self.file_name.clone(),
            file_path: self.file_path.clone(),
            hash_sha256: self.hash_sha256.clone(),
            status_id: self.status_id,
            created_at: self.created_at,
            updated_at: self.updated_at,
            deleted_at: self.deleted_at,
        }
    }
}

/// A request to register a document with its signer.
pub struct CreateDocument {
    pub company_id: i64,
    pub file_name: Option<String>,
    pub file_path: Option<String>,
    pub hash_sha256: Option<String>,
    pub status_id: i32,
    pub signer_full_name: Option<String>,
    pub signer_phone_number: Option<String>,
    pub signer_email: Option<String>,
    pub signer_national_id: Option<String>,
    pub photo_id_url: Option<String>,
}

/// A registration request as a value.
pub struct CreateDocumentView {
    pub company_id: int,
    pub file_name: Option<Seq<char>>,
    pub file_path: Option<Seq<char>>,
    pub hash_sha256: Option<Seq<char>>,
    pub status_id: int,
    pub signer_full_name: Option<Seq<char>>,
    pub signer_phone_number: Option<Seq<char>>,
    pub signer_email: Option<Seq<char>>,
    pub signer_national_id: Option<Seq<char>>,
    pub photo_id_url: Option<Seq<char>>,
}

impl View for CreateDocument {
    type V = CreateDocumentView;

    open spec fn view(&self) -> CreateDocumentView {
        CreateDocumentView {
            company_id: self.company_id as int,
            file_name: text_view(self.file_name),
            file_path: text_view(self.file_path),
            hash_sha256: text_view(self.hash_sha256),
            status_id: self.status_id as int,
            signer_full_name: text_view(self.signer_full_name),
            signer_phone_number: text_view(self.signer_phone_number),
            signer_email: text_view(self.signer_email),
            signer_national_id: text_view(self.signer_national_id),
            photo_id_url: text_view(self.photo_id_url),
        }
    }
}

/// The request that names nothing: company and status 0, no field set.
pub open spec fn empty_request() -> CreateDocumentView {
    CreateDocumentView {
        company_id: 0,
        file_name: None,
        file_path: None,
        hash_sha256: None,
        status_id: 0,
        signer_full_name: None,
        signer_phone_number: None,
        signer_email: None,
        signer_national_id: None,
        photo_id_url: None,
    }
}

impl Default for CreateDocument {
    fn default() -> (request: CreateDocument)
        ensures
            request@ == empty_request(),
    {
        CreateDocument {
            company_id: 0,
            file_name: None,
            file_path: None,
            hash_sha256: None,
            status_id: 0,
            signer_full_name: None,
            signer_phone_number: None,
            signer_email: None,
            signer_national_id: None,
            photo_id_url: None,
        }
    }
}

/// The changes to make to a document; an absent field stays as it is.
pub struct UpdateDocument {
    pub file_name: Option<String>,
    pub status_id: Option<i32>,
}

/// A person who signs documents, known by a national identifier.
pub struct Signer {
    pub signer_id: i64,
    pub full_name: String,
    pub national_id: String,
    pub phone_number: String,
    pub contact_email: String,
    pub public_key: String,
    pub created_at: i64,
    pub updated_at: Option<i64>,
    pub deleted_at: Option<i64>,
    pub user_id: Option<i64>,
    pub photo_id_url: Option<String>,
}

/// A signer as a value.
pub struct SignerView {
    pub signer_id: int,
    pub full_name: Seq<char>,
    pub national_id: Seq<char>,
    pub phone_number: Seq<char>,
    pub contact_email: Seq<char>,
    pub public_key: Seq<char>,
    pub created_at: int,
    pub updated_at: Option<int>,
    pub deleted_at: Option<int>,
    pub user_id: Option<int>,
    pub photo_id_url: Option<Seq<char>>,
}

impl View for Signer {
    type V = SignerView;

    open spec fn view(&self) -> SignerView {
        SignerView {
            signer_id: self.signer_id as int,
            full_name: self.full_name@,
            national_id: self.national_id@,
            phone_number: self.phone_number@,
            contact_email: self.contact_email@,
            public_key: self.public_key@,
            created_at: self.created_at as int,
            updated_at: instant_view(self.updated_at),
            deleted_at: instant_view(self.deleted_at),
            user_id: instant_view(self.user_id),
            photo_id_url: text_view(self.photo_id_url),
        }
    }
}

impl Signer {
    /// A copy of the signer.
    pub fn duplicate(&self) -> (copy: Signer)
        ensures
            copy@ == self@,
    {
        Signer {
            signer_id: self.signer_id,
            full_name: self.full_name.clone(),
            national_id: self.national_id.clone(),
            phone_number: self.phone_number.clone(),
            contact_email: self.contact_email.clone(),
            public_key: self.public_key.clone(),
            created_at: self.created_at,
            updated_at: self.updated_at,
            deleted_at: self.deleted_at,
            user_id: self.user_id,
            photo_id_url: clone_text(&self.photo_id_url),
        }
    }
}

/// A request to attach a signer to a document.
pub struct CreateSigner {
    pub full_name: String,
    pub doc_id: i64,
    pub email: String,
    pub phone_number: String,
    pub national_id: String,
    pub photo_id_url: String,
}

/// The attachment of a signer to a document, with the state of the
/// signature.
#[derive(Clone, Copy, Debug, PartialEq, Eq, Structural)]
pub struct DocumentSigner {
    pub document_id: i64,
    pub signer_id: i64,
    pub status_id: i32,
}

/// Why a registration did not take place.
#[derive(Clone, Copy, Debug, PartialEq, Eq, Structural)]
pub enum RegistrationError {
    /// A required field of the document or of a new signer is missing.
    ValidationError,
    /// The store could not take the change.
    PersistenceError,
}

/// Documents are numbered from 1 in the order of their creation.
pub open spec fn documents_wf(rows: Seq<DocumentView>) -> bool {
    &&& rows.len() <= i64::MAX
    &&& forall|i: int| 0 <= i < rows.len() ==> (#[trigger] rows[i]).document_id == i + 1
}

/// Whether row `i` is a signer with `national_id` that has not been deleted.
pub open spec fn is_active_signer(rows: Seq<SignerView>, national_id: Seq<char>, i: int) -> bool {
    0 <= i < rows.len() && rows[i].national_id == national_id && rows[i].deleted_at.is_none()
}

/// The signer with `national_id` that has not been deleted, if there is one.
pub open spec fn active_signer(rows: Seq<SignerView>, national_id: Seq<char>) -> Option<SignerView> {
    if exists|i: int| is_active_signer(rows, national_id, i) {
        Some(rows[choose|i: int| is_active_signer(rows, national_id, i)])
    } else {
        None
    }
}

/// Signers are numbered from 1 in the order of their creation, and no two
/// signers that have not been deleted share a national identifier.
pub open spec fn signers_wf(rows: Seq<SignerView>) -> bool {
    &&& rows.len() <= i64::MAX
    &&& forall|i: int| 0 <= i < rows.len() ==> (#[trigger] rows[i]).signer_id == i + 1
    &&& forall|i: int, j: int|
        #![trigger rows[i], rows[j]]
        0 <= i < rows.len() && 0 <= j < rows.len() && rows[i].national_id == rows[j].national_id
            && rows[i].deleted_at.is_none() && rows[j].deleted_at.is_none() ==> i == j
}

/// The documents on record.
pub struct DocumentTable {
    rows: Vec<Document>,
}

impl DocumentTable {
    #[verifier::type_invariant]
    spec fn well_formed(&self) -> bool {
        documents_wf(self.rows@.map_values(|d: Document| d@))
    }

    /// The documents in the order of their creation.
    pub closed spec fn view(&self) -> Seq<DocumentView> {
        self.rows@.map_values(|d: Document| d@)
    }

    /// A table without documents.
    pub fn new() -> (table: DocumentTable)
        ensures
            table@ == Seq::<DocumentView>::empty(),
    {
        let table = DocumentTable { rows: Vec::new() };
        assert(table@ =~= Seq::<DocumentView>::empty());
        table
    }

    /// The number of documents, deleted ones included.
    pub fn len(&self) -> (n: usize)
        ensures
            n == self@.len(),
            documents_wf(self@),
    {
        proof {
            use_type_invariant(self);
        }
        self.rows.len()
    }

    /// Whether the table can take another document.
    pub fn has_room(&self) -> (room: bool)
        ensures
            room == (self@.len() < i64::MAX),
            documents_wf(self@),
    {
        proof {
            use_type_invariant(self);
        }
        (self.rows.len() as u64) < i64::MAX as u64
    }

    /// The document at position `at`, counted from 0.
    pub fn row(&self, at: usize) -> (copy: Document)
        requires
            at < self@.len(),
        ensures
            copy@ == self@[at as int],
    {
        self.rows[at].duplicate()
    }

    /// Appends `document`, which carries the next free number.
    pub fn push(&mut self, document: Document)
        requires
            old(self)@.len() < i64::MAX,
            document.document_id == old(self)@.len() + 1,
        ensures
            final(self)@ == old(self)@.push(document@),
            documents_wf(final(self)@),
    {
        proof {
            use_type_invariant(&*self);
        }
        let mut rows: Vec<Document> = Vec::new();
        core::mem::swap(&mut self.rows, &mut rows);
        let ghost before = rows@.map_values(|d: Document| d@);
        rows.push(document);
        assert(rows@.map_values(|d: Document| d@) =~= before.push(document@));
        self.rows = rows;
    }

    /// Puts `document` in the place of the document with its number.
    pub fn put(&mut self, document: Document)
        requires
            1 <= document.document_id <= old(self)@.len(),
        ensures
            final(self)@ == old(self)@.update(document.document_id - 1, document@),
            documents_wf(final(self)@),
    {
        proof {
            use_type_invariant(&*self);
        }
        let count = self.rows.len();
        assert(self@.len() == count);
        let at: usize = (document.document_id - 1) as usize;
        let mut rows: Vec<Document> = Vec::new();
        core::mem::swap(&mut self.rows, &mut rows);
        let ghost before = rows@.map_values(|d: Document| d@);
        rows[at] = document;
        assert(rows@.map_values(|d: Document| d@) =~= before.update(at as int, document@));
        self.rows = rows;
    }

    /// The document numbered `document_id`, unless it has been deleted.
    pub fn get(&self, document_id: i64) -> (found: Option<Document>)
        ensures
            documents_wf(self@),
            match found {
                Some(document) => document_by_id(self@, document_id as int) == Some(document@),
                None => document_by_id(self@, document_id as int).is_none(),
            },
    {
        proof {
            use_type_invariant(self);
        }
        if document_id < 1 || document_id as u64 > self.rows.len() as u64 {
            return None;
        }
        let row = &self.rows[(document_id - 1) as usize];
        if row.deleted_at.is_none() {
            Some(row.duplicate())
        } else {
            None
        }
    }

    /// The documents that have not been deleted, in the order of their
    /// numbers.
    pub fn active(&self) -> (list: Vec<Document>)
        ensures
            list@.map_values(|d: Document| d@) == active_documents(self@),
    {
        let mut list: Vec<Document> = Vec::new();
        let mut i: usize = 0;
        proof {
            assert(self@.take(0) =~= Seq::<DocumentView>::empty());
            reveal(Seq::filter);
            assert(list@.map_values(|d: Document| d@) =~= active_documents(self@.take(0)));
        }
        while i < self.rows.len()
            invariant
                i <= self.rows.len(),
                self@ == self.rows@.map_values(|d: Document| d@),
                list@.map_values(|d: Document| d@) == active_documents(self@.take(i as int)),
            decreases self.rows.len() - i,
        {
            let ghost before = list@.map_values(|d: Document| d@);
            proof {
                assert(self@.take(i + 1) =~= self@.take(i as int).push(self@[i as int]));
                self@.take(i as int).lemma_filter_push(
                    self@[i as int],
                    |d: DocumentView| d.deleted_at.is_none(),
                );
            }
            if self.rows[i].deleted_at.is_none() {
                list.push(self.rows[i].duplicate());
                assert(list@.map_values(|d: Document| d@) =~= before.push(self@[i as int]));
            }
            i += 1;
        }
        assert(self@.take(i as int) =~= self@);
        list
    }
}

/// The document numbered `document_id`, unless it has been deleted.
pub open spec fn document_by_id(rows: Seq<DocumentView>, document_id: int) -> Option<DocumentView> {
    if 1 <= document_id <= rows.len() && rows[document_id - 1].deleted_at.is_none() {
        Some(rows[document_id - 1])
    } else {
        None
    }
}

/// The documents that have not been deleted, in the order of their numbers.
pub open spec fn active_documents(rows: Seq<DocumentView>) -> Seq<DocumentView> {
    rows.filter(|d: DocumentView| d.deleted_at.is_none())
}

/// The signers on record.
pub struct SignerTable {
    rows: Vec<Signer>,
}

impl SignerTable {
    #[verifier::type_invariant]
    spec fn well_formed(&self) -> bool {
        signers_wf(self.rows@.map_values(|s: Signer| s@))
    }

    /// The signers in the order of their creation.
    pub closed spec fn view(&self) -> Seq<SignerView> {
        self.rows@.map_values(|s: Signer| s@)
    }

    /// A table without signers.
    pub fn new() -> (table: SignerTable)
        ensures
            table@ == Seq::<SignerView>::empty(),
    {
        let table = SignerTable { rows: Vec::new() };
        assert(table@ =~= Seq::<SignerView>::empty());
        table
    }

    /// The number of signers, deleted ones included.
    pub fn len(&self) -> (n: usize)
        ensures
            n == self@.len(),
            signers_wf(self@),
    {
        proof {
            use_type_invariant(self);
        }
        self.rows.len()
    }

    /// Whether the table can take another signer.
    pub fn has_room(&self) -> (room: bool)
        ensures
            room == (self@.len() < i64::MAX),
            signers_wf(self@),
    {
        proof {
            use_type_invariant(self);
        }
        (self.rows.len() as u64) < i64::MAX as u64
    }

    /// The signer with `national_id` that has not been deleted.
    pub fn find_by_national_id(&self, national_id: &str) -> (found: Option<Signer>)
        ensures
            signers_wf(self@),
            match found {
                Some(signer) => active_signer(self@, national_id@) == Some(signer@),
                None => active_signer(self@, national_id@).is_none(),
            },
    {
        proof {
            use_type_invariant(self);
        }
        let mut i: usize = 0;
        while i < self.rows.len()
            invariant
                i <= self.rows.len(),
                self@ == self.rows@.map_values(|s: Signer| s@),
                signers_wf(self@),
                forall|j: int| 0 <= j < i ==> !is_active_signer(self@, national_id@, j),
            decreases self.rows.len() - i,
        {
            let row = &self.rows[i];
            if row.deleted_at.is_none() && text_eq(row.national_id.as_str(), national_id) {
                proof {
                    assert(is_active_signer(self@, national_id@, i as int));
                    let chosen = choose|k: int| is_active_signer(self@, national_id@, k);
                    assert(self@[chosen].national_id == self@[i as int].national_id);
                }
                return Some(row.duplicate());
            }
            i += 1;
        }
        None
    }

    /// The signer numbered `signer_id`, unless it has been deleted.
    pub fn get(&self, signer_id: i64) -> (found: Option<Signer>)
        ensures
            signers_wf(self@),
            match found {
                Some(signer) => signer_by_id(self@, signer_id as int) == Some(signer@),
                None => signer_by_id(self@, signer_id as int).is_none(),
            },
    {
        proof {
            use_type_invariant(self);
        }
        if signer_id < 1 || signer_id as u64 > self.rows.len() as u64 {
            return None;
        }
        let row = &self.rows[(signer_id - 1) as usize];
        if row.deleted_at.is_none() {
            Some(row.duplicate())
        } else {
            None
        }
    }

    /// Appends `signer`, which carries the next free number and a national
    /// identifier that no signer on record has.
    pub fn push(&mut self, signer: Signer)
        requires
            old(self)@.len() < i64::MAX,
            signer.signer_id == old(self)@.len() + 1,
            active_signer(old(self)@, signer.national_id@).is_none(),
        ensures
            final(self)@ == old(self)@.push(signer@),
            signers_wf(final(self)@),
    {
        proof {
            use_type_invariant(&*self);
        }
        let mut rows: Vec<Signer> = Vec::new();
        core::mem::swap(&mut self.rows, &mut rows);
        let ghost before = rows@.map_values(|s: Signer| s@);
        rows.push(signer);
        proof {
            let after = rows@.map_values(|s: Signer| s@);
            assert(after =~= before.push(signer@));
            lemma_signer_added(before, signer@);
        }
        self.rows = rows;
    }
}

/// Adding a signer whose national identifier no signer on record has keeps
/// the signers well formed.
pub proof fn lemma_signer_added(rows: Seq<SignerView>, signer: SignerView)
    requires
        signers_wf(rows),
        rows.len() < i64::MAX,
        signer.signer_id == rows.len() + 1,
        active_signer(rows, signer.national_id).is_none(),
    ensures
        signers_wf(rows.push(signer)),
{
    let after = rows.push(signer);
    assert forall|i: int, j: int|
        #![trigger after[i], after[j]]
        0 <= i < after.len() && 0 <= j < after.len() && after[i].national_id
            == after[j].national_id && after[i].deleted_at.is_none()
            && after[j].deleted_at.is_none() implies i == j by {
        if i < rows.len() && j < rows.len() {
            assert(rows[i].national_id == rows[j].national_id);
        } else if i < rows.len() {
            assert(is_active_signer(rows, signer.national_id, i));
        } else if j < rows.len() {
            assert(is_active_signer(rows, signer.national_id, j));
        }
    }
}

/// The signer numbered `signer_id`, unless it has been deleted.
pub open spec fn signer_by_id(rows: Seq<SignerView>, signer_id: int) -> Option<SignerView> {
    if 1 <= signer_id <= rows.len() && rows[signer_id - 1].deleted_at.is_none() {
        Some(rows[signer_id - 1])
    } else {
        None
    }
}

/// Whether the attachments agree with the documents and the signers:
/// every document has exactly one attachment, in the order of the documents,
/// and each attachment names a signer on record.
pub open spec fn attachments_agree(
    documents: Seq<DocumentView>,
    signers: Seq<SignerView>,
    attachments: Seq<DocumentSigner>,
) -> bool {
    &&& attachments.len() == documents.len()
    &&& forall|k: int|
        0 <= k < attachments.len() ==> {
            &&& (#[trigger] attachments[k]).document_id == k + 1
            &&& 1 <= attachments[k].signer_id <= signers.len()
        }
}

/// The documents, the signers and the attachments between them. The three
/// are kept in agreement: whatever is done to a registry, every document in
/// it has exactly one attachment, to a signer in it.
pub struct Registry {
    documents: DocumentTable,
    signers: SignerTable,
    attachments: Vec<DocumentSigner>,
}

impl Registry {
    #[verifier::type_invariant]
    spec fn agrees(&self) -> bool {
        attachments_agree(self.documents@, self.signers@, self.attachments@)
    }

    /// The documents in the order of their creation.
    pub closed spec fn documents_view(&self) -> Seq<DocumentView> {
        self.documents@
    }

    /// The signers in the order of their creation.
    pub closed spec fn signers_view(&self) -> Seq<SignerView> {
        self.signers@
    }

    /// The attachments in the order of their creation.
    pub closed spec fn attachments_view(&self) -> Seq<DocumentSigner> {
        self.attachments@
    }

    /// Whether the registry is in order: documents and signers are well
    /// numbered, and the attachments agree with them.
    pub open spec fn well_formed(&self) -> bool {
        &&& documents_wf(self.documents_view())
        &&& signers_wf(self.signers_view())
        &&& attachments_agree(self.documents_view(), self.signers_view(), self.attachments_view())
    }

    /// A registry with nothing in it.
    pub fn new() -> (registry: Registry)
        ensures
            registry.documents_view() == Seq::<DocumentView>::empty(),
            registry.signers_view() == Seq::<SignerView>::empty(),
            registry.attachments_view() == Seq::<DocumentSigner>::empty(),
    {
        Registry {
            documents: DocumentTable::new(),
            signers: SignerTable::new(),
            attachments: Vec::new(),
        }
    }

    /// The documents.
    pub fn documents(&self) -> (table: &DocumentTable)
        ensures
            table@ == self.documents_view(),
            self.well_formed(),
    {
        proof {
            use_type_invariant(self);
        }
        let _ = self.documents.len();
        let _ = self.signers.len();
        &self.documents
    }

    /// The signers.
    pub fn signers(&self) -> (table: &SignerTable)
        ensures
            table@ == self.signers_view(),
            self.well_formed(),
    {
        proof {
            use_type_invariant(self);
        }
        let _ = self.documents.len();
        let _ = self.signers.len();
        &self.signers
    }

    /// The attachments: one for each document, in the order of the
    /// documents.
    pub fn attachments(&self) -> (list: &Vec<DocumentSigner>)
        ensures
            list@ == self.attachments_view(),
            self.well_formed(),
    {
        proof {
            use_type_invariant(self);
        }
        let _ = self.documents.len();
        let _ = self.signers.len();
        &self.attachments
    }

    /// Adds `signer`, which carries the next free number and a national
    /// identifier that no signer on record has.
    pub fn add_signer(&mut self, signer: Signer)
        requires
            old(self).signers_view().len() < i64::MAX,
            signer.signer_id == old(self).signers_view().len() + 1,
            active_signer(old(self).signers_view(), signer.national_id@).is_none(),
        ensures
            final(self).signers_view() == old(self).signers_view().push(signer@),
            final(self).documents_view() == old(self).documents_view(),
            final(self).attachments_view() == old(self).attachments_view(),
            final(self).well_formed(),
    {
        let mut taken = Registry::new();
        core::mem::swap(self, &mut taken);
        proof {
            use_type_invariant(&taken);
        }
        let Registry { documents, mut signers, attachments } = taken;
        signers.push(signer);
        let _ = documents.len();
        *self = Registry { documents, signers, attachments };
    }

    /// Adds `document`, which carries the next free number, together with
    /// its attachment to the signer numbered `signer_id`.
    pub fn add_document(&mut self, document: Document, signer_id: i64)
        requires
            old(self).documents_view().len() < i64::MAX,
            document.document_id == old(self).documents_view().len() + 1,
            1 <= signer_id <= old(self).signers_view().len(),
        ensures
            final(self).documents_view() == old(self).documents_view().push(document@),
            final(self).signers_view() == old(self).signers_view(),
            final(self).attachments_view() == old(self).attachments_view().push(
                new_attachment(document.document_id as int, signer_id as int),
            ),
            final(self).well_formed(),
    {
        let mut taken = Registry::new();
        core::mem::swap(self, &mut taken);
        proof {
            use_type_invariant(&taken);
        }
        let Registry { mut documents, signers, mut attachments } = taken;
        let document_id = document.document_id;
        documents.push(document);
        attachments.push(
            DocumentSigner { document_id, signer_id, status_id: INITIAL_SIGNING_STATUS },
        );
        let _ = signers.len();
        *self = Registry { documents, signers, attachments };
    }

    /// Puts `document` in the place of the document with its number.
    pub fn put_document(&mut self, document: Document)
        requires
            1 <= document.document_id <= old(self).documents_view().len(),
        ensures
            final(self).documents_view() == old(self).documents_view().update(
                document.document_id - 1,
                document@,
            ),
            final(self).signers_view() == old(self).signers_view(),
            final(self).attachments_view() == old(self).attachments_view(),
            final(self).well_formed(),
    {
        let mut taken = Registry::new();
        core::mem::swap(self, &mut taken);
        proof {
            use_type_invariant(&taken);
        }
        let Registry { mut documents, signers, attachments } = taken;
        documents.put(document);
        let _ = signers.len();
        *self = Registry { documents, signers, attachments };
    }
}

/// Whether the request names the file, its place in storage and its
/// content hash.
pub open spec fn document_fields_present(req: CreateDocumentView) -> bool {
    req.file_name.is_some() && req.file_path.is_some() && req.hash_sha256.is_some()
}

/// Whether the request holds what a new signer needs: full name, phone,
/// email and national identifier.
pub open spec fn signer_fields_present(req: CreateDocumentView) -> bool {
    req.signer_full_name.is_some() && req.signer_phone_number.is_some()
        && req.signer_email.is_some() && req.signer_national_id.is_some()
}

impl CreateDocument {
    /// Whether the request names the file, its place in storage and its
    /// content hash.
    pub fn has_document_fields(&self) -> (present: bool)
        ensures
            present == document_fields_present(self@),
    {
        self.file_name.is_some() && self.file_path.is_some() && self.hash_sha256.is_some()
    }

    /// Whether the request holds what a new signer needs.
    pub fn has_signer_fields(&self) -> (present: bool)
        ensures
            present == signer_fields_present(self@),
    {
        self.signer_full_name.is_some() && self.signer_phone_number.is_some()
            && self.signer_email.is_some() && self.signer_national_id.is_some()
    }
}

/// The signer on record whom the request names by national identifier.
pub open spec fn known_signer(signers: Seq<SignerView>, req: CreateDocumentView) -> Option<
    SignerView,
> {
    match req.signer_national_id {
        Some(national_id) => active_signer(signers, national_id),
        None => None,
    }
}

/// The document that a registration at `now` adds to `rows`.
pub open spec fn new_document(rows: Seq<DocumentView>, req: CreateDocumentView, now: int) -> DocumentView {
    DocumentView {
        document_id: rows.len() as int + 1,
        company_id: req.company_id,
        file_name: req.file_name.unwrap(),
        file_path: req.file_path.unwrap(),
        hash_sha256: req.hash_sha256.unwrap(),
        status_id: req.status_id,
        created_at: now,
        updated_at: None,
        deleted_at: None,
    }
}

/// The signer that a registration at `now` adds to `rows`.
pub open spec fn new_signer(rows: Seq<SignerView>, req: CreateDocumentView, now: int) -> SignerView {
    SignerView {
        signer_id: rows.len() as int + 1,
        full_name: req.signer_full_name.unwrap(),
        national_id: req.signer_national_id.unwrap(),
        phone_number: req.signer_phone_number.unwrap(),
        contact_email: req.signer_email.unwrap(),
        public_key: Seq::empty(),
        created_at: now,
        updated_at: None,
        deleted_at: None,
        user_id: None,
        photo_id_url: req.photo_id_url,
    }
}

/// The attachment of signer `signer_id` to document `document_id` as a
/// registration records it.
pub open spec fn new_attachment(document_id: int, signer_id: int) -> DocumentSigner {
    DocumentSigner {
        document_id: document_id as i64,
        signer_id: signer_id as i64,
        status_id: INITIAL_SIGNING_STATUS,
    }
}

/// The records and the outcome after the registration of `req` at `now`.
/// The document is recorded together with one attachment, to the signer on
/// record with the request's national identifier or else to a new signer
/// made from the request. A failure leaves every record as it was.
pub open spec fn registration(s: AppStateView, req: CreateDocumentView, now: int) -> (
    AppStateView,
    Result<DocumentView, RegistrationError>,
) {
    let document = new_document(s.documents, req, now);
    if !document_fields_present(req) {
        (s, Err(RegistrationError::ValidationError))
    } else {
        match known_signer(s.signers, req) {
            Some(signer) => if s.documents.len() >= i64::MAX {
                (s, Err(RegistrationError::PersistenceError))
            } else {
                (
                    AppStateView {
                        documents: s.documents.push(document),
                        document_signers: s.document_signers.push(
                            new_attachment(document.document_id, signer.signer_id),
                        ),
                        ..s
                    },
                    Ok(document),
                )
            },
            None => if !signer_fields_present(req) {
                (s, Err(RegistrationError::ValidationError))
            } else if s.documents.len() >= i64::MAX || s.signers.len() >= i64::MAX {
                (s, Err(RegistrationError::PersistenceError))
            } else {
                let signer = new_signer(s.signers, req, now);
                (
                    AppStateView {
                        documents: s.documents.push(document),
                        signers: s.signers.push(signer),
                        document_signers: s.document_signers.push(
                            new_attachment(document.document_id, signer.signer_id),
                        ),
                        ..s
                    },
                    Ok(document),
                )
            },
        }
    }
}

/// The outcome of a registration, with its document as a view.
pub open spec fn registered_view(outcome: Result<Document, RegistrationError>) -> Result<
    DocumentView,
    RegistrationError,
> {
    match outcome {
        Ok(document) => Ok(document@),
        Err(e) => Err(e),
    }
}

/// What a registration does about the signer.
#[derive(Clone, Copy, Debug, PartialEq, Eq, Structural)]
pub enum SignerChoice {
    /// The signer with this number is on record and is attached as it is.
    Reuse(i64),
    /// No signer has the national identifier; one is made from the request.
    Create,
}

/// What a registration does about the signer, given the number of the
/// signer on record with the request's national identifier, if there is one.
/// The request is judged before anything is recorded: a request without its
/// document fields is refused, and so is one that needs a new signer and
/// lacks one of the signer's fields.
pub open spec fn signer_choice(req: CreateDocumentView, known: Option<int>) -> Result<
    SignerChoice,
    RegistrationError,
> {
    if !document_fields_present(req) {
        Err(RegistrationError::ValidationError)
    } else {
        match known {
            Some(signer_id) => Ok(SignerChoice::Reuse(signer_id as i64)),
            None => if signer_fields_present(req) {
                Ok(SignerChoice::Create)
            } else {
                Err(RegistrationError::ValidationError)
            },
        }
    }
}

/// Judges a registration request before anything is recorded, and says
/// what to do about the signer.
pub fn plan_registration(new_document: &CreateDocument, known: Option<i64>) -> (choice: Result<
    SignerChoice,
    RegistrationError,
>)
    ensures
        choice == signer_choice(
            new_document@,
            match known {
                Some(signer_id) => Some(signer_id as int),
                None => None,
            },
        ),
{
    if !new_document.has_document_fields() {
        return Err(RegistrationError::ValidationError);
    }
    match known {
        Some(signer_id) => Ok(SignerChoice::Reuse(signer_id)),
        None => if new_document.has_signer_fields() {
            Ok(SignerChoice::Create)
        } else {
            Err(RegistrationError::ValidationError)
        },
    }
}

/// A registration fails on a request exactly where the judgement of the
/// request fails, or the store is full; and where it succeeds, the signer it
/// attaches is the one the judgement names.
pub proof fn law_registration_follows_plan(s: AppStateView, req: CreateDocumentView, now: int)
    requires
        signers_wf(s.signers),
    ensures
        ({
            let known = match known_signer(s.signers, req) {
                Some(signer) => Some(signer.signer_id),
                None => None,
            };
            match signer_choice(req, known) {
                Err(e) => registration(s, req, now) == (s, Err::<DocumentView, RegistrationError>(e)),
                Ok(SignerChoice::Reuse(signer_id)) => registration(s, req, now).1.is_ok() ==> registration(
                    s,
                    req,
                    now,
                ).0.document_signers.last().signer_id == signer_id && registration(
                    s,
                    req,
                    now,
                ).0.signers == s.signers,
                Ok(SignerChoice::Create) => registration(s, req, now).1.is_ok() ==> registration(
                    s,
                    req,
                    now,
                ).0.signers == s.signers.push(new_signer(s.signers, req, now)),
            }
        }),
{
    if known_signer(s.signers, req).is_some() {
        let national_id = req.signer_national_id.unwrap();
        let chosen = choose|i: int| is_active_signer(s.signers, national_id, i);
        assert(known_signer(s.signers, req).unwrap() == s.signers[chosen]);
    }
}

/// Registers a document with its signer as of the instant `now`.
pub fn create_document_and_signer_at(
    data: &mut AppState,
    new_document: &CreateDocument,
    now: i64,
) -> (outcome: Result<Document, RegistrationError>)
    ensures
        (final(data)@, registered_view(outcome)) == registration(
            old(data)@,
            new_document@,
            now as int,
        ),
        records_in_order(old(data)@),
        records_in_order(final(data)@),
{
    let _ = data.registry.attachments();
    proof {
        law_one_attachment_per_document(data@, new_document@, now as int);
    }
    let known = match &new_document.signer_national_id {
        Some(national_id) => data.registry.signers().find_by_national_id(national_id.as_str()),
        None => None,
    };
    let known_id = match &known {
        Some(signer) => Some(signer.signer_id),
        None => None,
    };
    let choice = match plan_registration(new_document, known_id) {
        Ok(choice) => choice,
        Err(e) => {
            return Err(e);
        },
    };
    let (file_name, file_path, hash_sha256) = match (
        &new_document.file_name,
        &new_document.file_path,
        &new_document.hash_sha256,
    ) {
        (Some(name), Some(path), Some(hash)) => (name.clone(), path.clone(), hash.clone()),
        _ => {
            return Err(RegistrationError::ValidationError);
        },
    };
    let documents_room = data.registry.documents().has_room();
    let signers_room = data.registry.signers().has_room();
    let document_id: i64 = if documents_room {
        (data.registry.documents().len() as u64 + 1) as i64
    } else {
        0
    };
    let signer_id: i64 = match choice {
        SignerChoice::Reuse(signer_id) => {
            if !documents_room {
                return Err(RegistrationError::PersistenceError);
            }
            signer_id
        },
        SignerChoice::Create => {
            let (full_name, phone_number, contact_email, national_id) = match (
                &new_document.signer_full_name,
                &new_document.signer_phone_number,
                &new_document.signer_email,
                &new_document.signer_national_id,
            ) {
                (Some(name), Some(phone), Some(email), Some(id)) => (
                    name.clone(),
                    phone.clone(),
                    email.clone(),
                    id.clone(),
                ),
                _ => {
                    return Err(RegistrationError::ValidationError);
                },
            };
            if !documents_room || !signers_room {
                return Err(RegistrationError::PersistenceError);
            }
            let signer_id: i64 = (data.registry.signers().len() as u64 + 1) as i64;
            data.registry.add_signer(
                Signer {
                    signer_id,
                    full_name,
                    national_id,
                    phone_number,
                    contact_email,
                    public_key: String::new(),
                    created_at: now,
                    updated_at: None,
                    deleted_at: None,
                    user_id: None,
                    photo_id_url: clone_text(&new_document.photo_id_url),
                },
            );
            signer_id
        },
    };
    let document = Document {
        document_id,
        company_id: new_document.company_id,
        file_name,
        file_path,
        hash_sha256,
        status_id: new_document.status_id,
        created_at: now,
        updated_at: None,
        deleted_at: None,
    };
    let copy = document.duplicate();
    data.registry.add_document(document, signer_id);
    Ok(copy)
}

/// Registers a document with its signer at the current time. When the
/// clock lies outside the instants the service handles, nothing is recorded
/// and the registration fails with `PersistenceError`.
pub fn create_document_and_signer(data: &mut AppState, new_document: &CreateDocument) -> (outcome:
    Result<Document, RegistrationError>)
    ensures
        (exists|now: int|
            valid_timestamp(now) && (final(data)@, registered_view(outcome))
                == #[trigger] registration(old(data)@, new_document@, now)) || (outcome == Err::<
            Document,
            RegistrationError,
        >(RegistrationError::PersistenceError) && final(data)@ == old(data)@),
        !document_fields_present(new_document@) || (known_signer(
            old(data)@.signers,
            new_document@,
        ).is_none() && !signer_fields_present(new_document@)) ==> outcome.is_err() && final(data)@
            == old(data)@,
        records_in_order(old(data)@),
        records_in_order(final(data)@),
{
    let _ = data.registry.attachments();
    match current_time() {
        Some(now) => {
            let outcome = create_document_and_signer_at(data, new_document, now);
            assert((data@, registered_view(outcome)) == registration(
                old(data)@,
                new_document@,
                now as int,
            ));
            outcome
        },
        None => Err(RegistrationError::PersistenceError),
    }
}

/// A registration keeps documents and signers well formed.
pub proof fn lemma_registration_keeps_order(s: AppStateView, req: CreateDocumentView, now: int)
    requires
        documents_wf(s.documents),
        signers_wf(s.signers),
    ensures
        documents_wf(registration(s, req, now).0.documents),
        signers_wf(registration(s, req, now).0.signers),
{
    let after = registration(s, req, now).0;
    if registration(s, req, now).1.is_ok() {
        assert(after.documents == s.documents.push(new_document(s.documents, req, now)));
        if known_signer(s.signers, req).is_none() {
            lemma_signer_added(s.signers, new_signer(s.signers, req, now));
        }
    }
}

/// After a successful registration the signer named by the request is on
/// record, and the last attachment ties the new document to that signer.
pub proof fn lemma_registration_attaches(s: AppStateView, req: CreateDocumentView, now: int)
    requires
        signers_wf(s.signers),
        registration(s, req, now).1.is_ok(),
        req.signer_national_id.is_some(),
    ensures
        ({
            let after = registration(s, req, now).0;
            &&& known_signer(after.signers, req) matches Some(signer)
            &&& after.document_signers.len() == s.document_signers.len() + 1
            &&& after.document_signers.last() == new_attachment(
                s.documents.len() as int + 1,
                signer.signer_id,
            )
            &&& after.documents.len() == s.documents.len() + 1
            &&& after.documents.last() == registration(s, req, now).1.unwrap()
            &&& after.signers.len() == s.signers.len() + (if known_signer(s.signers, req).is_some() {
                0int
            } else {
                1int
            })
        }),
{
    let after = registration(s, req, now).0;
    let national_id = req.signer_national_id.unwrap();
    if known_signer(s.signers, req).is_none() {
        let signer = new_signer(s.signers, req, now);
        lemma_signer_added(s.signers, signer);
        let last = s.signers.len() as int;
        assert(after.signers == s.signers.push(signer));
        assert(is_active_signer(after.signers, national_id, last));
        let chosen = choose|k: int| is_active_signer(after.signers, national_id, k);
        assert(after.signers[chosen].national_id == after.signers[last].national_id);
    }
}

/// Two successful registrations that name the same national identifier
/// record two documents and at most one new signer. Each of the two
/// documents has exactly one attachment, and both attachments name the one
/// signer on record with that identifier, who is new exactly when the
/// identifier was not on record before.
pub proof fn law_signer_is_shared(
    s: AppStateView,
    first: CreateDocumentView,
    first_at: int,
    second: CreateDocumentView,
    second_at: int,
)
    requires
        records_in_order(s),
        first.signer_national_id.is_some(),
        first.signer_national_id == second.signer_national_id,
        registration(s, first, first_at).1.is_ok(),
        registration(registration(s, first, first_at).0, second, second_at).1.is_ok(),
    ensures
        ({
            let once = registration(s, first, first_at).0;
            let twice = registration(once, second, second_at).0;
            let n = s.document_signers.len() as int;
            &&& signers_wf(twice.signers)
            &&& twice.documents.len() == s.documents.len() + 2
            &&& twice.signers.len() == s.signers.len() + (if known_signer(s.signers, first).is_some() {
                0int
            } else {
                1int
            })
            &&& twice.document_signers.len() == n + 2
            &&& twice.document_signers[n].document_id == s.documents.len() + 1
            &&& twice.document_signers[n + 1].document_id == s.documents.len() + 2
            &&& twice.document_signers[n].signer_id == twice.document_signers[n + 1].signer_id
            &&& active_signer(twice.signers, first.signer_national_id.unwrap()) matches Some(signer)
            &&& signer.signer_id == twice.document_signers[n].signer_id
            &&& records_in_order(twice)
            &&& registration(s, first, first_at).1.unwrap().document_id == n + 1
            &&& registration(once, second, second_at).1.unwrap().document_id == n + 2
            &&& forall|k: int|
                0 <= k < twice.document_signers.len() ==> ((
                #[trigger] twice.document_signers[k]).document_id == n + 1 <==> k == n)
            &&& forall|k: int|
                0 <= k < twice.document_signers.len() ==> ((
                #[trigger] twice.document_signers[k]).document_id == n + 2 <==> k == n + 1)
        }),
{
    let once = registration(s, first, first_at).0;
    let twice = registration(once, second, second_at).0;
    law_one_attachment_per_document(s, first, first_at);
    law_one_attachment_per_document(once, second, second_at);
    lemma_registration_keeps_order(s, first, first_at);
    lemma_registration_attaches(s, first, first_at);
    lemma_registration_keeps_order(once, second, second_at);
    lemma_registration_attaches(once, second, second_at);
    assert(known_signer(once.signers, second) == known_signer(once.signers, first));
    assert(twice.signers == once.signers);
    assert(twice.document_signers == once.document_signers.push(twice.document_signers.last()));
}

/// A registration that fails records nothing: no document, no signer and
/// no attachment. It fails with `ValidationError` whenever the signer is not
/// on record and one of the fields that a new signer needs is missing.
pub proof fn law_registration_is_atomic(s: AppStateView, req: CreateDocumentView, now: int)
    ensures
        registration(s, req, now).1.is_err() ==> registration(s, req, now).0 == s,
        known_signer(s.signers, req).is_none() && !signer_fields_present(req) ==> registration(
            s,
            req,
            now,
        ) == (s, Err::<DocumentView, RegistrationError>(RegistrationError::ValidationError)),
{
}

/// The documents that have not been deleted, in the order of their numbers.
pub fn get_all_documents(data: &AppState) -> (list: Vec<Document>)
    ensures
        list@.map_values(|d: Document| d@) == active_documents(data@.documents),
{
    data.registry.documents().active()
}

/// The document numbered `document_id`, unless it has been deleted.
pub fn get_document_by_id(data: &AppState, document_id: i64) -> (found: Option<Document>)
    ensures
        match found {
            Some(document) => document_by_id(data@.documents, document_id as int) == Some(document@),
            None => document_by_id(data@.documents, document_id as int).is_none(),
        },
{
    data.registry.documents().get(document_id)
}

/// The document `current` after `file_name` and `status_id` were applied
/// at `now`; an absent field keeps its value.
pub open spec fn updated_document(
    current: DocumentView,
    file_name: Option<Seq<char>>,
    status_id: Option<int>,
    now: int,
) -> DocumentView {
    DocumentView {
        file_name: match file_name {
            Some(name) => name,
            None => current.file_name,
        },
        status_id: match status_id {
            Some(status) => status,
            None => current.status_id,
        },
        updated_at: Some(now),
        ..current
    }
}

/// The documents and the outcome after document `document_id` was updated
/// at `now`; an unknown or deleted document gives `None` and changes nothing.
pub open spec fn document_update(
    rows: Seq<DocumentView>,
    document_id: int,
    file_name: Option<Seq<char>>,
    status_id: Option<int>,
    now: int,
) -> (Seq<DocumentView>, Option<DocumentView>) {
    match document_by_id(rows, document_id) {
        None => (rows, None),
        Some(current) => {
            let updated = updated_document(current, file_name, status_id, now);
            (rows.update(document_id - 1, updated), Some(updated))
        },
    }
}

/// An optional document as a view.
pub open spec fn found_view(found: Option<Document>) -> Option<DocumentView> {
    match found {
        Some(document) => Some(document@),
        None => None,
    }
}

/// An optional status as a value.
pub open spec fn status_view(status: Option<i32>) -> Option<int> {
    match status {
        Some(status) => Some(status as int),
        None => None,
    }
}

impl Document {
    /// The document after `update` was applied at `now`.
    pub fn updated(&self, update: &UpdateDocument, now: i64) -> (changed: Document)
        ensures
            changed@ == updated_document(
                self@,
                text_view(update.file_name),
                status_view(update.status_id),
                now as int,
            ),
    {
        Document {
            document_id: self.document_id,
            company_id: self.company_id,
            file_name: match &update.file_name {
                Some(name) => name.clone(),
                None => self.file_name.clone(),
            },
            file_path: self.file_path.clone(),
            hash_sha256: self.hash_sha256.clone(),
            status_id: match update.status_id {
                Some(status) => status,
                None => self.status_id,
            },
            created_at: self.created_at,
            updated_at: Some(now),
            deleted_at: self.deleted_at,
        }
    }
}

/// Updates the document `document_id` as of the instant `now`.
pub fn update_document_at(
    data: &mut AppState,
    document_id: i64,
    update: &UpdateDocument,
    now: i64,
) -> (outcome: Option<Document>)
    ensures
        (final(data)@.documents, found_view(outcome)) == document_update(
            old(data)@.documents,
            document_id as int,
            text_view(update.file_name),
            status_view(update.status_id),
            now as int,
        ),
        final(data)@ == (AppStateView { documents: final(data)@.documents, ..old(data)@ }),
{
    let current = match data.registry.documents().get(document_id) {
        Some(document) => document,
        None => {
            return None;
        },
    };
    let updated = current.updated(update, now);
    let copy = updated.duplicate();
    data.registry.put_document(updated);
    Some(copy)
}

/// Updates the document `document_id` at the current time. Fails with
/// `PersistenceError`, and changes nothing, when the clock lies outside the
/// instants the service handles.
pub fn update_document(data: &mut AppState, document_id: i64, update: &UpdateDocument) -> (outcome:
    Result<Option<Document>, RegistrationError>)
    ensures
        match outcome {
            Ok(found) => exists|now: int|
                valid_timestamp(now) && (final(data)@.documents, found_view(found))
                    == #[trigger] document_update(
                    old(data)@.documents,
                    document_id as int,
                    text_view(update.file_name),
                    status_view(update.status_id),
                    now,
                ),
            Err(e) => e == RegistrationError::PersistenceError && final(data)@.documents == old(data)@.documents,
        },
        final(data)@ == (AppStateView { documents: final(data)@.documents, ..old(data)@ }),
{
    match current_time() {
        Some(now) => {
            let found = update_document_at(data, document_id, update, now);
            assert((data@.documents, found_view(found)) == document_update(
                old(data)@.documents,
                document_id as int,
                text_view(update.file_name),
                status_view(update.status_id),
                now as int,
            ));
            Ok(found)
        },
        None => Err(RegistrationError::PersistenceError),
    }
}

/// The documents after document `document_id` was deleted at `now`, and
/// the number of documents that this changed: an unknown or already deleted
/// document changes none.
pub open spec fn document_deletion(rows: Seq<DocumentView>, document_id: int, now: int) -> (
    Seq<DocumentView>,
    u64,
) {
    match document_by_id(rows, document_id) {
        None => (rows, 0),
        Some(current) => (
            rows.update(document_id - 1, DocumentView { deleted_at: Some(now), ..current }),
            1,
        ),
    }
}

/// Deletes the document `document_id` as of the instant `now`: the
/// document stays on record, marked as deleted.
pub fn delete_document_at(data: &mut AppState, document_id: i64, now: i64) -> (changed: u64)
    ensures
        (final(data)@.documents, changed) == document_deletion(
            old(data)@.documents,
            document_id as int,
            now as int,
        ),
        final(data)@ == (AppStateView { documents: final(data)@.documents, ..old(data)@ }),
{
    let current = match data.registry.documents().get(document_id) {
        Some(document) => document,
        None => {
            return 0;
        },
    };
    let deleted = Document {
        document_id: current.document_id,
        company_id: current.company_id,
        file_name: current.file_name,
        file_path: current.file_path,
        hash_sha256: current.hash_sha256,
        status_id: current.status_id,
        created_at: current.created_at,
        updated_at: current.updated_at,
        deleted_at: Some(now),
    };
    data.registry.put_document(deleted);
    1
}

/// Deletes the document `document_id` at the current time and says how
/// many documents that changed. Fails with `PersistenceError`, and changes
/// nothing, when the clock lies outside the instants the service handles.
pub fn delete_document(data: &mut AppState, document_id: i64) -> (outcome: Result<
    u64,
    RegistrationError,
>)
    ensures
        match outcome {
            Ok(changed) => exists|now: int|
                valid_timestamp(now) && (final(data)@.documents, changed)
                    == #[trigger] document_deletion(old(data)@.documents, document_id as int, now),
            Err(e) => e == RegistrationError::PersistenceError && final(data)@.documents == old(data)@.documents,
        },
        final(data)@ == (AppStateView { documents: final(data)@.documents, ..old(data)@ }),
{
    match current_time() {
        Some(now) => {
            let changed = delete_document_at(data, document_id, now);
            assert((data@.documents, changed) == document_deletion(
                old(data)@.documents,
                document_id as int,
                now as int,
            ));
            Ok(changed)
        },
        None => Err(RegistrationError::PersistenceError),
    }
}

/// Every document has exactly one attachment, in the order of the
/// documents, and each attachment names a signer on record.
pub open spec fn attachments_match(s: AppStateView) -> bool {
    attachments_agree(s.documents, s.signers, s.document_signers)
}

/// What holds of the documents, signers and attachments of every service:
/// documents and signers are well numbered, no two signers that have not
/// been deleted share a national identifier, and the attachments agree with
/// both.
pub open spec fn records_in_order(s: AppStateView) -> bool {
    documents_wf(s.documents) && signers_wf(s.signers) && attachments_match(s)
}

/// A registration, whether it succeeds or fails, leaves every document
/// with exactly one attachment to a signer on record.
pub proof fn law_one_attachment_per_document(s: AppStateView, req: CreateDocumentView, now: int)
    requires
        records_in_order(s),
    ensures
        records_in_order(registration(s, req, now).0),
{
    lemma_registration_keeps_order(s, req, now);
    let after = registration(s, req, now).0;
    if registration(s, req, now).1.is_ok() {
        let n = s.document_signers.len() as int;
        match known_signer(s.signers, req) {
            Some(signer) => {
                let national_id = req.signer_national_id.unwrap();
                let chosen = choose|i: int| is_active_signer(s.signers, national_id, i);
                assert(signer == s.signers[chosen]);
                assert(after.document_signers == s.document_signers.push(
                    new_attachment(n + 1, signer.signer_id),
                ));
            },
            None => {
                assert(after.document_signers == s.document_signers.push(
                    new_attachment(n + 1, s.signers.len() as int + 1),
                ));
            },
        }
        assert forall|k: int| 0 <= k < after.document_signers.len() implies {
            &&& (#[trigger] after.document_signers[k]).document_id == k + 1
            &&& 1 <= after.document_signers[k].signer_id <= after.signers.len()
        } by {
            if k < n {
                assert(after.document_signers[k] == s.document_signers[k]);
            }
        }
    }
}

} // verus!

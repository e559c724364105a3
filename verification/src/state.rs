//! The records the service keeps.

use vstd::prelude::*;
use crate::documents::{DocumentSigner, DocumentView, Registry, SignerView};
use crate::otp::{OtpEntry, OtpTable};
use crate::telegram::{LinkTable, LinkView};
use crate::users::{Company, CompanyView, UserTable, UserView};

verus! {

/// Everything the service has on record.
pub struct AppState {
    pub otp_codes: OtpTable,
    pub telegram_links: LinkTable,
    pub users: UserTable,
    pub companies: Vec<Company>,
    pub registry: Registry,
}

/// The records as values.
pub struct AppStateView {
    pub otp_codes: Map<Seq<char>, OtpEntry>,
    pub telegram_links: Seq<LinkView>,
    pub users: Seq<UserView>,
    pub companies: Seq<CompanyView>,
    pub documents: Seq<DocumentView>,
    pub signers: Seq<SignerView>,
    pub document_signers: Seq<DocumentSigner>,
}

impl View for AppState {
    type V = AppStateView;

    open spec fn view(&self) -> AppStateView {
        AppStateView {
            otp_codes: self.otp_codes@,
            telegram_links: self.telegram_links@,
            users: self.users@,
            companies: self.companies@.map_values(|c: Company| c@),
            documents: self.registry.documents_view(),
            signers: self.registry.signers_view(),
            document_signers: self.registry.attachments_view(),
        }
    }
}

impl AppState {
    /// A service with nothing on record.
    pub fn new() -> (state: AppState)
        ensures
            state@ == (AppStateView {
                otp_codes: Map::empty(),
                telegram_links: Seq::empty(),
                users: Seq::empty(),
                companies: Seq::empty(),
                documents: Seq::empty(),
                signers: Seq::empty(),
                document_signers: Seq::empty(),
            }),
    {
        assert(Seq::<Company>::empty().map_values(|c: Company| c@) =~= Seq::<CompanyView>::empty());
        AppState {
            otp_codes: OtpTable::new(),
            telegram_links: LinkTable::new(),
            users: UserTable::new(),
            companies: Vec::new(),
            registry: Registry::new(),
        }
    }
}

} // verus!

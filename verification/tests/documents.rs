use e_signature_api::documents::{
    create_document_and_signer, create_document_and_signer_at, delete_document,
    delete_document_at, get_all_documents, get_document_by_id, update_document,
    plan_registration, update_document_at, CreateDocument, RegistrationError, SignerChoice,
    UpdateDocument,
};
use e_signature_api::state::AppState;

const NOW: i64 = 1_700_000_000;

fn request(file: &str, national_id: &str) -> CreateDocument {
    CreateDocument {
        company_id: 1,
        file_name: Some(file.to_string()),
        file_path: Some(format!("./uploads/{}", file)),
        hash_sha256: Some("abc123".to_string()),
        status_id: 1,
        signer_full_name: Some("Ana Silva".to_string()),
        signer_phone_number: Some("+5511999990000".to_string()),
        signer_email: Some("ana@x.com".to_string()),
        signer_national_id: Some(national_id.to_string()),
        photo_id_url: Some("./uploads/photo.png".to_string()),
    }
}

#[test]
fn same_national_id_shares_one_signer() {
    let mut state = AppState::new();
    let first = create_document_and_signer_at(&mut state, &request("a.pdf", "123"), NOW).unwrap();
    let mut other = request("b.pdf", "123");
    other.signer_full_name = Some("Someone Else".to_string());
    let second = create_document_and_signer_at(&mut state, &other, NOW + 1).unwrap();
    assert_eq!(first.document_id, 1);
    assert_eq!(second.document_id, 2);
    assert_eq!(state.registry.documents().len(), 2);
    assert_eq!(state.registry.signers().len(), 1);
    let signer = state.registry.signers().find_by_national_id("123").unwrap();
    assert_eq!(signer.signer_id, 1);
    assert_eq!(signer.full_name, "Ana Silva");
    assert_eq!(signer.contact_email, "ana@x.com");
    assert_eq!(signer.phone_number, "+5511999990000");
    assert_eq!(signer.photo_id_url.as_deref(), Some("./uploads/photo.png"));
    assert_eq!(signer.user_id, None);
    assert_eq!(state.registry.attachments().len(), 2);
    assert_eq!(state.registry.attachments()[0].document_id, 1);
    assert_eq!(state.registry.attachments()[1].document_id, 2);
    assert_eq!(state.registry.attachments()[0].signer_id, 1);
    assert_eq!(state.registry.attachments()[1].signer_id, 1);
    assert_eq!(state.registry.attachments()[0].status_id, 1);
}

#[test]
fn different_national_ids_make_two_signers() {
    let mut state = AppState::new();
    create_document_and_signer_at(&mut state, &request("a.pdf", "123"), NOW).unwrap();
    create_document_and_signer_at(&mut state, &request("b.pdf", "456"), NOW).unwrap();
    assert_eq!(state.registry.signers().len(), 2);
    assert_eq!(state.registry.attachments()[1].signer_id, 2);
}

#[test]
fn registered_document_carries_the_request() {
    let mut state = AppState::new();
    let mut req = request("a.pdf", "123");
    req.company_id = 9;
    req.status_id = 4;
    let document = create_document_and_signer_at(&mut state, &req, NOW).unwrap();
    assert_eq!(document.company_id, 9);
    assert_eq!(document.file_name, "a.pdf");
    assert_eq!(document.file_path, "./uploads/a.pdf");
    assert_eq!(document.hash_sha256, "abc123");
    assert_eq!(document.status_id, 4);
    assert_eq!(document.created_at, NOW);
    assert_eq!(document.updated_at, None);
    assert_eq!(document.deleted_at, None);
    let stored = state.registry.documents().row(0);
    assert_eq!(stored.file_name, "a.pdf");
}

#[test]
fn missing_signer_field_records_nothing() {
    let mut state = AppState::new();
    for field in 0..4 {
        let mut req = request("a.pdf", "123");
        match field {
            0 => req.signer_full_name = None,
            1 => req.signer_phone_number = None,
            2 => req.signer_email = None,
            _ => req.signer_national_id = None,
        }
        let outcome = create_document_and_signer_at(&mut state, &req, NOW);
        assert_eq!(outcome.err(), Some(RegistrationError::ValidationError));
        assert_eq!(state.registry.documents().len(), 0);
        assert_eq!(state.registry.signers().len(), 0);
        assert_eq!(state.registry.attachments().len(), 0);
    }
}

#[test]
fn missing_document_field_records_nothing() {
    let mut state = AppState::new();
    let mut req = request("a.pdf", "123");
    req.hash_sha256 = None;
    let outcome = create_document_and_signer(&mut state, &req);
    assert_eq!(outcome.err(), Some(RegistrationError::ValidationError));
    assert_eq!(state.registry.documents().len(), 0);
    assert_eq!(state.registry.signers().len(), 0);
}

#[test]
fn known_signer_needs_no_signer_fields() {
    let mut state = AppState::new();
    create_document_and_signer_at(&mut state, &request("a.pdf", "123"), NOW).unwrap();
    let mut req = request("b.pdf", "123");
    req.signer_full_name = None;
    req.signer_phone_number = None;
    req.signer_email = None;
    req.photo_id_url = None;
    let document = create_document_and_signer(&mut state, &req).unwrap();
    assert_eq!(document.document_id, 2);
    assert_eq!(state.registry.signers().len(), 1);
    assert_eq!(state.registry.attachments()[1].signer_id, 1);
}

#[test]
fn default_request_is_empty() {
    let req = CreateDocument::default();
    assert_eq!(req.company_id, 0);
    assert_eq!(req.status_id, 0);
    assert!(req.file_name.is_none());
    assert!(req.signer_national_id.is_none());
}

#[test]
fn documents_are_listed_updated_and_deleted() {
    let mut state = AppState::new();
    create_document_and_signer_at(&mut state, &request("a.pdf", "1"), NOW).unwrap();
    create_document_and_signer_at(&mut state, &request("b.pdf", "2"), NOW).unwrap();
    create_document_and_signer_at(&mut state, &request("c.pdf", "3"), NOW).unwrap();
    assert_eq!(delete_document_at(&mut state, 2, NOW + 1), 1);
    assert_eq!(delete_document_at(&mut state, 2, NOW + 2), 0);
    assert_eq!(delete_document_at(&mut state, 4, NOW + 2), 0);
    assert_eq!(delete_document_at(&mut state, 0, NOW + 2), 0);
    let names: Vec<String> = get_all_documents(&state).into_iter().map(|d| d.file_name).collect();
    assert_eq!(names, vec!["a.pdf", "c.pdf"]);
    assert!(get_document_by_id(&state, 2).is_none());
    assert_eq!(get_document_by_id(&state, 3).unwrap().file_name, "c.pdf");

    let rename = UpdateDocument { file_name: Some("z.pdf".to_string()), status_id: None };
    let updated = update_document_at(&mut state, 1, &rename, NOW + 3).unwrap();
    assert_eq!(updated.file_name, "z.pdf");
    assert_eq!(updated.status_id, 1);
    assert_eq!(updated.updated_at, Some(NOW + 3));
    assert_eq!(updated.file_path, "./uploads/a.pdf");
    let restatus = UpdateDocument { file_name: None, status_id: Some(5) };
    let updated = update_document_at(&mut state, 1, &restatus, NOW + 4).unwrap();
    assert_eq!(updated.file_name, "z.pdf");
    assert_eq!(updated.status_id, 5);
    assert!(update_document_at(&mut state, 2, &restatus, NOW + 4).is_none());
    assert_eq!(get_document_by_id(&state, 1).unwrap().status_id, 5);

    assert!(update_document(&mut state, 3, &restatus).unwrap().unwrap().updated_at.unwrap() > NOW);
    assert_eq!(delete_document(&mut state, 3), Ok(1));
    assert_eq!(delete_document(&mut state, 3), Ok(0));
    assert_eq!(get_all_documents(&state).len(), 1);
}

#[test]
fn every_document_has_one_attachment() {
    let mut state = AppState::new();
    create_document_and_signer_at(&mut state, &request("a.pdf", "1"), NOW).unwrap();
    let mut bad = request("b.pdf", "2");
    bad.signer_email = None;
    assert!(create_document_and_signer_at(&mut state, &bad, NOW).is_err());
    create_document_and_signer_at(&mut state, &request("c.pdf", "2"), NOW).unwrap();
    create_document_and_signer_at(&mut state, &request("d.pdf", "1"), NOW).unwrap();
    assert_eq!(state.registry.attachments().len(), state.registry.documents().len());
    for (k, attachment) in state.registry.attachments().iter().enumerate() {
        assert_eq!(attachment.document_id, k as i64 + 1);
        assert!(1 <= attachment.signer_id && attachment.signer_id as usize <= state.registry.signers().len());
    }
    assert_eq!(state.registry.attachments()[1].signer_id, 2);
    assert_eq!(state.registry.attachments()[2].signer_id, 1);
}

#[test]
fn request_is_judged_before_anything_is_recorded() {
    let complete = request("a.pdf", "123");
    assert_eq!(plan_registration(&complete, None), Ok(SignerChoice::Create));
    assert_eq!(plan_registration(&complete, Some(7)), Ok(SignerChoice::Reuse(7)));
    let mut no_signer = request("a.pdf", "123");
    no_signer.signer_phone_number = None;
    assert_eq!(plan_registration(&no_signer, None), Err(RegistrationError::ValidationError));
    assert_eq!(plan_registration(&no_signer, Some(7)), Ok(SignerChoice::Reuse(7)));
    let mut no_file = request("a.pdf", "123");
    no_file.file_path = None;
    assert_eq!(plan_registration(&no_file, Some(7)), Err(RegistrationError::ValidationError));
    assert_eq!(plan_registration(&no_file, None), Err(RegistrationError::ValidationError));
}

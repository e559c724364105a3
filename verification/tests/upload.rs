use e_signature_api::documents::create_document_and_signer_at;
use e_signature_api::state::AppState;
use e_signature_api::upload::{
    make_storage_path, plan_storage, prepare_upload, FormField, UploadError, UploadForm,
};

fn text(name: &str, value: &str) -> FormField {
    FormField { name: Some(name.to_string()), filename: None, data: value.as_bytes().to_vec() }
}

fn file(name: &str, filename: &str, data: &[u8]) -> FormField {
    FormField {
        name: Some(name.to_string()),
        filename: Some(filename.to_string()),
        data: data.to_vec(),
    }
}

fn filled() -> UploadForm {
    let mut form = UploadForm::new();
    form.accept(text("company_id", "7"), false);
    form.accept(text("status_id", "3"), false);
    form.accept(text("signer_full_name", "Ana Silva"), false);
    form.accept(text("signer_phone_number", "+55"), false);
    form.accept(text("signer_email", "ana@x.com"), false);
    form.accept(text("signer_national_id", "123"), false);
    form.accept(file("document_file", "con/tract?.pdf", b"hello"), false);
    form.accept(file("signer_photo_id_file", "me.png", b"\x89PNG"), false);
    form
}

#[test]
fn fields_fill_the_request() {
    let form = filled();
    assert_eq!(form.request.company_id, 7);
    assert_eq!(form.request.status_id, 3);
    assert_eq!(form.request.signer_full_name.as_deref(), Some("Ana Silva"));
    assert_eq!(form.request.signer_phone_number.as_deref(), Some("+55"));
    assert_eq!(form.request.signer_email.as_deref(), Some("ana@x.com"));
    assert_eq!(form.request.signer_national_id.as_deref(), Some("123"));
    assert_eq!(form.document_file_data, b"hello");
    assert_eq!(form.document_filename, "contract.pdf");
    assert_eq!(form.photo_id_file_data, b"\x89PNG");
    assert_eq!(form.photo_id_filename, "me.png");
}

#[test]
fn numbers_fall_back_when_unreadable() {
    let mut form = UploadForm::new();
    assert_eq!(form.request.company_id, 0);
    assert_eq!(form.request.status_id, 0);
    form.accept(text("company_id", "seven"), false);
    form.accept(text("status_id", ""), false);
    assert_eq!(form.request.company_id, 0);
    assert_eq!(form.request.status_id, 1);
    form.accept(text("company_id", "-12"), false);
    form.accept(text("status_id", "2147483648"), false);
    assert_eq!(form.request.company_id, -12);
    assert_eq!(form.request.status_id, 1);
    form.accept(text("status_id", "2147483647"), false);
    assert_eq!(form.request.status_id, 2147483647);
    form.accept(text("company_id", "9223372036854775808"), false);
    assert_eq!(form.request.company_id, 0);
}

#[test]
fn unknown_parts_are_passed_over() {
    let mut form = filled();
    form.accept(text("other", "x"), false);
    form.accept(file("attachment", "x.bin", b"zzz"), false);
    form.accept(FormField { name: None, filename: None, data: b"zzz".to_vec() }, false);
    form.accept(FormField { name: None, filename: Some("a.pdf".to_string()), data: vec![1] }, false);
    assert_eq!(form.request.company_id, 7);
    assert_eq!(form.document_filename, "contract.pdf");
    assert_eq!(form.document_file_data, b"hello");
}

#[test]
fn text_that_is_no_utf8_reads_as_empty() {
    let mut form = UploadForm::new();
    form.accept(
        FormField { name: Some("signer_full_name".to_string()), filename: None, data: vec![0xff, 0xfe] },
        false,
    );
    assert_eq!(form.request.signer_full_name.as_deref(), Some(""));
    form.accept(
        FormField {
            name: Some("signer_email".to_string()),
            filename: None,
            data: "josé@x.com".as_bytes().to_vec(),
        },
        false,
    );
    assert_eq!(form.request.signer_email.as_deref(), Some("josé@x.com"));
}

#[test]
fn windows_rules_apply_when_asked() {
    let mut form = UploadForm::new();
    form.accept(file("document_file", "report. ", b"x"), true);
    assert_eq!(form.document_filename, "report");
    form.accept(file("document_file", "report. ", b"x"), false);
    assert_eq!(form.document_filename, "report. ");
}

#[test]
fn storage_is_planned_under_the_keys() {
    let form = filled();
    let stored = plan_storage(&form, "K1", "K2").unwrap();
    assert_eq!(stored.document_path, "./uploads/K1-contract.pdf");
    assert_eq!(stored.photo_path, "./uploads/K2-me.png");
    assert_eq!(stored.request.file_name.as_deref(), Some("contract.pdf"));
    assert_eq!(stored.request.file_path.as_deref(), Some("./uploads/K1-contract.pdf"));
    assert_eq!(
        stored.request.hash_sha256.as_deref(),
        Some("2cf24dba5fb0a30e26e83b2ac5b9e29e1b161e5c1fa7425e73043362938b9824")
    );
    assert_eq!(stored.request.photo_id_url.as_deref(), Some("./uploads/K2-me.png"));
    assert_eq!(stored.request.company_id, 7);
    assert_eq!(stored.request.status_id, 3);
    assert_eq!(stored.request.signer_national_id.as_deref(), Some("123"));
    assert_eq!(make_storage_path("k", "f.txt"), "./uploads/k-f.txt");
}

#[test]
fn files_are_required() {
    let mut form = UploadForm::new();
    assert_eq!(plan_storage(&form, "a", "b").err(), Some(UploadError::MissingDocumentFile));
    assert_eq!(prepare_upload(&form).err(), Some(UploadError::MissingDocumentFile));
    form.accept(file("document_file", "a.pdf", b"x"), false);
    assert_eq!(plan_storage(&form, "a", "b").err(), Some(UploadError::MissingPhotoFile));
    assert_eq!(prepare_upload(&form).err(), Some(UploadError::MissingPhotoFile));
    form.accept(file("signer_photo_id_file", "a.png", b""), false);
    assert_eq!(prepare_upload(&form).err(), Some(UploadError::MissingPhotoFile));
    assert_eq!(
        UploadError::MissingDocumentFile.message(),
        "Arquivo PDF do documento é obrigatório."
    );
    assert_eq!(
        UploadError::MissingPhotoFile.message(),
        "Arquivo da foto de identificação é obrigatório."
    );
}

#[test]
fn prepared_upload_registers() {
    let form = filled();
    let stored = prepare_upload(&form).unwrap();
    assert!(stored.document_path.starts_with("./uploads/"));
    assert!(stored.document_path.ends_with("-contract.pdf"));
    assert_eq!(stored.document_path.len(), "./uploads/".len() + 36 + "-contract.pdf".len());
    assert_ne!(
        stored.document_path["./uploads/".len()..][..36],
        stored.photo_path["./uploads/".len()..][..36]
    );
    let mut state = AppState::new();
    let document = create_document_and_signer_at(&mut state, &stored.request, 5).unwrap();
    assert_eq!(document.file_path, stored.document_path);
    assert_eq!(
        state.registry.signers().find_by_national_id("123").unwrap().photo_id_url,
        Some(stored.photo_path)
    );
}

use e_signature_api::documents::{create_document_and_signer_at, CreateDocument};
use e_signature_api::face::{
    face_step, reference_photo, verdict_of, verify_signer_face, FaceAction, FaceError, FaceStep,
};
use e_signature_api::responses::verify_signer_face_handler;
use e_signature_api::state::AppState;

fn state_with_signer(photo: Option<&str>) -> AppState {
    let mut state = AppState::new();
    let req = CreateDocument {
        company_id: 1,
        file_name: Some("a.pdf".to_string()),
        file_path: Some("./uploads/a.pdf".to_string()),
        hash_sha256: Some("00".to_string()),
        status_id: 1,
        signer_full_name: Some("Ana".to_string()),
        signer_phone_number: Some("1".to_string()),
        signer_email: Some("ana@x.com".to_string()),
        signer_national_id: Some("123".to_string()),
        photo_id_url: photo.map(|p| p.to_string()),
    };
    create_document_and_signer_at(&mut state, &req, 1).unwrap();
    state
}

fn finished(action: FaceAction) -> Result<Option<bool>, FaceError> {
    match action {
        FaceAction::Finish(outcome) => outcome,
        _ => panic!("the comparison goes on"),
    }
}

#[test]
fn unknown_signer_has_no_answer() {
    let state = state_with_signer(Some("./uploads/p.png"));
    let action = verify_signer_face(&state, "999");
    assert_eq!(finished(action), Ok(None));
}

#[test]
fn signer_without_photo_is_an_error() {
    let state = state_with_signer(None);
    let action = verify_signer_face(&state, "123");
    assert_eq!(finished(action), Err(FaceError::NoReferencePhoto));
}

#[test]
fn photo_is_read_then_compared() {
    let state = state_with_signer(Some("./uploads/p.png"));
    match verify_signer_face(&state, "123") {
        FaceAction::ReadPhoto(path) => assert_eq!(path, "./uploads/p.png"),
        _ => panic!("the photo is to be read"),
    }
    let step = FaceStep::PhotoRead(b"hello world".to_vec());
    match face_step("bGl2ZQ==", &step) {
        FaceAction::RunComparator { ref_image_base64, live_image_base64 } => {
            assert_eq!(ref_image_base64, "aGVsbG8gd29ybGQ=");
            assert_eq!(live_image_base64, "bGl2ZQ==");
        }
        _ => panic!("the comparator is to run"),
    }
}

#[test]
fn failures_end_the_comparison() {
    let unreadable = face_step("x", &FaceStep::PhotoUnreadable);
    assert_eq!(finished(unreadable), Err(FaceError::PhotoUnreadable));
    let unavailable = face_step("x", &FaceStep::ComparatorUnavailable);
    assert_eq!(finished(unavailable), Err(FaceError::ComparatorUnavailable));
    let failed = FaceStep::Compared { success: false, output: b"{\"match\": true}".to_vec() };
    assert_eq!(
        finished(face_step("x", &failed)),
        Err(FaceError::ComparatorFailed)
    );
    let garbled = FaceStep::Compared { success: true, output: b"Traceback".to_vec() };
    assert_eq!(
        finished(face_step("x", &garbled)),
        Err(FaceError::InvalidOutput)
    );
}

#[test]
fn loaded_signer_decides_the_beginning() {
    assert_eq!(finished(reference_photo(&None)), Ok(None));
    let state = state_with_signer(Some("./uploads/p.png"));
    let signer = state.registry.signers().find_by_national_id("123");
    match reference_photo(&signer) {
        FaceAction::ReadPhoto(path) => assert_eq!(path, "./uploads/p.png"),
        _ => panic!("the photo is to be read"),
    }
}

#[test]
fn answer_is_the_match_flag() {
    let cases: [(&[u8], bool); 5] = [
        (b"{\"match\": true}", true),
        (b"{\"match\": false}", false),
        (b"{\"match\": \"true\"}", false),
        (b"{\"distance\": 0.2}", false),
        (b"[true]", false),
    ];
    for (output, expected) in cases {
        let step = FaceStep::Compared { success: true, output: output.to_vec() };
        assert_eq!(finished(face_step("x", &step)), Ok(Some(expected)));
    }
    assert!(verdict_of(&serde_json::from_str("{\"match\": true}").unwrap()));
    assert!(!verdict_of(&serde_json::Value::Null));
}

#[test]
fn face_replies() {
    assert_eq!(verify_signer_face_handler(&Ok(Some(true))), (200, Some(true), String::new()));
    assert_eq!(
        verify_signer_face_handler(&Ok(None)),
        (404, None, "Signer not found".to_string())
    );
    assert_eq!(
        verify_signer_face_handler(&Err(FaceError::NoReferencePhoto)),
        (500, None, "Signatário sem foto de referência.".to_string())
    );
    assert_eq!(FaceError::PhotoUnreadable.message(), "Erro ao ler a foto de referência");
    assert_eq!(FaceError::ComparatorUnavailable.message(), "Erro ao iniciar Python");
    assert_eq!(FaceError::ComparatorFailed.message(), "Python retornou erro");
    assert_eq!(FaceError::InvalidOutput.message(), "Erro ao parsear JSON do Python");
}

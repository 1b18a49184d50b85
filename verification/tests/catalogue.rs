use programme::erreurs::{ApiError, ErrorCode};

#[test]
fn les_six_codes_sont_au_catalogue() {
    let catalogue: Vec<&str> = ErrorCode::all().iter().map(|c| c.as_str()).collect();

    for code in [
        "PROPOSAL_NOT_EDITABLE",
        "PROPOSAL_SPEAKER_IDENTITY_LOCKED",
        "PROPOSAL_REVIEW_NOT_ASSIGNED",
        "PROPOSAL_UNKNOWN_TERM",
        "PROPOSAL_TEXT_TOO_LONG",
        "PROPOSAL_UNKNOWN_REFERENCE",
    ] {
        assert!(catalogue.contains(&code), "{code} manque au catalogue");
    }
}

#[test]
fn le_catalogue_nomme_chaque_code_une_fois() {
    let catalogue: Vec<&str> = ErrorCode::all().iter().map(|c| c.as_str()).collect();
    assert_eq!(catalogue.len(), 13);
    for (i, a) in catalogue.iter().enumerate() {
        for b in &catalogue[i + 1..] {
            assert_ne!(a, b);
        }
    }
}

#[test]
fn un_refus_de_validation_nomme_son_champ() {
    let e = ApiError::validation("Message.", "title");
    assert_eq!(e.code, ErrorCode::ValidationError);
    assert_eq!(e.message.as_deref(), Some("Message."));
    assert_eq!(e.field.as_deref(), Some("title"));
    let introuvable = ApiError::not_found();
    assert_eq!(introuvable.code, ErrorCode::NotFound);
    assert_eq!(introuvable.message, None);
    assert_eq!(introuvable.field, None);
}

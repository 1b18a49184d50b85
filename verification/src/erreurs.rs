//! Les refus que rendent les règles : un code stable, un message français,
//! et le champ que l'écran doit souligner.

use vstd::prelude::*;

verus! {

/// Les codes d'erreur que ce module emploie.
#[derive(Debug, Clone, Copy, PartialEq, Eq, Structural)]
pub enum ErrorCode {
    NotFound,
    ValidationError,
    InternalError,
    ProposalNotEditable,
    ProposalSpeakerIdentityLocked,
    ProposalReviewNotAssigned,
    ProposalUnknownTerm,
    ProposalTextTooLong,
    ProposalUnknownReference,
    RegistrationAnswerInvalid,
    RegistrationNotAccepted,
    SessionDerivedField,
    SessionUnknownReference,
}

/// Le nom stable d'un code, tel que le contrat d'erreurs l'écrit.
pub open spec fn nom_de_code(c: ErrorCode) -> Seq<char> {
    match c {
        ErrorCode::NotFound => "NOT_FOUND"@,
        ErrorCode::ValidationError => "VALIDATION_ERROR"@,
        ErrorCode::InternalError => "INTERNAL_ERROR"@,
        ErrorCode::ProposalNotEditable => "PROPOSAL_NOT_EDITABLE"@,
        ErrorCode::ProposalSpeakerIdentityLocked => "PROPOSAL_SPEAKER_IDENTITY_LOCKED"@,
        ErrorCode::ProposalReviewNotAssigned => "PROPOSAL_REVIEW_NOT_ASSIGNED"@,
        ErrorCode::ProposalUnknownTerm => "PROPOSAL_UNKNOWN_TERM"@,
        ErrorCode::ProposalTextTooLong => "PROPOSAL_TEXT_TOO_LONG"@,
        ErrorCode::ProposalUnknownReference => "PROPOSAL_UNKNOWN_REFERENCE"@,
        ErrorCode::RegistrationAnswerInvalid => "REGISTRATION_ANSWER_INVALID"@,
        ErrorCode::RegistrationNotAccepted => "REGISTRATION_NOT_ACCEPTED"@,
        ErrorCode::SessionDerivedField => "SESSION_DERIVED_FIELD"@,
        ErrorCode::SessionUnknownReference => "SESSION_UNKNOWN_REFERENCE"@,
    }
}

impl ErrorCode {
    pub fn as_str(self) -> (r: &'static str)
        ensures
            r@ == nom_de_code(self),
    {
        match self {
            ErrorCode::NotFound => "NOT_FOUND",
            ErrorCode::ValidationError => "VALIDATION_ERROR",
            ErrorCode::InternalError => "INTERNAL_ERROR",
            ErrorCode::ProposalNotEditable => "PROPOSAL_NOT_EDITABLE",
            ErrorCode::ProposalSpeakerIdentityLocked => "PROPOSAL_SPEAKER_IDENTITY_LOCKED",
            ErrorCode::ProposalReviewNotAssigned => "PROPOSAL_REVIEW_NOT_ASSIGNED",
            ErrorCode::ProposalUnknownTerm => "PROPOSAL_UNKNOWN_TERM",
            ErrorCode::ProposalTextTooLong => "PROPOSAL_TEXT_TOO_LONG",
            ErrorCode::ProposalUnknownReference => "PROPOSAL_UNKNOWN_REFERENCE",
            ErrorCode::RegistrationAnswerInvalid => "REGISTRATION_ANSWER_INVALID",
            ErrorCode::RegistrationNotAccepted => "REGISTRATION_NOT_ACCEPTED",
            ErrorCode::SessionDerivedField => "SESSION_DERIVED_FIELD",
            ErrorCode::SessionUnknownReference => "SESSION_UNKNOWN_REFERENCE",
        }
    }

    /// Le catalogue, code par code.
    pub fn all() -> (r: Vec<ErrorCode>)
        ensures
            forall|c: ErrorCode| r@.contains(c),
            r@.len() == 13,
    {
        let r = vec![
            ErrorCode::NotFound,
            ErrorCode::ValidationError,
            ErrorCode::InternalError,
            ErrorCode::ProposalNotEditable,
            ErrorCode::ProposalSpeakerIdentityLocked,
            ErrorCode::ProposalReviewNotAssigned,
            ErrorCode::ProposalUnknownTerm,
            ErrorCode::ProposalTextTooLong,
            ErrorCode::ProposalUnknownReference,
            ErrorCode::RegistrationAnswerInvalid,
            ErrorCode::RegistrationNotAccepted,
            ErrorCode::SessionDerivedField,
            ErrorCode::SessionUnknownReference,
        ];
        assert forall|c: ErrorCode| r@.contains(c) by {
            match c {
                ErrorCode::NotFound => assert(r@[0] == c),
                ErrorCode::ValidationError => assert(r@[1] == c),
                ErrorCode::InternalError => assert(r@[2] == c),
                ErrorCode::ProposalNotEditable => assert(r@[3] == c),
                ErrorCode::ProposalSpeakerIdentityLocked => assert(r@[4] == c),
                ErrorCode::ProposalReviewNotAssigned => assert(r@[5] == c),
                ErrorCode::ProposalUnknownTerm => assert(r@[6] == c),
                ErrorCode::ProposalTextTooLong => assert(r@[7] == c),
                ErrorCode::ProposalUnknownReference => assert(r@[8] == c),
                ErrorCode::RegistrationAnswerInvalid => assert(r@[9] == c),
                ErrorCode::RegistrationNotAccepted => assert(r@[10] == c),
                ErrorCode::SessionDerivedField => assert(r@[11] == c),
                ErrorCode::SessionUnknownReference => assert(r@[12] == c),
            }
        }
        r
    }
}

/// Un refus. `message` absent : le message générique du code.
#[derive(Debug)]
pub struct ApiError {
    pub code: ErrorCode,
    pub message: Option<String>,
    pub field: Option<String>,
}

/// Un refus vu comme valeur : code, message et champ en caractères.
pub struct ErreurVue {
    pub code: ErrorCode,
    pub message: Option<Seq<char>>,
    pub field: Option<Seq<char>>,
}

pub open spec fn vue_option(o: Option<String>) -> Option<Seq<char>> {
    match o {
        Some(s) => Some(s@),
        None => None,
    }
}

impl View for ApiError {
    type V = ErreurVue;

    open spec fn view(&self) -> ErreurVue {
        ErreurVue { code: self.code, message: vue_option(self.message), field: vue_option(self.field) }
    }
}

/// Un refus nommé : code, message et champ.
pub open spec fn refus_nomme(code: ErrorCode, message: Seq<char>, champ: Seq<char>) -> ErreurVue {
    ErreurVue { code, message: Some(message), field: Some(champ) }
}

impl ApiError {
    pub fn new(code: ErrorCode) -> (r: ApiError)
        ensures
            r@ == (ErreurVue { code, message: None, field: None }),
    {
        ApiError { code, message: None, field: None }
    }

    pub fn not_found() -> (r: ApiError)
        ensures
            r@ == (ErreurVue { code: ErrorCode::NotFound, message: None, field: None }),
    {
        ApiError::new(ErrorCode::NotFound)
    }

    pub fn internal(message: String) -> (r: ApiError)
        ensures
            r@ == (ErreurVue { code: ErrorCode::InternalError, message: Some(message@), field: None }),
    {
        ApiError { code: ErrorCode::InternalError, message: Some(message), field: None }
    }

    pub fn with_message(code: ErrorCode, message: String) -> (r: ApiError)
        ensures
            r@ == (ErreurVue { code, message: Some(message@), field: None }),
    {
        ApiError { code, message: Some(message), field: None }
    }

    /// Un refus de validation qui nomme son champ.
    pub fn validation(message: &str, champ: &str) -> (r: ApiError)
        ensures
            r@ == refus_nomme(ErrorCode::ValidationError, message@, champ@),
    {
        ApiError {
            code: ErrorCode::ValidationError,
            message: Some(message.to_owned()),
            field: Some(champ.to_owned()),
        }
    }

    /// Le même refus, sur un champ nommé.
    pub fn field(self, champ: &str) -> (r: ApiError)
        ensures
            r@ == (ErreurVue { field: Some(champ@), ..self@ }),
    {
        ApiError { code: self.code, message: self.message, field: Some(champ.to_owned()) }
    }
}

} // verus!

//! L'adhésion qui autorise à agir au nom de l'organisation porteuse.

use vstd::prelude::*;
use crate::erreurs::{ApiError, ErrorCode, ErreurVue};

verus! {

/// L'adhésion réduite à ce qui décide : active, ou non (en attente,
/// révoquée).
#[derive(Debug, Clone, Copy, PartialEq, Eq, Structural)]
pub struct Adhesion {
    pub active: bool,
}

/// Une personne agit au nom de l'organisation quand son adhésion existe et
/// est active. Une adhésion en attente ne suffit pas.
pub open spec fn agit(adhesion: Option<Adhesion>) -> bool {
    adhesion matches Some(a) && a.active
}

/// Cette personne peut-elle agir au nom de l'organisation porteuse ?
pub fn peut_agir(adhesion: Option<Adhesion>) -> (r: bool)
    ensures
        r == agit(adhesion),
{
    match adhesion {
        Some(a) => a.active,
        None => false,
    }
}

/// Le refus correspondant est un `NOT_FOUND` : un dossier d'une organisation
/// dont on n'est pas membre ne se distingue pas d'un dossier inexistant.
pub fn exiger(adhesion: Option<Adhesion>) -> (r: Result<(), ApiError>)
    ensures
        r is Ok <==> agit(adhesion),
        r matches Err(e) ==> e@ == (ErreurVue { code: ErrorCode::NotFound, message: None, field: None }),
{
    if peut_agir(adhesion) {
        Ok(())
    } else {
        Err(ApiError::not_found())
    }
}

} // verus!

//! Ce que rend une action groupée : ce qui a été fait, et dossier par
//! dossier ce qui ne l'a pas été.

use vstd::prelude::*;

verus! {

/// Pourquoi un dossier n'a pas suivi.
#[derive(Debug, Clone, Copy, PartialEq, Eq, Structural)]
pub enum RaisonDEcart {
    /// Le membre du comité porte déjà ce dossier.
    AlreadyAssigned,
    /// Il s'en est déporté.
    Recused,
    TransitionNotAllowed,
    ReasonRequired,
    /// Introuvable, hors périmètre, ou hors permission — indiscernables.
    NotFound,
}

/// Un dossier écarté, et pourquoi.
#[derive(Debug, Clone)]
pub struct Ecart {
    pub proposal_id: u128,
    /// Vide quand le dossier n'a pas été résolu.
    pub reference_code: String,
    pub reason: RaisonDEcart,
}

/// Ce qui a été fait, et ce qui ne l'a pas été.
#[derive(Debug, Clone)]
pub struct ResultatGroupe {
    /// Dossiers réellement modifiés.
    pub applied: Vec<u128>,
    pub skipped: Vec<Ecart>,
}

impl ResultatGroupe {
    /// Un résultat vide, avant la première décision.
    pub fn vide() -> (r: ResultatGroupe)
        ensures
            r.applied@.len() == 0,
            r.skipped@.len() == 0,
    {
        ResultatGroupe { applied: Vec::new(), skipped: Vec::new() }
    }
}

} // verus!

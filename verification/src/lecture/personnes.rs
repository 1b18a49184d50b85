//! Les formes que les lectures et écritures sur les personnes, les revues et
//! les organisations échangent.

use vstd::prelude::*;
use crate::texte::{rogne, rogner};

verus! {

/// L'identité d'un intervenant, telle que le déposant l'a saisie.
#[derive(Debug, Clone, Copy)]
pub struct IdentiteSaisie<'a> {
    pub email: &'a str,
    pub first_name: &'a str,
    pub last_name: &'a str,
    pub civility: Option<&'a str>,
}

/// L'identité telle qu'elle s'écrit en base : prénom et nom rognés, adresse
/// et civilité telles quelles.
pub fn identite_ecrite<'a>(identite: IdentiteSaisie<'a>) -> (r: IdentiteSaisie<'a>)
    ensures
        r.email == identite.email,
        r.first_name@ == rogne(identite.first_name@),
        r.last_name@ == rogne(identite.last_name@),
        r.civility == identite.civility,
{
    IdentiteSaisie {
        email: identite.email,
        first_name: rogner(identite.first_name),
        last_name: rogner(identite.last_name),
        civility: identite.civility,
    }
}

/// Ce qu'une écriture de revue pose, hors les notes par critère.
#[derive(Debug, Clone, Copy)]
pub struct ChampsDeLaRevue<'a> {
    pub recommendation: &'a str,
    pub strengths: Option<&'a str>,
    pub weaknesses: Option<&'a str>,
    pub private_note: Option<&'a str>,
    /// Vrai pour un dépôt. Une revue déposée ne redevient pas un brouillon.
    pub deposer: bool,
}

/// De quel côté le lecteur d'un fil se trouve : une place, pas un droit.
#[derive(Debug, Clone, Copy, PartialEq, Eq, Structural)]
pub enum Cote {
    Comite,
    Organisation,
}

/// Le fil lu du côté du comité porte les délibérations internes.
pub fn voit_le_fil_interne(cote: Cote) -> (r: bool)
    ensures
        r == (cote == Cote::Comite),
{
    cote == Cote::Comite
}

/// Ce que l'espace organisation montre de son propre passé — aucune note.
#[derive(Debug, Clone, Copy)]
pub struct HistoriqueOrganisation {
    pub propositions_deposees: i64,
    pub propositions_acceptees: i64,
    pub evenements_couverts: i64,
    pub sessions_realisees: i64,
}

} // verus!

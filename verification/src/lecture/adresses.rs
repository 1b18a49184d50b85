//! L'enregistrement d'un dossier sous une adresse d'URL unique : chaque
//! tentative écrit sous une adresse ; une collision sur l'adresse fait
//! réessayer avec la suivante, toute autre erreur est rendue, et au-delà de
//! la dernière tentative l'écriture abandonne.

use vstd::prelude::*;
use crate::domain::slug::TENTATIVES_MAX;
use crate::erreurs::{ApiError, ErrorCode, ErreurVue};
use crate::texte::{egales, decimal, ecriture_decimale};

verus! {

/// Ce que la base a répondu à une tentative d'écriture.
#[derive(Debug, Clone, Copy, PartialEq, Eq, Structural)]
pub enum IssueDEcriture {
    /// La ligne est écrite.
    Ecrite,
    /// L'adresse est déjà prise dans l'édition.
    Collision,
    /// Toute autre erreur.
    Refus,
}

/// Ce qu'il faut faire ensuite.
#[derive(Debug, Clone, Copy, PartialEq, Eq, Structural)]
pub enum Suite {
    /// Valider le point de reprise et rendre la ligne écrite.
    Rendre,
    /// Revenir au point de reprise et tenter l'adresse de ce numéro.
    Reessayer { numero: u8 },
    /// Revenir au point de reprise et rendre l'erreur de la base.
    Echouer,
    /// Revenir au point de reprise : aucune adresse libre n'a été trouvée.
    Abandonner,
}

/// La décision après la tentative `numero`.
pub open spec fn suite_de(numero: u8, issue: IssueDEcriture) -> Suite {
    match issue {
        IssueDEcriture::Ecrite => Suite::Rendre,
        IssueDEcriture::Refus => Suite::Echouer,
        IssueDEcriture::Collision => if numero + 1 < TENTATIVES_MAX {
            Suite::Reessayer { numero: (numero + 1) as u8 }
        } else {
            Suite::Abandonner
        },
    }
}

/// Décider la suite après une tentative.
pub fn apres_tentative(numero: u8, issue: IssueDEcriture) -> (r: Suite)
    requires
        numero < TENTATIVES_MAX,
    ensures
        r == suite_de(numero, issue),
{
    match issue {
        IssueDEcriture::Ecrite => Suite::Rendre,
        IssueDEcriture::Refus => Suite::Echouer,
        IssueDEcriture::Collision => if numero + 1 < TENTATIVES_MAX {
            Suite::Reessayer { numero: numero + 1 }
        } else {
            Suite::Abandonner
        },
    }
}

/// Les tentatives se suivent une à une et s'arrêtent à la dernière : une
/// collision fait passer à la tentative suivante tant qu'il en reste, puis
/// abandonne ; seule une collision fait réessayer.
pub proof fn les_tentatives_sont_bornees(numero: u8, issue: IssueDEcriture)
    requires
        numero < TENTATIVES_MAX,
    ensures
        suite_de(numero, issue) matches Suite::Reessayer { numero: m } ==> m == numero + 1
            && m < TENTATIVES_MAX && issue == IssueDEcriture::Collision,
        issue == IssueDEcriture::Collision && numero + 1 == TENTATIVES_MAX
            ==> suite_de(numero, issue) == Suite::Abandonner,
{
}

/// La violation d'unicité de l'adresse : l'état SQL `23505` sur la
/// contrainte `ux_proposals_slug`.
pub open spec fn est_collision(etat_sql: Option<Seq<char>>, contrainte: Option<Seq<char>>) -> bool {
    etat_sql == Some("23505"@) && contrainte == Some("ux_proposals_slug"@)
}

/// L'erreur de la base est-elle une collision d'adresse ?
pub fn collision_dadresse(etat_sql: Option<&str>, contrainte: Option<&str>) -> (r: bool)
    ensures
        r == est_collision(
            match etat_sql { Some(e) => Some(e@), None => None },
            match contrainte { Some(c) => Some(c@), None => None },
        ),
{
    let etat_ok = match etat_sql {
        Some(e) => egales(e, "23505"),
        None => false,
    };
    let contrainte_ok = match contrainte {
        Some(c) => egales(c, "ux_proposals_slug"),
        None => false,
    };
    etat_ok && contrainte_ok
}

/// Le refus d'un enregistrement qui n'a trouvé aucune adresse libre.
pub open spec fn abandon_sur(base: Seq<char>) -> ErreurVue {
    ErreurVue {
        code: ErrorCode::InternalError,
        message: Some("adresse d'URL introuvable après "@ + ecriture_decimale(TENTATIVES_MAX as nat)
            + " tentatives sur « "@ + base + " »"@),
        field: None,
    }
}

/// Le refus rendu après la dernière tentative.
pub fn abandon(base: &str) -> (r: ApiError)
    ensures
        r@ == abandon_sur(base@),
{
    let mut message = "adresse d'URL introuvable après ".to_string();
    let nombre = decimal(TENTATIVES_MAX as u64);
    message.append(nombre.as_str());
    message.append(" tentatives sur « ");
    message.append(base);
    message.append(" »");
    ApiError::internal(message)
}

/// Le créneau souhaité, découpé pour la requête : la date et l'heure, ou
/// rien.
pub fn creneau_decoupe(creneau: &Option<(String, String)>) -> (r: (Option<&str>, Option<&str>))
    ensures
        match creneau {
            Some((d, h)) => (r.0 matches Some(x) && x@ == d@) && (r.1 matches Some(y) && y@ == h@),
            None => r.0 is None && r.1 is None,
        },
{
    match creneau {
        Some((date, heure)) => (Some(date.as_str()), Some(heure.as_str())),
        None => (None, None),
    }
}

} // verus!

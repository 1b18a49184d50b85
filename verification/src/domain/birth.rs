//! Le créneau d'une séance naissante — souhait, repli, durée, rangs.
//!
//! Ce fichier décide quel créneau, pas comment le composer : poser une heure
//! murale sur un jour civil dans le fuseau d'une édition se fait en base.

use vstd::prelude::*;
use crate::temps::{Horodatage, HeureMurale, dans_la_plage, plus_minutes};
use crate::texte::{decimal_signe, ecriture_signee};

verus! {

/// La durée par défaut quand rien ne la donne — ni le dossier, ni l'appel.
pub const DUREE_PAR_DEFAUT: i32 = 60;

/// D'où vient le début d'une séance naissante.
#[derive(Debug, Clone, Copy, PartialEq, Eq)]
pub enum Debut {
    /// Le créneau souhaité par le dossier, écrit tel quel.
    Souhaite(Horodatage),
    /// Le premier jour de l'édition à l'heure d'ouverture quotidienne de
    /// l'appel, composé par la base dans le fuseau de l'édition.
    PremierJourALHeureDeLAppel(HeureMurale),
    /// Sans appel : le début de l'édition.
    DebutDeLEdition,
}

/// Le début retenu : le souhait d'abord, puis l'heure de l'appel, puis le
/// début de l'édition.
pub open spec fn debut_retenu(souhaite: Option<Horodatage>, heure_de_lappel: Option<HeureMurale>) -> Debut {
    match souhaite {
        Some(instant) => Debut::Souhaite(instant),
        None => match heure_de_lappel {
            Some(heure) => Debut::PremierJourALHeureDeLAppel(heure),
            None => Debut::DebutDeLEdition,
        },
    }
}

/// Décider le début, dans l'ordre du modèle.
pub fn debut(souhaite: Option<Horodatage>, heure_de_lappel: Option<HeureMurale>) -> (r: Debut)
    ensures
        r == debut_retenu(souhaite, heure_de_lappel),
{
    match (souhaite, heure_de_lappel) {
        (Some(instant), _) => Debut::Souhaite(instant),
        (None, Some(heure)) => Debut::PremierJourALHeureDeLAppel(heure),
        (None, None) => Debut::DebutDeLEdition,
    }
}

/// La durée retenue : celle du dossier s'il en donne une, sinon celle de
/// l'appel ; une durée absente, nulle ou négative cède la place à la
/// convention. Une durée nulle du dossier ne laisse pas passer celle de
/// l'appel.
pub open spec fn duree_retenue(du_dossier: Option<i16>, de_lappel: Option<i16>) -> int {
    let donnee = if du_dossier is Some { du_dossier } else { de_lappel };
    match donnee {
        Some(m) => if m > 0 { m as int } else { DUREE_PAR_DEFAUT as int },
        None => DUREE_PAR_DEFAUT as int,
    }
}

/// La durée d'une séance naissante, en minutes.
pub fn duree_minutes(du_dossier: Option<i16>, de_lappel: Option<i16>) -> (r: i32)
    ensures
        r == duree_retenue(du_dossier, de_lappel),
        r > 0,
{
    let donnee = match du_dossier {
        Some(m) => Some(m),
        None => de_lappel,
    };
    match donnee {
        Some(m) => if m > 0 { m as i32 } else { DUREE_PAR_DEFAUT },
        None => DUREE_PAR_DEFAUT,
    }
}

/// La fin, quand le début est connu : le début plus la durée, dans le même
/// décalage.
pub fn fin(debut: Horodatage, duree_minutes: i32) -> (r: Horodatage)
    requires
        debut.valide(),
        dans_la_plage(debut.local_nanos + duree_minutes * 60_000_000_000),
    ensures
        r.local_nanos == debut.local_nanos + duree_minutes * 60_000_000_000,
        r.decalage == debut.decalage,
        r.instant() == debut.instant() + duree_minutes * 60_000_000_000,
{
    plus_minutes(debut, duree_minutes)
}

/// Le nombre de séances à créer : celui demandé, au moins une.
pub open spec fn nombre_de_rangs(occurrences: i16) -> int {
    if occurrences < 1 { 1 } else { occurrences as int }
}

/// Les rangs d'occurrence à créer — de 1 au nombre demandé, au moins un.
pub fn rangs(occurrences: i16) -> (r: Vec<i16>)
    ensures
        r@.len() == nombre_de_rangs(occurrences),
        forall|k: int| 0 <= k < r@.len() ==> #[trigger] r@[k] == k + 1,
{
    let dernier: i16 = if occurrences < 1 { 1 } else { occurrences };
    let mut r: Vec<i16> = Vec::new();
    let mut rang: i16 = 0;
    while rang < dernier
        invariant
            0 <= rang <= dernier,
            dernier == nombre_de_rangs(occurrences),
            r@.len() == rang,
            forall|k: int| 0 <= k < r@.len() ==> #[trigger] r@[k] == k + 1,
        decreases dernier - rang,
    {
        rang = rang + 1;
        r.push(rang);
    }
    r
}

/// L'adresse de la n-ième occurrence : le rang n'est suffixé que lorsqu'il y
/// en a plusieurs.
pub open spec fn adresse_de_rang(base: Seq<char>, rang: i16, occurrences: i16) -> Seq<char> {
    if occurrences <= 1 {
        base
    } else {
        base + seq!['-'] + ecriture_signee(rang as int)
    }
}

/// L'adresse d'URL de la n-ième occurrence.
pub fn adresse(base: &str, rang: i16, occurrences: i16) -> (r: String)
    ensures
        r@ == adresse_de_rang(base@, rang, occurrences),
{
    if occurrences <= 1 {
        base.to_string()
    } else {
        let mut r = base.to_string();
        proof { reveal_strlit("-"); }
        r.append("-");
        let suffixe = decimal_signe(rang as i64);
        r.append(suffixe.as_str());
        assert(r@ =~= adresse_de_rang(base@, rang, occurrences));
        r
    }
}

} // verus!

//! Les fenêtres qui décident si une séance prend une inscription.
//!
//! Quatre motifs distincts, chacun avec sa réponse : la séance est annulée,
//! elle ne prend pas d'inscription, les inscriptions ne sont pas encore
//! ouvertes, ou elles sont closes.

use vstd::prelude::*;
use crate::temps::{Horodatage, est_avant};

verus! {

/// La fenêtre d'inscription d'une séance, chacune avec son propre motif.
#[derive(Debug, Clone, Copy, PartialEq, Eq)]
pub enum Fenetre {
    Ouverte,
    /// La séance est annulée.
    SeanceAnnulee,
    /// La séance ne prend pas d'inscription.
    SansInscription,
    /// Avant l'ouverture des inscriptions.
    PasEncoreOuverte(Horodatage),
    /// Après la clôture des inscriptions.
    Close(Horodatage),
}

/// L'état d'une séance, du seul point de vue de l'inscription.
#[derive(Debug, Clone, Copy)]
pub struct EtatDInscription {
    pub annulee: bool,
    pub inscription_requise: bool,
    pub ouvre_le: Option<Horodatage>,
    pub ferme_le: Option<Horodatage>,
}

impl EtatDInscription {
    /// Les horodatages présents sont valides.
    pub open spec fn valide(self) -> bool {
        &&& (self.ouvre_le matches Some(o) ==> o.valide())
        &&& (self.ferme_le matches Some(f) ==> f.valide())
    }
}

/// La fenêtre, dans l'ordre où les motifs comptent : l'annulation, puis
/// l'absence d'inscription, puis les deux bornes de temps.
pub open spec fn fenetre_de(etat: EtatDInscription, maintenant: Horodatage) -> Fenetre {
    if etat.annulee {
        Fenetre::SeanceAnnulee
    } else if !etat.inscription_requise {
        Fenetre::SansInscription
    } else if etat.ouvre_le matches Some(o) && maintenant.instant() < o.instant() {
        Fenetre::PasEncoreOuverte(etat.ouvre_le->0)
    } else if etat.ferme_le matches Some(f) && maintenant.instant() > f.instant() {
        Fenetre::Close(etat.ferme_le->0)
    } else {
        Fenetre::Ouverte
    }
}

/// Décider la fenêtre, dans l'ordre où les motifs comptent.
pub fn fenetre(etat: EtatDInscription, maintenant: Horodatage) -> (r: Fenetre)
    requires
        etat.valide(),
        maintenant.valide(),
    ensures
        r == fenetre_de(etat, maintenant),
{
    if etat.annulee {
        return Fenetre::SeanceAnnulee;
    }
    if !etat.inscription_requise {
        return Fenetre::SansInscription;
    }
    if let Some(ouvre) = etat.ouvre_le {
        if est_avant(&maintenant, &ouvre) {
            return Fenetre::PasEncoreOuverte(ouvre);
        }
    }
    if let Some(ferme) = etat.ferme_le {
        if est_avant(&ferme, &maintenant) {
            return Fenetre::Close(ferme);
        }
    }
    Fenetre::Ouverte
}

/// L'annulation prime : une séance annulée le dit, quelles que soient ses
/// bornes d'inscription et l'instant.
pub proof fn lannulation_prime(etat: EtatDInscription, maintenant: Horodatage)
    requires
        etat.annulee,
    ensures
        fenetre_de(etat, maintenant) == Fenetre::SeanceAnnulee,
{
}

/// Une séance échue est close : non annulée, prenant des inscriptions, dont
/// la clôture est passée et l'ouverture atteinte (ou absente), sa fenêtre est
/// `Close` avec la date de clôture — quelle que soit la date d'ouverture.
pub proof fn une_seance_echue_est_close(etat: EtatDInscription, maintenant: Horodatage, f: Horodatage)
    requires
        !etat.annulee,
        etat.inscription_requise,
        etat.ferme_le == Some(f),
        maintenant.instant() > f.instant(),
        etat.ouvre_le matches Some(o) ==> maintenant.instant() >= o.instant(),
    ensures
        fenetre_de(etat, maintenant) == Fenetre::Close(f),
{
}

/// La fenêtre n'est ouverte qu'à une séance non annulée, qui prend des
/// inscriptions, dont l'ouverture est atteinte et la clôture pas dépassée ;
/// et elle l'est alors toujours.
pub proof fn quand_la_fenetre_est_ouverte(etat: EtatDInscription, maintenant: Horodatage)
    ensures
        (fenetre_de(etat, maintenant) == Fenetre::Ouverte) <==> {
            &&& !etat.annulee
            &&& etat.inscription_requise
            &&& (etat.ouvre_le matches Some(o) ==> maintenant.instant() >= o.instant())
            &&& (etat.ferme_le matches Some(f) ==> maintenant.instant() <= f.instant())
        },
{
}

/// Une séance qui prend des inscriptions, sans bornes, est ouverte à tout
/// instant.
pub proof fn sans_bornes_toujours_ouverte(etat: EtatDInscription, maintenant: Horodatage)
    requires
        !etat.annulee,
        etat.inscription_requise,
        etat.ouvre_le is None,
        etat.ferme_le is None,
    ensures
        fenetre_de(etat, maintenant) == Fenetre::Ouverte,
{
}

} // verus!

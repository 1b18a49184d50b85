//! Le classement des trois refus de recevabilité en réponses nommées.
//!
//! Trois conditions, lues et non recalculées, dans l'ordre du déclencheur de
//! la base : la fenêtre de l'appel (pour un premier dépôt seulement), le
//! plafond par organisation, la vérification de l'organisation.

use vstd::prelude::*;
use crate::temps::{Horodatage, est_avant};
use crate::texte::egales;

verus! {

/// Ce que la base porte sur l'appel au moment du dépôt, lu tel quel.
#[derive(Debug, Clone)]
pub struct EtatDeLAppel {
    /// `event.calls_for_proposals.status`.
    pub statut: String,
    pub ouvre_le: Horodatage,
    /// L'échéance effective, prolongation comprise.
    pub echeance: Horodatage,
    pub plafond_par_organisation: Option<i16>,
    pub exige_organisation_verifiee: bool,
}

/// Ce que la base porte sur l'organisation porteuse.
#[derive(Debug, Clone, Copy)]
pub struct EtatDeLOrganisation {
    /// Dossiers déjà comptés dans le plafond, celui-ci exclu.
    pub dossiers_comptes: i64,
    pub verifiee: bool,
}

/// L'issue du classement. Les trois refus ne sont pas des erreurs.
#[derive(Debug, Clone, Copy, PartialEq, Eq)]
pub enum Recevabilite {
    /// Rien ne s'oppose au dépôt. Le déclencheur reste le dernier mot.
    Recevable,
    /// L'appel n'accepte plus de dépôt — statut, ou fenêtre.
    CallClosed { deadline: Horodatage },
    /// Le plafond de l'organisation est atteint sur cet appel.
    QuotaReached { max: i16 },
    /// L'appel est réservé aux organisations vérifiées.
    OrganizationNotVerified,
}

/// L'appel est hors de sa fenêtre : pas ouvert, pas encore ouvert, ou échu.
pub open spec fn hors_fenetre(appel: EtatDeLAppel, maintenant: Horodatage) -> bool {
    appel.statut@ != "open"@
        || maintenant.instant() < appel.ouvre_le.instant()
        || maintenant.instant() > appel.echeance.instant()
}

/// Le classement, dans l'ordre du déclencheur.
pub open spec fn classement(
    appel: EtatDeLAppel,
    organisation: EtatDeLOrganisation,
    premier_depot: bool,
    maintenant: Horodatage,
) -> Recevabilite {
    if premier_depot && hors_fenetre(appel, maintenant) {
        Recevabilite::CallClosed { deadline: appel.echeance }
    } else if appel.plafond_par_organisation matches Some(max)
        && organisation.dossiers_comptes >= max {
        Recevabilite::QuotaReached { max: appel.plafond_par_organisation->0 }
    } else if appel.exige_organisation_verifiee && !organisation.verifiee {
        Recevabilite::OrganizationNotVerified
    } else {
        Recevabilite::Recevable
    }
}

/// Classe les trois refus, dans l'ordre du déclencheur.
pub fn classer(
    appel: &EtatDeLAppel,
    organisation: EtatDeLOrganisation,
    premier_depot: bool,
    maintenant: Horodatage,
) -> (r: Recevabilite)
    requires
        appel.ouvre_le.valide(),
        appel.echeance.valide(),
        maintenant.valide(),
    ensures
        r == classement(*appel, organisation, premier_depot, maintenant),
{
    if premier_depot
        && (!egales(appel.statut.as_str(), "open")
            || est_avant(&maintenant, &appel.ouvre_le)
            || est_avant(&appel.echeance, &maintenant))
    {
        return Recevabilite::CallClosed { deadline: appel.echeance };
    }
    if let Some(max) = appel.plafond_par_organisation {
        if organisation.dossiers_comptes >= max as i64 {
            return Recevabilite::QuotaReached { max };
        }
    }
    if appel.exige_organisation_verifiee && !organisation.verifiee {
        return Recevabilite::OrganizationNotVerified;
    }
    Recevabilite::Recevable
}

/// La fenêtre ne vaut que pour un premier dépôt : le renvoi d'un dossier
/// après correction n'est jamais refusé pour un appel clos.
pub proof fn un_renvoi_echappe_a_la_fenetre(
    appel: EtatDeLAppel,
    organisation: EtatDeLOrganisation,
    maintenant: Horodatage,
)
    ensures
        classement(appel, organisation, false, maintenant) !is CallClosed,
{
}

/// Le plafond vaut dans les deux cas : il compte des dossiers, pas des envois.
/// Un premier dépôt dans la fenêtre et un renvoi sont classés de même.
pub proof fn le_plafond_vaut_pour_tout_envoi(
    appel: EtatDeLAppel,
    organisation: EtatDeLOrganisation,
    maintenant: Horodatage,
)
    requires
        !hors_fenetre(appel, maintenant),
    ensures
        classement(appel, organisation, true, maintenant)
            == classement(appel, organisation, false, maintenant),
{
}

/// Un appel réservé aux organisations vérifiées refuse une organisation qui
/// ne l'est pas, dès que ni la fenêtre (pour un premier dépôt) ni le plafond
/// ne refusent avant — que l'appel ait un plafond ou non.
pub proof fn une_organisation_non_verifiee_est_refusee(
    appel: EtatDeLAppel,
    organisation: EtatDeLOrganisation,
    premier_depot: bool,
    maintenant: Horodatage,
)
    requires
        premier_depot ==> appel.statut@ == "open"@
            && appel.ouvre_le.instant() <= maintenant.instant()
            && maintenant.instant() <= appel.echeance.instant(),
        appel.plafond_par_organisation matches Some(m) ==> organisation.dossiers_comptes < m,
        appel.exige_organisation_verifiee,
        !organisation.verifiee,
    ensures
        classement(appel, organisation, premier_depot, maintenant) == Recevabilite::OrganizationNotVerified,
{
}

/// Un dépôt est recevable exactement quand aucun des trois refus ne joue :
/// la fenêtre pour un premier dépôt, le plafond, la vérification exigée.
pub proof fn quand_un_depot_est_recevable(
    appel: EtatDeLAppel,
    organisation: EtatDeLOrganisation,
    premier_depot: bool,
    maintenant: Horodatage,
)
    ensures
        (classement(appel, organisation, premier_depot, maintenant) == Recevabilite::Recevable) <==> {
            &&& (premier_depot ==> appel.statut@ == "open"@
                && appel.ouvre_le.instant() <= maintenant.instant()
                && maintenant.instant() <= appel.echeance.instant())
            &&& (appel.plafond_par_organisation matches Some(m) ==> organisation.dossiers_comptes < m)
            &&& (appel.exige_organisation_verifiee ==> organisation.verifiee)
        },
{
}

/// L'ordre du déclencheur : un premier dépôt hors fenêtre est refusé pour la
/// fenêtre, quel que soit l'état du plafond.
pub proof fn la_fenetre_prime_sur_le_plafond(
    appel: EtatDeLAppel,
    organisation: EtatDeLOrganisation,
    maintenant: Horodatage,
)
    requires
        hors_fenetre(appel, maintenant),
    ensures
        classement(appel, organisation, true, maintenant)
            == (Recevabilite::CallClosed { deadline: appel.echeance }),
{
}

} // verus!

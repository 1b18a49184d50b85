//! La table d'évaluation : où en est chaque membre du comité, et ce que le
//! lecteur a le droit d'y faire.

use vstd::prelude::*;
use crate::temps::{Horodatage, est_avant};

verus! {

/// Où en est un membre du comité sur ce dossier.
#[derive(Debug, Clone, Copy, PartialEq, Eq, Structural)]
pub enum EtatDAvancement {
    Submitted,
    /// Commencée, pas rendue.
    Drafted,
    Pending,
    Overdue,
    /// Le déport prime sur tout le reste.
    Recused,
}

/// L'affectation d'un membre du comité à un dossier, telle que la base la
/// porte.
#[derive(Debug, Clone)]
pub struct Affectation {
    pub id: u128,
    pub proposal_id: u128,
    pub reviewer_id: u128,
    pub assigned_by: Option<u128>,
    pub assigned_at: Horodatage,
    pub due_at: Option<Horodatage>,
    pub recused_at: Option<Horodatage>,
    pub recusal_reason: Option<String>,
}

/// L'état, dans l'ordre de la règle : déport, puis dépôt, puis brouillon,
/// puis retard.
pub open spec fn avancement(
    affectation: Affectation,
    revue_deposee: Option<Horodatage>,
    revue_existe: bool,
    maintenant: Horodatage,
) -> EtatDAvancement {
    if affectation.recused_at is Some {
        EtatDAvancement::Recused
    } else if revue_deposee is Some {
        EtatDAvancement::Submitted
    } else if revue_existe {
        EtatDAvancement::Drafted
    } else if affectation.due_at matches Some(e) && e.instant() < maintenant.instant() {
        EtatDAvancement::Overdue
    } else {
        EtatDAvancement::Pending
    }
}

/// Où en est ce membre du comité.
pub fn etat_davancement(
    affectation: &Affectation,
    revue_deposee: Option<Horodatage>,
    revue_existe: bool,
    maintenant: Horodatage,
) -> (r: EtatDAvancement)
    requires
        affectation.due_at matches Some(e) ==> e.valide(),
        maintenant.valide(),
    ensures
        r == avancement(*affectation, revue_deposee, revue_existe, maintenant),
{
    if affectation.recused_at.is_some() {
        return EtatDAvancement::Recused;
    }
    if revue_deposee.is_some() {
        return EtatDAvancement::Submitted;
    }
    if revue_existe {
        return EtatDAvancement::Drafted;
    }
    match affectation.due_at {
        Some(echeance) => if est_avant(&echeance, &maintenant) {
            EtatDAvancement::Overdue
        } else {
            EtatDAvancement::Pending
        },
        None => EtatDAvancement::Pending,
    }
}

/// Un membre déporté n'est jamais en retard ni en attente, quoi qu'il ait
/// rendu et quelle que soit l'échéance.
pub proof fn le_deport_prime(
    affectation: Affectation,
    revue_deposee: Option<Horodatage>,
    revue_existe: bool,
    maintenant: Horodatage,
)
    requires
        affectation.recused_at is Some,
    ensures
        avancement(affectation, revue_deposee, revue_existe, maintenant) == EtatDAvancement::Recused,
{
}

/// Une revue commencée et pas rendue n'est jamais en retard : elle est en
/// brouillon.
pub proof fn un_brouillon_n_est_pas_en_retard(
    affectation: Affectation,
    maintenant: Horodatage,
)
    requires
        affectation.recused_at is None,
    ensures
        avancement(affectation, None, true, maintenant) == EtatDAvancement::Drafted,
{
}

/// Ce que ce lecteur a le droit de faire sur la fiche.
#[derive(Debug, Clone, Copy)]
pub struct DroitsSurLaFiche {
    pub can_review: bool,
    pub can_decide: bool,
    pub can_assign: bool,
    /// Décorrélé de la permission : un membre peut lire un dossier qu'on ne
    /// lui a pas confié, sans le noter.
    pub is_assigned: bool,
    pub is_recused: bool,
}

} // verus!

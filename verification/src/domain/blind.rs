//! Le voile de l'évaluation en aveugle.
//!
//! Quand le voile est baissé, les revues des pairs ne sont pas lues du tout ;
//! le décompte, lui, l'est.

use vstd::prelude::*;

verus! {

/// Les trois conditions, telles que le contrat les pose.
#[derive(Debug, Clone, Copy)]
pub struct Lecteur {
    /// L'appel impose l'évaluation en aveugle.
    pub appel_en_aveugle: bool,
    /// Une affectation existe sur ce dossier, déport non compris.
    pub affecte: bool,
    /// Sa propre revue est déposée.
    pub revue_deposee: bool,
}

/// Le voile est baissé pour un lecteur affecté à un appel en aveugle tant que
/// sa propre revue n'est pas déposée.
pub open spec fn voile(lecteur: Lecteur) -> bool {
    lecteur.appel_en_aveugle && lecteur.affecte && !lecteur.revue_deposee
}

/// Le voile est-il baissé pour ce lecteur ?
pub fn voile_baisse(lecteur: Lecteur) -> (r: bool)
    ensures
        r == voile(lecteur),
{
    lecteur.appel_en_aveugle && lecteur.affecte && !lecteur.revue_deposee
}

/// Le voile se lève à la seconde où la revue part : un lecteur dont la revue
/// est déposée voit les revues de ses pairs, quel que soit l'appel.
pub proof fn le_voile_se_leve_au_depot(lecteur: Lecteur)
    requires
        lecteur.revue_deposee,
    ensures
        !voile(lecteur),
{
}

/// Celui qui décide sans noter n'est pas affecté, donc jamais voilé.
pub proof fn qui_n_est_pas_affecte_n_est_pas_voile(lecteur: Lecteur)
    requires
        !lecteur.affecte,
    ensures
        !voile(lecteur),
{
}

} // verus!

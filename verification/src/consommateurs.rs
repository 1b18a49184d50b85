//! Ce que ce module consomme de l'outbox : l'annonce de la parution du
//! programme d'une édition.

use vstd::prelude::*;

verus! {

/// Le type de l'annonce de parution du programme.
pub const PROGRAMME_PUBLISHED: &'static str = "event.programme.published";

/// Le consommateur de l'annonce de parution.
#[derive(Debug, Clone, Copy)]
pub struct PublicationConsumer;

impl PublicationConsumer {
    /// Le nom inscrit pour la garde d'idempotence : le renommer ferait
    /// rejouer toutes les annonces déjà traitées.
    pub fn name(&self) -> (r: &'static str)
        ensures
            r@ == "programme.publication"@,
    {
        "programme.publication"
    }

    /// Seule l'annonce de parution du programme le concerne.
    pub fn handles(&self, event_type: &str) -> (r: bool)
        ensures
            r == (event_type@ == PROGRAMME_PUBLISHED@),
    {
        crate::texte::egales(event_type, PROGRAMME_PUBLISHED)
    }

    /// L'effet diffère-t-il du nombre annoncé ? L'écart est tracé, jamais
    /// refusé : une séance née entre l'annonce et son traitement peut s'y
    /// ajouter.
    pub fn l_effet_differe(publiees: u64, annoncees: i64) -> (r: bool)
        ensures
            r == (publiees as int != annoncees as int),
    {
        if annoncees < 0 {
            true
        } else {
            publiees != annoncees as u64
        }
    }
}

} // verus!

//! Les champs dérivés d'une séance : ils ne se saisissent pas, et leur refus
//! nomme le champ pour que l'écran sache quelle commande souligner.

use vstd::prelude::*;
use crate::erreurs::{ApiError, ErrorCode, ErreurVue, refus_nomme};

verus! {

fn refuser(champ: &str, motif: &str) -> (r: ApiError)
    ensures
        r@ == refus_nomme(ErrorCode::SessionDerivedField, motif@, champ@),
{
    ApiError::with_message(ErrorCode::SessionDerivedField, motif.to_string()).field(champ)
}

/// L'intervalle est une colonne engendrée.
pub fn refuser_lintervalle() -> (r: ApiError)
    ensures
        r@ == refus_nomme(
            ErrorCode::SessionDerivedField,
            "Le créneau complet est déduit du début et de la fin : il ne se saisit pas."@,
            "time_range"@,
        ),
{
    refuser(
        "time_range",
        "Le créneau complet est déduit du début et de la fin : il ne se saisit pas.",
    )
}

/// L'exclusivité de salle est dérivée du caractère virtuel de la salle.
pub fn refuser_lexclusivite() -> (r: ApiError)
    ensures
        r@ == refus_nomme(
            ErrorCode::SessionDerivedField,
            "L'occupation du stand est déduite de la salle : elle ne se saisit pas."@,
            "enforce_room_exclusivity"@,
        ),
{
    refuser(
        "enforce_room_exclusivity",
        "L'occupation du stand est déduite de la salle : elle ne se saisit pas.",
    )
}

/// Le refus d'un canal désigné alors que la diffusion est retirée.
pub open spec fn refus_du_canal() -> ErreurVue {
    refus_nomme(
        ErrorCode::SessionDerivedField,
        "La diffusion est retirée : aucun canal ne peut être désigné."@,
        "broadcast_channel_id"@,
    )
}

/// Un canal désigné alors que la diffusion est retirée.
pub fn refuser_le_canal_sans_diffusion() -> (r: ApiError)
    ensures
        r@ == refus_du_canal(),
{
    refuser(
        "broadcast_channel_id",
        "La diffusion est retirée : aucun canal ne peut être désigné.",
    )
}

/// Le régime du canal, à l'écriture de la diffusion : accepté quand la
/// diffusion est activée, refusé quand elle est retirée ; sans canal, rien
/// n'est écrit et le déclencheur pose le canal par défaut.
pub fn canal_a_lecriture(diffusee: bool, canal: Option<u128>) -> (r: Result<Option<u128>, ApiError>)
    ensures
        !diffusee && canal is Some <==> r is Err,
        r matches Err(e) ==> e@ == refus_du_canal(),
        r matches Ok(c) ==> c == canal,
{
    match (diffusee, canal) {
        (false, Some(_)) => Err(refuser_le_canal_sans_diffusion()),
        (true, None) => Ok(None),
        (true, Some(id)) => Ok(Some(id)),
        (false, None) => Ok(None),
    }
}

/// Une référence inconnue, désactivée, ou appartenant à une autre édition.
/// Un seul code pour les quatre ; le champ dit laquelle.
pub fn reference_inconnue(champ: &str, quoi: &str) -> (r: ApiError)
    ensures
        r@ == refus_nomme(
            ErrorCode::SessionUnknownReference,
            quoi@ + " n'existe pas, ou n'appartient pas à cette édition."@,
            champ@,
        ),
{
    let mut message = quoi.to_string();
    message.append(" n'existe pas, ou n'appartient pas à cette édition.");
    ApiError::with_message(ErrorCode::SessionUnknownReference, message).field(champ)
}

/// La fin doit être postérieure au début ; le refus porte sur le champ de fin.
pub fn refuser_le_creneau() -> (r: ApiError)
    ensures
        r@ == refus_nomme(
            ErrorCode::ValidationError,
            "La fin d'une séance doit être postérieure à son début."@,
            "ends_at"@,
        ),
{
    ApiError::validation("La fin d'une séance doit être postérieure à son début.", "ends_at")
}

} // verus!

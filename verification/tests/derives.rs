use programme::domain::derived::{
    canal_a_lecriture, reference_inconnue, refuser_le_creneau, refuser_lexclusivite, refuser_lintervalle,
};
use programme::erreurs::ErrorCode;

#[test]
fn le_canal_choisi_est_retenu_quand_la_diffusion_est_activee() {
    let canal = uuid::Uuid::now_v7().as_u128();
    assert_eq!(canal_a_lecriture(true, Some(canal)).unwrap(), Some(canal));
}

#[test]
fn sans_canal_le_service_laisse_faire_le_declencheur() {
    assert_eq!(canal_a_lecriture(true, None).unwrap(), None);
}

#[test]
fn un_canal_designe_sans_diffusion_est_refuse_sur_son_champ() {
    let erreur = canal_a_lecriture(false, Some(uuid::Uuid::now_v7().as_u128())).unwrap_err();
    assert_eq!(erreur.code, ErrorCode::SessionDerivedField);
    assert_eq!(erreur.field.as_deref(), Some("broadcast_channel_id"));
}

#[test]
fn retirer_la_diffusion_sans_canal_passe() {
    assert_eq!(canal_a_lecriture(false, None).unwrap(), None);
}

#[test]
fn les_deux_refus_nomment_leur_champ() {
    assert_eq!(refuser_lintervalle().field.as_deref(), Some("time_range"));
    assert_eq!(refuser_lexclusivite().field.as_deref(), Some("enforce_room_exclusivity"));
}

#[test]
fn une_reference_inconnue_nomme_ce_qui_manque() {
    let erreur = reference_inconnue("room_id", "Cette salle");
    assert_eq!(erreur.code, ErrorCode::SessionUnknownReference);
    assert_eq!(erreur.field.as_deref(), Some("room_id"));
    assert_eq!(
        erreur.message.as_deref(),
        Some("Cette salle n'existe pas, ou n'appartient pas à cette édition.")
    );
}

#[test]
fn le_creneau_refuse_porte_sur_la_fin() {
    let erreur = refuser_le_creneau();
    assert_eq!(erreur.code, ErrorCode::ValidationError);
    assert_eq!(erreur.field.as_deref(), Some("ends_at"));
    assert_eq!(erreur.message.as_deref(), Some("La fin d'une séance doit être postérieure à son début."));
}

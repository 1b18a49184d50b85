use programme::domain::birth::{adresse, debut, duree_minutes, fin, rangs, Debut, DUREE_PAR_DEFAUT};
use programme::temps::{HeureMurale, Horodatage};

fn horodatage(annee: i32, mois: u8, jour: u8, heure: u8, minute: u8, decalage_h: i8) -> Horodatage {
    let date = time::Date::from_calendar_date(annee, time::Month::try_from(mois).unwrap(), jour).unwrap();
    let local = date.with_hms(heure, minute, 0).unwrap();
    let instant = local.assume_offset(time::UtcOffset::from_hms(decalage_h, 0, 0).unwrap());
    Horodatage {
        local_nanos: instant.replace_offset(time::UtcOffset::UTC).unix_timestamp_nanos(),
        decalage: instant.offset().whole_seconds(),
    }
}

fn heure(h: u8, m: u8) -> HeureMurale {
    HeureMurale { heure: h, minute: m, seconde: 0, nanoseconde: 0 }
}

#[test]
fn le_creneau_souhaite_prime_sur_tout() {
    let souhaite = horodatage(2027, 11, 12, 14, 0, -3);
    assert_eq!(debut(Some(souhaite), Some(heure(9, 0))), Debut::Souhaite(souhaite));
}

#[test]
fn sans_souhait_le_repli_est_lheure_douverture_de_lappel() {
    assert_eq!(debut(None, Some(heure(9, 30))), Debut::PremierJourALHeureDeLAppel(heure(9, 30)));
}

#[test]
fn sans_appel_le_repli_est_le_debut_de_ledition() {
    assert_eq!(debut(None, None), Debut::DebutDeLEdition);
}

#[test]
fn la_duree_suit_le_dossier_puis_lappel_puis_la_convention() {
    assert_eq!(duree_minutes(Some(45), Some(90)), 45);
    assert_eq!(duree_minutes(None, Some(90)), 90);
    assert_eq!(duree_minutes(None, None), DUREE_PAR_DEFAUT);
}

#[test]
fn une_duree_aberrante_retombe_sur_la_convention() {
    assert_eq!(duree_minutes(Some(0), None), DUREE_PAR_DEFAUT);
}

#[test]
fn la_fin_est_le_debut_plus_la_duree() {
    assert_eq!(fin(horodatage(2027, 11, 12, 14, 0, -3), 90), horodatage(2027, 11, 12, 15, 30, -3));
}

#[test]
fn les_rangs_vont_de_un_au_nombre_doccurrences() {
    assert_eq!(rangs(1), vec![1]);
    assert_eq!(rangs(3), vec![1, 2, 3]);
}

#[test]
fn un_nombre_doccurrences_aberrant_produit_quand_meme_une_seance() {
    assert_eq!(rangs(0), vec![1]);
}

#[test]
fn le_rang_ne_se_suffixe_que_sil_y_en_a_plusieurs() {
    assert_eq!(adresse("atelier-mangroves", 1, 1), "atelier-mangroves");
    assert_eq!(adresse("atelier-mangroves", 2, 3), "atelier-mangroves-2");
}

#[test]
fn une_duree_nulle_du_dossier_ne_laisse_pas_passer_celle_de_lappel() {
    assert_eq!(duree_minutes(Some(0), Some(90)), DUREE_PAR_DEFAUT);
    assert_eq!(duree_minutes(Some(-15), Some(90)), DUREE_PAR_DEFAUT);
    assert_eq!(duree_minutes(None, Some(-5)), DUREE_PAR_DEFAUT);
}

#[test]
fn des_rangs_negatifs_produisent_une_seance() {
    assert_eq!(rangs(-4), vec![1]);
    assert_eq!(rangs(50).len(), 50);
}

#[test]
fn un_rang_negatif_garde_son_signe_dans_ladresse() {
    assert_eq!(adresse("atelier", -2, 3), "atelier--2");
    assert_eq!(adresse("atelier", 7, 0), "atelier");
}

#[test]
fn la_fin_passe_minuit_et_garde_le_decalage() {
    let debut = horodatage(2027, 11, 12, 23, 30, 2);
    let attendue = horodatage(2027, 11, 13, 0, 15, 2);
    let obtenue = fin(debut, 45);
    assert_eq!(obtenue, attendue);
    assert_eq!(obtenue.decalage, 7200);
}

#[test]
fn un_meme_instant_ecrit_dans_deux_decalages_est_le_meme_souhait() {
    let belem = horodatage(2027, 11, 12, 14, 0, -3);
    let paris = horodatage(2027, 11, 12, 18, 0, 1);
    assert_eq!(belem, paris);
    assert_eq!(debut(Some(belem), None), Debut::Souhaite(paris));
    assert_ne!(belem, horodatage(2027, 11, 12, 14, 0, 1));
}

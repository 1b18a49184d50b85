use programme::domain::registration::{fenetre, EtatDInscription, Fenetre};
use programme::temps::Horodatage;

fn utc(annee: i32, mois: u8, jour: u8, heure: u8, minute: u8) -> Horodatage {
    let date = time::Date::from_calendar_date(annee, time::Month::try_from(mois).unwrap(), jour).unwrap();
    let instant = date.with_hms(heure, minute, 0).unwrap().assume_utc();
    Horodatage { local_nanos: instant.unix_timestamp_nanos(), decalage: 0 }
}

fn etat() -> EtatDInscription {
    EtatDInscription { annulee: false, inscription_requise: true, ouvre_le: None, ferme_le: None }
}

fn maintenant() -> Horodatage {
    utc(2027, 11, 1, 12, 0)
}

#[test]
fn une_seance_ordinaire_est_ouverte() {
    assert_eq!(fenetre(etat(), maintenant()), Fenetre::Ouverte);
}

#[test]
fn les_quatre_fenetres_rendent_quatre_motifs_distincts() {
    let annulee = EtatDInscription { annulee: true, ..etat() };
    assert_eq!(fenetre(annulee, maintenant()), Fenetre::SeanceAnnulee);

    let sans = EtatDInscription { inscription_requise: false, ..etat() };
    assert_eq!(fenetre(sans, maintenant()), Fenetre::SansInscription);

    let ouvre = utc(2027, 11, 5, 9, 0);
    let plus_tard = EtatDInscription { ouvre_le: Some(ouvre), ..etat() };
    assert_eq!(fenetre(plus_tard, maintenant()), Fenetre::PasEncoreOuverte(ouvre));

    let ferme = utc(2027, 10, 30, 18, 0);
    let close = EtatDInscription { ferme_le: Some(ferme), ..etat() };
    assert_eq!(fenetre(close, maintenant()), Fenetre::Close(ferme));
}

#[test]
fn lannulation_prime_sur_la_cloture() {
    let etat = EtatDInscription { annulee: true, ferme_le: Some(utc(2027, 10, 30, 18, 0)), ..etat() };
    assert_eq!(fenetre(etat, maintenant()), Fenetre::SeanceAnnulee);
}

#[test]
fn les_bornes_comparent_des_instants_et_non_des_heures_locales() {
    // 14:00 à Paris (+1) est 13:00 UTC : avant midi UTC ? Non, après.
    let paris = Horodatage { local_nanos: utc(2027, 11, 1, 14, 0).local_nanos, decalage: 3600 };
    let tardive = EtatDInscription { ouvre_le: Some(paris), ..etat() };
    assert_eq!(fenetre(tardive, maintenant()), Fenetre::PasEncoreOuverte(paris));
    // 12:30 à Paris est 11:30 UTC : déjà ouvert à midi UTC.
    let paris_tot = Horodatage { local_nanos: utc(2027, 11, 1, 12, 30).local_nanos, decalage: 3600 };
    let ouverte = EtatDInscription { ouvre_le: Some(paris_tot), ..etat() };
    assert_eq!(fenetre(ouverte, maintenant()), Fenetre::Ouverte);
}

#[test]
fn a_linstant_de_la_cloture_la_seance_est_encore_ouverte() {
    let bornee = EtatDInscription { ferme_le: Some(maintenant()), ouvre_le: Some(maintenant()), ..etat() };
    assert_eq!(fenetre(bornee, maintenant()), Fenetre::Ouverte);
}

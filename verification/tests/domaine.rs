use programme::consommateurs::{PublicationConsumer, PROGRAMME_PUBLISHED};
use programme::domain::blind::{voile_baisse, Lecteur};
use programme::domain::desk::{etat_davancement, Affectation, EtatDAvancement};
use programme::domain::eligibility::{classer, EtatDeLAppel, EtatDeLOrganisation, Recevabilite};
use programme::domain::limits::{
    biographie, borne, contraintes, longueur_du_texte, objectifs, presentation, public_vise, resultats, resume,
    tient, titre,
};
use programme::domain::ownership::{exiger, peut_agir, Adhesion};
use programme::domain::permissions::{
    CallManage, PermissionSpec, ProposalDecide, ProposalReadAll, ProposalSubmit, RegistrationManage, ReviewWrite,
    SessionSchedule,
};
use programme::domain::sessions::SessionStatus;
use programme::domain::transitions::{motif_exige, motif_fourni, AvailableTransition, ProposalStatus};
use programme::erreurs::ErrorCode;
use programme::temps::{est_avant, Horodatage};

const TOUS_LES_ETATS: [ProposalStatus; 8] = [
    ProposalStatus::Draft,
    ProposalStatus::Submitted,
    ProposalStatus::UnderReview,
    ProposalStatus::ChangesRequested,
    ProposalStatus::Accepted,
    ProposalStatus::Rejected,
    ProposalStatus::Withdrawn,
    ProposalStatus::Cancelled,
];

fn utc(jour: u8, heure: u8) -> Horodatage {
    let date = time::Date::from_calendar_date(2027, time::Month::November, jour).unwrap();
    let instant = date.with_hms(heure, 0, 0).unwrap().assume_utc();
    Horodatage { local_nanos: instant.unix_timestamp_nanos(), decalage: 0 }
}

#[test]
fn chaque_etat_de_dossier_se_relit_en_base() {
    for etat in TOUS_LES_ETATS {
        assert_eq!(ProposalStatus::from_db(etat.as_str()), Some(etat));
    }
    assert_eq!(ProposalStatus::Accepted.as_str(), "accepted");
    assert_eq!(ProposalStatus::from_db("Accepted"), None);
    assert_eq!(ProposalStatus::from_db(""), None);
}

#[test]
fn chaque_etat_de_seance_se_relit_en_base() {
    for etat in [
        SessionStatus::Planned,
        SessionStatus::Scheduled,
        SessionStatus::Live,
        SessionStatus::Completed,
        SessionStatus::Postponed,
        SessionStatus::Cancelled,
    ] {
        assert_eq!(SessionStatus::from_db(etat.as_str()), Some(etat));
    }
    assert_eq!(SessionStatus::Scheduled.as_str(), "scheduled");
    assert_eq!(SessionStatus::from_db("published"), None);
}

#[test]
fn un_dossier_retenu_reste_modifiable() {
    let modifiables: Vec<bool> = TOUS_LES_ETATS.iter().map(|e| e.est_modifiable()).collect();
    assert_eq!(modifiables, vec![true, true, true, true, true, false, false, false]);
}

#[test]
fn le_motif_exige_est_celui_de_la_premiere_transition_offerte() {
    let offertes = [
        AvailableTransition { to_status: ProposalStatus::Withdrawn, requires_reason: false },
        AvailableTransition { to_status: ProposalStatus::Rejected, requires_reason: true },
        AvailableTransition { to_status: ProposalStatus::Rejected, requires_reason: false },
    ];
    assert_eq!(motif_exige(&offertes, ProposalStatus::Rejected), Some(true));
    assert_eq!(motif_exige(&offertes, ProposalStatus::Withdrawn), Some(false));
    assert_eq!(motif_exige(&offertes, ProposalStatus::Accepted), None);
    assert_eq!(motif_exige(&[], ProposalStatus::Accepted), None);
}

#[test]
fn un_motif_d_espaces_n_en_est_pas_un() {
    assert!(!motif_fourni(None));
    assert!(!motif_fourni(Some("")));
    assert!(!motif_fourni(Some(" \t\n ")));
    assert!(motif_fourni(Some("  Hors sujet ")));
}

#[test]
fn le_voile_ne_tombe_que_sur_un_evaluateur_affecte_qui_n_a_pas_rendu() {
    let lecteur = Lecteur { appel_en_aveugle: true, affecte: true, revue_deposee: false };
    assert!(voile_baisse(lecteur));
    assert!(!voile_baisse(Lecteur { revue_deposee: true, ..lecteur }));
    assert!(!voile_baisse(Lecteur { affecte: false, ..lecteur }));
    assert!(!voile_baisse(Lecteur { appel_en_aveugle: false, ..lecteur }));
}

#[test]
fn seule_une_adhesion_active_permet_d_agir() {
    assert!(!peut_agir(None));
    assert!(!peut_agir(Some(Adhesion { active: false })));
    assert!(peut_agir(Some(Adhesion { active: true })));
    assert!(exiger(Some(Adhesion { active: true })).is_ok());
    let refus = exiger(Some(Adhesion { active: false })).unwrap_err();
    assert_eq!(refus.code, ErrorCode::NotFound);
    assert_eq!(refus.field, None);
}

#[test]
fn les_bornes_sont_celles_du_formulaire() {
    let bornes = [titre(), resume(), objectifs(), presentation(), resultats(), public_vise(), contraintes(), biographie()];
    let attendues = [
        ("title", 180),
        ("summary", 400),
        ("objectives", 1200),
        ("detailed_presentation", 4000),
        ("expected_outcomes", 1200),
        ("target_audiences", 600),
        ("scheduling_constraints", 500),
        ("bio", 800),
    ];
    for (b, (champ, max)) in bornes.iter().zip(attendues) {
        assert_eq!(b.champ, champ);
        assert_eq!(b.max, max);
    }
}

#[test]
fn le_compte_est_en_caracteres_et_non_en_octets() {
    let accentue = "é".repeat(180);
    assert_eq!(accentue.len(), 360);
    assert!(tient(&accentue, &titre()));
    assert!(!tient(&"é".repeat(181), &titre()));
    assert!(tient("", &borne("x", 0)));
}

#[test]
fn la_longueur_d_un_texte_riche_ignore_le_balisage() {
    assert_eq!(longueur_du_texte("<p>Un <strong>été</strong></p>"), 6);
    assert_eq!(longueur_du_texte(""), 0);
}

fn appel(statut: &str, plafond: Option<i16>, verifiee: bool) -> EtatDeLAppel {
    EtatDeLAppel {
        statut: statut.to_string(),
        ouvre_le: utc(1, 0),
        echeance: utc(20, 0),
        plafond_par_organisation: plafond,
        exige_organisation_verifiee: verifiee,
    }
}

#[test]
fn un_premier_depot_hors_fenetre_est_refuse_pour_appel_clos() {
    let org = EtatDeLOrganisation { dossiers_comptes: 9, verifiee: false };
    let clos = classer(&appel("open", Some(3), true), org, true, utc(21, 0));
    assert_eq!(clos, Recevabilite::CallClosed { deadline: utc(20, 0) });
    let ferme = classer(&appel("closed", None, false), org, true, utc(10, 0));
    assert_eq!(ferme, Recevabilite::CallClosed { deadline: utc(20, 0) });
    let trop_tot = classer(&appel("open", None, false), org, true, Horodatage { local_nanos: utc(1, 0).local_nanos - 1, decalage: 0 });
    assert_eq!(trop_tot, Recevabilite::CallClosed { deadline: utc(20, 0) });
}

#[test]
fn un_renvoi_apres_la_cloture_est_recevable() {
    let org = EtatDeLOrganisation { dossiers_comptes: 0, verifiee: true };
    assert_eq!(classer(&appel("closed", Some(3), true), org, false, utc(25, 0)), Recevabilite::Recevable);
}

#[test]
fn le_plafond_vaut_pour_un_renvoi_comme_pour_un_depot() {
    let org = EtatDeLOrganisation { dossiers_comptes: 3, verifiee: true };
    assert_eq!(classer(&appel("open", Some(3), false), org, true, utc(10, 0)), Recevabilite::QuotaReached { max: 3 });
    assert_eq!(classer(&appel("closed", Some(3), false), org, false, utc(25, 0)), Recevabilite::QuotaReached { max: 3 });
    let sous = EtatDeLOrganisation { dossiers_comptes: 2, verifiee: true };
    assert_eq!(classer(&appel("open", Some(3), false), sous, true, utc(10, 0)), Recevabilite::Recevable);
}

#[test]
fn une_organisation_non_verifiee_est_refusee_quand_l_appel_l_exige() {
    let org = EtatDeLOrganisation { dossiers_comptes: 0, verifiee: false };
    assert_eq!(classer(&appel("open", None, true), org, true, utc(10, 0)), Recevabilite::OrganizationNotVerified);
    assert_eq!(classer(&appel("open", None, false), org, true, utc(10, 0)), Recevabilite::Recevable);
}

fn affectation(due: Option<Horodatage>, deport: Option<Horodatage>) -> Affectation {
    Affectation {
        id: 1,
        proposal_id: 2,
        reviewer_id: 3,
        assigned_by: None,
        assigned_at: utc(1, 0),
        due_at: due,
        recused_at: deport,
        recusal_reason: None,
    }
}

#[test]
fn le_deport_prime_sur_le_retard_et_le_depot() {
    let a = affectation(Some(utc(2, 0)), Some(utc(3, 0)));
    assert_eq!(etat_davancement(&a, Some(utc(4, 0)), true, utc(10, 0)), EtatDAvancement::Recused);
}

#[test]
fn l_avancement_suit_l_ordre_de_la_regle() {
    let echue = affectation(Some(utc(2, 0)), None);
    assert_eq!(etat_davancement(&echue, Some(utc(4, 0)), true, utc(10, 0)), EtatDAvancement::Submitted);
    assert_eq!(etat_davancement(&echue, None, true, utc(10, 0)), EtatDAvancement::Drafted);
    assert_eq!(etat_davancement(&echue, None, false, utc(10, 0)), EtatDAvancement::Overdue);
    assert_eq!(etat_davancement(&echue, None, false, utc(2, 0)), EtatDAvancement::Pending);
    let sans_echeance = affectation(None, None);
    assert_eq!(etat_davancement(&sans_echeance, None, false, utc(10, 0)), EtatDAvancement::Pending);
}

#[test]
fn chaque_permission_porte_son_code() {
    assert_eq!(ProposalSubmit::code(), "programme.proposal.submit");
    assert_eq!(ProposalReadAll::code(), "programme.proposal.read_all");
    assert_eq!(ReviewWrite::code(), "programme.review.write");
    assert_eq!(ProposalDecide::code(), "programme.proposal.decide");
    assert_eq!(CallManage::code(), "event.call.manage");
    assert_eq!(SessionSchedule::code(), "programme.session.schedule");
    assert_eq!(RegistrationManage::code(), "programme.registration.manage");
}

#[test]
fn le_consommateur_ne_traite_que_la_parution() {
    let c = PublicationConsumer;
    assert_eq!(c.name(), "programme.publication");
    assert!(c.handles(PROGRAMME_PUBLISHED));
    assert!(c.handles("event.programme.published"));
    assert!(!c.handles("event.programme.unpublished"));
    assert!(PublicationConsumer::l_effet_differe(3, 2));
    assert!(!PublicationConsumer::l_effet_differe(3, 3));
    assert!(PublicationConsumer::l_effet_differe(0, -1));
}

#[test]
fn deux_horodatages_se_comparent_par_leur_instant() {
    let midi_utc = utc(1, 12);
    let treize_heures_paris = Horodatage { local_nanos: utc(1, 13).local_nanos, decalage: 3600 };
    assert!(!est_avant(&midi_utc, &treize_heures_paris));
    assert!(!est_avant(&treize_heures_paris, &midi_utc));
    assert!(est_avant(&utc(1, 11), &treize_heures_paris));
}

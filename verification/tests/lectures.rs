use programme::domain::facets::{ordre_des_statuts, par_compte_decroissant, selon, Compteur, ProposalFacet};
use programme::domain::transitions::ProposalStatus;
use programme::erreurs::ErrorCode;
use programme::json::Json;
use programme::lecture::adresses::{abandon, apres_tentative, collision_dadresse, creneau_decoupe, IssueDEcriture, Suite};
use programme::lecture::listes::{organisations_ajoutees, seance_par_adresse};
use programme::lecture::formulaires::{faut_il_les_pays, resoudre, taxonomies_demandees, valeurs_explicites, Champ};
use programme::lecture::personnes::{identite_ecrite, voit_le_fil_interne, Cote, IdentiteSaisie};
use programme::lecture::regles::{offertes_lues, regles_lues, LigneDeRegle, LigneOfferte};
use programme::lecture::themes::{dedoublonner, nommer_le_code_refuse};
use programme::requetes::{
    adresse_cherchee, biographie_affichee, decouper, limite_de_programmation, organisations_demandees,
    prefixe_suggere, AdresseCherchee, DebutDadresse, EditionDemandee, OrganisationsDemandees,
};

fn objet(entrees: Vec<(&str, Json)>) -> Json {
    Json::Objet(entrees.into_iter().map(|(k, v)| (k.to_string(), v)).collect())
}

fn texte(t: &str) -> Json {
    Json::Texte(t.to_string())
}

fn champ(code: &str, nature: &str, options: Json) -> Champ {
    Champ {
        code: code.to_string(),
        field_type: nature.to_string(),
        is_required: true,
        is_sensitive: false,
        options,
        validation: Json::Nul,
    }
}

fn chaines(l: &[&str]) -> Vec<String> {
    l.iter().map(|s| s.to_string()).collect()
}

#[test]
fn les_options_viennent_de_trois_origines() {
    let liste = objet(vec![(
        "values",
        Json::Liste(vec![objet(vec![("value", texte("a"))]), objet(vec![("label", texte("b"))]), objet(vec![("value", texte("c"))])]),
    )]);
    let champs = vec![
        champ("pays", "country", Json::Nul),
        champ("theme", "single_choice", objet(vec![("taxonomy", texte("activity_theme"))])),
        champ("vide", "single_choice", objet(vec![("taxonomy", texte("absente"))])),
        champ("choix", "single_choice", liste),
        champ("libre", "text", Json::Nul),
    ];
    assert_eq!(taxonomies_demandees(&champs), chaines(&["activity_theme", "absente"]));
    assert!(faut_il_les_pays(&champs));
    let lus = vec![
        ("activity_theme".to_string(), "climat".to_string()),
        ("autre".to_string(), "x".to_string()),
        ("activity_theme".to_string(), "eau".to_string()),
    ];
    let resolus = resoudre(champs, &lus, Some(chaines(&["SN", "BR"])));
    assert_eq!(resolus.len(), 5);
    assert_eq!(resolus[0].options, Some(chaines(&["SN", "BR"])));
    assert_eq!(resolus[1].options, Some(chaines(&["climat", "eau"])));
    assert_eq!(resolus[2].options, Some(vec![]));
    assert_eq!(resolus[3].options, Some(chaines(&["a", "c"])));
    assert_eq!(resolus[4].options, None);
    assert_eq!(resolus[1].code, "theme");
}

#[test]
fn sans_champ_de_pays_la_liste_n_est_pas_lue() {
    let champs = vec![champ("libre", "text", Json::Nul)];
    assert!(!faut_il_les_pays(&champs));
    assert_eq!(valeurs_explicites(&Json::Nul), None);
    assert_eq!(valeurs_explicites(&objet(vec![("values", texte("a"))])), None);
}

#[test]
fn les_codes_se_dedoublonnent_sans_se_trier() {
    let codes = chaines(&["eau", "climat", "eau", "forets", "climat"]);
    assert_eq!(dedoublonner(&codes), chaines(&["eau", "climat", "forets"]));
    assert_eq!(dedoublonner(&[]), Vec::<String>::new());
}

#[test]
fn le_refus_nomme_le_premier_code_inconnu() {
    let e = nommer_le_code_refuse(&chaines(&["eau", "lune", "mars"]), &chaines(&["eau"]));
    assert_eq!(e.code, ErrorCode::ProposalUnknownTerm);
    assert_eq!(e.field.as_deref(), Some("theme_codes"));
    assert_eq!(e.message.as_deref(), Some("La thématique « lune » n'existe pas."));
    let generique = nommer_le_code_refuse(&chaines(&["eau"]), &chaines(&["eau"]));
    assert_eq!(generique.message, None);
    assert_eq!(generique.field.as_deref(), Some("theme_codes"));
}

#[test]
fn une_ligne_d_etat_inconnu_est_ecartee() {
    let lignes = vec![
        LigneDeRegle {
            depuis: "draft".to_string(),
            vers: "submitted".to_string(),
            required_permission: None,
            allowed_for_owner: true,
            requires_reason: false,
        },
        LigneDeRegle {
            depuis: "draft".to_string(),
            vers: "archived".to_string(),
            required_permission: None,
            allowed_for_owner: true,
            requires_reason: false,
        },
        LigneDeRegle {
            depuis: "under_review".to_string(),
            vers: "rejected".to_string(),
            required_permission: Some("programme.proposal.decide".to_string()),
            allowed_for_owner: false,
            requires_reason: true,
        },
    ];
    let regles = regles_lues(lignes);
    assert_eq!(regles.len(), 2);
    assert_eq!(regles[1].from_status, ProposalStatus::UnderReview);
    assert_eq!(regles[1].to_status, ProposalStatus::Rejected);
    assert_eq!(regles[1].required_permission.as_deref(), Some("programme.proposal.decide"));
    assert!(regles[1].requires_reason);

    let offertes = offertes_lues(&[
        LigneOfferte { vers: "withdrawn".to_string(), requires_reason: false },
        LigneOfferte { vers: "inconnu".to_string(), requires_reason: true },
    ]);
    assert_eq!(offertes.len(), 1);
    assert_eq!(offertes[0].to_status, ProposalStatus::Withdrawn);
}

#[test]
fn une_collision_fait_reessayer_jusqu_a_la_derniere_tentative() {
    assert_eq!(apres_tentative(0, IssueDEcriture::Ecrite), Suite::Rendre);
    assert_eq!(apres_tentative(0, IssueDEcriture::Refus), Suite::Echouer);
    assert_eq!(apres_tentative(0, IssueDEcriture::Collision), Suite::Reessayer { numero: 1 });
    assert_eq!(apres_tentative(8, IssueDEcriture::Collision), Suite::Reessayer { numero: 9 });
    assert_eq!(apres_tentative(9, IssueDEcriture::Collision), Suite::Abandonner);
}

#[test]
fn seule_la_contrainte_d_adresse_est_une_collision() {
    assert!(collision_dadresse(Some("23505"), Some("ux_proposals_slug")));
    assert!(!collision_dadresse(Some("23505"), Some("ux_autre")));
    assert!(!collision_dadresse(Some("23001"), Some("ux_proposals_slug")));
    assert!(!collision_dadresse(None, None));
}

#[test]
fn l_abandon_dit_combien_de_tentatives_ont_echoue() {
    let e = abandon("atelier");
    assert_eq!(e.code, ErrorCode::InternalError);
    assert_eq!(e.message.as_deref(), Some("adresse d'URL introuvable après 10 tentatives sur « atelier »"));
}

#[test]
fn le_creneau_se_decoupe_en_date_et_heure() {
    let c = Some(("2027-11-12".to_string(), "14:30".to_string()));
    assert_eq!(creneau_decoupe(&c), (Some("2027-11-12"), Some("14:30")));
    assert_eq!(creneau_decoupe(&None), (None, None));
}

#[test]
fn l_identite_s_ecrit_rognee() {
    let saisie = IdentiteSaisie { email: " A@b.org", first_name: "  Awa ", last_name: " Sow", civility: Some("Mme") };
    let ecrite = identite_ecrite(saisie);
    assert_eq!(ecrite.first_name, "Awa");
    assert_eq!(ecrite.last_name, "Sow");
    assert_eq!(ecrite.email, " A@b.org");
    assert!(voit_le_fil_interne(Cote::Comite));
    assert!(!voit_le_fil_interne(Cote::Organisation));
}

#[test]
fn la_recherche_par_adresse_ignore_la_casse_et_les_blancs() {
    let d = AdresseCherchee { email: "  A.Diallo@Ex.org ".to_string() };
    assert_eq!(adresse_cherchee(&d).as_deref(), Some("a.diallo@ex.org"));
    assert_eq!(adresse_cherchee(&AdresseCherchee { email: "   ".to_string() }), None);
}

#[test]
fn une_autocompletion_exige_trois_caracteres() {
    assert_eq!(prefixe_suggere(&DebutDadresse { q: " Ab ".to_string() }), None);
    assert_eq!(prefixe_suggere(&DebutDadresse { q: " AbC ".to_string() }).as_deref(), Some("abc"));
}

#[test]
fn la_programmation_d_une_edition_n_est_pas_plafonnee() {
    assert_eq!(limite_de_programmation(EditionDemandee { event_id: Some(7), limit: None }), None);
    assert_eq!(limite_de_programmation(EditionDemandee { event_id: Some(7), limit: Some(5000) }), Some(5000));
    assert_eq!(limite_de_programmation(EditionDemandee { event_id: None, limit: None }), Some(50));
    assert_eq!(limite_de_programmation(EditionDemandee { event_id: None, limit: Some(0) }), Some(1));
    assert_eq!(limite_de_programmation(EditionDemandee { event_id: None, limit: Some(5000) }), Some(200));
    assert_eq!(limite_de_programmation(EditionDemandee { event_id: None, limit: Some(20) }), Some(20));
}

#[test]
fn une_liste_d_identifiants_ignore_ce_qui_n_en_est_pas() {
    let a = uuid::Uuid::now_v7();
    let b = uuid::Uuid::now_v7();
    let liste = format!("{a}, pas-un-id,{} ,", b.simple());
    assert_eq!(decouper(Some(&liste)), vec![a.as_u128(), b.as_u128()]);
    assert_eq!(decouper(None), Vec::<u128>::new());
    assert_eq!(decouper(Some("")), Vec::<u128>::new());
    let demandees = OrganisationsDemandees { organization_ids: Some(a.to_string()) };
    assert_eq!(organisations_demandees(&demandees), vec![a.as_u128()]);
}

#[test]
fn une_biographie_vide_n_est_pas_affichee() {
    assert_eq!(biographie_affichee(&None), None);
    assert_eq!(biographie_affichee(&Some(objet(vec![("fr", texte(""))]))), None);
    assert_eq!(biographie_affichee(&Some(objet(vec![("fr", texte("Chercheuse"))]))).as_deref(), Some("Chercheuse"));
}

fn facette(valeur: &str, compte: i64) -> ProposalFacet {
    ProposalFacet { value: valeur.to_string(), label: None, count: compte, color: None }
}

fn valeurs(f: &[ProposalFacet]) -> Vec<(String, i64)> {
    f.iter().map(|x| (x.value.clone(), x.count)).collect()
}

#[test]
fn le_compteur_garde_l_ordre_de_premiere_apparition() {
    let mut c = Compteur::new();
    c.ajouter_code("b");
    c.ajouter_code("a");
    c.ajouter_code("b");
    c.declarer("c");
    c.declarer("a");
    c.ajouter("d", None, Some("#00AA00".to_string()));
    c.ajouter("d", None, Some("#FF0000".to_string()));
    let f = c.rendre();
    assert_eq!(valeurs(&f), vec![("b".to_string(), 2), ("a".to_string(), 1), ("c".to_string(), 0), ("d".to_string(), 2)]);
    assert_eq!(f[3].color.as_deref(), Some("#00AA00"));
}

#[test]
fn le_tri_par_compte_est_stable() {
    let f = vec![facette("a", 1), facette("b", 3), facette("c", 1), facette("d", 3)];
    assert_eq!(valeurs(&par_compte_decroissant(f)), vec![
        ("b".to_string(), 3),
        ("d".to_string(), 3),
        ("a".to_string(), 1),
        ("c".to_string(), 1),
    ]);
}

#[test]
fn les_statuts_suivent_le_cycle_de_vie() {
    let f = vec![facette("rejected", 1), facette("inconnu", 4), facette("draft", 2), facette("accepted", 5)];
    let ordre = ordre_des_statuts();
    assert_eq!(valeurs(&selon(f, &ordre)), vec![
        ("draft".to_string(), 2),
        ("accepted".to_string(), 5),
        ("rejected".to_string(), 1),
        ("inconnu".to_string(), 4),
    ]);
}

#[test]
fn seules_les_lignes_neuves_sont_des_ajouts() {
    assert_eq!(organisations_ajoutees(&[(1, true), (2, false), (3, true)]), vec![1, 3]);
    assert_eq!(organisations_ajoutees(&[]), Vec::<u128>::new());
}

#[test]
fn une_seance_se_retrouve_par_son_adresse() {
    let adresses = chaines(&["ouverture", "atelier", "atelier"]);
    assert_eq!(seance_par_adresse(&adresses, "atelier"), Some(1));
    assert_eq!(seance_par_adresse(&adresses, "cloture"), None);
}

#[test]
fn le_compteur_rend_une_facette_par_valeur_vue() {
    let mut c = Compteur::new();
    c.declarer("zero");
    c.ajouter("x", Some(Json::Texte("X".to_string())), None);
    c.ajouter_code("y");
    c.ajouter("x", Some(Json::Texte("autre".to_string())), Some("#000".to_string()));
    c.ajouter_code("zero");
    c.declarer("y");
    let f = c.rendre();
    assert_eq!(valeurs(&f), vec![("zero".to_string(), 1), ("x".to_string(), 2), ("y".to_string(), 1)]);
    assert!(f[0].label.is_none());
    assert!(matches!(&f[1].label, Some(Json::Texte(t)) if t == "X"));
    assert_eq!(f[1].color, None);
}

use programme::domain::answers::{champs_sensibles_repondus, est_une_date, ressemble_a_une_adresse, valider, ChampResolu};
use programme::erreurs::ErrorCode;
use programme::json::{Json, Nombre};

fn champ(code: &str, nature: &str, obligatoire: bool) -> ChampResolu {
    ChampResolu {
        code: code.to_string(),
        field_type: nature.to_string(),
        is_required: obligatoire,
        is_sensitive: false,
        options: None,
        validation: Json::Nul,
    }
}

fn texte(t: &str) -> Json {
    Json::Texte(t.to_string())
}

fn entier(n: u64) -> Json {
    Json::Nombre(Nombre { naturel: Some(n), mantisse: n as i64, exposant: 0, affichage: n.to_string() })
}

fn regles(entrees: Vec<(&str, Json)>) -> Json {
    Json::Objet(entrees.into_iter().map(|(k, v)| (k.to_string(), v)).collect())
}

fn reponses(entrees: Vec<(&str, Json)>) -> Vec<(String, Json)> {
    entrees.into_iter().map(|(k, v)| (k.to_string(), v)).collect()
}

fn refus(champs: &[ChampResolu], r: Vec<(String, Json)>) -> (String, String) {
    let e = valider(champs, &r).unwrap_err();
    assert_eq!(e.code, ErrorCode::RegistrationAnswerInvalid);
    (e.field.unwrap(), e.message.unwrap())
}

#[test]
fn une_question_inconnue_est_refusee_par_son_nom() {
    let champs = [champ("nom", "text", false)];
    let (nomme, message) = refus(&champs, reponses(vec![("age", entier(3))]));
    assert_eq!(nomme, "age");
    assert_eq!(message, "La question « age » n'existe pas dans ce formulaire.");
}

#[test]
fn le_vide_vaut_absence() {
    let champs = [champ("nom", "text", true)];
    let (nomme, message) = refus(&champs, reponses(vec![("nom", texte("   "))]));
    assert_eq!(nomme, "nom");
    assert_eq!(message, "Cette réponse est obligatoire.");
    assert_eq!(refus(&champs, reponses(vec![])).1, "Cette réponse est obligatoire.");
    assert_eq!(refus(&champs, reponses(vec![("nom", Json::Nul)])).1, "Cette réponse est obligatoire.");
    let facultatif = [champ("nom", "text", false)];
    assert!(valider(&facultatif, &reponses(vec![("nom", texte(""))])).is_ok());
}

#[test]
fn un_choix_multiple_obligatoire_vide_est_refuse() {
    let champs = [champ("ateliers", "multiple_choice", true)];
    assert_eq!(refus(&champs, reponses(vec![("ateliers", Json::Liste(vec![]))])).1, "Cette réponse est obligatoire.");
    assert_eq!(refus(&champs, reponses(vec![("ateliers", texte("a"))])).1, "Cette question attend plusieurs réponses.");
    assert_eq!(
        refus(&champs, reponses(vec![("ateliers", Json::Liste(vec![entier(1)]))])).1,
        "Cette valeur ne fait pas partie des choix proposés."
    );
}

#[test]
fn chaque_nature_attend_sa_forme() {
    let email = [champ("courriel", "email", true)];
    assert_eq!(
        refus(&email, reponses(vec![("courriel", texte("awa@exemple"))])).1,
        "Cette valeur n'est pas une adresse électronique valide."
    );
    assert!(valider(&email, &reponses(vec![("courriel", texte(" awa@exemple.org "))])).is_ok());
    assert_eq!(refus(&email, reponses(vec![("courriel", entier(1))])).1, "Cette valeur n'est pas un texte.");

    let nombre = [champ("age", "number", true)];
    assert_eq!(refus(&nombre, reponses(vec![("age", texte("12"))])).1, "Cette valeur n'est pas un nombre.");
    assert!(valider(&nombre, &reponses(vec![("age", entier(12))])).is_ok());

    let booleen = [champ("accord", "boolean", true)];
    assert_eq!(refus(&booleen, reponses(vec![("accord", texte("oui"))])).1, "Cette valeur n'est ni « oui » ni « non ».");
    assert!(valider(&booleen, &reponses(vec![("accord", Json::Booleen(false))])).is_ok());

    let pays = [champ("pays", "country", true)];
    assert_eq!(
        refus(&pays, reponses(vec![("pays", texte("Sénégal"))])).1,
        "Le pays s'exprime par son code à deux lettres (par exemple « SN »)."
    );

    let inconnue = [champ("x", "signature", true)];
    assert!(valider(&inconnue, &reponses(vec![("x", entier(1))])).is_ok());
}

#[test]
fn une_date_se_lit_au_format_iso() {
    let date = [champ("naissance", "date", true)];
    assert!(valider(&date, &reponses(vec![("naissance", texte(" 2027-11-12 "))])).is_ok());
    assert_eq!(refus(&date, reponses(vec![("naissance", texte("12/11/2027"))])).1, "Cette valeur n'est pas une date valide.");
    assert_eq!(refus(&date, reponses(vec![("naissance", texte("2027-02-30"))])).1, "Cette valeur n'est pas une date valide.");
}

#[test]
fn les_options_sont_comparees_et_le_pays_sans_egard_a_la_casse() {
    let mut choix = champ("atelier", "single_choice", true);
    choix.options = Some(vec!["a".to_string(), "b".to_string()]);
    let champs = [choix];
    assert!(valider(&champs, &reponses(vec![("atelier", texte(" a "))])).is_ok());
    assert_eq!(refus(&champs, reponses(vec![("atelier", texte("A"))])).1, "Cette valeur ne fait pas partie des choix proposés.");

    let mut pays = champ("pays", "country", true);
    pays.options = Some(vec!["SN".to_string(), "BR".to_string()]);
    let champs = [pays];
    assert!(valider(&champs, &reponses(vec![("pays", texte("sn"))])).is_ok());
    assert_eq!(refus(&champs, reponses(vec![("pays", texte("FR"))])).1, "Cette valeur ne fait pas partie des choix proposés.");

    let mut aucun = champ("atelier", "single_choice", true);
    aucun.options = Some(vec![]);
    assert_eq!(refus(&[aucun], reponses(vec![("atelier", texte("a"))])).1, "Cette valeur ne fait pas partie des choix proposés.");
}

#[test]
fn les_longueurs_se_comptent_en_caracteres() {
    let mut c = champ("nom", "text", true);
    c.validation = regles(vec![("minLength", entier(3)), ("maxLength", entier(5)), ("inconnue", entier(1))]);
    let champs = [c];
    assert_eq!(refus(&champs, reponses(vec![("nom", texte("ab"))])).1, "Cette réponse doit compter au moins 3 caractères.");
    assert_eq!(refus(&champs, reponses(vec![("nom", texte("abcdef"))])).1, "Cette réponse ne doit pas dépasser 5 caractères.");
    assert!(valider(&champs, &reponses(vec![("nom", texte("ééééé"))])).is_ok());
}

#[test]
fn un_motif_est_applique_et_un_motif_invalide_ignore() {
    let mut c = champ("code", "text", true);
    c.validation = regles(vec![("pattern", texte("^[A-Z]{2}$"))]);
    let champs = [c];
    assert_eq!(refus(&champs, reponses(vec![("code", texte("abc"))])).1, "Cette réponse n'a pas le format attendu.");
    assert!(valider(&champs, &reponses(vec![("code", texte("AB"))])).is_ok());

    let mut casse = champ("code", "text", true);
    casse.validation = regles(vec![("pattern", texte("("))]);
    assert!(valider(&[casse], &reponses(vec![("code", texte("n'importe"))])).is_ok());
}

#[test]
fn les_bornes_numeriques_nomment_leurs_valeurs() {
    let mut c = champ("age", "number", true);
    c.validation = regles(vec![("min", entier(1)), ("max", entier(10))]);
    let champs = [c];
    assert_eq!(refus(&champs, reponses(vec![("age", entier(15))])).1, "La valeur doit être comprise entre 1 et 10.");
    assert!(valider(&champs, &reponses(vec![("age", entier(10))])).is_ok());

    let mut mini = champ("age", "number", true);
    mini.validation = regles(vec![("min", entier(18))]);
    assert_eq!(refus(&[mini], reponses(vec![("age", entier(3))])).1, "La valeur ne peut pas être inférieure à 18.");

    let mut maxi = champ("age", "number", true);
    maxi.validation = regles(vec![("max", entier(2))]);
    assert_eq!(refus(&[maxi], reponses(vec![("age", entier(3))])).1, "La valeur ne peut pas dépasser 2.");
}

#[test]
fn seuls_les_champs_sensibles_repondus_sont_signales() {
    let mut sante = champ("sante", "long_text", false);
    sante.is_sensitive = true;
    let mut regime = champ("regime", "text", false);
    regime.is_sensitive = true;
    let nom = champ("nom", "text", false);
    let champs = [sante, regime, nom];
    let r = reponses(vec![("sante", texte("asthme")), ("regime", texte("  ")), ("nom", texte("Awa"))]);
    assert_eq!(champs_sensibles_repondus(&champs, &r), vec!["sante"]);
}

#[test]
fn une_adresse_a_un_domaine_avec_un_point() {
    assert!(ressemble_a_une_adresse("awa@exemple.org"));
    assert!(!ressemble_a_une_adresse("@exemple.org"));
    assert!(!ressemble_a_une_adresse("awa@.org"));
    assert!(!ressemble_a_une_adresse("awa@exemple.org."));
    assert!(!ressemble_a_une_adresse("awa@exem ple.org"));
    assert!(!ressemble_a_une_adresse("awa.exemple.org"));
}

#[test]
fn une_date_se_lit_blancs_des_bords_otes() {
    assert!(est_une_date(" 2027-11-12\n"));
    assert!(est_une_date("2024-02-29"));
    assert!(!est_une_date("2027-13-01"));
    assert!(!est_une_date(""));
}

use programme::domain::draft::{
    est_provisoire, forme, fr, fr_sans_repli, heure_murale, i18n, i18n_de_brouillon, i18n_liste, i18n_obligatoire,
    une_seance, TEXTE_PROVISOIRE, TITRE_PROVISOIRE,
};
use programme::domain::sanitize::{assainir, est_vide, texte_seul};
use programme::domain::slug::{base, tentative, tronquer, REPLI, TENTATIVES_MAX};
use programme::json::Json;

fn texte_fr(doc: &Json) -> Option<String> {
    match doc {
        Json::Objet(entrees) if entrees.len() == 1 && entrees[0].0 == "fr" => match &entrees[0].1 {
            Json::Texte(t) => Some(t.clone()),
            _ => None,
        },
        _ => None,
    }
}

#[test]
fn le_texte_seul_ote_le_balisage() {
    assert_eq!(texte_seul("<p>Bon<b>jour</b> à tous</p>"), "Bonjour à tous");
    assert_eq!(texte_seul("a > b < c"), "a  b ");
    assert_eq!(texte_seul(""), "");
    assert!(!texte_seul("x<y>z>w<").contains('<'));
}

#[test]
fn un_paragraphe_creux_est_vide() {
    assert!(est_vide(""));
    assert!(est_vide("<p></p>"));
    assert!(est_vide("<p> \n </p><br>"));
    assert!(!est_vide("<p>x</p>"));
}

#[test]
fn l_assainissement_ote_ce_qui_n_est_pas_admis() {
    assert_eq!(assainir("<script>alert(1)</script><p>ok</p>"), "<p>ok</p>");
    assert_eq!(assainir("<p style=\"color:red\">texte</p>"), "<p>texte</p>");
    assert_eq!(assainir("<span>garde</span>"), "garde");
    assert_eq!(assainir("<h3>Titre</h3><ul><li>un</li></ul>"), "<h3>Titre</h3><ul><li>un</li></ul>");
}

#[test]
fn un_lien_assaini_ne_donne_pas_acces_a_la_page_d_origine() {
    let propre = assainir("<a href=\"https://example.org\" onclick=\"x()\">lien</a>");
    assert_eq!(propre, "<a href=\"https://example.org\" rel=\"noopener noreferrer\">lien</a>");
    let javascript = assainir("<a href=\"javascript:alert(1)\">lien</a>");
    assert!(!javascript.contains("javascript"));
    let courriel = assainir("<a href=\"mailto:x@example.org\">écrire</a>");
    assert!(!courriel.contains("mailto"));
}

#[test]
fn la_base_retombe_sur_le_repli() {
    assert_eq!(base(None), REPLI);
    assert_eq!(base(Some("")), "dossier");
    assert_eq!(base(Some("   ")), "dossier");
    assert_eq!(base(Some("  atelier-mangroves ")), "atelier-mangroves");
}

#[test]
fn la_base_se_tronque_sur_une_frontiere_de_segment() {
    let tirets = "a-".repeat(100);
    let b = base(Some(&tirets));
    assert_eq!(b.len(), 155);
    assert!(b.ends_with('a'));
    let sans_tiret = "a".repeat(200);
    assert_eq!(base(Some(&sans_tiret)).len(), 157);
    let tiret_en_tete = format!("-{}", "a".repeat(200));
    assert_eq!(base(Some(&tiret_en_tete)).len(), 157);
    let court = "a".repeat(157);
    assert_eq!(base(Some(&court)), court);
}

#[test]
fn la_coupe_se_fait_avant_le_dernier_tiret() {
    assert_eq!(tronquer("abc---def", 6), "abc--");
    assert_eq!(tronquer("-bc---def", 6), "-bc--");
    assert_eq!(tronquer("abcdefgh", 4), "abcd");
    assert_eq!(tronquer("ab-cd-ef", 6), "ab-cd");
    assert_eq!(tronquer("-abcdef", 4), "-abc");
    assert_eq!(tronquer("-abc", 1), "");
    assert_eq!(tronquer("court", 10), "court");
}

#[test]
fn les_tentatives_suffixent_a_partir_de_deux() {
    assert_eq!(tentative("atelier", 0), "atelier");
    assert_eq!(tentative("atelier", 1), "atelier-2");
    assert_eq!(tentative("atelier", TENTATIVES_MAX - 1), "atelier-10");
}

#[test]
fn chaque_tentative_tient_dans_cent_soixante_octets() {
    let longue = "segment-".repeat(40);
    let b = base(Some(&longue));
    for n in 0..TENTATIVES_MAX {
        assert!(tentative(&b, n).len() <= 160);
    }
}

#[test]
fn un_texte_vide_ne_devient_pas_un_document() {
    assert!(i18n("").is_none());
    assert!(i18n("  \t ").is_none());
    let doc = i18n("  Bonjour ").unwrap();
    assert_eq!(texte_fr(&doc).as_deref(), Some("Bonjour"));
    assert_eq!(fr(&doc), "Bonjour");
}

#[test]
fn un_champ_obligatoire_se_relit_rogne() {
    let doc = i18n_obligatoire("  Présentation  ");
    assert_eq!(fr(&doc), "Présentation");
    assert_eq!(fr(&i18n_obligatoire("   ")), "");
}

#[test]
fn les_publics_vides_disparaissent() {
    let entrees = vec!["Ministères".to_string(), "  ".to_string(), " ONG ".to_string()];
    let docs = i18n_liste(&entrees);
    assert_eq!(docs.len(), 2);
    assert_eq!(fr(&docs[0]), "Ministères");
    assert_eq!(fr(&docs[1]), "ONG");
}

#[test]
fn la_resolution_francaise_rend_le_vide_a_defaut() {
    assert_eq!(fr(&Json::Nul), "");
    assert_eq!(fr(&Json::Objet(vec![("en".to_string(), Json::Texte("Hello".to_string()))])), "");
    assert_eq!(fr(&Json::Objet(vec![("fr".to_string(), Json::Booleen(true))])), "");
}

#[test]
fn l_heure_murale_se_decoupe_en_date_et_heure() {
    assert_eq!(heure_murale("2027-11-12T14:30"), Some(("2027-11-12", "14:30")));
    assert_eq!(heure_murale("2027-11-12T14:30:00"), Some(("2027-11-12", "14:30")));
    assert_eq!(heure_murale("12/11/2027T14:30"), None);
    assert_eq!(heure_murale("2027-11-12 14:30"), None);
    assert_eq!(heure_murale("2027-11-12T14h30"), None);
    assert_eq!(heure_murale("2027-11-12T14:3"), None);
    assert_eq!(heure_murale("2027-11-12Té4:30"), None);
}

#[test]
fn le_gabarit_compte_les_octets() {
    assert!(forme("2027-11-12", "0000-00-00"));
    assert!(!forme("2027/11/12", "0000-00-00"));
    assert!(!forme("2027-11-1", "0000-00-00"));
    assert!(forme("1é", "0é"));
    assert!(!forme("é", "00"));
}

#[test]
fn les_replis_sont_reconnus_et_effaces() {
    assert!(est_provisoire(TITRE_PROVISOIRE));
    assert!(est_provisoire("  À compléter "));
    assert!(!est_provisoire("Dossier sans titre, vraiment"));
    let brouillon = i18n_de_brouillon("  ", TITRE_PROVISOIRE);
    assert_eq!(fr(&brouillon), "Dossier sans titre");
    assert_eq!(fr_sans_repli(&brouillon), "");
    let rempli = i18n_de_brouillon(" Mon atelier ", TEXTE_PROVISOIRE);
    assert_eq!(fr_sans_repli(&rempli), "Mon atelier");
}

#[test]
fn un_dossier_demande_une_seance_par_defaut() {
    assert_eq!(une_seance(), 1);
}

#[test]
fn le_texte_seul_se_stabilise_et_ne_s_allonge_pas() {
    for fragment in ["<p>Bon<b>jour</b></p>", "a > b < c", "x<y>z>w<", "<<>>", "sans balise, é"] {
        let seul = texte_seul(fragment);
        assert!(seul.chars().count() <= fragment.chars().count());
        assert_eq!(texte_seul(&seul), seul);
    }
    assert_eq!(texte_seul("sans balise, é"), "sans balise, é");
}

#[test]
fn les_blancs_de_la_documentation_se_rognent() {
    assert!(est_vide(" \n\u{A0} "));
    assert!(!est_vide("越"));
}

#[test]
fn seul_href_survit_comme_attribut() {
    assert_eq!(assainir("<p lang=\"fr\" title=\"t\">texte</p>"), "<p>texte</p>");
    assert_eq!(
        assainir("<a href=\"https://example.org\" title=\"t\" lang=\"fr\">lien</a>"),
        "<a href=\"https://example.org\" rel=\"noopener noreferrer\">lien</a>"
    );
}

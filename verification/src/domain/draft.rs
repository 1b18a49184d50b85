//! Le brouillon d'un dossier : ses textes multilingues, son heure murale, et
//! les textes provisoires qui permettent d'enregistrer avant l'étape 2.

use vstd::prelude::*;
use crate::json::{Json, valeur_de, obtenir};
use crate::texte::{egales, rogne, rogner, octets, longueur_en_octets, rogner_est_idempotent};

verus! {

/// Le nombre de séances demandé par défaut.
pub fn une_seance() -> (r: i16)
    ensures
        r == 1,
{
    1
}

/// `doc` est le document `{"fr": t}` : un objet d'une seule entrée, la clé
/// `fr`, le texte `t`.
pub open spec fn document_fr(doc: Json, t: Seq<char>) -> bool {
    &&& doc matches Json::Objet(o)
    &&& o@.len() == 1
    &&& o@[0].0@ == "fr"@
    &&& o@[0].1 matches Json::Texte(x)
    &&& x@ == t
}

fn document(t: &str) -> (r: Json)
    ensures
        document_fr(r, t@),
{
    Json::Objet(vec![("fr".to_string(), Json::Texte(t.to_string()))])
}

/// Un texte français prêt pour `platform.i18n_text`, ou rien quand il est
/// vide une fois rogné.
pub fn i18n(texte: &str) -> (r: Option<Json>)
    ensures
        rogne(texte@).len() == 0 ==> r is None,
        rogne(texte@).len() > 0 ==> (r matches Some(d) && document_fr(d, rogne(texte@))),
{
    let coupe = rogner(texte);
    if coupe.unicode_len() == 0 {
        None
    } else {
        Some(document(coupe))
    }
}

/// Le même, pour un champ obligatoire : la chaîne vide passe telle quelle et
/// c'est le domaine de la base qui refuse.
pub fn i18n_obligatoire(texte: &str) -> (r: Json)
    ensures
        document_fr(r, rogne(texte@)),
{
    document(rogner(texte))
}

/// Les entrées gardées d'une liste, rognées : les entrées vides disparaissent.
pub open spec fn gardees(entrees: Seq<String>) -> Seq<Seq<char>>
    decreases entrees.len(),
{
    if entrees.len() == 0 {
        Seq::empty()
    } else {
        let avant = gardees(entrees.drop_last());
        let t = rogne(entrees.last()@);
        if t.len() == 0 { avant } else { avant.push(t) }
    }
}

/// Les publics visés, un document multilingue par entrée non vide.
pub fn i18n_liste(entrees: &[String]) -> (r: Vec<Json>)
    ensures
        r@.len() == gardees(entrees@).len(),
        forall|j: int| 0 <= j < r@.len() ==> document_fr(#[trigger] r@[j], gardees(entrees@)[j]),
{
    let n = entrees.len();
    let mut r: Vec<Json> = Vec::new();
    let mut i: usize = 0;
    while i < n
        invariant
            n == entrees@.len(),
            i <= n,
            r@.len() == gardees(entrees@.subrange(0, i as int)).len(),
            forall|j: int| 0 <= j < r@.len() ==> document_fr(#[trigger] r@[j], gardees(entrees@.subrange(0, i as int))[j]),
        decreases n - i,
    {
        let ghost avant = entrees@.subrange(0, i as int);
        let ghost apres = entrees@.subrange(0, i + 1);
        assert(apres.drop_last() =~= avant);
        assert(apres.last() == entrees@[i as int]);
        match i18n(entrees[i].as_str()) {
            Some(d) => {
                r.push(d);
            },
            None => {},
        }
        i = i + 1;
    }
    assert(entrees@.subrange(0, n as int) =~= entrees@);
    r
}

/// La résolution française d'un document multilingue : le texte sous la clé
/// `fr` d'un objet, ou la chaîne vide.
pub open spec fn francais(doc: Json) -> Seq<char> {
    match doc {
        Json::Objet(o) => match valeur_de(o@, "fr"@) {
            Some(Json::Texte(t)) => t@,
            _ => Seq::empty(),
        },
        _ => Seq::empty(),
    }
}

/// La résolution française d'un document multilingue, avec repli sur la
/// chaîne vide.
pub fn fr(document: &Json) -> (r: String)
    ensures
        r@ == francais(*document),
{
    match document {
        Json::Objet(o) => match obtenir(o, "fr") {
            Some(Json::Texte(t)) => t.clone(),
            _ => String::new(),
        },
        _ => String::new(),
    }
}

/// Le caractère `c` convient-il au caractère `attendu` d'un gabarit : un
/// chiffre ASCII pour `0`, lui-même sinon.
pub open spec fn accorde(c: char, attendu: char) -> bool {
    if attendu == '0' {
        '0' <= c && c <= '9'
    } else {
        c == attendu
    }
}

/// La valeur suit-elle le gabarit : même taille en octets, et chaque
/// caractère comparé convient à celui du gabarit.
pub open spec fn suit_le_gabarit(valeur: Seq<char>, gabarit: Seq<char>) -> bool {
    &&& octets(valeur) == octets(gabarit)
    &&& forall|k: int| 0 <= k < valeur.len() && k < gabarit.len()
        ==> accorde(#[trigger] valeur[k], gabarit[k])
}

/// Le gabarit d'une date ou d'une heure : `0` pour un chiffre, tout autre
/// caractère pour lui-même.
pub fn forme(valeur: &str, gabarit: &str) -> (r: bool)
    ensures
        r == suit_le_gabarit(valeur@, gabarit@),
{
    if longueur_en_octets(valeur) != longueur_en_octets(gabarit) {
        return false;
    }
    let n = valeur.unicode_len();
    let m = gabarit.unicode_len();
    let borne = if n < m { n } else { m };
    let mut i: usize = 0;
    while i < borne
        invariant
            n == valeur@.len(),
            m == gabarit@.len(),
            borne <= n && borne <= m,
            borne == n || borne == m,
            i <= borne,
            forall|k: int| 0 <= k < i ==> accorde(#[trigger] valeur@[k], gabarit@[k]),
        decreases borne - i,
    {
        let c = valeur.get_char(i);
        let attendu = gabarit.get_char(i);
        let ok = if attendu == '0' { '0' <= c && c <= '9' } else { c == attendu };
        if !ok {
            return false;
        }
        i = i + 1;
    }
    true
}

/// L'heure murale `AAAA-MM-JJTHH:MM…` découpée : la date avant le premier
/// `T`, et les cinq caractères qui le suivent, chacun à son gabarit.
pub open spec fn heure_murale_de(v: Seq<char>) -> Option<(Seq<char>, Seq<char>)> {
    match crate::texte::position(v, 'T') {
        Some(p) => {
            let date = v.subrange(0, p);
            let reste = v.subrange(p + 1, v.len() as int);
            if reste.len() >= 5 && suit_le_gabarit(date, "0000-00-00"@)
                && suit_le_gabarit(reste.subrange(0, 5), "00:00"@) {
                Some((date, reste.subrange(0, 5)))
            } else {
                None
            }
        },
        None => None,
    }
}

/// L'heure murale, découpée pour la base : `('2027-11-12', '14:30')`. Une
/// valeur mal formée ne rend rien.
pub fn heure_murale(valeur: &str) -> (r: Option<(&str, &str)>)
    ensures
        match r {
            Some((d, h)) => heure_murale_de(valeur@) == Some((d@, h@)),
            None => heure_murale_de(valeur@) is None,
        },
{
    let p = match crate::texte::trouver(valeur, 'T') {
        Some(p) => p,
        None => return None,
    };
    proof {
        crate::texte::lemme_position_depuis(valeur@, 'T', 0);
    }
    let n = valeur.unicode_len();
    if n - (p + 1) < 5 {
        return None;
    }
    let date = valeur.substring_char(0, p);
    let heure = valeur.substring_char(p + 1, p + 6);
    proof {
        let reste = valeur@.subrange(p + 1, n as int);
        assert(reste.subrange(0, 5) =~= heure@);
    }
    if forme(date, "0000-00-00") && forme(heure, "00:00") {
        Some((date, heure))
    } else {
        None
    }
}

/// Le titre provisoire d'un brouillon enregistré avant l'étape 2.
pub const TITRE_PROVISOIRE: &'static str = "Dossier sans titre";

/// Le texte provisoire des deux autres champs obligatoires.
pub const TEXTE_PROVISOIRE: &'static str = "À compléter";

/// Un texte obligatoire de brouillon : sa valeur rognée, ou son repli quand
/// elle est vide.
pub fn i18n_de_brouillon(texte: &str, repli: &str) -> (r: Json)
    ensures
        document_fr(r, if rogne(texte@).len() == 0 { repli@ } else { rogne(texte@) }),
{
    let coupe = rogner(texte);
    if coupe.unicode_len() == 0 {
        document(repli)
    } else {
        document(coupe)
    }
}

/// Un texte est provisoire quand, rogné, il est l'un des deux replis.
pub open spec fn provisoire(t: Seq<char>) -> bool {
    rogne(t) == TITRE_PROVISOIRE@ || rogne(t) == TEXTE_PROVISOIRE@
}

/// Ce texte est-il l'un des deux replis ?
pub fn est_provisoire(texte: &str) -> (r: bool)
    ensures
        r == provisoire(texte@),
{
    let coupe = rogner(texte);
    egales(coupe, TITRE_PROVISOIRE) || egales(coupe, TEXTE_PROVISOIRE)
}

/// La résolution française d'un document, repli effacé.
pub open spec fn francais_sans_repli(doc: Json) -> Seq<char> {
    if provisoire(francais(doc)) { Seq::empty() } else { francais(doc) }
}

/// La résolution française d'un document, repli effacé.
pub fn fr_sans_repli(document: &Json) -> (r: String)
    ensures
        r@ == francais_sans_repli(*document),
{
    let texte = fr(document);
    if est_provisoire(texte.as_str()) {
        String::new()
    } else {
        texte
    }
}

/// Le français d'un document `{"fr": t}` est `t`.
pub proof fn le_francais_d_un_document_fr(doc: Json, t: Seq<char>)
    requires
        document_fr(doc, t),
    ensures
        francais(doc) == t,
{
    reveal_strlit("fr");
    let o = doc->Objet_0;
    assert(valeur_de(o@, "fr"@) == Some(o@[0].1));
}

/// Ce qu'on écrit d'un champ obligatoire se relit rogné : la résolution
/// française du document produit est le texte saisi, sans ses blancs.
pub proof fn relire_un_champ_obligatoire(doc: Json, texte: Seq<char>)
    requires
        document_fr(doc, rogne(texte)),
    ensures
        francais(doc) == rogne(texte),
{
    le_francais_d_un_document_fr(doc, rogne(texte));
}

/// La recomposition d'un brouillon efface les replis : relu sans repli, un
/// texte obligatoire enregistré rend la saisie rognée, ou la chaîne vide
/// quand la saisie était vide ou provisoire et que le repli est provisoire.
pub proof fn la_recomposition_efface_le_repli(doc: Json, texte: Seq<char>, repli: Seq<char>)
    requires
        document_fr(doc, if rogne(texte).len() == 0 { repli } else { rogne(texte) }),
    ensures
        rogne(texte).len() > 0 ==> francais_sans_repli(doc)
            == (if provisoire(texte) { Seq::empty() } else { rogne(texte) }),
        rogne(texte).len() == 0 ==> francais_sans_repli(doc)
            == (if provisoire(repli) { Seq::empty() } else { repli }),
{
    le_francais_d_un_document_fr(doc, if rogne(texte).len() == 0 { repli } else { rogne(texte) });
    rogner_est_idempotent(texte);
}

} // verus!

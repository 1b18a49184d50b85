//! La liste blanche du HTML restreint.
//!
//! Le filtrage lui-même est confié à `ammonia`, fondée sur l'analyseur HTML
//! de Servo : un filtre écrit à la main ne refuse pas ce qu'un navigateur
//! accepterait. Ce fichier fixe la liste blanche — celle de la barre d'outils
//! de l'éditeur — et mesure le texte d'un fragment.

use vstd::prelude::*;
use crate::texte::{rogne, rogner};

verus! {

/// Ce que `ammonia` rend pour un fragment, sous une configuration partant de
/// `Builder::empty()` : les balises admises, les attributs admis sur toute
/// balise, l'attribut admis sur la balise de lien, les schémas d'URL admis et
/// la valeur de `rel` posée sur les liens.
pub uninterp spec fn nettoye(
    balises: Seq<Seq<char>>,
    attributs_communs: Seq<Seq<char>>,
    balise_lien: Seq<char>,
    attribut_lien: Seq<char>,
    schemas: Seq<Seq<char>>,
    rel: Seq<char>,
    html: Seq<char>,
) -> Seq<char>;

/// Les vues en caractères d'une liste de chaînes.
pub open spec fn vues(l: Seq<&str>) -> Seq<Seq<char>> {
    l.map_values(|s: &str| s@)
}

/// `ammonia::Builder::clean`, sur un constructeur `Builder::empty()` réglé par
/// `tags`, `generic_attributes`, `tag_attributes` (un seul attribut sur une
/// seule balise),
/// `url_schemes` et `link_rel`. Le résultat est `nettoye` des arguments ; ce
/// que le nettoyage garde ou ôte n'est pas redit ici. `clean` s'arrête net
/// quand une balise admise est aussi de celles dont le contenu est supprimé
/// (`script`, `style`), ou quand `rel` est admis, sur toute balise ou sur la
/// balise de lien, alors que `link_rel` est posé : le contrat écarte ces
/// configurations.
#[verifier::external_body]
fn nettoyer(
    balises: &[&str],
    attributs_communs: &[&str],
    balise_lien: &str,
    attribut_lien: &str,
    schemas: &[&str],
    rel: &str,
    html: &str,
) -> (r: String)
    requires
        forall|k: int| 0 <= k < balises@.len() ==> (#[trigger] balises@[k])@ != "script"@
            && balises@[k]@ != "style"@,
        balise_lien@ != "script"@,
        balise_lien@ != "style"@,
        forall|k: int| 0 <= k < attributs_communs@.len() ==> (#[trigger] attributs_communs@[k])@
            != "rel"@,
        attribut_lien@ != "rel"@,
    ensures
        r@ == nettoye(
            vues(balises@),
            vues(attributs_communs@),
            balise_lien@,
            attribut_lien@,
            vues(schemas@),
            rel@,
            html@,
        ),
{
    let mut constructeur = ammonia::Builder::empty();
    constructeur
        .tags(balises.iter().copied().collect())
        .generic_attributes(attributs_communs.iter().copied().collect())
        .tag_attributes(std::collections::HashMap::from([(balise_lien, std::collections::HashSet::from([attribut_lien]))]))
        .url_schemes(schemas.iter().copied().collect())
        .link_rel(Some(rel));
    constructeur.clean(html).to_string()
}

/// Les balises admises : celles de la barre d'outils, plus le paragraphe, le
/// saut de ligne, le séparateur et le lien.
pub open spec fn balises_admises() -> Seq<Seq<char>> {
    seq!["p"@, "br"@, "strong"@, "b"@, "em"@, "i"@, "ul"@, "ol"@, "li"@, "blockquote"@, "h3"@,
        "h4"@, "hr"@, "a"@]
}

/// Les deux seuls schémas d'URL.
pub open spec fn schemas_admis() -> Seq<Seq<char>> {
    seq!["http"@, "https"@]
}

fn balises() -> (r: Vec<&'static str>)
    ensures
        vues(r@) == balises_admises(),
        forall|k: int| 0 <= k < r@.len() ==> (#[trigger] r@[k])@ != "script"@
            && r@[k]@ != "style"@,
{
    let r = vec!["p", "br", "strong", "b", "em", "i", "ul", "ol", "li", "blockquote", "h3", "h4", "hr", "a"];
    proof {
        reveal_strlit("p");
        reveal_strlit("br");
        reveal_strlit("strong");
        reveal_strlit("b");
        reveal_strlit("em");
        reveal_strlit("i");
        reveal_strlit("ul");
        reveal_strlit("ol");
        reveal_strlit("li");
        reveal_strlit("blockquote");
        reveal_strlit("h3");
        reveal_strlit("h4");
        reveal_strlit("hr");
        reveal_strlit("a");
        reveal_strlit("script");
        reveal_strlit("style");
        assert(vues(r@) =~= balises_admises());
        assert("script"@.len() == 6 && "script"@[1] == 'c');
        assert("style"@.len() == 5);
        assert forall|k: int| 0 <= k < r@.len() implies (#[trigger] r@[k])@ != "script"@
            && r@[k]@ != "style"@ by {
            assert((r@[k]@.len() != 6 && r@[k]@.len() != 5) || r@[k]@[1] == 't');
        }
    }
    r
}

fn schemas() -> (r: Vec<&'static str>)
    ensures
        vues(r@) == schemas_admis(),
{
    let r = vec!["http", "https"];
    assert(vues(r@) =~= schemas_admis());
    r
}

/// Ce que `assainir` rend : le fragment nettoyé selon la liste blanche —
/// aucun attribut commun à toutes les balises, `href` seul sur le lien —, les
/// liens portant `rel="noopener noreferrer"`.
pub open spec fn assaini(html: Seq<char>) -> Seq<char> {
    nettoye(
        balises_admises(),
        Seq::empty(),
        "a"@,
        "href"@,
        schemas_admis(),
        "noopener noreferrer"@,
        html,
    )
}

/// Assainit un fragment. Ce qui n'est pas dans la liste blanche disparaît ;
/// le texte qu'une balise refusée contenait est conservé.
pub fn assainir(html: &str) -> (r: String)
    ensures
        r@ == assaini(html@),
        r@ == nettoye(
            seq!["p"@, "br"@, "strong"@, "b"@, "em"@, "i"@, "ul"@, "ol"@, "li"@, "blockquote"@,
                "h3"@, "h4"@, "hr"@, "a"@],
            Seq::empty(),
            "a"@,
            "href"@,
            seq!["http"@, "https"@],
            "noopener noreferrer"@,
            html@,
        ),
{
    let b = balises();
    let s = schemas();
    proof {
        reveal_strlit("a");
        reveal_strlit("href");
        reveal_strlit("rel");
        reveal_strlit("script");
        reveal_strlit("style");
        assert("a"@.len() == 1 && "script"@.len() == 6 && "style"@.len() == 5);
        assert("href"@.len() == 4 && "rel"@.len() == 3);
    }
    let communs: Vec<&str> = Vec::new();
    assert(vues(communs@) =~= Seq::<Seq<char>>::empty());
    nettoyer(b.as_slice(), communs.as_slice(), "a", "href", s.as_slice(), "noopener noreferrer", html)
}

/// La liste blanche est celle de la barre d'outils, exactement : gras,
/// italique, listes, citation, titres de niveau 3 et 4, avec le paragraphe,
/// le saut de ligne, le séparateur et le lien — quatorze balises ; aucun
/// attribut commun, `href` seul sur le lien, et les deux schémas `http` et
/// `https`.
pub proof fn la_liste_blanche_est_celle_de_l_editeur(html: Seq<char>)
    ensures
        assaini(html) == nettoye(
            seq!["p"@, "br"@, "strong"@, "b"@, "em"@, "i"@, "ul"@, "ol"@, "li"@, "blockquote"@,
                "h3"@, "h4"@, "hr"@, "a"@],
            Seq::empty(),
            "a"@,
            "href"@,
            seq!["http"@, "https"@],
            "noopener noreferrer"@,
            html,
        ),
{
}

/// L'état de la lecture après les `i` premiers caractères : le texte gardé, et
/// si l'on est à l'intérieur d'une balise. Un `<` ouvre une balise, un `>` la
/// ferme ; ni l'un ni l'autre n'est gardé.
pub open spec fn lecture(s: Seq<char>, i: int) -> (Seq<char>, bool)
    decreases i,
{
    if i <= 0 {
        (Seq::empty(), false)
    } else {
        let (texte, dans) = lecture(s, i - 1);
        let c = s[i - 1];
        if c == '<' {
            (texte, true)
        } else if c == '>' {
            (texte, false)
        } else if !dans {
            (texte.push(c), false)
        } else {
            (texte, true)
        }
    }
}

/// Le texte d'un fragment, débarrassé de son balisage.
pub open spec fn sans_balises(s: Seq<char>) -> Seq<char> {
    lecture(s, s.len() as int).0
}

/// Le texte débarrassé de son balisage. Sert à mesurer et à décider du vide,
/// jamais à stocker.
pub fn texte_seul(html: &str) -> (r: String)
    ensures
        r@ == sans_balises(html@),
{
    let ghost s = html@;
    let n = html.unicode_len();
    let mut r = String::new();
    let mut dans = false;
    let mut depuis: usize = 0;
    let mut i: usize = 0;
    while i < n
        invariant
            n == s.len(),
            s == html@,
            depuis <= i <= n,
            lecture(s, i as int).1 == dans,
            lecture(s, i as int).0 == if dans { r@ } else { r@ + s.subrange(depuis as int, i as int) },
        decreases n - i,
    {
        let c = html.get_char(i);
        if c == '<' {
            if !dans {
                r.append(html.substring_char(depuis, i));
            }
            dans = true;
        } else if c == '>' {
            if !dans {
                r.append(html.substring_char(depuis, i));
            }
            dans = false;
            depuis = i + 1;
        } else if !dans {
            assert(s.subrange(depuis as int, i + 1) =~= s.subrange(depuis as int, i as int).push(c));
        }
        i = i + 1;
        assert(s.subrange(i as int, i as int) =~= Seq::<char>::empty());
        assert(r@ + Seq::<char>::empty() =~= r@);
    }
    if !dans {
        r.append(html.substring_char(depuis, n));
    }
    r
}

/// Le texte d'un fragment ne porte jamais de chevron : tout `<` et tout `>`
/// est consommé par la lecture.
pub proof fn le_texte_seul_est_sans_chevrons(s: Seq<char>, i: int)
    requires
        0 <= i <= s.len(),
    ensures
        forall|k: int| 0 <= k < lecture(s, i).0.len() ==>
            #[trigger] lecture(s, i).0[k] != '<' && lecture(s, i).0[k] != '>',
    decreases i,
{
    if i > 0 {
        le_texte_seul_est_sans_chevrons(s, i - 1);
        let avant = lecture(s, i - 1).0;
        let apres = lecture(s, i).0;
        let c = s[i - 1];
        assert forall|k: int| 0 <= k < apres.len() implies #[trigger] apres[k] != '<' && apres[k]
            != '>' by {
            if k < avant.len() {
                assert(apres[k] == avant[k]);
            } else {
                assert(apres[k] == c);
            }
        }
    }
}

proof fn lemme_lecture_longueur(s: Seq<char>, i: int)
    requires
        0 <= i <= s.len(),
    ensures
        lecture(s, i).0.len() <= i,
    decreases i,
{
    if i > 0 {
        lemme_lecture_longueur(s, i - 1);
    }
}

proof fn lemme_lecture_sans_chevron(s: Seq<char>, i: int)
    requires
        0 <= i <= s.len(),
        forall|k: int| 0 <= k < s.len() ==> #[trigger] s[k] != '<' && s[k] != '>',
    ensures
        lecture(s, i) == (s.subrange(0, i), false),
    decreases i,
{
    if i > 0 {
        lemme_lecture_sans_chevron(s, i - 1);
        assert(s.subrange(0, i - 1).push(s[i - 1]) =~= s.subrange(0, i));
    } else {
        assert(s.subrange(0, 0) =~= Seq::<char>::empty());
    }
}

/// Un texte sans chevron revient tel quel : il n'a pas de balise à ôter.
pub proof fn un_texte_sans_balise_revient_tel_quel(s: Seq<char>)
    requires
        forall|k: int| 0 <= k < s.len() ==> #[trigger] s[k] != '<' && s[k] != '>',
    ensures
        sans_balises(s) == s,
{
    lemme_lecture_sans_chevron(s, s.len() as int);
    assert(s.subrange(0, s.len() as int) =~= s);
}

/// Le texte seul n'est jamais plus long que le fragment, ne porte aucun
/// chevron, et ôter le balisage une seconde fois n'y change plus rien.
pub proof fn le_texte_seul_se_stabilise(s: Seq<char>)
    ensures
        sans_balises(s).len() <= s.len(),
        forall|k: int| 0 <= k < sans_balises(s).len() ==>
            #[trigger] sans_balises(s)[k] != '<' && sans_balises(s)[k] != '>',
        sans_balises(sans_balises(s)) == sans_balises(s),
{
    lemme_lecture_longueur(s, s.len() as int);
    le_texte_seul_est_sans_chevrons(s, s.len() as int);
    un_texte_sans_balise_revient_tel_quel(sans_balises(s));
}

/// Un fragment vide : rien que des blancs une fois le balisage ôté. C'est le
/// cas de `<p></p>`, que l'éditeur envoie pour un champ effacé.
pub open spec fn fragment_vide(html: Seq<char>) -> bool {
    rogne(sans_balises(html)).len() == 0
}

/// Un fragment vide, tel que l'éditeur le rend une fois le champ effacé.
pub fn est_vide(html: &str) -> (r: bool)
    ensures
        r == fragment_vide(html@),
{
    let texte = texte_seul(html);
    rogner(texte.as_str()).unicode_len() == 0
}

} // verus!

//! Les champs d'un formulaire d'inscription, tels que la base les porte, et
//! leur résolution en champs prêts pour la validation.
//!
//! Les options viennent de trois origines — la liste des pays, une taxonomie,
//! une liste explicite — et repartent sous une seule forme : la liste des
//! valeurs admises.

use vstd::prelude::*;
use crate::domain::answers::ChampResolu;
use crate::json::{Json, valeur_de, obtenir};
use crate::texte::egales;

verus! {

/// Un champ, tel que la base le porte.
#[derive(Debug)]
pub struct Champ {
    pub code: String,
    pub field_type: String,
    pub is_required: bool,
    pub is_sensitive: bool,
    pub options: Json,
    pub validation: Json,
}

/// Les vues en caractères d'une liste de chaînes.
pub open spec fn vues_de(l: Seq<String>) -> Seq<Seq<char>> {
    l.map_values(|s: String| s@)
}

/// Le texte qu'un objet porte sous une clé, s'il y en a un.
pub open spec fn texte_sous(v: Json, cle: Seq<char>) -> Option<Seq<char>> {
    match v {
        Json::Objet(o) => match valeur_de(o@, cle) {
            Some(Json::Texte(t)) => Some(t@),
            _ => None,
        },
        _ => None,
    }
}

fn texte_sous_exec(v: &Json, cle: &str) -> (r: Option<String>)
    ensures
        match r {
            Some(t) => texte_sous(*v, cle@) == Some(t@),
            None => texte_sous(*v, cle@) is None,
        },
{
    match v {
        Json::Objet(o) => match obtenir(o, cle) {
            Some(Json::Texte(t)) => Some(t.clone()),
            _ => None,
        },
        _ => None,
    }
}

/// Les valeurs d'une liste explicite : le texte sous `value` de chaque
/// élément qui en porte un.
pub open spec fn valeurs_de_liste(vs: Seq<Json>) -> Seq<Seq<char>>
    decreases vs.len(),
{
    if vs.len() == 0 {
        Seq::empty()
    } else {
        let avant = valeurs_de_liste(vs.drop_last());
        match texte_sous(vs.last(), "value"@) {
            Some(t) => avant.push(t),
            None => avant,
        }
    }
}

/// Une liste explicite `{"values": [{"value": …}, …]}`. Absente, le champ
/// n'est pas à choix.
pub open spec fn valeurs_explicites_de(options: Json) -> Option<Seq<Seq<char>>> {
    match options {
        Json::Objet(o) => match valeur_de(o@, "values"@) {
            Some(Json::Liste(vs)) => Some(valeurs_de_liste(vs@)),
            _ => None,
        },
        _ => None,
    }
}

/// Une liste explicite, lue.
pub fn valeurs_explicites(options: &Json) -> (r: Option<Vec<String>>)
    ensures
        match r {
            Some(v) => valeurs_explicites_de(*options) == Some(vues_de(v@)),
            None => valeurs_explicites_de(*options) is None,
        },
{
    let o = match options {
        Json::Objet(o) => o,
        _ => return None,
    };
    let vs = match obtenir(o, "values") {
        Some(Json::Liste(vs)) => vs,
        _ => return None,
    };
    let n = vs.len();
    let mut r: Vec<String> = Vec::new();
    let mut i: usize = 0;
    while i < n
        invariant
            n == vs@.len(),
            i <= n,
            vues_de(r@) == valeurs_de_liste(vs@.subrange(0, i as int)),
        decreases n - i,
    {
        let ghost avant = vs@.subrange(0, i as int);
        proof {
            assert(vs@.subrange(0, i + 1).drop_last() =~= avant);
        }
        match texte_sous_exec(&vs[i], "value") {
            Some(t) => {
                r.push(t);
                assert(vues_de(r@) =~= valeurs_de_liste(avant).push(r@.last()@));
            },
            None => {},
        }
        i = i + 1;
    }
    assert(vs@.subrange(0, n as int) =~= vs@);
    Some(r)
}

/// La taxonomie qu'un champ nomme dans ses options, s'il en nomme une.
pub open spec fn taxonomie_de(options: Json) -> Option<Seq<char>> {
    texte_sous(options, "taxonomy"@)
}

/// Les taxonomies que les champs nomment, dans l'ordre des champs.
pub open spec fn taxonomies_de(champs: Seq<Champ>) -> Seq<Seq<char>>
    decreases champs.len(),
{
    if champs.len() == 0 {
        Seq::empty()
    } else {
        let avant = taxonomies_de(champs.drop_last());
        match taxonomie_de(champs.last().options) {
            Some(t) => avant.push(t),
            None => avant,
        }
    }
}

/// Les taxonomies à lire pour résoudre ces champs.
pub fn taxonomies_demandees(champs: &[Champ]) -> (r: Vec<String>)
    ensures
        vues_de(r@) == taxonomies_de(champs@),
{
    let n = champs.len();
    let mut r: Vec<String> = Vec::new();
    let mut i: usize = 0;
    while i < n
        invariant
            n == champs@.len(),
            i <= n,
            vues_de(r@) == taxonomies_de(champs@.subrange(0, i as int)),
        decreases n - i,
    {
        let ghost avant = champs@.subrange(0, i as int);
        proof {
            assert(champs@.subrange(0, i + 1).drop_last() =~= avant);
        }
        match texte_sous_exec(&champs[i].options, "taxonomy") {
            Some(t) => {
                r.push(t);
                assert(vues_de(r@) =~= taxonomies_de(avant).push(r@.last()@));
            },
            None => {},
        }
        i = i + 1;
    }
    assert(champs@.subrange(0, n as int) =~= champs@);
    r
}

/// Un champ demande-t-il la liste des pays ?
pub open spec fn demande_des_pays(champs: Seq<Champ>) -> bool {
    exists|k: int| 0 <= k < champs.len() && (#[trigger] champs[k]).field_type@ == "country"@
}

/// La liste des pays n'est lue que si un champ en demande.
pub fn faut_il_les_pays(champs: &[Champ]) -> (r: bool)
    ensures
        r == demande_des_pays(champs@),
{
    let n = champs.len();
    let mut i: usize = 0;
    while i < n
        invariant
            n == champs@.len(),
            i <= n,
            forall|k: int| 0 <= k < i ==> (#[trigger] champs@[k]).field_type@ != "country"@,
        decreases n - i,
    {
        if egales(champs[i].field_type.as_str(), "country") {
            return true;
        }
        i = i + 1;
    }
    false
}

/// Les codes d'une taxonomie, dans l'ordre où la base les a rendus.
pub open spec fn codes_de(lus: Seq<(String, String)>, taxonomie: Seq<char>) -> Seq<Seq<char>>
    decreases lus.len(),
{
    if lus.len() == 0 {
        Seq::empty()
    } else {
        let avant = codes_de(lus.drop_last(), taxonomie);
        if lus.last().0@ == taxonomie { avant.push(lus.last().1@) } else { avant }
    }
}

/// Les options résolues d'un champ : les pays pour un champ de pays ; les
/// codes de sa taxonomie quand il en nomme une, aucun si la taxonomie n'en a
/// pas ; sinon sa liste explicite.
pub open spec fn options_resolues(
    c: Champ,
    lus: Seq<(String, String)>,
    pays: Option<Seq<Seq<char>>>,
) -> Option<Seq<Seq<char>>> {
    if c.field_type@ == "country"@ {
        pays
    } else {
        match taxonomie_de(c.options) {
            Some(t) => Some(codes_de(lus, t)),
            None => valeurs_explicites_de(c.options),
        }
    }
}

/// Un champ qui n'est pas un champ de pays et ne nomme aucune taxonomie
/// prend pour options les valeurs de sa liste explicite dès qu'elle est
/// présente, quelle que soit sa nature — choix simple, choix multiple ou
/// autre.
pub proof fn une_liste_explicite_fait_les_options(
    c: Champ,
    lus: Seq<(String, String)>,
    pays: Option<Seq<Seq<char>>>,
    objet: Vec<(String, Json)>,
    vs: Vec<Json>,
)
    requires
        c.field_type@ != "country"@,
        c.options == Json::Objet(objet),
        valeur_de(objet@, "taxonomy"@) is None,
        valeur_de(objet@, "values"@) == Some(Json::Liste(vs)),
    ensures
        options_resolues(c, lus, pays) == Some(valeurs_de_liste(vs@)),
{
}

/// Les valeurs d'une liste dont chaque élément porte un texte sous `value`
/// sont ces textes, un par élément, dans l'ordre.
pub proof fn chaque_element_donne_sa_valeur(vs: Seq<Json>)
    requires
        forall|k: int| 0 <= k < vs.len() ==> (#[trigger] texte_sous(vs[k], "value"@)) is Some,
    ensures
        valeurs_de_liste(vs).len() == vs.len(),
        forall|k: int| 0 <= k < vs.len() ==> Some(#[trigger] valeurs_de_liste(vs)[k]) == texte_sous(vs[k], "value"@),
    decreases vs.len(),
{
    if vs.len() > 0 {
        let avant = vs.drop_last();
        assert forall|k: int| 0 <= k < avant.len() implies (#[trigger] texte_sous(avant[k], "value"@)) is Some by {
            assert(avant[k] == vs[k]);
            assert(texte_sous(vs[k], "value"@) is Some);
        }
        chaque_element_donne_sa_valeur(avant);
        assert(texte_sous(vs[vs.len() - 1], "value"@) is Some);
        assert forall|k: int| 0 <= k < vs.len() implies Some(#[trigger] valeurs_de_liste(vs)[k]) == texte_sous(vs[k], "value"@) by {
            if k < vs.len() - 1 {
                assert(avant[k] == vs[k]);
                assert(Some(valeurs_de_liste(avant)[k]) == texte_sous(avant[k], "value"@));
            }
        }
    }
}

/// La vue d'une liste optionnelle de chaînes.
pub open spec fn vue_liste(l: Option<Vec<String>>) -> Option<Seq<Seq<char>>> {
    match l {
        Some(v) => Some(vues_de(v@)),
        None => None,
    }
}

fn copier(l: &Vec<String>) -> (r: Vec<String>)
    ensures
        vues_de(r@) == vues_de(l@),
{
    let n = l.len();
    let mut r: Vec<String> = Vec::new();
    let mut i: usize = 0;
    while i < n
        invariant
            n == l@.len(),
            i <= n,
            r@.len() == i,
            forall|k: int| 0 <= k < i ==> (#[trigger] r@[k])@ == l@[k]@,
        decreases n - i,
    {
        r.push(l[i].clone());
        i = i + 1;
    }
    assert(vues_de(r@) =~= vues_de(l@));
    r
}

fn codes_de_exec(lus: &[(String, String)], taxonomie: &str) -> (r: Vec<String>)
    ensures
        vues_de(r@) == codes_de(lus@, taxonomie@),
{
    let n = lus.len();
    let mut r: Vec<String> = Vec::new();
    let mut i: usize = 0;
    while i < n
        invariant
            n == lus@.len(),
            i <= n,
            vues_de(r@) == codes_de(lus@.subrange(0, i as int), taxonomie@),
        decreases n - i,
    {
        let ghost avant = lus@.subrange(0, i as int);
        proof {
            assert(lus@.subrange(0, i + 1).drop_last() =~= avant);
        }
        if egales(lus[i].0.as_str(), taxonomie) {
            r.push(lus[i].1.clone());
            assert(vues_de(r@) =~= codes_de(avant, taxonomie@).push(r@.last()@));
        }
        i = i + 1;
    }
    assert(lus@.subrange(0, n as int) =~= lus@);
    r
}

/// Un champ résolu reprend le champ lu, avec ses options résolues.
pub open spec fn resolu_depuis(
    r: ChampResolu,
    c: Champ,
    lus: Seq<(String, String)>,
    pays: Option<Seq<Seq<char>>>,
) -> bool {
    &&& r.code@ == c.code@
    &&& r.field_type@ == c.field_type@
    &&& r.is_required == c.is_required
    &&& r.is_sensitive == c.is_sensitive
    &&& r.validation == c.validation
    &&& vue_liste(r.options) == options_resolues(c, lus, pays)
}

/// Transformer les champs lus en champs résolus, une fois lus les codes des
/// taxonomies nommées (`(taxonomie, code)`, dans l'ordre de la base) et, si
/// un champ en demande, la liste des pays.
pub fn resoudre(
    champs: Vec<Champ>,
    lus: &[(String, String)],
    pays: Option<Vec<String>>,
) -> (r: Vec<ChampResolu>)
    ensures
        r@.len() == champs@.len(),
        forall|k: int| 0 <= k < r@.len() ==> resolu_depuis(#[trigger] r@[k], champs@[k], lus@, vue_liste(pays)),
{
    let ghost tous = champs@;
    let n = champs.len();
    let mut restants = champs;
    let mut r: Vec<ChampResolu> = Vec::new();
    let mut i: usize = 0;
    while restants.len() > 0
        invariant
            n == tous.len(),
            i <= n,
            restants@ == tous.skip(i as int),
            r@.len() == i,
            forall|k: int| 0 <= k < i ==> resolu_depuis(#[trigger] r@[k], tous[k], lus@, vue_liste(pays)),
        decreases restants@.len(),
    {
        let c = restants.remove(0);
        assert(c == tous[i as int]);
        assert(tous.skip(i as int).remove(0) =~= tous.skip(i + 1));
        let options = if egales(c.field_type.as_str(), "country") {
            match &pays {
                Some(p) => Some(copier(p)),
                None => None,
            }
        } else {
            match texte_sous_exec(&c.options, "taxonomy") {
                Some(t) => Some(codes_de_exec(lus, t.as_str())),
                None => valeurs_explicites(&c.options),
            }
        };
        let Champ { code, field_type, is_required, is_sensitive, options: _, validation } = c;
        r.push(ChampResolu { code, field_type, is_required, is_sensitive, options, validation });
        i = i + 1;
    }
    r
}

} // verus!

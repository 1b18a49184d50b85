//! Les sept facettes, comptées sur les lignes **déjà lues**.
//!
//! Un libellé vient de la base quand la valeur y est nommée ; il est nul pour
//! un code d'énumération, que l'écran traduit lui-même.

use vstd::prelude::*;
use crate::json::Json;
use crate::texte::egales;

verus! {

broadcast use vstd::seq_lib::group_to_multiset_ensures;

/// Une valeur de filtre et son décompte sur le périmètre.
pub struct ProposalFacet {
    pub value: String,
    /// Multilingue quand la base le nomme, nul quand l'écran le traduit.
    pub label: Option<Json>,
    pub count: i64,
    /// Couleur de la taxonomie — une donnée, jamais un jeton de design.
    pub color: Option<String>,
}

/// Les sept, dans l'ordre où l'écran les propose.
pub struct ProposalFacets {
    pub statuses: Vec<ProposalFacet>,
    pub themes: Vec<ProposalFacet>,
    pub formats: Vec<ProposalFacet>,
    pub countries: Vec<ProposalFacet>,
    pub organizations: Vec<ProposalFacet>,
    pub reviewers: Vec<ProposalFacet>,
    /// Les trois signaux transverses — `unreviewed`, `late`, `unread`.
    pub flags: Vec<ProposalFacet>,
}

impl ProposalFacets {
    /// Sept listes vides.
    pub fn vides() -> (r: ProposalFacets)
        ensures
            r.statuses@.len() == 0,
            r.themes@.len() == 0,
            r.formats@.len() == 0,
            r.countries@.len() == 0,
            r.organizations@.len() == 0,
            r.reviewers@.len() == 0,
            r.flags@.len() == 0,
    {
        ProposalFacets {
            statuses: Vec::new(),
            themes: Vec::new(),
            formats: Vec::new(),
            countries: Vec::new(),
            organizations: Vec::new(),
            reviewers: Vec::new(),
            flags: Vec::new(),
        }
    }
}

/// Les trois signaux transverses, par leur code.
pub const FLAG_UNREVIEWED: &'static str = "unreviewed";
pub const FLAG_LATE: &'static str = "late";
pub const FLAG_UNREAD: &'static str = "unread";

/// L'ordre du cycle de vie, celui de `programme.proposal_status`.
pub fn ordre_des_statuts() -> (r: Vec<&'static str>)
    ensures
        r@.len() == 8,
        r@[0]@ == "draft"@,
        r@[1]@ == "submitted"@,
        r@[2]@ == "under_review"@,
        r@[3]@ == "changes_requested"@,
        r@[4]@ == "accepted"@,
        r@[5]@ == "rejected"@,
        r@[6]@ == "withdrawn"@,
        r@[7]@ == "cancelled"@,
{
    vec![
        "draft",
        "submitted",
        "under_review",
        "changes_requested",
        "accepted",
        "rejected",
        "withdrawn",
        "cancelled",
    ]
}

/// Même raison, pour `event.participation_mode`.
pub fn ordre_des_formats() -> (r: Vec<&'static str>)
    ensures
        r@.len() == 3,
        r@[0]@ == "in_person"@,
        r@[1]@ == "online"@,
        r@[2]@ == "hybrid"@,
{
    vec!["in_person", "online", "hybrid"]
}

// ---------------------------------------------------------------------------
// Ranger selon une séquence déclarée
// ---------------------------------------------------------------------------

/// La première facette, à partir de `i`, qui porte cette valeur.
pub open spec fn indice_depuis(s: Seq<ProposalFacet>, v: Seq<char>, i: int) -> Option<int>
    decreases s.len() - i,
{
    if i < 0 || i >= s.len() {
        None
    } else if s[i].value@ == v {
        Some(i)
    } else {
        indice_depuis(s, v, i + 1)
    }
}

proof fn lemme_indice_depuis(s: Seq<ProposalFacet>, v: Seq<char>, i: int)
    requires
        0 <= i <= s.len(),
    ensures
        match indice_depuis(s, v, i) {
            Some(p) => i <= p < s.len() && s[p].value@ == v,
            None => true,
        },
    decreases s.len() - i,
{
    if i < s.len() && s[i].value@ != v {
        lemme_indice_depuis(s, v, i + 1);
    }
}

/// Ranger : chaque valeur de la séquence, dans son ordre, tire la première
/// facette qui la porte ; ce que la séquence ne nomme pas suit, dans l'ordre
/// de rencontre.
pub open spec fn ranger(
    rangees: Seq<ProposalFacet>,
    restantes: Seq<ProposalFacet>,
    ordre: Seq<Seq<char>>,
) -> Seq<ProposalFacet>
    decreases ordre.len(),
{
    if ordre.len() == 0 {
        rangees + restantes
    } else {
        match indice_depuis(restantes, ordre[0], 0) {
            Some(p) => ranger(rangees.push(restantes[p]), restantes.remove(p), ordre.drop_first()),
            None => ranger(rangees, restantes, ordre.drop_first()),
        }
    }
}

pub open spec fn vues(ordre: Seq<&str>) -> Seq<Seq<char>> {
    ordre.map_values(|s: &str| s@)
}

/// Ranger des facettes selon une séquence déclarée, les absentes écartées :
/// une valeur que le décompte n'a pas rencontrée ne devient pas une facette.
pub fn selon(facettes: Vec<ProposalFacet>, ordre: &[&str]) -> (r: Vec<ProposalFacet>)
    ensures
        r@ == ranger(Seq::empty(), facettes@, vues(ordre@)),
{
    let mut restantes = facettes;
    let mut rangees: Vec<ProposalFacet> = Vec::new();
    let n = ordre.len();
    let mut k: usize = 0;
    assert(vues(ordre@).skip(0) =~= vues(ordre@));
    while k < n
        invariant
            n == ordre@.len(),
            k <= n,
            ranger(Seq::empty(), facettes@, vues(ordre@)) == ranger(
                rangees@,
                restantes@,
                vues(ordre@).skip(k as int),
            ),
        decreases n - k,
    {
        let valeur = ordre[k];
        let ghost o = vues(ordre@).skip(k as int);
        assert(o[0] == valeur@);
        assert(o.drop_first() =~= vues(ordre@).skip(k + 1));
        let m = restantes.len();
        let mut p: usize = 0;
        while p < m && !egales(restantes[p].value.as_str(), valeur)
            invariant
                m == restantes@.len(),
                p <= m,
                indice_depuis(restantes@, valeur@, 0) == indice_depuis(restantes@, valeur@, p as int),
            decreases m - p,
        {
            p = p + 1;
        }
        if p < m {
            let f = restantes.remove(p);
            rangees.push(f);
        }
        k = k + 1;
    }
    let mut fin = rangees;
    let mut reste = restantes;
    fin.append(&mut reste);
    fin
}

/// Ranger ne perd ni n'invente aucune facette.
pub proof fn lemme_ranger_permute(
    rangees: Seq<ProposalFacet>,
    restantes: Seq<ProposalFacet>,
    ordre: Seq<Seq<char>>,
)
    ensures
        ranger(rangees, restantes, ordre).to_multiset() == (rangees + restantes).to_multiset(),
    decreases ordre.len(),
{
    broadcast use vstd::seq_lib::lemma_multiset_commutative;

    if ordre.len() > 0 {
        match indice_depuis(restantes, ordre[0], 0) {
            Some(p) => {
                lemme_indice_depuis(restantes, ordre[0], 0);
                lemme_ranger_permute(rangees.push(restantes[p]), restantes.remove(p), ordre.drop_first());
                vstd::seq_lib::to_multiset_remove(restantes, p);
                assert((rangees.push(restantes[p]) + restantes.remove(p)).to_multiset() =~= (rangees
                    + restantes).to_multiset());
            },
            None => {
                lemme_ranger_permute(rangees, restantes, ordre.drop_first());
            },
        }
    }
}

/// **Loi** : ranger selon une séquence est une permutation — aucune facette
/// ne disparaît, aucune n'apparaît.
pub proof fn selon_permute(facettes: Seq<ProposalFacet>, ordre: Seq<Seq<char>>)
    ensures
        ranger(Seq::empty(), facettes, ordre).to_multiset() == facettes.to_multiset(),
{
    lemme_ranger_permute(Seq::empty(), facettes, ordre);
    assert(Seq::<ProposalFacet>::empty() + facettes =~= facettes);
}

// ---------------------------------------------------------------------------
// Ranger par décompte décroissant
// ---------------------------------------------------------------------------

/// Le rang où insérer `x` dans une liste triée : après toutes les facettes
/// dont le décompte est au moins le sien.
pub open spec fn place_depuis(trie: Seq<ProposalFacet>, x: ProposalFacet, i: int) -> int
    decreases trie.len() - i,
{
    if i < 0 || i >= trie.len() || trie[i].count < x.count {
        i
    } else {
        place_depuis(trie, x, i + 1)
    }
}

/// Le tri par décompte décroissant, **stable** : deux facettes à égalité
/// gardent leur ordre de rencontre.
pub open spec fn tri_decroissant(s: Seq<ProposalFacet>) -> Seq<ProposalFacet>
    decreases s.len(),
{
    if s.len() == 0 {
        s
    } else {
        let t = tri_decroissant(s.drop_last());
        t.insert(place_depuis(t, s.last(), 0), s.last())
    }
}

/// Une liste rangée par décompte décroissant.
pub open spec fn decroissante(s: Seq<ProposalFacet>) -> bool {
    forall|i: int, j: int| 0 <= i < j < s.len() ==> (#[trigger] s[i]).count >= (#[trigger] s[j]).count
}

proof fn lemme_place(trie: Seq<ProposalFacet>, x: ProposalFacet, i: int)
    requires
        0 <= i <= trie.len(),
        decroissante(trie),
        forall|k: int| 0 <= k < i ==> (#[trigger] trie[k]).count >= x.count,
    ensures
        i <= place_depuis(trie, x, i) <= trie.len(),
        forall|k: int| 0 <= k < place_depuis(trie, x, i) ==> (#[trigger] trie[k]).count >= x.count,
        forall|k: int| place_depuis(trie, x, i) <= k < trie.len() ==> (#[trigger] trie[k]).count < x.count,
    decreases trie.len() - i,
{
    if i < trie.len() && trie[i].count >= x.count {
        lemme_place(trie, x, i + 1);
    }
}

/// **Loi** : le tri rend une liste décroissante, faite des mêmes facettes.
pub proof fn tri_decroissant_correct(s: Seq<ProposalFacet>)
    ensures
        decroissante(tri_decroissant(s)),
        tri_decroissant(s).to_multiset() == s.to_multiset(),
    decreases s.len(),
{
    if s.len() > 0 {
        let t = tri_decroissant(s.drop_last());
        tri_decroissant_correct(s.drop_last());
        let x = s.last();
        lemme_place(t, x, 0);
        let p = place_depuis(t, x, 0);
        let u = t.insert(p, x);
        t.insert_ensures(p, x);
        assert forall|i: int, j: int| 0 <= i < j < u.len() implies (#[trigger] u[i]).count >= (#[trigger] u[j]).count by {
            if j < p {
                assert(u[i] == t[i] && u[j] == t[j]);
            } else if j == p {
                assert(u[i] == t[i]);
            } else if i < p {
                assert(u[i] == t[i] && u[j] == t[j - 1]);
            } else if i == p {
                assert(u[j] == t[j - 1]);
            } else {
                assert(u[i] == t[i - 1] && u[j] == t[j - 1]);
            }
        }
        vstd::seq_lib::to_multiset_insert(t, p, x);
        assert(s =~= s.drop_last().push(x));
    }
}

/// Ranger par décompte décroissant. Le tri est stable : deux valeurs à
/// égalité gardent leur ordre de première rencontre.
pub fn par_compte_decroissant(facettes: Vec<ProposalFacet>) -> (r: Vec<ProposalFacet>)
    ensures
        r@ == tri_decroissant(facettes@),
{
    let ghost s = facettes@;
    let n: usize = facettes.len();
    let mut restantes = facettes;
    let mut triees: Vec<ProposalFacet> = Vec::new();
    let mut i: usize = 0;
    assert(s.take(0) =~= Seq::<ProposalFacet>::empty());
    assert(s.skip(0) =~= s);
    while restantes.len() > 0
        invariant
            i <= s.len(),
            s.len() == n,
            restantes@ == s.skip(i as int),
            triees@ == tri_decroissant(s.take(i as int)),
        decreases restantes@.len(),
    {
        let x = restantes.remove(0);
        assert(x == s[i as int]);
        assert(s.skip(i as int).remove(0) =~= s.skip(i + 1));
        assert(s.take(i + 1).drop_last() =~= s.take(i as int));
        let m = triees.len();
        let mut p: usize = 0;
        while p < m && triees[p].count >= x.count
            invariant
                m == triees@.len(),
                p <= m,
                place_depuis(triees@, x, 0) == place_depuis(triees@, x, p as int),
            decreases m - p,
        {
            p = p + 1;
        }
        triees.insert(p, x);
        i = i + 1;
    }
    assert(s.take(i as int) =~= s);
    triees
}

// ---------------------------------------------------------------------------
// Le compteur
// ---------------------------------------------------------------------------

struct Entree {
    valeur: String,
    compte: i64,
    label: Option<Json>,
    color: Option<String>,
}

/// Une entrée du compteur : la valeur, son décompte, et le libellé et la
/// couleur vus à la première rencontre.
pub struct EntreeVue {
    pub valeur: Seq<char>,
    pub compte: int,
    pub label: Option<Json>,
    pub color: Option<Seq<char>>,
}

/// Un compteur qui **retient l'ordre de première apparition** et le libellé
/// vu avec la valeur.
pub struct Compteur {
    entrees: Vec<Entree>,
}

pub open spec fn vue_couleur(c: Option<String>) -> Option<Seq<char>> {
    match c {
        Some(s) => Some(s@),
        None => None,
    }
}

spec fn vue_entree(e: Entree) -> EntreeVue {
    EntreeVue { valeur: e.valeur@, compte: e.compte as int, label: e.label, color: vue_couleur(e.color) }
}

impl View for Compteur {
    type V = Seq<EntreeVue>;

    closed spec fn view(&self) -> Seq<EntreeVue> {
        self.entrees@.map_values(|e: Entree| vue_entree(e))
    }
}

/// La position de la valeur dans le compteur, à partir de `i`.
pub open spec fn position_depuis(s: Seq<EntreeVue>, v: Seq<char>, i: int) -> Option<int>
    decreases s.len() - i,
{
    if i < 0 || i >= s.len() {
        None
    } else if s[i].valeur == v {
        Some(i)
    } else {
        position_depuis(s, v, i + 1)
    }
}

pub open spec fn position_de(s: Seq<EntreeVue>, v: Seq<char>) -> Option<int> {
    position_depuis(s, v, 0)
}

/// Le décompte d'une valeur : zéro quand elle n'a pas été rencontrée.
pub open spec fn compte_de(s: Seq<EntreeVue>, v: Seq<char>) -> int {
    match position_de(s, v) {
        Some(p) => s[p].compte,
        None => 0,
    }
}

/// Chaque valeur n'y figure qu'une fois, et aucun décompte n'est négatif.
pub open spec fn bien_forme(s: Seq<EntreeVue>) -> bool {
    &&& forall|i: int, j: int| 0 <= i < j < s.len() ==> (#[trigger] s[i]).valeur != (#[trigger] s[j]).valeur
    &&& forall|i: int| 0 <= i < s.len() ==> (#[trigger] s[i]).compte >= 0
}

/// Une occurrence de plus : le décompte monte, ou la valeur entre en fin de
/// liste avec le libellé et la couleur de cette première rencontre.
pub open spec fn ajout(s: Seq<EntreeVue>, v: Seq<char>, label: Option<Json>, color: Option<Seq<char>>) -> Seq<EntreeVue> {
    match position_de(s, v) {
        Some(p) => s.update(p, EntreeVue { compte: s[p].compte + 1, ..s[p] }),
        None => s.push(EntreeVue { valeur: v, compte: 1, label, color }),
    }
}

/// Une valeur posée à zéro si elle n'a pas été rencontrée.
pub open spec fn declaration(s: Seq<EntreeVue>, v: Seq<char>) -> Seq<EntreeVue> {
    match position_de(s, v) {
        Some(_) => s,
        None => s.push(EntreeVue { valeur: v, compte: 0, label: None, color: None }),
    }
}

/// Les facettes d'un compteur, dans l'ordre de première apparition.
pub open spec fn facette_de(e: EntreeVue, f: ProposalFacet) -> bool {
    &&& f.value@ == e.valeur
    &&& f.count == e.compte
    &&& f.label == e.label
    &&& vue_couleur(f.color) == e.color
}

pub proof fn lemme_position(s: Seq<EntreeVue>, v: Seq<char>, i: int)
    requires
        0 <= i <= s.len(),
    ensures
        match position_depuis(s, v, i) {
            Some(p) => i <= p < s.len() && s[p].valeur == v && forall|k: int| i <= k < p ==> s[k].valeur != v,
            None => forall|k: int| i <= k < s.len() ==> s[k].valeur != v,
        },
    decreases s.len() - i,
{
    if i < s.len() && s[i].valeur != v {
        lemme_position(s, v, i + 1);
    }
}

proof fn lemme_memes_valeurs(s: Seq<EntreeVue>, t: Seq<EntreeVue>, w: Seq<char>, i: int)
    requires
        s.len() == t.len(),
        forall|k: int| 0 <= k < s.len() ==> (#[trigger] s[k]).valeur == t[k].valeur,
    ensures
        position_depuis(s, w, i) == position_depuis(t, w, i),
    decreases s.len() - i,
{
    if 0 <= i < s.len() {
        assert(s[i].valeur == t[i].valeur);
        lemme_memes_valeurs(s, t, w, i + 1);
    }
}

proof fn lemme_position_apres_ajout(s: Seq<EntreeVue>, e: EntreeVue, w: Seq<char>, i: int)
    requires
        0 <= i <= s.len(),
    ensures
        position_depuis(s.push(e), w, i) == match position_depuis(s, w, i) {
            Some(p) => Some(p),
            None => if e.valeur == w { Some(s.len() as int) } else { None },
        },
    decreases s.len() - i,
{
    if i < s.len() {
        assert(s.push(e)[i] == s[i]);
        lemme_position_apres_ajout(s, e, w, i + 1);
    } else {
        assert(s.push(e)[i] == e);
        assert(position_depuis(s.push(e), w, i + 1) is None);
    }
}

/// Compter une occurrence d'une valeur fait monter son décompte d'un, ne
/// touche à celui d'aucune autre, et laisse chaque valeur déjà rencontrée à
/// sa place : l'ordre de première apparition est gardé.
pub proof fn compter_une_occurrence(
    s: Seq<EntreeVue>,
    v: Seq<char>,
    label: Option<Json>,
    color: Option<Seq<char>>,
    w: Seq<char>,
)
    requires
        bien_forme(s),
    ensures
        compte_de(ajout(s, v, label, color), w) == compte_de(s, w) + (if w == v { 1int } else { 0int }),
        ajout(s, v, label, color).len() >= s.len(),
        forall|k: int| 0 <= k < s.len() ==> (#[trigger] ajout(s, v, label, color)[k]).valeur == s[k].valeur,
{
    lemme_position(s, v, 0);
    lemme_position(s, w, 0);
    let t = ajout(s, v, label, color);
    match position_de(s, v) {
        Some(p) => {
            assert forall|k: int| 0 <= k < s.len() implies (#[trigger] s[k]).valeur == t[k].valeur by {}
            lemme_memes_valeurs(s, t, w, 0);
        },
        None => {
            lemme_position_apres_ajout(s, EntreeVue { valeur: v, compte: 1, label, color }, w, 0);
            assert forall|k: int| 0 <= k < s.len() implies (#[trigger] t[k]).valeur == s[k].valeur by {
                assert(t[k] == s[k]);
            }
        },
    }
}

/// Déclarer une valeur ne change aucun décompte : elle entre à zéro si elle
/// n'a pas été rencontrée, et rien ne bouge sinon.
pub proof fn declarer_ne_compte_rien(s: Seq<EntreeVue>, v: Seq<char>, w: Seq<char>)
    requires
        bien_forme(s),
    ensures
        compte_de(declaration(s, v), w) == compte_de(s, w),
        position_de(declaration(s, v), v) is Some,
{
    lemme_position(s, v, 0);
    if position_de(s, v) is None {
        lemme_position_apres_ajout(s, EntreeVue { valeur: v, compte: 0, label: None, color: None }, w, 0);
        lemme_position_apres_ajout(s, EntreeVue { valeur: v, compte: 0, label: None, color: None }, v, 0);
        lemme_position(s, w, 0);
        let e = EntreeVue { valeur: v, compte: 0, label: None, color: None };
        if let Some(q) = position_de(s, w) {
            assert(s.push(e)[q] == s[q]);
        }
    }
}

/// Un appel sur le compteur : une occurrence comptée (`ajouter`, ou
/// `ajouter_code` sans libellé ni couleur), ou une valeur déclarée.
pub enum OperationDeCompte {
    Ajout { valeur: Seq<char>, label: Option<Json>, color: Option<Seq<char>> },
    Declaration { valeur: Seq<char> },
}

/// La valeur qu'un appel nomme.
pub open spec fn valeur_nommee(o: OperationDeCompte) -> Seq<char> {
    match o {
        OperationDeCompte::Ajout { valeur, .. } => valeur,
        OperationDeCompte::Declaration { valeur } => valeur,
    }
}

/// Le libellé et la couleur qu'un appel apporte.
pub open spec fn etiquette(o: OperationDeCompte) -> (Option<Json>, Option<Seq<char>>) {
    match o {
        OperationDeCompte::Ajout { label, color, .. } => (label, color),
        OperationDeCompte::Declaration { .. } => (None, None),
    }
}

/// L'effet d'un appel sur la vue du compteur.
pub open spec fn appliquer(s: Seq<EntreeVue>, o: OperationDeCompte) -> Seq<EntreeVue> {
    match o {
        OperationDeCompte::Ajout { valeur, label, color } => ajout(s, valeur, label, color),
        OperationDeCompte::Declaration { valeur } => declaration(s, valeur),
    }
}

/// La vue d'un compteur neuf après une suite d'appels.
pub open spec fn apres(ops: Seq<OperationDeCompte>) -> Seq<EntreeVue>
    decreases ops.len(),
{
    if ops.len() == 0 {
        Seq::empty()
    } else {
        appliquer(apres(ops.drop_last()), ops.last())
    }
}

/// Les valeurs nommées, chacune une fois, dans l'ordre de leur première
/// apparition.
pub open spec fn premieres_valeurs(ops: Seq<OperationDeCompte>) -> Seq<Seq<char>>
    decreases ops.len(),
{
    if ops.len() == 0 {
        Seq::empty()
    } else {
        let avant = premieres_valeurs(ops.drop_last());
        let v = valeur_nommee(ops.last());
        if avant.contains(v) { avant } else { avant.push(v) }
    }
}

/// Le rang du premier appel qui nomme `v`.
pub open spec fn premier_appel(ops: Seq<OperationDeCompte>, v: Seq<char>) -> Option<int>
    decreases ops.len(),
{
    if ops.len() == 0 {
        None
    } else {
        match premier_appel(ops.drop_last(), v) {
            Some(k) => Some(k),
            None => if valeur_nommee(ops.last()) == v { Some(ops.len() - 1) } else { None },
        }
    }
}

/// Le nombre d'occurrences comptées de `v`.
pub open spec fn nombre_d_ajouts(ops: Seq<OperationDeCompte>, v: Seq<char>) -> int
    decreases ops.len(),
{
    if ops.len() == 0 {
        0
    } else {
        nombre_d_ajouts(ops.drop_last(), v) + if ops.last() is Ajout && valeur_nommee(ops.last()) == v {
            1int
        } else {
            0int
        }
    }
}

/// Ce que le compteur tient après une suite d'appels.
pub open spec fn compteur_fidele(ops: Seq<OperationDeCompte>) -> bool {
    let s = apres(ops);
    let p = premieres_valeurs(ops);
    &&& bien_forme(s)
    &&& s.len() == p.len()
    &&& forall|k: int| 0 <= k < s.len() ==> (#[trigger] s[k]).valeur == p[k]
    &&& forall|w: Seq<char>| p.contains(w) <==> (#[trigger] premier_appel(ops, w)) is Some
    &&& forall|w: Seq<char>| (#[trigger] premier_appel(ops, w)) is Some ==> 0 <= premier_appel(ops, w)->0
        < ops.len() && valeur_nommee(ops[premier_appel(ops, w)->0]) == w
    &&& forall|w: Seq<char>| #[trigger] compte_de(s, w) == nombre_d_ajouts(ops, w)
    &&& forall|k: int| 0 <= k < s.len() ==> (#[trigger] s[k]).label
        == etiquette(ops[premier_appel(ops, s[k].valeur)->0]).0
        && s[k].color == etiquette(ops[premier_appel(ops, s[k].valeur)->0]).1
}

proof fn lemme_bien_forme_apres_appel(s: Seq<EntreeVue>, o: OperationDeCompte)
    requires
        bien_forme(s),
    ensures
        bien_forme(appliquer(s, o)),
{
    let v = valeur_nommee(o);
    lemme_position(s, v, 0);
    let t = appliquer(s, o);
    match position_de(s, v) {
        Some(p) => {
            assert forall|i: int, j: int| 0 <= i < j < t.len() implies (#[trigger] t[i]).valeur
                != (#[trigger] t[j]).valeur by {
                assert(t[i].valeur == s[i].valeur && t[j].valeur == s[j].valeur);
            }
        },
        None => {
            assert forall|i: int, j: int| 0 <= i < j < t.len() implies (#[trigger] t[i]).valeur
                != (#[trigger] t[j]).valeur by {
                if j < s.len() {
                    assert(t[i] == s[i] && t[j] == s[j]);
                } else {
                    assert(t[i] == s[i]);
                }
            }
        },
    }
}

proof fn lemme_presence(s: Seq<EntreeVue>, p: Seq<Seq<char>>, v: Seq<char>)
    requires
        s.len() == p.len(),
        forall|k: int| 0 <= k < s.len() ==> (#[trigger] s[k]).valeur == p[k],
    ensures
        (position_de(s, v) is Some) == p.contains(v),
{
    lemme_position(s, v, 0);
    if p.contains(v) {
        let k = choose|k: int| 0 <= k < p.len() && p[k] == v;
        assert(s[k].valeur == v);
    }
    if let Some(q) = position_de(s, v) {
        assert(p[q] == v);
    }
}

/// Après toute suite d'appels sur un compteur neuf, le compteur tient une
/// entrée par valeur nommée, dans l'ordre de première apparition ; son
/// décompte est le nombre d'occurrences comptées de cette valeur (zéro pour
/// une valeur seulement déclarée), et son libellé et sa couleur sont ceux de
/// l'appel qui l'a fait entrer.
pub proof fn le_compteur_est_fidele(ops: Seq<OperationDeCompte>)
    ensures
        compteur_fidele(ops),
    decreases ops.len(),
{
    if ops.len() == 0 {
        assert(premieres_valeurs(ops) =~= Seq::<Seq<char>>::empty());
        assert forall|w: Seq<char>| #[trigger] compte_de(apres(ops), w) == nombre_d_ajouts(ops, w) by {}
        return;
    }
    let avant = ops.drop_last();
    le_compteur_est_fidele(avant);
    let o = ops.last();
    let v = valeur_nommee(o);
    let s0 = apres(avant);
    let p0 = premieres_valeurs(avant);
    let s = apres(ops);
    let p = premieres_valeurs(ops);
    assert(s == appliquer(s0, o));
    lemme_bien_forme_apres_appel(s0, o);
    lemme_presence(s0, p0, v);
    lemme_position(s0, v, 0);
    let present = p0.contains(v);
    assert forall|i: int| 0 <= i < avant.len() implies #[trigger] ops[i] == avant[i] by {}
    // Les valeurs, dans l'ordre de première apparition.
    assert(s.len() == p.len());
    assert forall|k: int| 0 <= k < s.len() implies (#[trigger] s[k]).valeur == p[k] by {
        if k < s0.len() {
            match o {
                OperationDeCompte::Ajout { valeur, label, color } => {
                    compter_une_occurrence(s0, valeur, label, color, valeur);
                },
                OperationDeCompte::Declaration { .. } => {},
            }
            assert(s[k].valeur == s0[k].valeur);
        }
    }
    // Le premier appel.
    assert forall|w: Seq<char>| p.contains(w) <==> (#[trigger] premier_appel(ops, w)) is Some by {
        assert(p0.contains(w) <==> premier_appel(avant, w) is Some);
        if present {
            assert(p == p0);
            if w == v {
                assert(premier_appel(avant, w) is Some);
            }
        } else {
            assert(p == p0.push(v));
        }
        if p.contains(w) && !p0.contains(w) {
            let k = choose|k: int| 0 <= k < p.len() && p[k] == w;
            assert(k == p0.len());
        }
        if p0.contains(w) {
            let k = choose|k: int| 0 <= k < p0.len() && p0[k] == w;
            assert(p[k] == w);
        }
        if !present && w == v {
            assert(p[p0.len() as int] == w);
        }
    }
    assert forall|w: Seq<char>| (#[trigger] premier_appel(ops, w)) is Some implies 0 <= premier_appel(
        ops,
        w,
    )->0 < ops.len() && valeur_nommee(ops[premier_appel(ops, w)->0]) == w by {
        if let Some(i) = premier_appel(avant, w) {
            assert(ops[i] == avant[i]);
        }
    }
    // Les décomptes.
    assert forall|w: Seq<char>| #[trigger] compte_de(s, w) == nombre_d_ajouts(ops, w) by {
        assert(compte_de(s0, w) == nombre_d_ajouts(avant, w));
        match o {
            OperationDeCompte::Ajout { valeur, label, color } => {
                compter_une_occurrence(s0, valeur, label, color, w);
            },
            OperationDeCompte::Declaration { valeur } => {
                declarer_ne_compte_rien(s0, valeur, w);
            },
        }
    }
    // Les libellés et couleurs.
    assert forall|k: int| 0 <= k < s.len() implies (#[trigger] s[k]).label
        == etiquette(ops[premier_appel(ops, s[k].valeur)->0]).0
        && s[k].color == etiquette(ops[premier_appel(ops, s[k].valeur)->0]).1 by {
        if k < s0.len() {
            let w = s0[k].valeur;
            assert(p0[k] == w);
            assert(p0.contains(w));
            assert(premier_appel(avant, w) is Some);
            let i = premier_appel(avant, w)->0;
            assert(ops[i] == avant[i]);
            match o {
                OperationDeCompte::Ajout { valeur, label, color } => {
                    compter_une_occurrence(s0, valeur, label, color, valeur);
                    if let Some(q) = position_de(s0, valeur) {
                        if q != k {
                            assert(s[k] == s0[k]);
                        }
                    } else {
                        assert(s[k] == s0[k]);
                    }
                },
                OperationDeCompte::Declaration { valeur } => {
                    if position_de(s0, valeur) is None {
                        assert(s[k] == s0[k]);
                    }
                },
            }
            assert(s[k].valeur == w);
        } else {
            assert(!present);
            assert(premier_appel(avant, v) is None);
            assert(s[k].valeur == v);
        }
    }
}

/// Ce que `rendre` donne après une suite d'appels sur un compteur neuf : une
/// facette par valeur nommée, dans l'ordre de première apparition, avec le
/// nombre de ses occurrences comptées, et le libellé et la couleur de l'appel
/// qui l'a fait entrer.
pub proof fn ce_que_rend_le_compteur(ops: Seq<OperationDeCompte>, r: Seq<ProposalFacet>)
    requires
        r.len() == apres(ops).len(),
        forall|k: int| 0 <= k < r.len() ==> facette_de(apres(ops)[k], #[trigger] r[k]),
    ensures
        r.len() == premieres_valeurs(ops).len(),
        forall|k: int| 0 <= k < r.len() ==> {
            &&& (#[trigger] r[k]).value@ == premieres_valeurs(ops)[k]
            &&& r[k].count == nombre_d_ajouts(ops, r[k].value@)
            &&& premier_appel(ops, r[k].value@) matches Some(i)
            &&& r[k].label == etiquette(ops[i]).0
            &&& vue_couleur(r[k].color) == etiquette(ops[i]).1
        },
{
    le_compteur_est_fidele(ops);
    let s = apres(ops);
    let p = premieres_valeurs(ops);
    assert forall|k: int| 0 <= k < r.len() implies {
        &&& (#[trigger] r[k]).value@ == premieres_valeurs(ops)[k]
        &&& r[k].count == nombre_d_ajouts(ops, r[k].value@)
        &&& premier_appel(ops, r[k].value@) matches Some(i)
        &&& r[k].label == etiquette(ops[i]).0
        &&& vue_couleur(r[k].color) == etiquette(ops[i]).1
    } by {
        assert(facette_de(s[k], r[k]));
        let w = s[k].valeur;
        assert(p[k] == w);
        assert(p.contains(w));
        lemme_position(s, w, 0);
        let q = position_de(s, w)->0;
        assert(q == k);
        assert(compte_de(s, w) == nombre_d_ajouts(ops, w));
    }
}

impl Compteur {
    pub closed spec fn bien_forme(&self) -> bool {
        bien_forme(self@)
    }

    pub fn new() -> (r: Compteur)
        ensures
            r@ == Seq::<EntreeVue>::empty(),
            r.bien_forme(),
    {
        let r = Compteur { entrees: Vec::new() };
        assert(r@ =~= Seq::<EntreeVue>::empty());
        r
    }

    fn chercher(&self, valeur: &str) -> (r: Option<usize>)
        ensures
            match r {
                Some(p) => position_de(self@, valeur@) == Some(p as int),
                None => position_de(self@, valeur@) is None,
            },
    {
        let n = self.entrees.len();
        let mut i: usize = 0;
        while i < n
            invariant
                n == self@.len(),
                n == self.entrees@.len(),
                i <= n,
                position_de(self@, valeur@) == position_depuis(self@, valeur@, i as int),
            decreases n - i,
        {
            assert(self@[i as int] == vue_entree(self.entrees@[i as int]));
            if egales(self.entrees[i].valeur.as_str(), valeur) {
                return Some(i);
            }
            i = i + 1;
        }
        None
    }

    /// Compte une occurrence. Le libellé et la couleur sont retenus **à la
    /// première rencontre**.
    pub fn ajouter(&mut self, valeur: &str, label: Option<Json>, color: Option<String>)
        requires
            old(self).bien_forme(),
            compte_de(old(self)@, valeur@) < i64::MAX,
        ensures
            final(self).bien_forme(),
            final(self)@ == ajout(old(self)@, valeur@, label, vue_couleur(color)),
    {
        let ghost avant = self@;
        proof {
            lemme_position(avant, valeur@, 0);
        }
        match self.chercher(valeur) {
            Some(p) => {
                let e = self.entrees.remove(p);
                let nouveau = Entree { valeur: e.valeur, compte: e.compte + 1, label: e.label, color: e.color };
                self.entrees.insert(p, nouveau);
                proof {
                    assert(self@ =~= ajout(avant, valeur@, label, vue_couleur(color)));
                }
            },
            None => {
                let e = Entree { valeur: valeur.to_owned(), compte: 1, label, color };
                self.entrees.push(e);
                proof {
                    assert(self@ =~= ajout(avant, valeur@, label, vue_couleur(color)));
                }
            },
        }
    }

    /// Compte une occurrence sans libellé — le cas d'un code d'énumération.
    pub fn ajouter_code(&mut self, valeur: &str)
        requires
            old(self).bien_forme(),
            compte_de(old(self)@, valeur@) < i64::MAX,
        ensures
            final(self).bien_forme(),
            final(self)@ == ajout(old(self)@, valeur@, None, None),
    {
        self.ajouter(valeur, None, None);
    }

    /// Pose une valeur à zéro : une facette absente et une facette à zéro ne
    /// disent pas la même chose.
    pub fn declarer(&mut self, valeur: &str)
        requires
            old(self).bien_forme(),
        ensures
            final(self).bien_forme(),
            final(self)@ == declaration(old(self)@, valeur@),
    {
        let ghost avant = self@;
        proof {
            lemme_position(avant, valeur@, 0);
        }
        if self.chercher(valeur).is_none() {
            let e = Entree { valeur: valeur.to_owned(), compte: 0, label: None, color: None };
            self.entrees.push(e);
            proof {
                assert(self@ =~= declaration(avant, valeur@));
            }
        }
    }

    /// Les facettes, dans l'ordre de première apparition.
    pub fn rendre(self) -> (r: Vec<ProposalFacet>)
        ensures
            r@.len() == self@.len(),
            forall|k: int| 0 <= k < r@.len() ==> facette_de(self@[k], #[trigger] r@[k]),
    {
        let ghost vue = self@;
        let mut entrees = self.entrees;
        let mut r: Vec<ProposalFacet> = Vec::new();
        let ghost tout = entrees@;
        let n: usize = entrees.len();
        let mut i: usize = 0;
        while entrees.len() > 0
            invariant
                vue == tout.map_values(|e: Entree| vue_entree(e)),
                i <= tout.len(),
                tout.len() == n,
                entrees@ == tout.skip(i as int),
                r@.len() == i,
                forall|k: int| 0 <= k < i ==> facette_de(vue[k], #[trigger] r@[k]),
            decreases entrees@.len(),
        {
            let e = entrees.remove(0);
            assert(e == tout[i as int]);
            assert(tout.skip(i as int).remove(0) =~= tout.skip(i + 1));
            r.push(ProposalFacet { value: e.valeur, label: e.label, count: e.compte, color: e.color });
            i = i + 1;
        }
        r
    }
}

} // verus!

//! Le document JSON tel que les règles le lisent : réponses d'un formulaire,
//! règles de saisie, textes multilingues.
//!
//! Un nombre porte ce que la lecture en fait : sa valeur entière non négative
//! quand il s'écrit ainsi, et sa valeur flottante sous forme exacte
//! `mantisse × 2^exposant`, avec l'écriture décimale qu'on en affiche.

use vstd::prelude::*;
use vstd::arithmetic::power2::{pow2, lemma_pow2_pos, lemma_pow2_unfold, lemma_pow2_strictly_increases, lemma2_to64, lemma2_to64_rest};

verus! {

/// Un nombre JSON.
#[derive(Debug, Clone)]
pub struct Nombre {
    /// La valeur, quand elle est un entier non négatif écrit comme tel.
    pub naturel: Option<u64>,
    /// La valeur flottante : `mantisse × 2^exposant`, exactement.
    pub mantisse: i64,
    pub exposant: i32,
    /// L'écriture décimale de la valeur flottante.
    pub affichage: String,
}

/// Une valeur JSON.
#[derive(Debug)]
pub enum Json {
    Nul,
    Booleen(bool),
    Nombre(Nombre),
    Texte(String),
    Liste(Vec<Json>),
    /// Les entrées dans l'ordre où l'objet les parcourt.
    Objet(Vec<(String, Json)>),
}

/// La valeur qu'un objet associe à une clé : celle de la première entrée qui
/// la porte.
pub open spec fn valeur_de(objet: Seq<(String, Json)>, cle: Seq<char>) -> Option<Json>
    decreases objet.len(),
{
    if objet.len() == 0 {
        None
    } else if objet[0].0@ == cle {
        Some(objet[0].1)
    } else {
        valeur_de(objet.drop_first(), cle)
    }
}

/// L'objet porte-t-il cette clé ?
pub open spec fn porte_la_cle(objet: Seq<(String, Json)>, cle: Seq<char>) -> bool {
    exists|k: int| 0 <= k < objet.len() && (#[trigger] objet[k]).0@ == cle
}

proof fn lemme_valeur_de_suffixe(objet: Seq<(String, Json)>, cle: Seq<char>, i: int)
    requires
        0 <= i < objet.len(),
        objet[i].0@ != cle,
    ensures
        valeur_de(objet.subrange(i, objet.len() as int), cle) == valeur_de(
            objet.subrange(i + 1, objet.len() as int),
            cle,
        ),
{
    let s = objet.subrange(i, objet.len() as int);
    assert(s.drop_first() =~= objet.subrange(i + 1, objet.len() as int));
}

pub proof fn lemme_valeur_de_presente(objet: Seq<(String, Json)>, cle: Seq<char>)
    ensures
        valeur_de(objet, cle) is Some <==> porte_la_cle(objet, cle),
    decreases objet.len(),
{
    if objet.len() > 0 {
        lemme_valeur_de_presente(objet.drop_first(), cle);
        if porte_la_cle(objet, cle) && objet[0].0@ != cle {
            let k = choose|k: int| 0 <= k < objet.len() && (#[trigger] objet[k]).0@ == cle;
            assert(objet.drop_first()[k - 1] == objet[k]);
        }
        if porte_la_cle(objet.drop_first(), cle) {
            let k = choose|k: int|
                0 <= k < objet.drop_first().len() && (#[trigger] objet.drop_first()[k]).0@ == cle;
            assert(objet[k + 1] == objet.drop_first()[k]);
        }
        if objet[0].0@ == cle {
            assert(objet[0].0@ == cle);
        }
    }
}

/// `Map::get` : la valeur d'une clé, ou rien.
pub fn obtenir<'a>(objet: &'a Vec<(String, Json)>, cle: &str) -> (r: Option<&'a Json>)
    ensures
        match r {
            Some(v) => valeur_de(objet@, cle@) == Some(*v),
            None => valeur_de(objet@, cle@) is None,
        },
{
    let n = objet.len();
    let mut i: usize = 0;
    assert(objet@.subrange(0, n as int) =~= objet@);
    while i < n
        invariant
            n == objet@.len(),
            i <= n,
            valeur_de(objet@, cle@) == valeur_de(objet@.subrange(i as int, n as int), cle@),
        decreases n - i,
    {
        if crate::texte::egales(objet[i].0.as_str(), cle) {
            return Some(&objet[i].1);
        }
        proof {
            lemme_valeur_de_suffixe(objet@, cle@, i as int);
        }
        i = i + 1;
    }
    None
}

/// La valeur d'un nombre mise à l'échelle `2^k`, pour `k` au plus son exposant.
pub open spec fn a_l_echelle(n: Nombre, k: int) -> int {
    n.mantisse * pow2((n.exposant - k) as nat)
}

/// `a < b`, sur les valeurs flottantes exactes.
pub open spec fn moindre(a: Nombre, b: Nombre) -> bool {
    let k = if a.exposant <= b.exposant { a.exposant as int } else { b.exposant as int };
    a_l_echelle(a, k) < a_l_echelle(b, k)
}

/// `2^d`, pour `d` au plus 63.
fn puissance_de_deux(d: u32) -> (r: i128)
    requires
        d < 64,
    ensures
        r == pow2(d as nat),
        0 < r <= 0x8000_0000_0000_0000,
{
    let mut r: i128 = 1;
    let mut i: u32 = 0;
    proof {
        lemma2_to64();
        lemma2_to64_rest();
    }
    while i < d
        invariant
            i <= d < 64,
            r == pow2(i as nat),
            pow2(63) == 0x8000_0000_0000_0000,
        decreases d - i,
    {
        proof {
            lemma_pow2_unfold((i + 1) as nat);
            if i + 1 < 63 {
                lemma_pow2_strictly_increases((i + 1) as nat, 63);
            }
        }
        r = r * 2;
        i = i + 1;
    }
    proof {
        if d < 63 {
            lemma_pow2_strictly_increases(d as nat, 63);
        }
    }
    r
}

/// `m × 2^d < n`, quand `d` est grand : le signe de `m` décide.
proof fn lemme_decalage_large(m: int, n: int, d: nat)
    requires
        m != 0,
        d >= 64,
        -0x8000_0000_0000_0000 <= n < 0x8000_0000_0000_0000,
    ensures
        (m * pow2(d) < n) == (m < 0),
        (n < m * pow2(d)) == (m > 0),
{
    lemma2_to64();
    if d > 64 {
        lemma_pow2_strictly_increases(64, d);
    }
    let p = pow2(d) as int;
    assert(p >= 0x1_0000_0000_0000_0000);
    if m > 0 {
        assert(m * p >= p) by (nonlinear_arith)
            requires
                m >= 1,
                p >= 0,
        ;
    } else {
        assert(m * p <= -p) by (nonlinear_arith)
            requires
                m <= -1,
                p >= 0,
        ;
    }
}

/// `a < b`, exactement.
pub fn inferieur(a: &Nombre, b: &Nombre) -> (r: bool)
    ensures
        r == moindre(*a, *b),
{
    let ae = a.exposant as i64;
    let be = b.exposant as i64;
    let am = a.mantisse as i128;
    let bm = b.mantisse as i128;
    proof {
        lemma_pow2_pos(0);
        assert(pow2(0) == 1) by {
            lemma2_to64();
        }
    }
    if ae >= be {
        let d = ae - be;
        assert(((b.exposant - be as int) as nat) == 0);
        assert(a_l_echelle(*b, be as int) == bm * 1);
        if am == 0 {
            assert(a_l_echelle(*a, be as int) == 0);
            return 0 < bm;
        }
        if d >= 64 {
            proof {
                lemme_decalage_large(am as int, bm as int, d as nat);
            }
            return am < 0;
        }
        let p = puissance_de_deux(d as u32);
        assert(-0x4000_0000_0000_0000_0000_0000_0000_0000 <= am * p <= 0x4000_0000_0000_0000_0000_0000_0000_0000)
            by (nonlinear_arith)
            requires
                -0x8000_0000_0000_0000 <= am < 0x8000_0000_0000_0000,
                0 < p <= 0x8000_0000_0000_0000,
        ;
        let x = am * p;
        x < bm
    } else {
        let d = be - ae;
        assert(((a.exposant - ae as int) as nat) == 0);
        assert(a_l_echelle(*a, ae as int) == am * 1);
        if bm == 0 {
            assert(a_l_echelle(*b, ae as int) == 0);
            return am < 0;
        }
        if d >= 64 {
            proof {
                lemme_decalage_large(bm as int, am as int, d as nat);
            }
            return bm > 0;
        }
        let p = puissance_de_deux(d as u32);
        assert(-0x4000_0000_0000_0000_0000_0000_0000_0000 <= bm * p <= 0x4000_0000_0000_0000_0000_0000_0000_0000)
            by (nonlinear_arith)
            requires
                -0x8000_0000_0000_0000 <= bm < 0x8000_0000_0000_0000,
                0 < p <= 0x8000_0000_0000_0000,
        ;
        let y = bm * p;
        am < y
    }
}

} // verus!

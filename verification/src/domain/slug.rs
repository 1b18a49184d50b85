//! L'adresse d'URL d'un dossier — repli, troncature, suffixe.
//!
//! La normalisation se fait en base, par `platform.slugify()` ; ce fichier ne
//! porte que ce que la base ne fait pas : le repli quand le titre est vide,
//! la troncature qui laisse la place au suffixe, et le suffixe posé sur
//! collision.

use vstd::prelude::*;
use crate::texte::{
    rogne, rogner, octets, largeur, largeur_utf8, longueur_en_octets, ecriture_decimale, decimal,
    lemme_octets_prefixe, lemme_octets_concat, lemme_octets_prefixe_borne,
};

verus! {

/// Ce que porte un dossier dont le titre est encore vide.
pub const REPLI: &'static str = "dossier";

/// Longueur maximale de `platform.slug`, en octets.
pub const LONGUEUR_MAX: usize = 160;

/// Nombre de tentatives sur collision.
pub const TENTATIVES_MAX: u8 = 10;

/// De quoi loger `-10`, le plus long suffixe que les tentatives produisent.
pub const MARGE_SUFFIXE: usize = 3;

/// Le nombre de caractères d'un préfixe de `v` qui atteint `max` octets,
/// en partant de `j` caractères : on avance tant que le préfixe est plus
/// court que `max`.
pub open spec fn rang_d_octet(v: Seq<char>, max: int, j: int) -> int
    decreases v.len() - j,
{
    if j < 0 || j >= v.len() || octets(v.subrange(0, j)) >= max {
        j
    } else {
        rang_d_octet(v, max, j + 1)
    }
}

/// Les `max` premiers octets de `v` : le préfixe de caractères qui les atteint.
pub open spec fn coupe_a(v: Seq<char>, max: int) -> Seq<char> {
    v.subrange(0, rang_d_octet(v, max, 0))
}

/// `v` se coupe à `max` octets : il est assez court, ou une frontière de
/// caractère tombe exactement au `max`-ième octet.
pub open spec fn coupable(v: Seq<char>, max: int) -> bool {
    octets(v) <= max || octets(coupe_a(v, max)) == max
}

/// La position du dernier tiret d'une chaîne, s'il y en a un.
pub open spec fn dernier_tiret(s: Seq<char>) -> Option<int>
    decreases s.len(),
{
    if s.len() == 0 {
        None
    } else if s.last() == '-' {
        Some(s.len() - 1)
    } else {
        dernier_tiret(s.drop_last())
    }
}

/// Une chaîne sans ses tirets de queue.
pub open spec fn sans_tirets_finaux(s: Seq<char>) -> Seq<char>
    decreases s.len(),
{
    if s.len() > 0 && s.last() == '-' {
        sans_tirets_finaux(s.drop_last())
    } else {
        s
    }
}

/// La troncature à `max` octets, sur une frontière de segment quand c'est
/// possible : on coupe avant le dernier tiret du préfixe, sauf s'il n'y en a
/// pas ou s'il est en tête ; on ôte alors seulement les tirets de queue.
pub open spec fn tronque(v: Seq<char>, max: int) -> Seq<char> {
    if octets(v) <= max {
        v
    } else {
        let coupe = coupe_a(v, max);
        match dernier_tiret(coupe) {
            Some(q) => if q == 0 { sans_tirets_finaux(coupe) } else { coupe.subrange(0, q) },
            None => sans_tirets_finaux(coupe),
        }
    }
}

proof fn lemme_dernier_tiret(s: Seq<char>)
    ensures
        dernier_tiret(s) matches Some(q) ==> 0 <= q < s.len() && s[q] == '-',
    decreases s.len(),
{
    if s.len() > 0 && s.last() != '-' {
        lemme_dernier_tiret(s.drop_last());
    }
}

proof fn lemme_sans_tirets_finaux(s: Seq<char>)
    ensures
        sans_tirets_finaux(s).len() <= s.len(),
        sans_tirets_finaux(s) =~= s.subrange(0, sans_tirets_finaux(s).len() as int),
    decreases s.len(),
{
    if s.len() > 0 && s.last() == '-' {
        lemme_sans_tirets_finaux(s.drop_last());
        let t = sans_tirets_finaux(s.drop_last());
        assert(s.drop_last().subrange(0, t.len() as int) =~= s.subrange(0, t.len() as int));
    }
}

/// Tronque sur une frontière de segment quand c'est possible.
pub fn tronquer(valeur: &str, max: usize) -> (r: String)
    requires
        coupable(valeur@, max as int),
    ensures
        r@ == tronque(valeur@, max as int),
{
    let ghost v = valeur@;
    if longueur_en_octets(valeur) <= max as u128 {
        return valeur.to_string();
    }
    let n = valeur.unicode_len();
    let mut j: usize = 0;
    let mut taille: u128 = 0;
    assert(v.subrange(0, 0) =~= Seq::<char>::empty());
    while j < n && taille < max as u128
        invariant
            n == v.len(),
            v == valeur@,
            j <= n,
            taille == octets(v.subrange(0, j as int)),
            taille <= 4 * j,
            rang_d_octet(v, max as int, 0) == rang_d_octet(v, max as int, j as int),
        decreases n - j,
    {
        proof {
            lemme_octets_prefixe(v, j as int);
        }
        taille = taille + largeur(valeur.get_char(j));
        j = j + 1;
    }
    let coupe = valeur.substring_char(0, j);
    assert(coupe@ =~= coupe_a(v, max as int));
    let mut q: usize = j;
    assert(coupe@.subrange(0, j as int) =~= coupe@);
    while q > 0 && coupe.get_char(q - 1) != '-'
        invariant
            q <= j,
            j == coupe@.len(),
            dernier_tiret(coupe@) == dernier_tiret(coupe@.subrange(0, q as int)),
        decreases q,
    {
        proof {
            let t = coupe@.subrange(0, q as int);
            assert(t.drop_last() =~= coupe@.subrange(0, q - 1));
        }
        q = q - 1;
    }
    proof {
        assert(coupe@.subrange(0, j as int) =~= coupe@);
        if q > 0 {
            let t = coupe@.subrange(0, q as int);
            assert(t.last() == '-');
        } else {
            assert(coupe@.subrange(0, 0) =~= Seq::<char>::empty());
        }
    }
    if q > 1 {
        coupe.substring_char(0, q - 1).to_string()
    } else {
        let mut k: usize = j;
        assert(coupe@.subrange(0, j as int) =~= coupe@);
        while k > 0 && coupe.get_char(k - 1) == '-'
            invariant
                k <= j,
                j == coupe@.len(),
                sans_tirets_finaux(coupe@) == sans_tirets_finaux(coupe@.subrange(0, k as int)),
            decreases k,
        {
            proof {
                let t = coupe@.subrange(0, k as int);
                assert(t.drop_last() =~= coupe@.subrange(0, k - 1));
            }
            k = k - 1;
        }
        coupe.substring_char(0, k).to_string()
    }
}

/// La base d'adresse : la valeur rognée, tronquée à la place que le suffixe
/// laisse, ou le repli quand elle est absente ou vide.
pub open spec fn base_de(slugifie: Option<Seq<char>>) -> Seq<char> {
    match slugifie {
        Some(v) => if rogne(v).len() == 0 {
            REPLI@
        } else {
            tronque(rogne(v), (LONGUEUR_MAX - MARGE_SUFFIXE) as int)
        },
        None => REPLI@,
    }
}

/// La vue d'une chaîne optionnelle.
pub open spec fn vue_option(s: Option<&str>) -> Option<Seq<char>> {
    match s {
        Some(v) => Some(v@),
        None => None,
    }
}

/// La base se coupe sans trancher un caractère.
pub open spec fn base_coupable(slugifie: Option<&str>) -> bool {
    slugifie matches Some(v) ==> coupable(rogne(v@), (LONGUEUR_MAX - MARGE_SUFFIXE) as int)
}

/// La base d'adresse, une fois `platform.slugify()` passée.
pub fn base(slugifie: Option<&str>) -> (r: String)
    requires
        base_coupable(slugifie),
    ensures
        r@ == base_de(vue_option(slugifie)),
{
    match slugifie {
        Some(v) => {
            let coupe = rogner(v);
            if coupe.unicode_len() == 0 {
                REPLI.to_string()
            } else {
                tronquer(coupe, LONGUEUR_MAX - MARGE_SUFFIXE)
            }
        },
        None => REPLI.to_string(),
    }
}

/// L'adresse de la n-ième tentative : la première sans suffixe, les
/// suivantes suffixées de leur rang compté à partir de un.
pub open spec fn adresse_de_tentative(base: Seq<char>, numero: u8) -> Seq<char> {
    if numero == 0 {
        base
    } else {
        base + seq!['-'] + ecriture_decimale((numero + 1) as nat)
    }
}

/// L'adresse de la n-ième tentative.
pub fn tentative(base: &str, numero: u8) -> (r: String)
    requires
        numero < 255,
    ensures
        r@ == adresse_de_tentative(base@, numero),
{
    if numero == 0 {
        base.to_string()
    } else {
        let mut r = base.to_string();
        proof { reveal_strlit("-"); }
        r.append("-");
        let suffixe = decimal((numero + 1) as u64);
        r.append(suffixe.as_str());
        assert(r@ =~= adresse_de_tentative(base@, numero));
        r
    }
}

/// Une troncature ne dépasse jamais sa borne.
pub proof fn la_troncature_tient(v: Seq<char>, max: int)
    requires
        coupable(v, max),
    ensures
        octets(tronque(v, max)) <= max,
{
    if octets(v) > max {
        let coupe = coupe_a(v, max);
        lemme_dernier_tiret(coupe);
        lemme_sans_tirets_finaux(coupe);
        match dernier_tiret(coupe) {
            Some(q) => {
                if q != 0 {
                    lemme_octets_prefixe_borne(coupe, q);
                } else {
                    lemme_octets_prefixe_borne(coupe, sans_tirets_finaux(coupe).len() as int);
                }
            },
            None => {
                lemme_octets_prefixe_borne(coupe, sans_tirets_finaux(coupe).len() as int);
            },
        }
    }
}

proof fn lemme_suffixe_court(k: nat)
    requires
        2 <= k <= 10,
    ensures
        octets(seq!['-'] + ecriture_decimale(k)) <= 3,
{
    reveal_with_fuel(ecriture_decimale, 2);
    reveal_with_fuel(octets, 4);
    if k < 10 {
        assert(seq!['-'] + ecriture_decimale(k) =~= seq!['-', crate::texte::chiffre(k)]);
    } else {
        assert(ecriture_decimale(1) =~= seq![crate::texte::chiffre(1)]);
        assert(seq!['-'] + ecriture_decimale(k) =~= seq!['-', crate::texte::chiffre(1), crate::texte::chiffre(0)]);
        assert(seq!['-', crate::texte::chiffre(1), crate::texte::chiffre(0)].drop_first() =~= seq![crate::texte::chiffre(1), crate::texte::chiffre(0)]);
        assert(seq![crate::texte::chiffre(1), crate::texte::chiffre(0)].drop_first() =~= seq![crate::texte::chiffre(0)]);
        assert(seq![crate::texte::chiffre(0)].drop_first() =~= Seq::<char>::empty());
    }
}

/// Chaque tentative tient dans `platform.slug` : la base laisse trois octets,
/// et aucun suffixe des dix tentatives n'en prend plus.
pub proof fn chaque_tentative_tient(slugifie: Option<Seq<char>>, numero: u8)
    requires
        numero < TENTATIVES_MAX,
        slugifie matches Some(v) ==> coupable(rogne(v), (LONGUEUR_MAX - MARGE_SUFFIXE) as int),
    ensures
        octets(adresse_de_tentative(base_de(slugifie), numero)) <= LONGUEUR_MAX,
{
    reveal_strlit("dossier");
    reveal_with_fuel(octets, 8);
    let b = base_de(slugifie);
    if let Some(v) = slugifie {
        if rogne(v).len() > 0 {
            la_troncature_tient(rogne(v), (LONGUEUR_MAX - MARGE_SUFFIXE) as int);
        }
    }
    assert(octets(b) <= 157);
    if numero > 0 {
        lemme_suffixe_court((numero + 1) as nat);
        lemme_octets_concat(b, seq!['-'] + ecriture_decimale((numero + 1) as nat));
        assert(b + seq!['-'] + ecriture_decimale((numero + 1) as nat) =~= b + (seq!['-']
            + ecriture_decimale((numero + 1) as nat)));
    }
}

} // verus!

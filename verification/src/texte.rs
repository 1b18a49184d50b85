//! Les opérations sur les chaînes dont les règles ont besoin, exprimées sur
//! la vue en caractères (`Seq<char>`) d'une chaîne.

use vstd::prelude::*;

verus! {

/// Ce que `char::is_whitespace` rend pour un caractère : la propriété
/// `White_Space` d'Unicode.
pub uninterp spec fn blanc(c: char) -> bool;

/// `char::is_whitespace`. Le résultat est `blanc(c)`, une fonction du seul
/// caractère ; des caractères blancs, le contrat ne redit que les exemples que
/// la documentation donne : l'espace, le saut de ligne et l'espace insécable
/// le sont, `越` ne l'est pas. La liste entière (la propriété `White_Space`
/// d'Unicode) n'est pas redite ici.
#[verifier::external_body]
pub(crate) fn est_blanc(c: char) -> (r: bool)
    ensures
        r == blanc(c),
        c == ' ' ==> r,
        c == '\n' ==> r,
        c == '\u{A0}' ==> r,
        c == '越' ==> !r,
{
    c.is_whitespace()
}

/// Une chaîne sans ses blancs de tête.
pub open spec fn rogne_debut(s: Seq<char>) -> Seq<char>
    decreases s.len(),
{
    if s.len() > 0 && blanc(s[0]) {
        rogne_debut(s.drop_first())
    } else {
        s
    }
}

/// Une chaîne sans ses blancs de queue.
pub open spec fn rogne_fin(s: Seq<char>) -> Seq<char>
    decreases s.len(),
{
    if s.len() > 0 && blanc(s.last()) {
        rogne_fin(s.drop_last())
    } else {
        s
    }
}

/// Ce que `str::trim` rend : la chaîne sans ses blancs de tête ni de queue.
pub open spec fn rogne(s: Seq<char>) -> Seq<char> {
    rogne_fin(rogne_debut(s))
}

/// Une chaîne blanche de bout en bout — vide une fois rognée.
pub open spec fn toute_blanche(s: Seq<char>) -> bool {
    forall|k: int| 0 <= k < s.len() ==> blanc(#[trigger] s[k])
}

proof fn lemme_rogne_debut_suffixe(s: Seq<char>, i: int)
    requires
        0 <= i <= s.len(),
        forall|k: int| 0 <= k < i ==> blanc(#[trigger] s[k]),
    ensures
        rogne_debut(s) == rogne_debut(s.subrange(i, s.len() as int)),
    decreases i,
{
    if i > 0 {
        assert(s.drop_first() =~= s.subrange(1, s.len() as int));
        lemme_rogne_debut_suffixe(s.drop_first(), i - 1);
        assert(s.drop_first().subrange(i - 1, s.drop_first().len() as int) =~= s.subrange(
            i,
            s.len() as int,
        ));
    } else {
        assert(s.subrange(0, s.len() as int) =~= s);
    }
}

proof fn lemme_rogne_fin_prefixe(s: Seq<char>, j: int)
    requires
        0 <= j <= s.len(),
        forall|k: int| j <= k < s.len() ==> blanc(#[trigger] s[k]),
    ensures
        rogne_fin(s) == rogne_fin(s.subrange(0, j)),
    decreases s.len() - j,
{
    if j < s.len() {
        assert(s.drop_last() =~= s.subrange(0, s.len() - 1));
        lemme_rogne_fin_prefixe(s.drop_last(), j);
        assert(s.drop_last().subrange(0, j) =~= s.subrange(0, j));
    } else {
        assert(s.subrange(0, j) =~= s);
    }
}

/// Rogner par le début seul revient à sauter les blancs de tête.
pub proof fn lemme_rogne_debut_vide(s: Seq<char>)
    ensures
        (rogne_debut(s).len() == 0) == toute_blanche(s),
    decreases s.len(),
{
    if s.len() > 0 {
        lemme_rogne_debut_vide(s.drop_first());
        if toute_blanche(s) {
            assert forall|k: int| 0 <= k < s.drop_first().len() implies blanc(
                #[trigger] s.drop_first()[k],
            ) by {
                assert(s.drop_first()[k] == s[k + 1]);
            }
        }
        if blanc(s[0]) && toute_blanche(s.drop_first()) {
            assert forall|k: int| 0 <= k < s.len() implies blanc(#[trigger] s[k]) by {
                if k > 0 {
                    assert(s[k] == s.drop_first()[k - 1]);
                }
            }
        }
    }
}

/// Rogner une chaîne la vide exactement quand elle n'est faite que de blancs.
pub proof fn lemme_rogne_vide(s: Seq<char>)
    ensures
        (rogne(s).len() == 0) == toute_blanche(s),
{
    lemme_rogne_debut_vide(s);
    lemme_rogne_debut_tete(s);
    lemme_rogne_fin_longueur(rogne_debut(s));
    if rogne_debut(s).len() > 0 {
        assert(!blanc(rogne_debut(s)[0]));
    }
}

proof fn lemme_rogne_debut_tete(s: Seq<char>)
    ensures
        rogne_debut(s).len() > 0 ==> !blanc(rogne_debut(s)[0]),
    decreases s.len(),
{
    if s.len() > 0 && blanc(s[0]) {
        lemme_rogne_debut_tete(s.drop_first());
    }
}

proof fn lemme_rogne_fin_longueur(s: Seq<char>)
    ensures
        (rogne_fin(s).len() == 0) == (s.len() == 0 || toute_blanche(s)),
        rogne_fin(s).len() <= s.len(),
    decreases s.len(),
{
    if s.len() > 0 {
        lemme_rogne_fin_longueur(s.drop_last());
        if toute_blanche(s) {
            assert forall|k: int| 0 <= k < s.drop_last().len() implies blanc(
                #[trigger] s.drop_last()[k],
            ) by {
                assert(s.drop_last()[k] == s[k]);
            }
        }
        if blanc(s.last()) && toute_blanche(s.drop_last()) {
            assert forall|k: int| 0 <= k < s.len() implies blanc(#[trigger] s[k]) by {
                if k < s.len() - 1 {
                    assert(s[k] == s.drop_last()[k]);
                }
            }
        }
    }
}

proof fn lemme_rogne_fin_prefixe_de(s: Seq<char>)
    ensures
        rogne_fin(s).len() <= s.len(),
        rogne_fin(s) =~= s.subrange(0, rogne_fin(s).len() as int),
        rogne_fin(s).len() > 0 ==> !blanc(rogne_fin(s).last()),
    decreases s.len(),
{
    if s.len() > 0 && blanc(s.last()) {
        lemme_rogne_fin_prefixe_de(s.drop_last());
        let r = rogne_fin(s.drop_last());
        assert(s.drop_last().subrange(0, r.len() as int) =~= s.subrange(0, r.len() as int));
    }
}

/// Rogner une chaîne déjà rognée ne la change plus.
pub proof fn rogner_est_idempotent(s: Seq<char>)
    ensures
        rogne(rogne(s)) == rogne(s),
{
    let d = rogne_debut(s);
    let r = rogne_fin(d);
    lemme_rogne_debut_tete(s);
    lemme_rogne_fin_prefixe_de(d);
    if r.len() > 0 {
        assert(r[0] == d[0]);
        assert(rogne_debut(r) == r);
        assert(rogne_fin(r) == r);
    } else {
        assert(rogne_debut(r) == r);
    }
}

/// Deux chaînes portent-elles les mêmes caractères ?
pub fn egales(a: &str, b: &str) -> (r: bool)
    ensures
        r == (a@ == b@),
{
    let n = a.unicode_len();
    if n != b.unicode_len() {
        return false;
    }
    let mut i: usize = 0;
    while i < n
        invariant
            n == a@.len(),
            n == b@.len(),
            i <= n,
            forall|j: int| 0 <= j < i ==> a@[j] == b@[j],
        decreases n - i,
    {
        if a.get_char(i) != b.get_char(i) {
            return false;
        }
        i = i + 1;
    }
    assert(a@ =~= b@);
    true
}

/// `str::trim`, écrit sur `char::is_whitespace`.
pub fn rogner(s: &str) -> (r: &str)
    ensures
        r@ == rogne(s@),
{
    let n = s.unicode_len();
    let mut i: usize = 0;
    while i < n && est_blanc(s.get_char(i))
        invariant
            n == s@.len(),
            i <= n,
            forall|k: int| 0 <= k < i ==> blanc(#[trigger] s@[k]),
        decreases n - i,
    {
        i = i + 1;
    }
    let mut j: usize = n;
    while j > i && est_blanc(s.get_char(j - 1))
        invariant
            n == s@.len(),
            i <= j <= n,
            forall|k: int| j <= k < n ==> blanc(#[trigger] s@[k]),
        decreases j,
    {
        j = j - 1;
    }
    proof {
        lemme_rogne_debut_suffixe(s@, i as int);
        let t = s@.subrange(i as int, n as int);
        assert(rogne_debut(t) == t);
        lemme_rogne_fin_prefixe(t, j - i);
        let u = t.subrange(0, j - i);
        assert(u =~= s@.subrange(i as int, j as int));
        if u.len() > 0 {
            assert(u.last() == s@[j - 1]);
        }
        assert(rogne_fin(u) == u);
    }
    s.substring_char(i, j)
}

/// La position de la première occurrence de `c` à partir de `i`.
pub open spec fn position_depuis(s: Seq<char>, c: char, i: int) -> Option<int>
    decreases s.len() - i,
{
    if i < 0 || i >= s.len() {
        None
    } else if s[i] == c {
        Some(i)
    } else {
        position_depuis(s, c, i + 1)
    }
}

/// La position de la première occurrence de `c`.
pub open spec fn position(s: Seq<char>, c: char) -> Option<int> {
    position_depuis(s, c, 0)
}

pub proof fn lemme_position_depuis(s: Seq<char>, c: char, i: int)
    requires
        0 <= i <= s.len(),
    ensures
        match position_depuis(s, c, i) {
            Some(p) => i <= p < s.len() && s[p] == c && forall|k: int| i <= k < p ==> s[k] != c,
            None => forall|k: int| i <= k < s.len() ==> s[k] != c,
        },
    decreases s.len() - i,
{
    if i < s.len() && s[i] != c {
        lemme_position_depuis(s, c, i + 1);
    }
}

/// `str::find` d'un caractère, en position de caractère.
pub fn trouver(s: &str, c: char) -> (r: Option<usize>)
    ensures
        match r {
            Some(p) => position(s@, c) == Some(p as int),
            None => position(s@, c) is None,
        },
{
    let n = s.unicode_len();
    let mut i: usize = 0;
    while i < n
        invariant
            n == s@.len(),
            i <= n,
            position(s@, c) == position_depuis(s@, c, i as int),
        decreases n - i,
    {
        if s.get_char(i) == c {
            return Some(i);
        }
        i = i + 1;
    }
    None
}

/// La chaîne contient-elle ce caractère ?
pub fn contient(s: &str, c: char) -> (r: bool)
    ensures
        r == s@.contains(c),
{
    let n = s.unicode_len();
    let mut i: usize = 0;
    while i < n
        invariant
            n == s@.len(),
            i <= n,
            forall|k: int| 0 <= k < i ==> s@[k] != c,
        decreases n - i,
    {
        if s.get_char(i) == c {
            assert(s@[i as int] == c);
            return true;
        }
        i = i + 1;
    }
    false
}

/// Ce que `str::to_uppercase` rend pour une chaîne.
pub uninterp spec fn en_majuscules(s: Seq<char>) -> Seq<char>;

/// `str::to_uppercase`. Le contrat ne dit que ceci : le résultat est
/// `en_majuscules` de la chaîne, une fonction de la seule chaîne ; la table
/// des correspondances d'Unicode n'est pas redite ici.
#[verifier::external_body]
pub(crate) fn majuscules(s: &str) -> (r: String)
    ensures
        r@ == en_majuscules(s@),
{
    s.to_uppercase()
}

/// Ce que `str::to_lowercase` rend pour une chaîne.
pub uninterp spec fn en_minuscules(s: Seq<char>) -> Seq<char>;

/// `str::to_lowercase`. Le contrat ne dit que ceci : le résultat est
/// `en_minuscules` de la chaîne, une fonction de la seule chaîne.
#[verifier::external_body]
pub(crate) fn minuscules(s: &str) -> (r: String)
    ensures
        r@ == en_minuscules(s@),
{
    s.to_lowercase()
}

/// Un caractère, lettre ASCII ramenée en minuscule.
pub open spec fn minuscule_ascii(c: char) -> char {
    if 'A' <= c <= 'Z' {
        ((c as u32) + 32) as char
    } else {
        c
    }
}

/// `str::eq_ignore_ascii_case` : même longueur, et les caractères égaux une
/// fois les lettres ASCII ramenées en minuscules.
pub open spec fn egales_sans_casse_ascii(a: Seq<char>, b: Seq<char>) -> bool {
    a.len() == b.len() && forall|k: int|
        0 <= k < a.len() ==> minuscule_ascii(#[trigger] a[k]) == minuscule_ascii(b[k])
}

fn minuscule_ascii_exec(c: char) -> (r: char)
    ensures
        r == minuscule_ascii(c),
{
    if 'A' <= c && c <= 'Z' {
        let n = (c as u32) + 32;
        assert(0x61 <= n <= 0x7a);
        char_depuis_ascii(n as u8)
    } else {
        c
    }
}

fn char_depuis_ascii(b: u8) -> (r: char)
    requires
        b < 128,
    ensures
        r == (b as u32) as char,
{
    b as char
}

/// `str::eq_ignore_ascii_case`.
pub fn egales_sans_casse(a: &str, b: &str) -> (r: bool)
    ensures
        r == egales_sans_casse_ascii(a@, b@),
{
    let n = a.unicode_len();
    if n != b.unicode_len() {
        return false;
    }
    let mut i: usize = 0;
    while i < n
        invariant
            n == a@.len(),
            n == b@.len(),
            i <= n,
            forall|k: int| 0 <= k < i ==> minuscule_ascii(#[trigger] a@[k]) == minuscule_ascii(b@[k]),
        decreases n - i,
    {
        if minuscule_ascii_exec(a.get_char(i)) != minuscule_ascii_exec(b.get_char(i)) {
            return false;
        }
        i = i + 1;
    }
    true
}

/// Le chiffre décimal d'un entier de 0 à 9.
pub open spec fn chiffre(d: nat) -> char {
    (('0' as u32) + d) as char
}

/// L'écriture décimale d'un entier naturel, sans zéro de tête.
pub open spec fn ecriture_decimale(n: nat) -> Seq<char>
    decreases n,
{
    if n < 10 {
        seq![chiffre(n)]
    } else {
        ecriture_decimale(n / 10) + seq![chiffre(n % 10)]
    }
}

fn chiffre_exec(d: u64) -> (r: &'static str)
    requires
        d < 10,
    ensures
        r@ == seq![chiffre(d as nat)],
{
    proof {
        reveal_strlit("0");
        reveal_strlit("1");
        reveal_strlit("2");
        reveal_strlit("3");
        reveal_strlit("4");
        reveal_strlit("5");
        reveal_strlit("6");
        reveal_strlit("7");
        reveal_strlit("8");
        reveal_strlit("9");
    }
    let r = if d == 0 {
        "0"
    } else if d == 1 {
        "1"
    } else if d == 2 {
        "2"
    } else if d == 3 {
        "3"
    } else if d == 4 {
        "4"
    } else if d == 5 {
        "5"
    } else if d == 6 {
        "6"
    } else if d == 7 {
        "7"
    } else if d == 8 {
        "8"
    } else {
        "9"
    };
    assert(r@ =~= seq![chiffre(d as nat)]);
    r
}

/// L'écriture décimale d'un entier — ce que `Display` rend pour un `u64`.
pub fn decimal(n: u64) -> (r: String)
    ensures
        r@ == ecriture_decimale(n as nat),
    decreases n,
{
    if n < 10 {
        let mut r = String::new();
        r.append(chiffre_exec(n));
        assert(r@ =~= ecriture_decimale(n as nat));
        r
    } else {
        let mut r = decimal(n / 10);
        r.append(chiffre_exec(n % 10));
        assert(r@ =~= ecriture_decimale(n as nat));
        r
    }
}

/// L'écriture décimale d'un entier relatif : un signe moins devant la valeur
/// absolue quand il est négatif.
pub open spec fn ecriture_signee(n: int) -> Seq<char> {
    if n < 0 {
        seq!['-'] + ecriture_decimale((-n) as nat)
    } else {
        ecriture_decimale(n as nat)
    }
}

/// L'écriture décimale d'un entier signé — ce que `Display` rend pour un `i64`.
pub fn decimal_signe(n: i64) -> (r: String)
    ensures
        r@ == ecriture_signee(n as int),
{
    if n < 0 {
        let absolu: u64 = if n == i64::MIN { 9_223_372_036_854_775_808u64 } else { (-n) as u64 };
        let mut r = String::new();
        proof { reveal_strlit("-"); }
        r.append("-");
        let chiffres = decimal(absolu);
        r.append(chiffres.as_str());
        assert(r@ =~= ecriture_signee(n as int));
        r
    } else {
        decimal(n as u64)
    }
}

/// La taille d'un caractère encodé en UTF-8.
pub open spec fn largeur_utf8(c: char) -> nat {
    if (c as u32) < 0x80 {
        1
    } else if (c as u32) < 0x800 {
        2
    } else if (c as u32) < 0x10000 {
        3
    } else {
        4
    }
}

/// La taille d'une chaîne encodée en UTF-8 — ce que `str::len` compte.
pub open spec fn octets(s: Seq<char>) -> nat
    decreases s.len(),
{
    if s.len() == 0 {
        0
    } else {
        largeur_utf8(s[0]) + octets(s.drop_first())
    }
}

pub proof fn lemme_octets_prefixe(s: Seq<char>, i: int)
    requires
        0 <= i < s.len(),
    ensures
        octets(s.subrange(0, i + 1)) == octets(s.subrange(0, i)) + largeur_utf8(s[i]),
        octets(s.subrange(0, i)) <= 4 * i,
    decreases i,
{
    if i > 0 {
        lemme_octets_prefixe(s.drop_first(), i - 1);
        assert(s.subrange(0, i + 1).drop_first() =~= s.drop_first().subrange(0, i));
        assert(s.subrange(0, i).drop_first() =~= s.drop_first().subrange(0, i - 1));
    } else {
        assert(s.subrange(0, 1).drop_first() =~= Seq::<char>::empty());
        assert(s.subrange(0, 0) =~= Seq::<char>::empty());
    }
}

/// La taille d'une concaténation est la somme des tailles.
pub proof fn lemme_octets_concat(a: Seq<char>, b: Seq<char>)
    ensures
        octets(a + b) == octets(a) + octets(b),
    decreases a.len(),
{
    if a.len() > 0 {
        lemme_octets_concat(a.drop_first(), b);
        assert((a + b).drop_first() =~= a.drop_first() + b);
    } else {
        assert(a + b =~= b);
    }
}

/// Un préfixe n'est jamais plus grand que la chaîne.
pub proof fn lemme_octets_prefixe_borne(s: Seq<char>, i: int)
    requires
        0 <= i <= s.len(),
    ensures
        octets(s.subrange(0, i)) <= octets(s),
{
    lemme_octets_concat(s.subrange(0, i), s.subrange(i, s.len() as int));
    assert(s.subrange(0, i) + s.subrange(i, s.len() as int) =~= s);
}

/// La largeur d'un caractère en UTF-8, calculée.
pub fn largeur(c: char) -> (r: u128)
    ensures
        r == largeur_utf8(c),
{
    let v = c as u32;
    if v < 0x80 {
        1
    } else if v < 0x800 {
        2
    } else if v < 0x10000 {
        3
    } else {
        4
    }
}

/// La taille en octets d'une chaîne, telle que `str::len` la rend.
pub fn longueur_en_octets(s: &str) -> (r: u128)
    ensures
        r == octets(s@),
{
    let n = s.unicode_len();
    let mut i: usize = 0;
    let mut total: u128 = 0;
    while i < n
        invariant
            n == s@.len(),
            i <= n,
            total == octets(s@.subrange(0, i as int)),
            total <= 4 * i,
        decreases n - i,
    {
        proof {
            lemme_octets_prefixe(s@, i as int);
        }
        let c = s.get_char(i) as u32;
        let w: u128 = if c < 0x80 {
            1
        } else if c < 0x800 {
            2
        } else if c < 0x10000 {
            3
        } else {
            4
        };
        total = total + w;
        i = i + 1;
    }
    assert(s@.subrange(0, n as int) =~= s@);
    total
}

} // verus!

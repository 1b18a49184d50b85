//! Les thématiques d'un dossier : la liste reçue est dédoublonnée sans être
//! triée — son rang porte l'ordre d'affichage des pastilles —, et un code
//! que la base n'a pas honoré est nommé dans le refus.

use vstd::prelude::*;
use crate::erreurs::{ApiError, ErrorCode, ErreurVue, refus_nomme};
use crate::texte::egales;
use super::formulaires::vues_de;

verus! {

/// La liste sans ses répétitions : chaque code à sa première place.
pub open spec fn sans_doublons(s: Seq<Seq<char>>) -> Seq<Seq<char>>
    decreases s.len(),
{
    if s.len() == 0 {
        Seq::empty()
    } else {
        let avant = sans_doublons(s.drop_last());
        if avant.contains(s.last()) { avant } else { avant.push(s.last()) }
    }
}

fn contient_deja(r: &[String], code: &String) -> (b: bool)
    ensures
        b == vues_de(r@).contains(code@),
{
    let n = r.len();
    let mut i: usize = 0;
    while i < n
        invariant
            n == r@.len(),
            i <= n,
            forall|k: int| 0 <= k < i ==> (#[trigger] r@[k])@ != code@,
        decreases n - i,
    {
        if egales(r[i].as_str(), code.as_str()) {
            assert(vues_de(r@)[i as int] == code@);
            return true;
        }
        i = i + 1;
    }
    proof {
        if vues_de(r@).contains(code@) {
            let k = choose|k: int| 0 <= k < vues_de(r@).len() && vues_de(r@)[k] == code@;
            assert(r@[k]@ == code@);
        }
    }
    false
}

/// Dédoublonner avant l'insertion, sans trier.
pub fn dedoublonner(codes: &[String]) -> (r: Vec<String>)
    ensures
        vues_de(r@) == sans_doublons(vues_de(codes@)),
{
    let n = codes.len();
    let mut r: Vec<String> = Vec::new();
    let mut i: usize = 0;
    while i < n
        invariant
            n == codes@.len(),
            i <= n,
            vues_de(r@) == sans_doublons(vues_de(codes@.subrange(0, i as int))),
        decreases n - i,
    {
        let ghost avant = vues_de(codes@.subrange(0, i as int));
        proof {
            assert(vues_de(codes@.subrange(0, i + 1)).drop_last() =~= avant);
            assert(vues_de(codes@.subrange(0, i + 1)).last() == codes@[i as int]@);
        }
        if !contient_deja(r.as_slice(), &codes[i]) {
            r.push(codes[i].clone());
            assert(vues_de(r@) =~= sans_doublons(avant).push(codes@[i as int]@));
        }
        i = i + 1;
    }
    assert(codes@.subrange(0, n as int) =~= codes@);
    r
}

/// Dédoublonner ne laisse aucun code deux fois, et garde chaque code reçu.
pub proof fn le_dedoublonnage_garde_chaque_code_une_fois(s: Seq<Seq<char>>)
    ensures
        forall|i: int, j: int|
            0 <= i < j < sans_doublons(s).len() ==> sans_doublons(s)[i] != sans_doublons(s)[j],
        forall|x: Seq<char>| s.contains(x) <==> sans_doublons(s).contains(x),
    decreases s.len(),
{
    if s.len() > 0 {
        le_dedoublonnage_garde_chaque_code_une_fois(s.drop_last());
        let avant = sans_doublons(s.drop_last());
        assert forall|x: Seq<char>| s.contains(x) <==> sans_doublons(s).contains(x) by {
            if s.contains(x) {
                let k = choose|k: int| 0 <= k < s.len() && s[k] == x;
                if k < s.len() - 1 {
                    assert(s.drop_last()[k] == x);
                }
            }
            if s.drop_last().contains(x) {
                let k = choose|k: int| 0 <= k < s.drop_last().len() && s.drop_last()[k] == x;
                assert(s[k] == x);
            }
            if !avant.contains(s.last()) {
                if sans_doublons(s).contains(x) && x != s.last() {
                    let k = choose|k: int| 0 <= k < sans_doublons(s).len() && sans_doublons(s)[k] == x;
                    assert(avant[k] == x);
                }
                if avant.contains(x) {
                    let k = choose|k: int| 0 <= k < avant.len() && avant[k] == x;
                    assert(sans_doublons(s)[k] == x);
                }
                assert(sans_doublons(s)[avant.len() as int] == s.last());
            }
        }
    }
}

/// Le premier code de la liste que la base ne connaît pas.
pub open spec fn premier_inconnu(codes: Seq<Seq<char>>, connus: Seq<Seq<char>>) -> Option<int>
    decreases codes.len(),
{
    if codes.len() == 0 {
        None
    } else {
        match premier_inconnu(codes.drop_last(), connus) {
            Some(k) => Some(k),
            None => if connus.contains(codes.last()) { None } else { Some(codes.len() - 1) },
        }
    }
}

/// Le refus qui nomme le code inconnu, ou le refus générique sur le champ
/// quand tous les codes sont connus.
pub open spec fn refus_de_thematique(codes: Seq<Seq<char>>, connus: Seq<Seq<char>>) -> ErreurVue {
    match premier_inconnu(codes, connus) {
        Some(k) => refus_nomme(
            ErrorCode::ProposalUnknownTerm,
            "La thématique « "@ + codes[k] + " » n'existe pas."@,
            "theme_codes"@,
        ),
        None => ErreurVue {
            code: ErrorCode::ProposalUnknownTerm,
            message: None,
            field: Some("theme_codes"@),
        },
    }
}

/// Nommer le code refusé, une fois lus les codes connus de la taxonomie.
pub fn nommer_le_code_refuse(codes: &[String], connus: &[String]) -> (r: ApiError)
    ensures
        r@ == refus_de_thematique(vues_de(codes@), vues_de(connus@)),
{
    let n = codes.len();
    let mut i: usize = 0;
    let ghost vc = vues_de(connus@);
    while i < n
        invariant
            n == codes@.len(),
            i <= n,
            vc == vues_de(connus@),
            premier_inconnu(vues_de(codes@.subrange(0, i as int)), vc) is None,
        decreases n - i,
    {
        let ghost avant = vues_de(codes@.subrange(0, i as int));
        proof {
            assert(vues_de(codes@.subrange(0, i + 1)).drop_last() =~= avant);
            assert(vues_de(codes@.subrange(0, i + 1)).last() == codes@[i as int]@);
        }
        let connu = contient_deja(connus, &codes[i]);
        if !connu {
            proof {
                assert(vues_de(codes@.subrange(0, i + 1)) =~= vues_de(codes@).subrange(0, i + 1));
                assert(premier_inconnu(vues_de(codes@.subrange(0, i + 1)), vc) == Some(i as int));
                lemme_premier_inconnu_prefixe(vues_de(codes@), vc, i + 1);
            }
            let mut message = "La thématique « ".to_string();
            message.append(codes[i].as_str());
            message.append(" » n'existe pas.");
            return ApiError::with_message(ErrorCode::ProposalUnknownTerm, message).field("theme_codes");
        }
        i = i + 1;
    }
    proof {
        assert(codes@.subrange(0, n as int) =~= codes@);
    }
    ApiError::new(ErrorCode::ProposalUnknownTerm).field("theme_codes")
}

proof fn lemme_premier_inconnu_prefixe(codes: Seq<Seq<char>>, connus: Seq<Seq<char>>, i: int)
    requires
        0 <= i <= codes.len(),
        premier_inconnu(codes.subrange(0, i), connus) is Some,
    ensures
        premier_inconnu(codes, connus) == premier_inconnu(codes.subrange(0, i), connus),
    decreases codes.len() - i,
{
    if i < codes.len() {
        assert(codes.subrange(0, i + 1).drop_last() =~= codes.subrange(0, i));
        lemme_premier_inconnu_prefixe(codes, connus, i + 1);
    } else {
        assert(codes.subrange(0, i) =~= codes);
    }
}

} // verus!

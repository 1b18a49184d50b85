//! Les tris et sélections faits sur ce que la base a rendu.

use vstd::prelude::*;
use crate::texte::egales;

verus! {

/// Les organisations réellement ajoutées : celles dont la ligne est neuve,
/// dans l'ordre rendu.
pub open spec fn neuves(lignes: Seq<(u128, bool)>) -> Seq<u128>
    decreases lignes.len(),
{
    if lignes.len() == 0 {
        Seq::empty()
    } else {
        let avant = neuves(lignes.drop_last());
        if lignes.last().1 { avant.push(lignes.last().0) } else { avant }
    }
}

/// Les organisations ajoutées par un remplacement : une ligne insérée, et
/// non mise à jour, est une organisation nouvellement associée.
pub fn organisations_ajoutees(lignes: &[(u128, bool)]) -> (r: Vec<u128>)
    ensures
        r@ == neuves(lignes@),
{
    let n = lignes.len();
    let mut r: Vec<u128> = Vec::new();
    let mut i: usize = 0;
    while i < n
        invariant
            n == lignes@.len(),
            i <= n,
            r@ == neuves(lignes@.subrange(0, i as int)),
        decreases n - i,
    {
        assert(lignes@.subrange(0, i + 1).drop_last() =~= lignes@.subrange(0, i as int));
        if lignes[i].1 {
            r.push(lignes[i].0);
        }
        i = i + 1;
    }
    assert(lignes@.subrange(0, n as int) =~= lignes@);
    r
}

/// Le rang de la première séance portant cette adresse.
pub open spec fn rang_d_adresse(adresses: Seq<String>, adresse: Seq<char>, i: int) -> Option<int>
    decreases adresses.len() - i,
{
    if i < 0 || i >= adresses.len() {
        None
    } else if adresses[i]@ == adresse {
        Some(i)
    } else {
        rang_d_adresse(adresses, adresse, i + 1)
    }
}

/// La séance publiée désignée par son adresse, parmi la programmation de
/// son édition : la première qui la porte.
pub fn seance_par_adresse(adresses: &[String], adresse: &str) -> (r: Option<usize>)
    ensures
        match r {
            Some(k) => rang_d_adresse(adresses@, adresse@, 0) == Some(k as int),
            None => rang_d_adresse(adresses@, adresse@, 0) is None,
        },
{
    let n = adresses.len();
    let mut i: usize = 0;
    while i < n
        invariant
            n == adresses@.len(),
            i <= n,
            rang_d_adresse(adresses@, adresse@, 0) == rang_d_adresse(adresses@, adresse@, i as int),
        decreases n - i,
    {
        if egales(adresses[i].as_str(), adresse) {
            return Some(i);
        }
        i = i + 1;
    }
    None
}

} // verus!

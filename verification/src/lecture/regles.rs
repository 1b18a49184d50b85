//! Les règles de transition et les transitions offertes, telles que la base
//! les rend : un état que le module ne connaît pas écarte la ligne.

use vstd::prelude::*;
use crate::domain::transitions::{
    AvailableTransition, ProposalStatus, ProposalTransitionRule, etat_nomme,
};

verus! {

/// Une ligne de `programme.proposal_transitions_allowed`, états en texte.
#[derive(Debug)]
pub struct LigneDeRegle {
    pub depuis: String,
    pub vers: String,
    pub required_permission: Option<String>,
    pub allowed_for_owner: bool,
    pub requires_reason: bool,
}

/// Une transition offerte, état visé en texte.
#[derive(Debug)]
pub struct LigneOfferte {
    pub vers: String,
    pub requires_reason: bool,
}

/// Les lignes de règle dont les deux états sont connus, dans l'ordre lu.
pub open spec fn regles_connues(lignes: Seq<LigneDeRegle>) -> Seq<LigneDeRegle>
    decreases lignes.len(),
{
    if lignes.len() == 0 {
        Seq::empty()
    } else {
        let avant = regles_connues(lignes.drop_last());
        let l = lignes.last();
        if etat_nomme(l.depuis@) is Some && etat_nomme(l.vers@) is Some {
            avant.push(l)
        } else {
            avant
        }
    }
}

/// La règle rendue pour une ligne lue dont les deux états sont connus.
pub open spec fn regle_de(r: ProposalTransitionRule, l: LigneDeRegle) -> bool {
    &&& Some(r.from_status) == etat_nomme(l.depuis@)
    &&& Some(r.to_status) == etat_nomme(l.vers@)
    &&& r.required_permission == l.required_permission
    &&& r.allowed_for_owner == l.allowed_for_owner
    &&& r.requires_reason == l.requires_reason
}

/// Les règles brutes, telles que la route globale les rend.
pub fn regles_lues(lignes: Vec<LigneDeRegle>) -> (r: Vec<ProposalTransitionRule>)
    ensures
        r@.len() == regles_connues(lignes@).len(),
        forall|k: int| 0 <= k < r@.len() ==> regle_de(#[trigger] r@[k], regles_connues(lignes@)[k]),
{
    let ghost tout = lignes@;
    let n = lignes.len();
    let mut restantes = lignes;
    let mut r: Vec<ProposalTransitionRule> = Vec::new();
    let mut i: usize = 0;
    assert(tout.subrange(0, 0) =~= Seq::<LigneDeRegle>::empty());
    while restantes.len() > 0
        invariant
            n == tout.len(),
            i <= n,
            restantes@ == tout.skip(i as int),
            r@.len() == regles_connues(tout.subrange(0, i as int)).len(),
            forall|k: int| 0 <= k < r@.len() ==> regle_de(#[trigger] r@[k], regles_connues(tout.subrange(0, i as int))[k]),
        decreases restantes@.len(),
    {
        let l = restantes.remove(0);
        assert(l == tout[i as int]);
        assert(tout.skip(i as int).remove(0) =~= tout.skip(i + 1));
        assert(tout.subrange(0, i + 1).drop_last() =~= tout.subrange(0, i as int));
        let depuis = ProposalStatus::from_db(l.depuis.as_str());
        let vers = ProposalStatus::from_db(l.vers.as_str());
        match (depuis, vers) {
            (Some(d), Some(v)) => {
                r.push(ProposalTransitionRule {
                    from_status: d,
                    to_status: v,
                    required_permission: l.required_permission,
                    allowed_for_owner: l.allowed_for_owner,
                    requires_reason: l.requires_reason,
                });
            },
            _ => {},
        }
        i = i + 1;
    }
    assert(tout.subrange(0, n as int) =~= tout);
    r
}

/// Les transitions offertes dont l'état visé est connu, dans l'ordre lu.
pub open spec fn offertes_connues(lignes: Seq<LigneOfferte>) -> Seq<LigneOfferte>
    decreases lignes.len(),
{
    if lignes.len() == 0 {
        Seq::empty()
    } else {
        let avant = offertes_connues(lignes.drop_last());
        if etat_nomme(lignes.last().vers@) is Some { avant.push(lignes.last()) } else { avant }
    }
}

/// Les transitions offertes à ce lecteur, telles que la requête les a
/// composées.
pub fn offertes_lues(lignes: &[LigneOfferte]) -> (r: Vec<AvailableTransition>)
    ensures
        r@.len() == offertes_connues(lignes@).len(),
        forall|k: int| 0 <= k < r@.len() ==> {
            &&& Some((#[trigger] r@[k]).to_status) == etat_nomme(offertes_connues(lignes@)[k].vers@)
            &&& r@[k].requires_reason == offertes_connues(lignes@)[k].requires_reason
        },
{
    let n = lignes.len();
    let mut r: Vec<AvailableTransition> = Vec::new();
    let mut i: usize = 0;
    while i < n
        invariant
            n == lignes@.len(),
            i <= n,
            r@.len() == offertes_connues(lignes@.subrange(0, i as int)).len(),
            forall|k: int| 0 <= k < r@.len() ==> {
                &&& Some((#[trigger] r@[k]).to_status) == etat_nomme(offertes_connues(lignes@.subrange(0, i as int))[k].vers@)
                &&& r@[k].requires_reason == offertes_connues(lignes@.subrange(0, i as int))[k].requires_reason
            },
        decreases n - i,
    {
        assert(lignes@.subrange(0, i + 1).drop_last() =~= lignes@.subrange(0, i as int));
        match ProposalStatus::from_db(lignes[i].vers.as_str()) {
            Some(v) => {
                r.push(AvailableTransition { to_status: v, requires_reason: lignes[i].requires_reason });
            },
            None => {},
        }
        i = i + 1;
    }
    assert(lignes@.subrange(0, n as int) =~= lignes@);
    r
}

} // verus!

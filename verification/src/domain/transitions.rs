//! Ce que le service fait des règles **lues** — jamais le graphe.
//!
//! Le graphe des transitions est une donnée de la base : ce fichier ne porte
//! que la façon dont une règle lue devient une action offerte, et ce que le
//! service attend au retour.

use vstd::prelude::*;
use crate::texte::{egales, rogne, rogner};

verus! {

/// Les huit états, tels que `programme.proposal_status` les nomme.
#[derive(Debug, Clone, Copy, PartialEq, Eq, Structural)]
pub enum ProposalStatus {
    Draft,
    Submitted,
    UnderReview,
    ChangesRequested,
    Accepted,
    Rejected,
    Withdrawn,
    Cancelled,
}

/// Le nom qu'un état porte en base.
pub open spec fn nom_d_etat(s: ProposalStatus) -> Seq<char> {
    match s {
        ProposalStatus::Draft => "draft"@,
        ProposalStatus::Submitted => "submitted"@,
        ProposalStatus::UnderReview => "under_review"@,
        ProposalStatus::ChangesRequested => "changes_requested"@,
        ProposalStatus::Accepted => "accepted"@,
        ProposalStatus::Rejected => "rejected"@,
        ProposalStatus::Withdrawn => "withdrawn"@,
        ProposalStatus::Cancelled => "cancelled"@,
    }
}

/// L'état qu'un nom désigne, s'il en désigne un.
pub open spec fn etat_nomme(v: Seq<char>) -> Option<ProposalStatus> {
    if v == "draft"@ {
        Some(ProposalStatus::Draft)
    } else if v == "submitted"@ {
        Some(ProposalStatus::Submitted)
    } else if v == "under_review"@ {
        Some(ProposalStatus::UnderReview)
    } else if v == "changes_requested"@ {
        Some(ProposalStatus::ChangesRequested)
    } else if v == "accepted"@ {
        Some(ProposalStatus::Accepted)
    } else if v == "rejected"@ {
        Some(ProposalStatus::Rejected)
    } else if v == "withdrawn"@ {
        Some(ProposalStatus::Withdrawn)
    } else if v == "cancelled"@ {
        Some(ProposalStatus::Cancelled)
    } else {
        None
    }
}

/// Lire en base le nom d'un état rend cet état : les huit noms sont
/// distincts, et `from_db` relit ce que `as_str` écrit.
pub proof fn aller_retour_d_etat(s: ProposalStatus)
    ensures
        etat_nomme(nom_d_etat(s)) == Some(s),
{
    reveal_strlit("draft");
    reveal_strlit("submitted");
    reveal_strlit("under_review");
    reveal_strlit("changes_requested");
    reveal_strlit("accepted");
    reveal_strlit("rejected");
    reveal_strlit("withdrawn");
    reveal_strlit("cancelled");
    assert("draft"@.len() == 5);
    assert("submitted"@.len() == 9 && "submitted"@[0] == 's');
    assert("under_review"@.len() == 12);
    assert("changes_requested"@.len() == 17);
    assert("accepted"@.len() == 8 && "accepted"@[0] == 'a');
    assert("rejected"@.len() == 8 && "rejected"@[0] == 'r');
    assert("withdrawn"@.len() == 9 && "withdrawn"@[0] == 'w');
    assert("cancelled"@.len() == 9 && "cancelled"@[0] == 'c');
    match s {
        ProposalStatus::Draft => {},
        ProposalStatus::Submitted => {},
        ProposalStatus::UnderReview => {},
        ProposalStatus::ChangesRequested => {},
        ProposalStatus::Accepted => {},
        ProposalStatus::Rejected => {},
        ProposalStatus::Withdrawn => {},
        ProposalStatus::Cancelled => {},
    }
}

/// Un nom que `from_db` reconnaît est celui que `as_str` donne à l'état lu.
pub proof fn nom_d_un_etat_lu(v: Seq<char>)
    ensures
        etat_nomme(v) matches Some(s) ==> nom_d_etat(s) == v,
{
}

/// Ce que `est_modifiable` tranche : tout état hors des trois états clos.
pub open spec fn modifiable(s: ProposalStatus) -> bool {
    !(s is Rejected || s is Withdrawn || s is Cancelled)
}

impl ProposalStatus {
    pub fn as_str(self) -> (r: &'static str)
        ensures
            r@ == nom_d_etat(self),
    {
        match self {
            ProposalStatus::Draft => "draft",
            ProposalStatus::Submitted => "submitted",
            ProposalStatus::UnderReview => "under_review",
            ProposalStatus::ChangesRequested => "changes_requested",
            ProposalStatus::Accepted => "accepted",
            ProposalStatus::Rejected => "rejected",
            ProposalStatus::Withdrawn => "withdrawn",
            ProposalStatus::Cancelled => "cancelled",
        }
    }

    pub fn from_db(valeur: &str) -> (r: Option<ProposalStatus>)
        ensures
            r == etat_nomme(valeur@),
    {
        if egales(valeur, "draft") {
            Some(ProposalStatus::Draft)
        } else if egales(valeur, "submitted") {
            Some(ProposalStatus::Submitted)
        } else if egales(valeur, "under_review") {
            Some(ProposalStatus::UnderReview)
        } else if egales(valeur, "changes_requested") {
            Some(ProposalStatus::ChangesRequested)
        } else if egales(valeur, "accepted") {
            Some(ProposalStatus::Accepted)
        } else if egales(valeur, "rejected") {
            Some(ProposalStatus::Rejected)
        } else if egales(valeur, "withdrawn") {
            Some(ProposalStatus::Withdrawn)
        } else if egales(valeur, "cancelled") {
            Some(ProposalStatus::Cancelled)
        } else {
            None
        }
    }

    /// Un dossier encore modifiable par son organisation : tout sauf rejeté,
    /// retiré ou annulé. Un dossier retenu reste modifiable.
    pub fn est_modifiable(self) -> (r: bool)
        ensures
            r == modifiable(self),
    {
        !matches!(self, ProposalStatus::Rejected | ProposalStatus::Withdrawn | ProposalStatus::Cancelled)
    }
}

/// Une transition offerte à ce lecteur, telle que la requête l'a composée.
#[derive(Debug, Clone, Copy)]
pub struct AvailableTransition {
    pub to_status: ProposalStatus,
    pub requires_reason: bool,
}

/// La règle brute, telle que la route globale la rend.
#[derive(Debug, Clone)]
pub struct ProposalTransitionRule {
    pub from_status: ProposalStatus,
    pub to_status: ProposalStatus,
    pub required_permission: Option<String>,
    pub allowed_for_owner: bool,
    pub requires_reason: bool,
}

/// La première transition offerte vers `vise` à partir du rang `i`, s'il y en a.
pub open spec fn premiere_vers(offertes: Seq<AvailableTransition>, vise: ProposalStatus, i: int) -> Option<int>
    decreases offertes.len() - i,
{
    if i < 0 || i >= offertes.len() {
        None
    } else if offertes[i].to_status == vise {
        Some(i)
    } else {
        premiere_vers(offertes, vise, i + 1)
    }
}

/// Ce que `motif_exige` rend : le besoin de motif de la première transition
/// offerte vers l'état visé, ou rien si aucune n'y mène.
pub open spec fn motif_exige_selon(offertes: Seq<AvailableTransition>, vise: ProposalStatus) -> Option<bool> {
    match premiere_vers(offertes, vise, 0) {
        Some(k) => Some(offertes[k].requires_reason),
        None => None,
    }
}

proof fn lemme_premiere_vers(offertes: Seq<AvailableTransition>, vise: ProposalStatus, i: int)
    requires
        0 <= i <= offertes.len(),
    ensures
        premiere_vers(offertes, vise, i) matches Some(k) ==> i <= k < offertes.len()
            && offertes[k].to_status == vise
            && forall|j: int| i <= j < k ==> offertes[j].to_status != vise,
        premiere_vers(offertes, vise, i) is None ==> forall|j: int|
            i <= j < offertes.len() ==> offertes[j].to_status != vise,
    decreases offertes.len() - i,
{
    if i < offertes.len() {
        lemme_premiere_vers(offertes, vise, i + 1);
    }
}

/// La transition visée exige-t-elle un motif, d'après ce que la base a rendu ?
/// `None` : la transition n'est pas offerte.
pub fn motif_exige(offertes: &[AvailableTransition], vise: ProposalStatus) -> (r: Option<bool>)
    ensures
        r == motif_exige_selon(offertes@, vise),
{
    let n = offertes.len();
    let mut i: usize = 0;
    while i < n
        invariant
            n == offertes@.len(),
            i <= n,
            premiere_vers(offertes@, vise, 0) == premiere_vers(offertes@, vise, i as int),
        decreases n - i,
    {
        if offertes[i].to_status == vise {
            return Some(offertes[i].requires_reason);
        }
        i = i + 1;
    }
    None
}

/// Un motif est fourni quand il reste quelque chose une fois les blancs ôtés
/// aux deux bouts.
pub open spec fn motif_utilisable(motif: Option<Seq<char>>) -> bool {
    match motif {
        Some(m) => rogne(m).len() > 0,
        None => false,
    }
}

/// Le motif reçu est-il utilisable ? Un motif d'espaces n'en est pas un.
pub fn motif_fourni(motif: Option<&str>) -> (r: bool)
    ensures
        r == motif_utilisable(match motif { Some(m) => Some(m@), None => None }),
{
    match motif {
        Some(m) => rogner(m).unicode_len() > 0,
        None => false,
    }
}

} // verus!

//! Les états qu'une séance peut prendre.
//!
//! `planned` et `scheduled` ne sont pas synonymes : le premier est un créneau
//! pressenti, non public ; le second est programmé et publié.

use vstd::prelude::*;
use crate::texte::egales;

verus! {

/// Les six états, tels que `programme.session_status` les nomme.
#[derive(Debug, Clone, Copy, PartialEq, Eq, Structural)]
pub enum SessionStatus {
    Planned,
    Scheduled,
    Live,
    Completed,
    Postponed,
    Cancelled,
}

/// Le nom qu'un état de séance porte en base.
pub open spec fn nom_de_seance(s: SessionStatus) -> Seq<char> {
    match s {
        SessionStatus::Planned => "planned"@,
        SessionStatus::Scheduled => "scheduled"@,
        SessionStatus::Live => "live"@,
        SessionStatus::Completed => "completed"@,
        SessionStatus::Postponed => "postponed"@,
        SessionStatus::Cancelled => "cancelled"@,
    }
}

/// L'état de séance qu'un nom désigne, s'il en désigne un.
pub open spec fn seance_nommee(v: Seq<char>) -> Option<SessionStatus> {
    if v == "planned"@ {
        Some(SessionStatus::Planned)
    } else if v == "scheduled"@ {
        Some(SessionStatus::Scheduled)
    } else if v == "live"@ {
        Some(SessionStatus::Live)
    } else if v == "completed"@ {
        Some(SessionStatus::Completed)
    } else if v == "postponed"@ {
        Some(SessionStatus::Postponed)
    } else if v == "cancelled"@ {
        Some(SessionStatus::Cancelled)
    } else {
        None
    }
}

/// Relire en base le nom d'un état de séance rend cet état.
pub proof fn aller_retour_de_seance(s: SessionStatus)
    ensures
        seance_nommee(nom_de_seance(s)) == Some(s),
{
    reveal_strlit("planned");
    reveal_strlit("scheduled");
    reveal_strlit("live");
    reveal_strlit("completed");
    reveal_strlit("postponed");
    reveal_strlit("cancelled");
    assert("planned"@.len() == 7);
    assert("scheduled"@.len() == 9 && "scheduled"@[0] == 's');
    assert("live"@.len() == 4);
    assert("completed"@.len() == 9 && "completed"@[0] == 'c' && "completed"@[1] == 'o');
    assert("postponed"@.len() == 9 && "postponed"@[0] == 'p');
    assert("cancelled"@.len() == 9 && "cancelled"@[0] == 'c' && "cancelled"@[1] == 'a');
    match s {
        SessionStatus::Planned => {},
        SessionStatus::Scheduled => {},
        SessionStatus::Live => {},
        SessionStatus::Completed => {},
        SessionStatus::Postponed => {},
        SessionStatus::Cancelled => {},
    }
}

impl SessionStatus {
    pub fn as_str(self) -> (r: &'static str)
        ensures
            r@ == nom_de_seance(self),
    {
        match self {
            SessionStatus::Planned => "planned",
            SessionStatus::Scheduled => "scheduled",
            SessionStatus::Live => "live",
            SessionStatus::Completed => "completed",
            SessionStatus::Postponed => "postponed",
            SessionStatus::Cancelled => "cancelled",
        }
    }

    pub fn from_db(valeur: &str) -> (r: Option<SessionStatus>)
        ensures
            r == seance_nommee(valeur@),
    {
        if egales(valeur, "planned") {
            Some(SessionStatus::Planned)
        } else if egales(valeur, "scheduled") {
            Some(SessionStatus::Scheduled)
        } else if egales(valeur, "live") {
            Some(SessionStatus::Live)
        } else if egales(valeur, "completed") {
            Some(SessionStatus::Completed)
        } else if egales(valeur, "postponed") {
            Some(SessionStatus::Postponed)
        } else if egales(valeur, "cancelled") {
            Some(SessionStatus::Cancelled)
        } else {
            None
        }
    }
}

} // verus!

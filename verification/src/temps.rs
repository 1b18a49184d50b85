//! Les instants et les heures murales, tels que la logique les lit.
//!
//! Un horodatage porte son heure locale, en nanosecondes depuis l'époque
//! Unix comptées dans son propre décalage, et ce décalage en secondes.
//! L'instant qu'il désigne est l'heure locale moins le décalage ; deux
//! horodatages se comparent par leur instant.

use vstd::prelude::*;

verus! {

/// La plus petite heure locale représentable : le 1er janvier de l'an -9999
/// à minuit, en nanosecondes.
pub open spec fn local_min() -> int {
    -377_705_116_800_000_000_000
}

/// La plus grande : le 31 décembre 9999, une nanoseconde avant minuit.
pub open spec fn local_max() -> int {
    253_402_300_799_999_999_999
}

/// Une heure locale, en nanosecondes, que le calendrier sait porter.
pub open spec fn dans_la_plage(local: int) -> bool {
    local_min() <= local <= local_max()
}

/// Un horodatage avec décalage horaire. Deux horodatages sont égaux quand ils
/// désignent le même instant, quel que soit le décalage où ils s'écrivent ;
/// l'ordre se lit aussi sur l'instant (`est_avant`).
#[derive(Debug, Clone, Copy, Eq)]
pub struct Horodatage {
    /// L'heure locale, en nanosecondes depuis 1970-01-01 00:00 dans ce décalage.
    pub local_nanos: i128,
    /// Le décalage par rapport à UTC, en secondes.
    pub decalage: i32,
}

impl Horodatage {
    /// Un décalage d'au plus 25:59:59 et une heure locale dans le calendrier.
    pub open spec fn valide(self) -> bool {
        &&& -93_599 <= self.decalage <= 93_599
        &&& dans_la_plage(self.local_nanos as int)
    }

    /// L'instant désigné, en nanosecondes UTC depuis l'époque.
    pub open spec fn instant(self) -> int {
        self.local_nanos - self.decalage * 1_000_000_000
    }

    /// L'instant, calculé.
    pub fn instant_nanos(&self) -> (r: i128)
        requires
            self.valide(),
        ensures
            r == self.instant(),
    {
        self.local_nanos - (self.decalage as i128) * 1_000_000_000
    }
}

impl PartialEq for Horodatage {
    fn eq(&self, other: &Self) -> (r: bool) {
        match self.local_nanos.checked_sub(other.local_nanos) {
            Some(ecart) => ecart == (self.decalage as i128 - other.decalage as i128) * 1_000_000_000,
            None => false,
        }
    }
}

impl vstd::std_specs::cmp::PartialEqSpecImpl for Horodatage {
    open spec fn obeys_eq_spec() -> bool {
        true
    }

    open spec fn eq_spec(&self, other: &Self) -> bool {
        self.instant() == other.instant()
    }
}

/// `a` est-il strictement antérieur à `b` ?
pub fn est_avant(a: &Horodatage, b: &Horodatage) -> (r: bool)
    requires
        a.valide(),
        b.valide(),
    ensures
        r == (a.instant() < b.instant()),
{
    a.instant_nanos() < b.instant_nanos()
}

/// Une heure de la journée, à la nanoseconde.
#[derive(Debug, Clone, Copy, PartialEq, Eq, Structural)]
pub struct HeureMurale {
    pub heure: u8,
    pub minute: u8,
    pub seconde: u8,
    pub nanoseconde: u32,
}

impl HeureMurale {
    pub open spec fn valide(self) -> bool {
        self.heure < 24 && self.minute < 60 && self.seconde < 60 && self.nanoseconde < 1_000_000_000
    }
}

/// L'horodatage décalé de `minutes` minutes, calculé par `time` :
/// `OffsetDateTime::checked_add` avec `Duration::minutes`. Le décalage est
/// gardé et l'heure locale avance de la durée ; rien ne sort quand l'heure
/// locale obtenue quitte le calendrier.
#[verifier::external_body]
fn decale_de_minutes(h: Horodatage, minutes: i32) -> (r: Option<Horodatage>)
    requires
        h.valide(),
    ensures
        match r {
            Some(t) => t.local_nanos == h.local_nanos + minutes * 60_000_000_000
                && t.decalage == h.decalage,
            None => !dans_la_plage(h.local_nanos + minutes * 60_000_000_000),
        },
{
    let decalage = time::UtcOffset::from_whole_seconds(h.decalage).ok()?;
    let depart = time::OffsetDateTime::from_unix_timestamp_nanos(h.local_nanos).ok()?.replace_offset(decalage);
    let arrivee = depart.checked_add(time::Duration::minutes(i64::from(minutes)))?;
    Some(Horodatage {
        local_nanos: arrivee.replace_offset(time::UtcOffset::UTC).unix_timestamp_nanos(),
        decalage: arrivee.offset().whole_seconds(),
    })
}

/// L'horodatage avancé de `minutes` minutes, dans le même décalage.
pub fn plus_minutes(h: Horodatage, minutes: i32) -> (r: Horodatage)
    requires
        h.valide(),
        dans_la_plage(h.local_nanos + minutes * 60_000_000_000),
    ensures
        r.local_nanos == h.local_nanos + minutes * 60_000_000_000,
        r.decalage == h.decalage,
        r.valide(),
        r.instant() == h.instant() + minutes * 60_000_000_000,
{
    match decale_de_minutes(h, minutes) {
        Some(t) => t,
        None => h,
    }
}

} // verus!

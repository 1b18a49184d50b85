//! Ce que les routes tirent d'une requête avant de lire la base : la clé
//! d'une recherche, le plafond d'une lecture, une liste d'identifiants.

use vstd::prelude::*;
use crate::domain::draft::{fr, francais};
use crate::domain::transitions::ProposalStatus;
use crate::json::Json;
use crate::texte::{en_minuscules, minuscules, rogne, rogner};

verus! {

/// La recherche d'un intervenant par son adresse.
#[derive(Debug, Clone)]
pub struct AdresseCherchee {
    pub email: String,
}

/// Le début d'adresse d'une autocomplétion.
#[derive(Debug, Clone)]
pub struct DebutDadresse {
    pub q: String,
}

/// Les organisations dont l'écran demande le décompte : une liste séparée
/// par des virgules.
#[derive(Debug, Clone)]
pub struct OrganisationsDemandees {
    pub organization_ids: Option<String>,
}

/// L'édition dont on lit la programmation publique, et le plafond demandé.
#[derive(Debug, Clone, Copy)]
pub struct EditionDemandee {
    pub event_id: Option<u128>,
    pub limit: Option<i64>,
}

/// Une décision sur un dossier : l'état visé et son motif.
#[derive(Debug, Clone)]
pub struct DecisionPayload {
    pub to_status: ProposalStatus,
    pub reason: Option<String>,
}

/// La forme d'un corps d'erreur.
#[derive(Debug, Clone)]
pub struct ApiErrorBody {
    pub code: String,
    pub message: String,
    pub field: Option<String>,
    pub request_id: Option<String>,
}

/// La clé d'une recherche par adresse : rognée puis mise en minuscules ;
/// rien quand elle est vide.
pub open spec fn cle_d_adresse(email: Seq<char>) -> Option<Seq<char>> {
    let cle = en_minuscules(rogne(email));
    if cle.len() == 0 { None } else { Some(cle) }
}

/// L'adresse que la recherche compare, ou rien.
pub fn adresse_cherchee(demande: &AdresseCherchee) -> (r: Option<String>)
    ensures
        match r {
            Some(c) => cle_d_adresse(demande.email@) == Some(c@),
            None => cle_d_adresse(demande.email@) is None,
        },
{
    let cle = minuscules(rogner(demande.email.as_str()));
    if cle.as_str().unicode_len() == 0 {
        None
    } else {
        Some(cle)
    }
}

/// Le préfixe le plus court qu'une autocomplétion accepte, en caractères.
pub const PREFIXE_MINIMAL: usize = 3;

/// Le nombre maximal de suggestions.
pub const SUGGESTIONS_MAX: i64 = 8;

/// Le préfixe d'une autocomplétion : rogné, en minuscules, et d'au moins
/// trois caractères — sinon aucune suggestion n'est cherchée.
pub open spec fn prefixe_de(q: Seq<char>) -> Option<Seq<char>> {
    let p = en_minuscules(rogne(q));
    if p.len() < PREFIXE_MINIMAL { None } else { Some(p) }
}

/// Le préfixe cherché, ou rien quand il est trop court.
pub fn prefixe_suggere(demande: &DebutDadresse) -> (r: Option<String>)
    ensures
        match r {
            Some(p) => prefixe_de(demande.q@) == Some(p@),
            None => prefixe_de(demande.q@) is None,
        },
{
    let p = minuscules(rogner(demande.q.as_str()));
    if p.as_str().unicode_len() < PREFIXE_MINIMAL {
        None
    } else {
        Some(p)
    }
}

/// La biographie affichée d'une fiche : sa résolution française, quand elle
/// n'est pas vide.
pub open spec fn biographie_de(bio: Option<Json>) -> Option<Seq<char>> {
    match bio {
        Some(b) => if francais(b).len() == 0 { None } else { Some(francais(b)) },
        None => None,
    }
}

/// La biographie affichée, ou rien.
pub fn biographie_affichee(bio: &Option<Json>) -> (r: Option<String>)
    ensures
        match r {
            Some(t) => biographie_de(*bio) == Some(t@),
            None => biographie_de(*bio) is None,
        },
{
    match bio {
        Some(b) => {
            let t = fr(b);
            if t.as_str().unicode_len() == 0 { None } else { Some(t) }
        },
        None => None,
    }
}

/// Le plafond par défaut d'une lecture sans édition.
pub const LIMITE_PAR_DEFAUT: i64 = 50;

/// Le plafond maximal d'une lecture sans édition.
pub const LIMITE_MAX: i64 = 200;

/// Le plafond appliqué : la programmation d'une édition se rend entière,
/// ou au plafond demandé s'il y en a un ; sans édition, le plafond demandé
/// ou cinquante, ramené entre un et deux cents.
pub open spec fn limite_de(demande: EditionDemandee) -> Option<i64> {
    match demande.event_id {
        Some(_) => demande.limit,
        None => {
            let choisie = match demande.limit { Some(l) => l, None => LIMITE_PAR_DEFAUT };
            Some(if choisie < 1 { 1 } else if choisie > LIMITE_MAX { LIMITE_MAX } else { choisie })
        },
    }
}

/// Le plafond de la lecture de la programmation publique.
pub fn limite_de_programmation(demande: EditionDemandee) -> (r: Option<i64>)
    ensures
        r == limite_de(demande),
{
    match demande.event_id {
        Some(_) => demande.limit,
        None => {
            let choisie = match demande.limit {
                Some(l) => l,
                None => LIMITE_PAR_DEFAUT,
            };
            Some(if choisie < 1 { 1 } else if choisie > LIMITE_MAX { LIMITE_MAX } else { choisie })
        },
    }
}

/// Ce que `uuid::Uuid::parse_str` rend d'un texte : l'identifiant, en entier
/// de 128 bits, ou rien.
pub uninterp spec fn uuid_lu(texte: Seq<char>) -> Option<u128>;

/// `uuid::Uuid::parse_str`, suivi de `as_u128`. Le résultat est `uuid_lu` du
/// texte ; les formes acceptées ne sont pas redites ici.
#[verifier::external_body]
fn analyser_uuid(texte: &str) -> (r: Option<u128>)
    ensures
        r == uuid_lu(texte@),
{
    match uuid::Uuid::parse_str(texte) {
        Ok(u) => Some(u.as_u128()),
        Err(_) => None,
    }
}

/// Les morceaux d'un texte séparés par des virgules, à partir du rang `i`,
/// le morceau en cours commençant au rang `d`.
pub open spec fn morceaux_depuis(s: Seq<char>, i: int, d: int) -> Seq<Seq<char>>
    decreases s.len() - i,
{
    if i >= s.len() {
        seq![s.subrange(d, s.len() as int)]
    } else if s[i] == ',' {
        seq![s.subrange(d, i)] + morceaux_depuis(s, i + 1, i + 1)
    } else {
        morceaux_depuis(s, i + 1, d)
    }
}

/// Les morceaux d'un texte séparés par des virgules — ce que `split(',')`
/// rend.
pub open spec fn morceaux(s: Seq<char>) -> Seq<Seq<char>> {
    morceaux_depuis(s, 0, 0)
}

/// Les identifiants lus dans une suite de morceaux, chacun rogné ; ce qui
/// n'est pas un identifiant est ignoré.
pub open spec fn identifiants(parts: Seq<Seq<char>>) -> Seq<u128>
    decreases parts.len(),
{
    if parts.len() == 0 {
        Seq::empty()
    } else {
        let avant = identifiants(parts.drop_last());
        match uuid_lu(rogne(parts.last())) {
            Some(u) => avant.push(u),
            None => avant,
        }
    }
}

/// Une liste d'identifiants séparés par des virgules. Ce qui n'est pas un
/// identifiant est ignoré plutôt que refusé ; une liste absente se lit
/// comme le texte vide.
pub fn decouper(valeur: Option<&str>) -> (r: Vec<u128>)
    ensures
        r@ == identifiants(morceaux(match valeur { Some(v) => v@, None => Seq::empty() })),
{
    let texte: &str = match valeur {
        Some(v) => v,
        None => "",
    };
    proof {
        reveal_strlit("");
        assert(texte@ =~= match valeur { Some(v) => v@, None => Seq::<char>::empty() });
    }
    let ghost s = texte@;
    let n = texte.unicode_len();
    let mut r: Vec<u128> = Vec::new();
    let ghost mut faits: Seq<Seq<char>> = Seq::empty();
    let mut d: usize = 0;
    let mut i: usize = 0;
    while i < n
        invariant
            n == s.len(),
            s == texte@,
            d <= i <= n,
            morceaux(s) == faits + morceaux_depuis(s, i as int, d as int),
            r@ == identifiants(faits),
        decreases n - i,
    {
        if texte.get_char(i) == ',' {
            let part = texte.substring_char(d, i);
            let ghost avant = faits;
            proof {
                faits = faits.push(part@);
                assert(faits.drop_last() =~= avant);
                assert(avant + morceaux_depuis(s, i as int, d as int) =~= faits + morceaux_depuis(s, i + 1, i + 1));
            }
            match analyser_uuid(rogner(part)) {
                Some(u) => {
                    r.push(u);
                },
                None => {},
            }
            d = i + 1;
        }
        i = i + 1;
    }
    let part = texte.substring_char(d, n);
    let ghost avant = faits;
    proof {
        faits = faits.push(part@);
        assert(faits.drop_last() =~= avant);
        assert(avant + morceaux_depuis(s, n as int, d as int) =~= faits);
    }
    match analyser_uuid(rogner(part)) {
        Some(u) => {
            r.push(u);
        },
        None => {},
    }
    assert(morceaux(s) =~= faits);
    r
}

/// Les organisations demandées, lues.
pub fn organisations_demandees(demande: &OrganisationsDemandees) -> (r: Vec<u128>)
    ensures
        r@ == identifiants(morceaux(match demande.organization_ids {
            Some(v) => v@,
            None => Seq::empty(),
        })),
{
    match &demande.organization_ids {
        Some(v) => decouper(Some(v.as_str())),
        None => decouper(None),
    }
}

} // verus!

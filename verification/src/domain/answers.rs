//! La validation des réponses au formulaire d'inscription — dynamique et
//! pure.
//!
//! Elle reçoit les champs **actifs** du formulaire résolu, leurs jeux
//! d'options **déjà résolus**, et le document de réponses. Trois décisions
//! vont dans le sens strict : le vide vaut absence, un choix multiple
//! obligatoire vide est refusé, une clé inconnue est refusée.

use vstd::prelude::*;
use crate::erreurs::{ApiError, ErrorCode, ErreurVue, refus_nomme};
use crate::json::{Json, Nombre, valeur_de, obtenir, moindre, inferieur};
use crate::texte::{
    rogne, rogner, egales, egales_sans_casse, egales_sans_casse_ascii, en_majuscules, majuscules,
    ecriture_decimale, decimal, position, trouver, contient, octets,
};

verus! {

/// Un champ du formulaire, **ses options déjà résolues**.
pub struct ChampResolu {
    pub code: String,
    /// Valeur de `programme.form_field_type`, telle que la base la nomme.
    pub field_type: String,
    pub is_required: bool,
    pub is_sensitive: bool,
    /// `None` quand le champ n'est pas à choix. `Some(vide)` : toute valeur
    /// y sera refusée.
    pub options: Option<Vec<String>>,
    /// `minLength`, `maxLength`, `pattern`, `min`, `max` ; toute autre clé
    /// est ignorée.
    pub validation: Json,
}

// ---------------------------------------------------------------------------
// Ce que les deux outils extérieurs décident
// ---------------------------------------------------------------------------

/// Ce que `time::Date::parse(texte, &Iso8601::DATE).is_ok()` rend.
pub uninterp spec fn date_iso8601(texte: Seq<char>) -> bool;

/// `time::Date::parse` au format ISO 8601 : le contrat ne dit que ceci, le
/// verdict est `date_iso8601` du texte, une fonction du seul texte. Les
/// formes que l'analyseur admet ne sont pas redites ici.
#[verifier::external_body]
fn date_analysable(texte: &str) -> (r: bool)
    ensures
        r == date_iso8601(texte@),
{
    time::Date::parse(texte, &time::format_description::well_known::Iso8601::DATE).is_ok()
}

/// Ce que `regex::Regex::new(motif)` puis `is_match(texte)` rendent : `None`
/// quand le motif ne se compile pas, sinon le verdict de la recherche.
pub uninterp spec fn correspondance(motif: Seq<char>, texte: Seq<char>) -> Option<bool>;

/// `regex::Regex::new` suivi de `Regex::is_match`. Le contrat ne dit que
/// ceci : le résultat est `correspondance` du motif et du texte, une
/// fonction de ces deux chaînes ; la syntaxe des motifs n'est pas redite.
#[verifier::external_body]
fn motif_reconnu(motif: &str, texte: &str) -> (r: Option<bool>)
    ensures
        r == correspondance(motif@, texte@),
{
    match regex::Regex::new(motif) {
        Ok(expression) => Some(expression.is_match(texte)),
        Err(_) => None,
    }
}

// ---------------------------------------------------------------------------
// Les messages
// ---------------------------------------------------------------------------

pub open spec fn msg_obligatoire() -> Seq<char> {
    "Cette réponse est obligatoire."@
}

pub open spec fn msg_pas_un_texte() -> Seq<char> {
    "Cette valeur n'est pas un texte."@
}

pub open spec fn msg_adresse() -> Seq<char> {
    "Cette valeur n'est pas une adresse électronique valide."@
}

pub open spec fn msg_nombre() -> Seq<char> {
    "Cette valeur n'est pas un nombre."@
}

pub open spec fn msg_booleen() -> Seq<char> {
    "Cette valeur n'est ni « oui » ni « non »."@
}

pub open spec fn msg_date() -> Seq<char> {
    "Cette valeur n'est pas une date valide."@
}

pub open spec fn msg_pays() -> Seq<char> {
    "Le pays s'exprime par son code à deux lettres (par exemple « SN »)."@
}

pub open spec fn msg_hors_choix() -> Seq<char> {
    "Cette valeur ne fait pas partie des choix proposés."@
}

pub open spec fn msg_plusieurs() -> Seq<char> {
    "Cette question attend plusieurs réponses."@
}

pub open spec fn msg_format() -> Seq<char> {
    "Cette réponse n'a pas le format attendu."@
}

pub open spec fn msg_inconnue(cle: Seq<char>) -> Seq<char> {
    "La question « "@ + cle + " » n'existe pas dans ce formulaire."@
}

pub open spec fn msg_au_moins(mini: u64) -> Seq<char> {
    "Cette réponse doit compter au moins "@ + ecriture_decimale(mini as nat) + " caractères."@
}

pub open spec fn msg_au_plus(maxi: u64) -> Seq<char> {
    "Cette réponse ne doit pas dépasser "@ + ecriture_decimale(maxi as nat) + " caractères."@
}

pub open spec fn msg_entre(a: Nombre, b: Nombre) -> Seq<char> {
    "La valeur doit être comprise entre "@ + a.affichage@ + " et "@ + b.affichage@ + "."@
}

pub open spec fn msg_pas_moins(a: Nombre) -> Seq<char> {
    "La valeur ne peut pas être inférieure à "@ + a.affichage@ + "."@
}

pub open spec fn msg_pas_plus(b: Nombre) -> Seq<char> {
    "La valeur ne peut pas dépasser "@ + b.affichage@ + "."@
}

/// Le refus d'une réponse, sur le champ qu'elle nomme.
pub open spec fn refus(code: Seq<char>, message: Seq<char>) -> ErreurVue {
    refus_nomme(ErrorCode::RegistrationAnswerInvalid, message, code)
}

// ---------------------------------------------------------------------------
// Les règles, champ par champ
// ---------------------------------------------------------------------------

/// Une réponse absente, nulle, ou vide au sens de la base ; un tableau vide
/// l'est aussi pour un choix multiple.
pub open spec fn absente(c: ChampResolu, v: Option<Json>) -> bool {
    match v {
        None => true,
        Some(Json::Nul) => true,
        Some(Json::Texte(t)) => rogne(t@).len() == 0,
        Some(Json::Liste(es)) => c.field_type@ == "multiple_choice"@ && es@.len() == 0,
        _ => false,
    }
}

/// Une adresse électronique au sens de ce que l'écran doit refuser : un `@`,
/// quelque chose avant, et après un domaine avec un point, sans point aux
/// bords ni espace.
pub open spec fn a_forme_d_adresse(s: Seq<char>) -> bool {
    let t = rogne(s);
    match position(t, '@') {
        None => false,
        Some(i) => {
            let avant = t.take(i);
            let apres = t.skip(i + 1);
            &&& avant.len() > 0
            &&& apres.contains('.')
            &&& !(apres.len() > 0 && apres[0] == '.')
            &&& !(apres.len() > 0 && apres.last() == '.')
            &&& !apres.contains(' ')
        },
    }
}

/// Les natures qui attendent un simple texte.
pub open spec fn nature_textuelle(ft: Seq<char>) -> bool {
    ||| ft == "text"@
    ||| ft == "long_text"@
    ||| ft == "phone"@
    ||| ft == "single_choice"@
    ||| ft == "taxonomy_term"@
}

pub open spec fn est_texte(v: Json) -> bool {
    v is Texte
}

/// Ce que la nature du champ attend de la valeur.
pub open spec fn verdict_type(c: ChampResolu, v: Json) -> Option<ErreurVue> {
    let ft = c.field_type@;
    let code = c.code@;
    if nature_textuelle(ft) {
        if v is Texte { None } else { Some(refus(code, msg_pas_un_texte())) }
    } else if ft == "email"@ {
        match v {
            Json::Texte(t) => if a_forme_d_adresse(t@) { None } else { Some(refus(code, msg_adresse())) },
            _ => Some(refus(code, msg_pas_un_texte())),
        }
    } else if ft == "number"@ {
        if v is Nombre { None } else { Some(refus(code, msg_nombre())) }
    } else if ft == "boolean"@ {
        if v is Booleen { None } else { Some(refus(code, msg_booleen())) }
    } else if ft == "date"@ {
        match v {
            Json::Texte(t) => if date_iso8601(rogne(t@)) { None } else { Some(refus(code, msg_date())) },
            _ => Some(refus(code, msg_pas_un_texte())),
        }
    } else if ft == "country"@ {
        match v {
            Json::Texte(t) => if octets(rogne(t@)) == 2 { None } else { Some(refus(code, msg_pays())) },
            _ => Some(refus(code, msg_pas_un_texte())),
        }
    } else if ft == "multiple_choice"@ {
        match v {
            Json::Liste(es) => if forall|k: int| 0 <= k < es@.len() ==> est_texte(#[trigger] es@[k]) {
                None
            } else {
                Some(refus(code, msg_hors_choix()))
            },
            _ => Some(refus(code, msg_plusieurs())),
        }
    } else {
        None
    }
}

/// Une valeur admise parmi les options : le pays se compare en majuscules,
/// sans égard à la casse ASCII ; tout autre code se compare tel quel.
pub open spec fn admise(admises: Seq<String>, valeur: Seq<char>, ft: Seq<char>) -> bool {
    let t = rogne(valeur);
    if ft == "country"@ {
        exists|k: int| 0 <= k < admises.len() && egales_sans_casse_ascii(
            (#[trigger] admises[k])@,
            en_majuscules(t),
        )
    } else {
        exists|k: int| 0 <= k < admises.len() && (#[trigger] admises[k])@ == t
    }
}

/// Un élément de choix multiple admis : un texte parmi les options.
pub open spec fn element_admis(admises: Seq<String>, e: Json, ft: Seq<char>) -> bool {
    match e {
        Json::Texte(t) => admise(admises, t@, ft),
        _ => false,
    }
}

/// L'appartenance aux options, pour les champs qui en portent.
pub open spec fn verdict_options(c: ChampResolu, v: Json) -> Option<ErreurVue> {
    match c.options {
        None => None,
        Some(admises) => {
            let ok = match v {
                Json::Texte(t) => admise(admises@, t@, c.field_type@),
                Json::Liste(es) => forall|k: int|
                    0 <= k < es@.len() ==> element_admis(admises@, #[trigger] es@[k], c.field_type@),
                _ => false,
            };
            if ok { None } else { Some(refus(c.code@, msg_hors_choix())) }
        },
    }
}

pub open spec fn naturel_de(v: Option<Json>) -> Option<u64> {
    match v {
        Some(Json::Nombre(n)) => n.naturel,
        _ => None,
    }
}

pub open spec fn texte_de(v: Option<Json>) -> Option<Seq<char>> {
    match v {
        Some(Json::Texte(t)) => Some(t@),
        _ => None,
    }
}

pub open spec fn nombre_de(v: Option<Json>) -> Option<Nombre> {
    match v {
        Some(Json::Nombre(n)) => Some(n),
        _ => None,
    }
}

/// Les règles de saisie d'une réponse textuelle : longueurs, puis motif. Un
/// motif qui ne se compile pas est ignoré.
pub open spec fn verdict_regles_texte(
    code: Seq<char>,
    regles: Seq<(String, Json)>,
    t: Seq<char>,
) -> Option<ErreurVue> {
    let longueur = t.len();
    let mini = naturel_de(valeur_de(regles, "minLength"@));
    let maxi = naturel_de(valeur_de(regles, "maxLength"@));
    if mini is Some && longueur < mini->0 {
        Some(refus(code, msg_au_moins(mini->0)))
    } else if maxi is Some && longueur > maxi->0 {
        Some(refus(code, msg_au_plus(maxi->0)))
    } else {
        match texte_de(valeur_de(regles, "pattern"@)) {
            Some(motif) => if correspondance(motif, t) == Some(false) {
                Some(refus(code, msg_format()))
            } else {
                None
            },
            None => None,
        }
    }
}

/// Les bornes d'une réponse numérique.
pub open spec fn verdict_regles_nombre(
    code: Seq<char>,
    regles: Seq<(String, Json)>,
    n: Nombre,
) -> Option<ErreurVue> {
    let mini = nombre_de(valeur_de(regles, "min"@));
    let maxi = nombre_de(valeur_de(regles, "max"@));
    match (mini, maxi) {
        (Some(a), Some(b)) => if moindre(n, a) || moindre(b, n) {
            Some(refus(code, msg_entre(a, b)))
        } else {
            None
        },
        (Some(a), None) => if moindre(n, a) { Some(refus(code, msg_pas_moins(a))) } else { None },
        (None, Some(b)) => if moindre(b, n) { Some(refus(code, msg_pas_plus(b))) } else { None },
        (None, None) => None,
    }
}

/// Les cinq règles de saisie honorées.
pub open spec fn verdict_regles(c: ChampResolu, v: Json) -> Option<ErreurVue> {
    match c.validation {
        Json::Objet(regles) => match v {
            Json::Texte(t) => verdict_regles_texte(c.code@, regles@, t@),
            Json::Nombre(n) => verdict_regles_nombre(c.code@, regles@, n),
            _ => None,
        },
        _ => None,
    }
}

/// Le verdict d'un champ : présence, puis nature, puis options, puis règles.
pub open spec fn verdict_champ(c: ChampResolu, v: Option<Json>) -> Option<ErreurVue> {
    if absente(c, v) {
        if c.is_required { Some(refus(c.code@, msg_obligatoire())) } else { None }
    } else {
        let v = v->0;
        match verdict_type(c, v) {
            Some(e) => Some(e),
            None => match verdict_options(c, v) {
                Some(e) => Some(e),
                None => verdict_regles(c, v),
            },
        }
    }
}

/// Une clé que ne porte aucun champ.
pub open spec fn cle_inconnue(champs: Seq<ChampResolu>, cle: Seq<char>) -> bool {
    forall|k: int| 0 <= k < champs.len() ==> (#[trigger] champs[k]).code@ != cle
}

/// La première réponse, à partir de `i`, dont la clé est inconnue.
pub open spec fn premiere_inconnue(
    champs: Seq<ChampResolu>,
    reponses: Seq<(String, Json)>,
    i: int,
) -> Option<Seq<char>>
    decreases reponses.len() - i,
{
    if i < 0 || i >= reponses.len() {
        None
    } else if cle_inconnue(champs, reponses[i].0@) {
        Some(reponses[i].0@)
    } else {
        premiere_inconnue(champs, reponses, i + 1)
    }
}

/// Le premier refus, à partir du champ `i`, dans l'ordre du formulaire.
pub open spec fn premier_refus(
    champs: Seq<ChampResolu>,
    reponses: Seq<(String, Json)>,
    i: int,
) -> Option<ErreurVue>
    decreases champs.len() - i,
{
    if i < 0 || i >= champs.len() {
        None
    } else {
        match verdict_champ(champs[i], valeur_de(reponses, champs[i].code@)) {
            Some(e) => Some(e),
            None => premier_refus(champs, reponses, i + 1),
        }
    }
}

/// L'issue de la validation : une clé inconnue d'abord, puis la première
/// faute dans l'ordre du formulaire.
pub open spec fn issue_de_validation(
    champs: Seq<ChampResolu>,
    reponses: Seq<(String, Json)>,
) -> Option<ErreurVue> {
    match premiere_inconnue(champs, reponses, 0) {
        Some(cle) => Some(refus(cle, msg_inconnue(cle))),
        None => premier_refus(champs, reponses, 0),
    }
}

/// Les codes des champs sensibles auxquels une réponse est donnée, parmi les
/// `i` premiers champs, dans l'ordre du formulaire.
pub open spec fn sensibles_repondus(
    champs: Seq<ChampResolu>,
    reponses: Seq<(String, Json)>,
    i: int,
) -> Seq<Seq<char>>
    decreases i,
{
    if i <= 0 || i > champs.len() {
        Seq::empty()
    } else {
        let avant = sensibles_repondus(champs, reponses, i - 1);
        let c = champs[i - 1];
        if c.is_sensitive && !absente(c, valeur_de(reponses, c.code@)) {
            avant.push(c.code@)
        } else {
            avant
        }
    }
}

/// Une réponse numérique est refusée dès qu'elle sort de ses bornes : sous le
/// minimum comme au-dessus du maximum, avec le message qui nomme les deux ;
/// entre les deux, les bornes ne refusent rien.
pub proof fn les_bornes_encadrent_la_reponse(
    c: ChampResolu,
    regles: Vec<(String, Json)>,
    n: Nombre,
    a: Nombre,
    b: Nombre,
)
    requires
        c.field_type@ == "number"@,
        c.options is None,
        c.validation == Json::Objet(regles),
        valeur_de(regles@, "min"@) == Some(Json::Nombre(a)),
        valeur_de(regles@, "max"@) == Some(Json::Nombre(b)),
    ensures
        moindre(n, a) ==> verdict_champ(c, Some(Json::Nombre(n))) == Some(refus(c.code@, msg_entre(a, b))),
        moindre(b, n) ==> verdict_champ(c, Some(Json::Nombre(n))) == Some(refus(c.code@, msg_entre(a, b))),
        !moindre(n, a) && !moindre(b, n) ==> verdict_champ(c, Some(Json::Nombre(n))) is None,
{
    reveal_strlit("number");
    reveal_strlit("text");
    reveal_strlit("long_text");
    reveal_strlit("phone");
    reveal_strlit("single_choice");
    reveal_strlit("taxonomy_term");
    reveal_strlit("email");
    assert("number"@.len() == 6 && "number"@[0] == 'n');
    assert("text"@.len() == 4 && "long_text"@.len() == 9 && "phone"@.len() == 5);
    assert("single_choice"@.len() == 13 && "taxonomy_term"@.len() == 13 && "email"@.len() == 5);
}

/// Une seule borne : sous le minimum seul, le refus nomme le minimum ; au-dessus
/// du maximum seul, il nomme le maximum ; de l'autre côté, rien n'est refusé.
pub proof fn une_borne_seule_refuse_de_son_cote(
    c: ChampResolu,
    regles: Vec<(String, Json)>,
    n: Nombre,
    borne: Nombre,
)
    requires
        c.field_type@ == "number"@,
        c.options is None,
        c.validation == Json::Objet(regles),
    ensures
        valeur_de(regles@, "min"@) == Some(Json::Nombre(borne)) && valeur_de(regles@, "max"@) is None
            ==> verdict_champ(c, Some(Json::Nombre(n))) == (if moindre(n, borne) {
                Some(refus(c.code@, msg_pas_moins(borne)))
            } else {
                None
            }),
        valeur_de(regles@, "max"@) == Some(Json::Nombre(borne)) && valeur_de(regles@, "min"@) is None
            ==> verdict_champ(c, Some(Json::Nombre(n))) == (if moindre(borne, n) {
                Some(refus(c.code@, msg_pas_plus(borne)))
            } else {
                None
            }),
{
    reveal_strlit("number");
    reveal_strlit("text");
    reveal_strlit("long_text");
    reveal_strlit("phone");
    reveal_strlit("single_choice");
    reveal_strlit("taxonomy_term");
    reveal_strlit("email");
    assert("number"@.len() == 6 && "number"@[0] == 'n');
    assert("text"@.len() == 4 && "long_text"@.len() == 9 && "phone"@.len() == 5);
    assert("single_choice"@.len() == 13 && "taxonomy_term"@.len() == 13 && "email"@.len() == 5);
}

proof fn lemme_cles_connues(champs: Seq<ChampResolu>, reponses: Seq<(String, Json)>, i: int)
    requires
        0 <= i <= reponses.len(),
        forall|k: int| 0 <= k < reponses.len() ==> !cle_inconnue(champs, (#[trigger] reponses[k]).0@),
    ensures
        premiere_inconnue(champs, reponses, i) is None,
    decreases reponses.len() - i,
{
    if i < reponses.len() {
        assert(!cle_inconnue(champs, reponses[i].0@));
        lemme_cles_connues(champs, reponses, i + 1);
    }
}

/// Sur un formulaire d'une seule question numérique bornée, une réponse sous
/// le minimum ou au-dessus du maximum fait échouer `valider` sur ce champ,
/// avec le message qui nomme les deux bornes.
pub proof fn valider_refuse_une_reponse_hors_bornes(
    champs: Seq<ChampResolu>,
    reponses: Seq<(String, Json)>,
    regles: Vec<(String, Json)>,
    n: Nombre,
    a: Nombre,
    b: Nombre,
)
    requires
        champs.len() == 1,
        champs[0].field_type@ == "number"@,
        champs[0].options is None,
        champs[0].validation == Json::Objet(regles),
        valeur_de(regles@, "min"@) == Some(Json::Nombre(a)),
        valeur_de(regles@, "max"@) == Some(Json::Nombre(b)),
        forall|k: int| 0 <= k < reponses.len() ==> (#[trigger] reponses[k]).0@ == champs[0].code@,
        valeur_de(reponses, champs[0].code@) == Some(Json::Nombre(n)),
        moindre(n, a) || moindre(b, n),
    ensures
        issue_de_validation(champs, reponses) == Some(refus(champs[0].code@, msg_entre(a, b))),
{
    les_bornes_encadrent_la_reponse(champs[0], regles, n, a, b);
    assert forall|k: int| 0 <= k < reponses.len() implies !cle_inconnue(champs, (#[trigger] reponses[k]).0@) by {
        assert(champs[0].code@ == reponses[k].0@);
    }
    lemme_cles_connues(champs, reponses, 0);
}

// ---------------------------------------------------------------------------
// L'exécution
// ---------------------------------------------------------------------------

/// Les champs **sensibles auxquels une réponse est donnée** : le service en
/// tire le consentement, et il doit savoir quel champ nommer dans le refus.
pub fn champs_sensibles_repondus<'c>(champs: &'c [ChampResolu], reponses: &Vec<(String, Json)>) -> (r: Vec<&'c str>)
    ensures
        r@.len() == sensibles_repondus(champs@, reponses@, champs@.len() as int).len(),
        forall|k: int| 0 <= k < r@.len() ==> (#[trigger] r@[k])@ == sensibles_repondus(champs@, reponses@, champs@.len() as int)[k],
{
    let n = champs.len();
    let mut r: Vec<&'c str> = Vec::new();
    let mut i: usize = 0;
    while i < n
        invariant
            n == champs@.len(),
            i <= n,
            r@.len() == sensibles_repondus(champs@, reponses@, i as int).len(),
            forall|k: int| 0 <= k < r@.len() ==> (#[trigger] r@[k])@ == sensibles_repondus(champs@, reponses@, i as int)[k],
        decreases n - i,
    {
        let c = &champs[i];
        if c.is_sensitive && !est_absente(c, obtenir(reponses, c.code.as_str())) {
            r.push(c.code.as_str());
        }
        i = i + 1;
    }
    r
}

fn refuser(code: &str, message: String) -> (r: ApiError)
    ensures
        r@ == refus(code@, message@),
{
    ApiError::with_message(ErrorCode::RegistrationAnswerInvalid, message).field(code)
}

fn refuser_txt(code: &str, message: &str) -> (r: ApiError)
    ensures
        r@ == refus(code@, message@),
{
    refuser(code, message.to_owned())
}

/// Valider un document de réponses contre les champs actifs d'un formulaire.
///
/// L'ordre est celui du formulaire : la première faute rencontrée est rendue,
/// et c'est le champ qu'elle nomme que l'écran souligne.
pub fn valider(champs: &[ChampResolu], reponses: &Vec<(String, Json)>) -> (r: Result<(), ApiError>)
    ensures
        match r {
            Ok(()) => issue_de_validation(champs@, reponses@) is None,
            Err(e) => issue_de_validation(champs@, reponses@) == Some(e@),
        },
{
    refuser_les_cles_inconnues(champs, reponses)?;
    let n = champs.len();
    let mut i: usize = 0;
    while i < n
        invariant
            n == champs@.len(),
            i <= n,
            premiere_inconnue(champs@, reponses@, 0) is None,
            premier_refus(champs@, reponses@, 0) == premier_refus(champs@, reponses@, i as int),
        decreases n - i,
    {
        let champ = &champs[i];
        let valeur = obtenir(reponses, champ.code.as_str());
        verifier_le_champ(champ, valeur)?;
        i = i + 1;
    }
    Ok(())
}

/// La clé inconnue est un refus, pas un silence.
fn refuser_les_cles_inconnues(champs: &[ChampResolu], reponses: &Vec<(String, Json)>) -> (r: Result<(), ApiError>)
    ensures
        match r {
            Ok(()) => premiere_inconnue(champs@, reponses@, 0) is None,
            Err(e) => premiere_inconnue(champs@, reponses@, 0) is Some && e@ == refus(
                premiere_inconnue(champs@, reponses@, 0)->0,
                msg_inconnue(premiere_inconnue(champs@, reponses@, 0)->0),
            ),
        },
{
    let n = reponses.len();
    let mut i: usize = 0;
    while i < n
        invariant
            n == reponses@.len(),
            i <= n,
            premiere_inconnue(champs@, reponses@, 0) == premiere_inconnue(champs@, reponses@, i as int),
        decreases n - i,
    {
        let cle = reponses[i].0.as_str();
        if !code_connu(champs, cle) {
            let mut message = String::new();
            message.append("La question « ");
            message.append(cle);
            message.append(" » n'existe pas dans ce formulaire.");
            return Err(refuser(cle, message));
        }
        i = i + 1;
    }
    Ok(())
}

fn code_connu(champs: &[ChampResolu], cle: &str) -> (r: bool)
    ensures
        r == !cle_inconnue(champs@, cle@),
{
    let n = champs.len();
    let mut k: usize = 0;
    while k < n
        invariant
            n == champs@.len(),
            k <= n,
            forall|j: int| 0 <= j < k ==> (#[trigger] champs@[j]).code@ != cle@,
        decreases n - k,
    {
        if egales(champs[k].code.as_str(), cle) {
            return true;
        }
        k = k + 1;
    }
    false
}

fn verifier_le_champ(champ: &ChampResolu, valeur: Option<&Json>) -> (r: Result<(), ApiError>)
    ensures
        match r {
            Ok(()) => verdict_champ(*champ, option_vue(valeur)) is None,
            Err(e) => verdict_champ(*champ, option_vue(valeur)) == Some(e@),
        },
{
    if est_absente(champ, valeur) {
        if champ.is_required {
            return Err(refuser_txt(champ.code.as_str(), "Cette réponse est obligatoire."));
        }
        return Ok(());
    }
    let valeur = match valeur {
        Some(v) => v,
        None => { return Ok(()); },
    };
    verifier_le_type(champ, valeur)?;
    verifier_les_options(champ, valeur)?;
    verifier_les_regles(champ, valeur)
}

pub open spec fn option_vue(v: Option<&Json>) -> Option<Json> {
    match v {
        Some(j) => Some(*j),
        None => None,
    }
}

fn est_absente(champ: &ChampResolu, valeur: Option<&Json>) -> (r: bool)
    ensures
        r == absente(*champ, option_vue(valeur)),
{
    match valeur {
        None => true,
        Some(Json::Nul) => true,
        Some(Json::Texte(texte)) => rogner(texte.as_str()).unicode_len() == 0,
        Some(Json::Liste(elements)) => {
            if egales(champ.field_type.as_str(), "multiple_choice") {
                elements.len() == 0
            } else {
                false
            }
        },
        _ => false,
    }
}

fn est_une_nature_textuelle(ft: &str) -> (r: bool)
    ensures
        r == nature_textuelle(ft@),
{
    egales(ft, "text") || egales(ft, "long_text") || egales(ft, "phone") || egales(ft, "single_choice")
        || egales(ft, "taxonomy_term")
}

/// Une date au format ISO 8601 (`AAAA-MM-JJ`), blancs des bords ôtés.
pub fn est_une_date(texte: &str) -> (r: bool)
    ensures
        r == date_iso8601(rogne(texte@)),
{
    date_analysable(rogner(texte))
}

/// Une adresse électronique vraisemblable : un `@`, quelque chose avant, un
/// domaine avec un point après, sans point aux bords ni espace.
pub fn ressemble_a_une_adresse(texte: &str) -> (r: bool)
    ensures
        r == a_forme_d_adresse(texte@),
{
    let t = rogner(texte);
    match trouver(t, '@') {
        None => false,
        Some(i) => {
            proof {
                crate::texte::lemme_position_depuis(t@, '@', 0);
            }
            let n = t.unicode_len();
            let avant = t.substring_char(0, i);
            let apres = t.substring_char(i + 1, n);
            proof {
                assert(avant@ =~= t@.take(i as int));
                assert(apres@ =~= t@.skip(i + 1));
            }
            let m = apres.unicode_len();
            avant.unicode_len() > 0 && contient(apres, '.') && !(m > 0 && apres.get_char(0) == '.')
                && !(m > 0 && apres.get_char(m - 1) == '.') && !contient(apres, ' ')
        },
    }
}

#[verifier::loop_isolation(false)]
fn verifier_le_type(champ: &ChampResolu, valeur: &Json) -> (r: Result<(), ApiError>)
    ensures
        match r {
            Ok(()) => verdict_type(*champ, *valeur) is None,
            Err(e) => verdict_type(*champ, *valeur) == Some(e@),
        },
{
    let code = champ.code.as_str();
    let ft = champ.field_type.as_str();
    if est_une_nature_textuelle(ft) {
        match valeur {
            Json::Texte(_) => Ok(()),
            _ => Err(refuser_txt(code, "Cette valeur n'est pas un texte.")),
        }
    } else if egales(ft, "email") {
        match valeur {
            Json::Texte(t) => if ressemble_a_une_adresse(t.as_str()) {
                Ok(())
            } else {
                Err(refuser_txt(code, "Cette valeur n'est pas une adresse électronique valide."))
            },
            _ => Err(refuser_txt(code, "Cette valeur n'est pas un texte.")),
        }
    } else if egales(ft, "number") {
        match valeur {
            Json::Nombre(_) => Ok(()),
            _ => Err(refuser_txt(code, "Cette valeur n'est pas un nombre.")),
        }
    } else if egales(ft, "boolean") {
        match valeur {
            Json::Booleen(_) => Ok(()),
            _ => Err(refuser_txt(code, "Cette valeur n'est ni « oui » ni « non ».")),
        }
    } else if egales(ft, "date") {
        match valeur {
            Json::Texte(t) => if est_une_date(t.as_str()) {
                Ok(())
            } else {
                Err(refuser_txt(code, "Cette valeur n'est pas une date valide."))
            },
            _ => Err(refuser_txt(code, "Cette valeur n'est pas un texte.")),
        }
    } else if egales(ft, "country") {
        match valeur {
            Json::Texte(t) => if crate::texte::longueur_en_octets(rogner(t.as_str())) == 2 {
                assert(octets(rogne(t@)) == 2);
                Ok(())
            } else {
                Err(refuser_txt(code, "Le pays s'exprime par son code à deux lettres (par exemple « SN »)."))
            },
            _ => Err(refuser_txt(code, "Cette valeur n'est pas un texte.")),
        }
    } else if egales(ft, "multiple_choice") {
        match valeur {
            Json::Liste(elements) => {
                let n = elements.len();
                let mut k: usize = 0;
                while k < n
                    invariant
                        n == elements@.len(),
                        k <= n,
                        forall|j: int| 0 <= j < k ==> est_texte(#[trigger] elements@[j]),
                    decreases n - k,
                {
                    match &elements[k] {
                        Json::Texte(_) => {},
                        _ => {
                            assert(!est_texte(elements@[k as int]));
                            assert(!(forall|j: int| 0 <= j < elements@.len() ==> est_texte(#[trigger] elements@[j])));
                            return Err(refuser_txt(code, "Cette valeur ne fait pas partie des choix proposés."));
                        },
                    }
                    k = k + 1;
                }
                Ok(())
            },
            _ => Err(refuser_txt(code, "Cette question attend plusieurs réponses.")),
        }
    } else {
        Ok(())
    }
}

#[verifier::loop_isolation(false)]
fn est_admise(admises: &Vec<String>, valeur: &str, champ: &ChampResolu) -> (r: bool)
    ensures
        r == admise(admises@, valeur@, champ.field_type@),
{
    let t = rogner(valeur);
    let n = admises.len();
    if egales(champ.field_type.as_str(), "country") {
        let maj = majuscules(t);
        let mut k: usize = 0;
        while k < n
            invariant
                n == admises@.len(),
                k <= n,
                t@ == rogne(valeur@),
                maj@ == en_majuscules(t@),
                forall|j: int| 0 <= j < k ==> !egales_sans_casse_ascii((#[trigger] admises@[j])@, maj@),
            decreases n - k,
        {
            if egales_sans_casse(admises[k].as_str(), maj.as_str()) {
                assert(egales_sans_casse_ascii(admises@[k as int]@, en_majuscules(rogne(valeur@))));
                return true;
            }
            k = k + 1;
        }
        false
    } else {
        let mut k: usize = 0;
        while k < n
            invariant
                n == admises@.len(),
                k <= n,
                t@ == rogne(valeur@),
                forall|j: int| 0 <= j < k ==> (#[trigger] admises@[j])@ != t@,
            decreases n - k,
        {
            if egales(admises[k].as_str(), t) {
                assert(admises@[k as int]@ == rogne(valeur@));
                return true;
            }
            k = k + 1;
        }
        false
    }
}

#[verifier::loop_isolation(false)]
fn verifier_les_options(champ: &ChampResolu, valeur: &Json) -> (r: Result<(), ApiError>)
    ensures
        match r {
            Ok(()) => verdict_options(*champ, *valeur) is None,
            Err(e) => verdict_options(*champ, *valeur) == Some(e@),
        },
{
    let admises = match &champ.options {
        None => { return Ok(()); },
        Some(a) => a,
    };
    let code = champ.code.as_str();
    match valeur {
        Json::Texte(t) => {
            if !est_admise(admises, t.as_str(), champ) {
                return Err(refuser_txt(code, "Cette valeur ne fait pas partie des choix proposés."));
            }
            Ok(())
        },
        Json::Liste(elements) => {
            let n = elements.len();
            let mut k: usize = 0;
            while k < n
                invariant
                    n == elements@.len(),
                    k <= n,
                    champ.options == Some(*admises),
                    forall|j: int| 0 <= j < k ==> element_admis(admises@, #[trigger] elements@[j], champ.field_type@),
                decreases n - k,
            {
                match &elements[k] {
                    Json::Texte(t) => {
                        if !est_admise(admises, t.as_str(), champ) {
                            assert(!element_admis(admises@, elements@[k as int], champ.field_type@));
                            assert(!(forall|j: int| 0 <= j < elements@.len() ==> element_admis(admises@, #[trigger] elements@[j], champ.field_type@)));
                            return Err(refuser_txt(code, "Cette valeur ne fait pas partie des choix proposés."));
                        }
                    },
                    _ => {
                        assert(!element_admis(admises@, elements@[k as int], champ.field_type@));
                        assert(!(forall|j: int| 0 <= j < elements@.len() ==> element_admis(admises@, #[trigger] elements@[j], champ.field_type@)));
                        return Err(refuser_txt(code, "Cette valeur ne fait pas partie des choix proposés."));
                    },
                }
                k = k + 1;
            }
            Ok(())
        },
        _ => Err(refuser_txt(code, "Cette valeur ne fait pas partie des choix proposés.")),
    }
}

fn naturel_de_exec(v: Option<&Json>) -> (r: Option<u64>)
    ensures
        r == naturel_de(option_vue(v)),
{
    match v {
        Some(Json::Nombre(n)) => n.naturel,
        _ => None,
    }
}

fn verifier_les_regles(champ: &ChampResolu, valeur: &Json) -> (r: Result<(), ApiError>)
    ensures
        match r {
            Ok(()) => verdict_regles(*champ, *valeur) is None,
            Err(e) => verdict_regles(*champ, *valeur) == Some(e@),
        },
{
    let regles = match &champ.validation {
        Json::Objet(regles) => regles,
        _ => { return Ok(()); },
    };
    let code = champ.code.as_str();
    match valeur {
        Json::Texte(texte) => {
            let longueur = texte.as_str().unicode_len() as u64;
            if let Some(mini) = naturel_de_exec(obtenir(regles, "minLength")) {
                if longueur < mini {
                    let mut message = String::new();
                    message.append("Cette réponse doit compter au moins ");
                    message.append(decimal(mini).as_str());
                    message.append(" caractères.");
                    return Err(refuser(code, message));
                }
            }
            if let Some(maxi) = naturel_de_exec(obtenir(regles, "maxLength")) {
                if longueur > maxi {
                    let mut message = String::new();
                    message.append("Cette réponse ne doit pas dépasser ");
                    message.append(decimal(maxi).as_str());
                    message.append(" caractères.");
                    return Err(refuser(code, message));
                }
            }
            match obtenir(regles, "pattern") {
                Some(Json::Texte(motif)) => {
                    match motif_reconnu(motif.as_str(), texte.as_str()) {
                        Some(false) => Err(refuser_txt(code, "Cette réponse n'a pas le format attendu.")),
                        _ => Ok(()),
                    }
                },
                _ => Ok(()),
            }
        },
        Json::Nombre(nombre) => {
            let mini = match obtenir(regles, "min") {
                Some(Json::Nombre(a)) => Some(a),
                _ => None,
            };
            let maxi = match obtenir(regles, "max") {
                Some(Json::Nombre(b)) => Some(b),
                _ => None,
            };
            match (mini, maxi) {
                (Some(a), Some(b)) => {
                    if inferieur(nombre, a) || inferieur(b, nombre) {
                        let mut message = String::new();
                        message.append("La valeur doit être comprise entre ");
                        message.append(a.affichage.as_str());
                        message.append(" et ");
                        message.append(b.affichage.as_str());
                        message.append(".");
                        return Err(refuser(code, message));
                    }
                    Ok(())
                },
                (Some(a), None) => {
                    if inferieur(nombre, a) {
                        let mut message = String::new();
                        message.append("La valeur ne peut pas être inférieure à ");
                        message.append(a.affichage.as_str());
                        message.append(".");
                        return Err(refuser(code, message));
                    }
                    Ok(())
                },
                (None, Some(b)) => {
                    if inferieur(b, nombre) {
                        let mut message = String::new();
                        message.append("La valeur ne peut pas dépasser ");
                        message.append(b.affichage.as_str());
                        message.append(".");
                        return Err(refuser(code, message));
                    }
                    Ok(())
                },
                (None, None) => Ok(()),
            }
        },
        _ => Ok(()),
    }
}

} // verus!

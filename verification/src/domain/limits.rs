//! Les huit longueurs maximales des textes d'un dossier.
//!
//! Les valeurs sont exactement celles que le formulaire affiche : deux bornes
//! différentes des deux côtés produiraient un écran qui accepte et une API
//! qui refuse. Le compte est en caractères, pas en octets.

use vstd::prelude::*;
use super::sanitize::{sans_balises, texte_seul};

verus! {

/// Un champ borné, avec le nom que l'erreur rendra à l'écran.
#[derive(Debug, Clone, Copy)]
pub struct Borne {
    pub champ: &'static str,
    pub max: usize,
}

/// Une borne.
pub fn borne(champ: &'static str, max: usize) -> (r: Borne)
    ensures
        r.champ == champ,
        r.max == max,
{
    Borne { champ, max }
}

pub fn titre() -> (r: Borne)
    ensures
        r.champ@ == "title"@,
        r.max == 180,
{
    borne("title", 180)
}

pub fn resume() -> (r: Borne)
    ensures
        r.champ@ == "summary"@,
        r.max == 400,
{
    borne("summary", 400)
}

pub fn objectifs() -> (r: Borne)
    ensures
        r.champ@ == "objectives"@,
        r.max == 1200,
{
    borne("objectives", 1200)
}

pub fn presentation() -> (r: Borne)
    ensures
        r.champ@ == "detailed_presentation"@,
        r.max == 4000,
{
    borne("detailed_presentation", 4000)
}

pub fn resultats() -> (r: Borne)
    ensures
        r.champ@ == "expected_outcomes"@,
        r.max == 1200,
{
    borne("expected_outcomes", 1200)
}

pub fn public_vise() -> (r: Borne)
    ensures
        r.champ@ == "target_audiences"@,
        r.max == 600,
{
    borne("target_audiences", 600)
}

pub fn contraintes() -> (r: Borne)
    ensures
        r.champ@ == "scheduling_constraints"@,
        r.max == 500,
{
    borne("scheduling_constraints", 500)
}

pub fn biographie() -> (r: Borne)
    ensures
        r.champ@ == "bio"@,
        r.max == 800,
{
    borne("bio", 800)
}

/// Le texte tient-il dans sa borne ? Le compte est en caractères.
pub fn tient(texte: &str, borne: &Borne) -> (r: bool)
    ensures
        r == (texte@.len() <= borne.max),
{
    texte.unicode_len() <= borne.max
}

/// La longueur d'un texte riche, mesurée sur son texte seul : le balisage ne
/// compte pas.
pub fn longueur_du_texte(html: &str) -> (r: usize)
    ensures
        r == sans_balises(html@).len(),
{
    let texte = texte_seul(html);
    texte.as_str().unicode_len()
}

} // verus!

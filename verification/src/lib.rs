//! Les règles du module « programme » d'ePavillon : cycle de vie des dossiers
//! et des séances, dérivations d'une séance naissante, voile de l'évaluation
//! en aveugle, bornes des textes, adresses d'URL, validation des réponses
//! d'inscription, facettes de la liste, recevabilité d'un dépôt.
//!
//! Tout ce qui lit ou écrit la base, et tout ce qui parle HTTP, vit hors de
//! cette bibliothèque : elle reçoit des valeurs déjà lues et rend des
//! décisions.

pub mod texte;
pub mod erreurs;
pub mod json;
pub mod temps;
pub mod consommateurs;
pub mod domain;
pub mod lecture;
pub mod requetes;

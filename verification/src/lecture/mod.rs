//! Ce que les lectures en base rendent, et ce que le module en fait avant de
//! répondre : la requête appartient à la base, la décision à ces fichiers.

pub mod adresses;
pub mod formulaires;
pub mod listes;
pub mod personnes;
pub mod regles;
pub mod themes;

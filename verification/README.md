# programme

Les règles du module « programme » d'ePavillon — appel à propositions,
évaluation par un comité, programmation des séances, inscriptions — sous la
forme d'une bibliothèque vérifiée par Verus.

La bibliothèque reçoit des valeurs déjà lues en base et rend des décisions ;
les requêtes SQL et les routes HTTP restent du côté du service.

- `src/domain/` — les règles métier : états des dossiers et des séances,
  séance naissante, voile de l'évaluation en aveugle, recevabilité d'un dépôt,
  fenêtres d'inscription, validation des réponses, facettes, adresses d'URL,
  textes multilingues, liste blanche du HTML.
- `src/lecture/` — ce que le service fait des lignes lues : résolution des
  champs d'un formulaire, thématiques, règles de transition, réessai sur
  collision d'adresse.
- `src/requetes.rs` — ce qu'une route tire d'une requête avant de lire.
- `src/texte.rs`, `src/json.rs`, `src/temps.rs`, `src/erreurs.rs` — les chaînes,
  les documents JSON, les instants et les refus tels que les règles les lisent.
- `app/` — les conversions entre les types des crates du web (`serde_json`,
  `time`, `uuid`) et ceux de la bibliothèque, et la boucle d'écriture.
- `tests/` — les scénarios, exécutés contre les crates réelles.

# nlpf_2

A job board: candidates and companies sign up and log in, companies post
offers and questionnaires, candidates apply to offers with a cover letter and
a resume, and companies accept or refuse the candidacies.

- `src/` is the library, verified with Verus: the forms and what they build,
  the Cypher statements that store and find users, offers, candidacies and
  questionnaires (with proofs that what a statement stores reads back
  unchanged), the login decision (with a proof that a user who signed up can
  log in with the same password), identifiers, uploaded file keys, and the
  decisions and pages of every route.
- `tests/` runs the library on concrete values.
- `app/` is the web server around it: axum routes, Redis sessions, the Neo4j
  connection, uploads to S3, and HTML rendering.

# pecas

Inventory of parts for a production floor: an HTTP service that stores parts
in SQLite, validates what the form sends, and lists parts by filters.

- `src/` is the verified library (Verus):
  - `texto.rs`: character classes (digits, Unicode white space) and text helpers;
  - `models.rs`: the parts, the production steps, and how a step's name is read;
  - `validation.rs`: the rules a submitted part must meet;
  - `repository.rs`: the SQL statements and their parameters, the filtered
    listing, and how a row of the listing becomes a part;
  - `handlers.rs`: what each route does with a request and what it answers.
- `app/` is the server: actix-web routes, the SQLite connection (rusqlite),
  and the serde copies of the data types. It runs the statements and the
  changes that the library decides on.
- `tests/` runs the library on concrete inputs.

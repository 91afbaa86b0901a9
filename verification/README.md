# video_admin

The core of a video site's back office, verified with Verus.

- `src/data/data_set.rs`: the column/value pairs of a row and the SQL text built from them.
- `src/data/mod.rs`: paging information for listings.
- `src/data/model.rs`: statements for insert, update, delete and column listing, and the
  filtering of posted form values against a table's columns.
- `src/controllers/index.rs`: the login and password-change handlers as state machines, with
  the lockout rules proved over whole requests; the rows and conditions the handlers write; the
  small page decisions.
- `src/numbers.rs`: decimal formatting and parsing of numbers.
- `src/validations.rs`: rule-by-rule checks of posted form values.
- `src/models/`: the records of the roles and tags tables and their form rules.
- `app/`: the web server (actix-web, sessions, MySQL) that drives the library.

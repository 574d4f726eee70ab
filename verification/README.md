# charac

The verified core of a spreadsheet-like database service.

`src/` is a Verus library. Verus proves the contract of every function in
it, except the small trusted wrappers around outside crates described
below:

- `bits`, `permissions`: permission bitmasks and the laws of granting and
  revoking flags.
- `text`, `decimal`: trimming, markdown stripping, line flattening, and
  integer text in both directions.
- `ids`, `time`, `field`, `base`, `cell`: the data model. Each cell kind has
  a constructor that normalises or refuses its input.
- `input`, `kinds`: what the front end decides. This covers turning typed
  text into a cell value, field kinds by name, editor settings and how a
  cell is displayed.
- `table`, `user`, `service`: the service decisions. These are update
  queries, pagination, migration counts, gates and plans, permission checks
  and self-service patches.
- `crypter`: token encryption with ChaCha20-Poly1305.
- `errors`: the error types and their messages.

Calls into outside crates (chacha20poly1305, phonenumber, validator,
iso_currency, chrono, and surrealdb's record-id and date parsers) each stand
behind a small trusted wrapper. Verus takes such a wrapper's contract on
trust. Its doc comment says what the contract claims of the outside
function.

`app/` is the server around the library: the HTTP routes, the database
queries and the conversions to and from the database's types.
`tests/` exercises the library on concrete values.

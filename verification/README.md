# dust_orbit

The backend logic of Dust & Orbit, written in Verus and proved against its
contracts.

- `src/` is the verified library:
  - `text`: Unicode whitespace, trimming, e-mail normalisation;
  - `secret_hash`: SHA-256 + lowercase hex, the stored form of codes and tokens;
  - `otp`: six-digit login codes; `ids`: version-7 UUIDs and their text;
  - `clock`: the wall clock and the lifetimes of codes, tokens and sessions;
  - `api`: request/response bodies, errors and their replies, cookies;
  - `otp_request`, `otp_verify`, `session`: the flows behind the
    code request, login, token refresh and logout endpoints: each takes in how
    the last action went and says what to do next;
  - `access_token`: the HS256 access tokens the login and refresh sign;
  - `status`: the status report; `level`: player levels;
  - `tables`: a model of the three tables and of the statements the flows ask
    for;
  - `laws`, `table_laws`: properties that span several of these, within one
    request and across requests.
- `app/` is the server: configuration, the database, MongoDB and SMTP,
  the axum router and handlers that run the flows, and the JSON
  copies of the body types.
- `tests/` runs the library against concrete values.

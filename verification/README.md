# bear_tracks

The request-handling rules of the bearTracks scouting server, verified with
Verus.

- `src/user.rs`: what the rules read of an account (administrator marker,
  administered team).
- `src/session.rs`: the signed-in sessions, identity to account, and how a
  request's identity cookie is resolved to its account.
- `src/access.rs`: the API endpoints, the clearance each asks for, the check
  run before each handler (with the second check of a team administrator's
  removal of an account), and the laws of that policy.
- `src/reply.rs`: the answers the server builds itself, among them the `401`
  that a refused request gets.
- `app/main.rs`: the actix-web server that wires these to the database,
  passkey and static-file modules of the server.
- `tests/`: the rules and answers on concrete accounts and requests.

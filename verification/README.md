# blog

A small blogging service — users register and log in with a password and a
signed token, then write, edit, list and delete posts — with an HTTP server,
a command-line client and a browser front end. The gRPC service's logic is in
the library (`grpc`), but no gRPC server or gRPC client transport runs: the
generated protocol code is not part of this project. Posts and users are kept
in memory, so they are lost when the server stops.

`src/` is the library, verified with Verus:

- `domain`, `store`, `service`: users and posts, the stores that keep them
  (newest post first, identifiers, names and emails unique) and the services
  that check authorship and page through posts;
- `security`, `ids`, `text`: tokens, password hashes, identifiers, times and
  the text operations the rest relies on;
- `presentation`, `http`, `grpc`: how errors become HTTP and gRPC answers,
  bearer-token checks and the request handlers' logic;
- `config`, `client`, `web`: settings, the client library and the browser
  application's state machine and views.

`app/` holds what Verus does not see: the actix-web server (port 3000 by
default, CORS open to the front end at `http://localhost:8080` by default),
the command-line client, the HTTP transport and the yew components.

`tests/` runs the library on concrete values.

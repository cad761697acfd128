# daedalus

The verified core of the Daedalus application server.

- `src/` is the library, verified by Verus: the settings and their command-line
  overrides (`config`, `cli`), the application errors and the replies made of them
  (`result`), flash-message mailboxes and their session stores (`middleware`), the
  template functions that inject Vite tags (`tmpl`), password checks over Argon2
  (`services::users`), the login form's decisions (`handlers`), decimal text and its
  parsing (`text`), and a text map with distinct keys (`string_map`).
- `app/` is the server around it: the command line, reading the configuration file and
  the environment, the database, the actix-web handlers and middleware, and Tera.
- `tests/` exercises the library on concrete values.

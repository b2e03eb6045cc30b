# any2nix

Translates INI, JSON, TOML and YAML documents to Nix expressions.

- `src/` is the library, verified with Verus:
  - `convert`: the formats, their translation to Nix and the errors of
    their readers;
  - `i18n`: the user-facing strings and the choice of a language from locale
    tags or an `Accept-Language` header;
  - `api`: the requests and answers of the HTTP interface;
  - `website`: how the web front end answers requests for static files;
  - `page`: the state of the desktop front end's page for one format, and
    how each user action changes it;
  - `cli`: where the command line reads its input and how it reports failures;
  - `text`: character-level helpers with their specifications.
- `app/` is the `any2nix` command, the HTTP router and the `Accept-Language`
  extractor built on the library.
- `tests/` exercises the library with the real readers and writer linked.

Two front ends are not here. The web site renders askama templates and serves
embedded asset folders, and neither the templates nor the assets are part of
this source. The desktop application's widgets come from GTK 4, libadwaita and
GtkSourceView 5, which this crate does not depend on; the decisions it makes
(the page's steps, the style scheme, the editor's language) stand in `page`
and `convert`.

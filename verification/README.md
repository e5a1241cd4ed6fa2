# media_content

Finds, lists and describes anime, movies and TV shows from public catalogues
(TMDB, Kitsu, MyAnimeList mappings, Simkl, countdown.tv).

The work of each request is split in three steps:

1. `src/` builds the request to send (`HttpRequest`) as a plain value;
2. `app/` sends it (reqwest) and parses the JSON body (serde_json) into the
   library's own `Json` model, or hands over the HTML page as a string;
3. `src/` reads the response into the library's result types.

Steps 1 and 3 are verified with Verus: every public function states, over
spec functions of `Json`, strings and the named results of the outside calls
(see `src/outside.rs`), exactly which value or error it returns.

Layout of `src/`:

- `global_types` — `Source` and its names;
- `text`, `json`, `fields`, `error` — strings, the JSON model, field access
  and the error type with the laws of reading a list in order;
- `http` — the request value;
- `markup` — loading and cleaning HTML text;
- `search_content`, `featured_content`, `trending_content`, `view_content`,
  `view_content_info` — one module per kind of request and source;
- `outside` — the trusted wrappers around std, chrono, regex, urlencoding,
  html_escape and visdom.

`app/` holds the network calls, the serde copies of the result types and
the formatting of floating-point ratings.

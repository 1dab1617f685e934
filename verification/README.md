# tracker_lib

An archiver for the nyaa.si torrent index: it scrapes listings, torrent pages,
comments and `.torrent` files over Tor into a local SQLite database, keeps the
archive up to date on a schedule, and serves a small web front end over it.

The crate is written in Verus. `src/` is the verified library:

- `text` — strings as character sequences, decimal numbers, std's integer
  parsing and its error messages;
- `query` — the search-string language (quoted phrases, `-` negation, `|`
  alternatives), `LIKE` escaping and the resulting title filters;
- `password` — PBKDF2-HMAC-SHA512 password hashing with hex encoding;
- `models`, `category` — the stored records, how writes are decided, and the
  index's category scheme;
- `dom`, `scrape` — reading listing rows, torrent pages and comments;
- `records`, `fetch`, `schedule`, `work`, `audit` — turning scraped pages into
  records, the HTTP client's pacing and retry decisions, the rescrape
  schedule, the task runner's follow-ups, and checks of stored torrents;
- `web` — sorting, filtering, paging and result rows of the front end.

`app/` is the program around it: the database (diesel), the Tor client, the
command-line programs and the actix-web server. `tests/` runs the library on
concrete values.

# torrent_api

A torrent search client and a qBittorrent Web API client, with the logic of
both verified by Verus.

- `src/` is the verified library. `search/` holds the search options, the
  four providers (The Pirate Bay, YTS, BitSearch, 1337x) with their URLs and
  the reading of their answers, title matching, movie properties and the
  merging of torrents. `qbit/` holds the request parameters, the reading of
  qBittorrent's answers, the merging of sync reports and the waiting rule.
  `magnet.rs` reads and writes magnet links. The `*_calls.rs` files are the
  calls into outside crates (regex, distance, chrono, url, urlencoding,
  bytesize, scraper, multimap), each with the contract the library relies on.
- `tests/` runs the library on concrete values.
- `app/` is the unverified layer: HTTP with surf, JSON with serde, the async
  clients, the login middleware and the file copying of an import.

# Hitster card generator

Turns a Spotify playlist into printable Hitster cards: a QR code front that links to
the song, and a back with title, artist and release year.

The library under `src/` is written in Verus. Each function there carries a contract
that Verus proves:

- `domain/`: playlists, tracks, jobs, errors, Spotify identifiers (with their parser)
  and the business rules on playlists and jobs.
- `application/`: the application models (Spotify playlist IDs read from links, URIs
  or bare IDs; tracks; jobs), the card sheet layouts, the playlist service's and the
  background worker's decisions.
- `infrastructure/`: stored rows and their conversion to the domain, Spotify tracks
  turned into cards, the job processor's decisions.
- `html_generator.rs`, `html_templates.rs`, `templates/`, `qr_generator.rs`,
  `pdf_generator.rs`: the card page, the service's pages, QR codes as PNG data links,
  and the summary page text.
- `text.rs`, `ids.rs`, `time.rs`, `html.rs`: text, UUIDs, instants and HTML escaping.

Calls into outside crates (`uuid`, `chrono`, `html-escape`, `qrcode`, `image`, `png`,
`base64`) stand behind small trusted functions whose contracts say what the crates do.

`app/` is the program around the library: settings, the Spotify Web API, the SQLite
store, the PDF drawing, the background worker and the command line. `tests/` runs the
library on concrete values.

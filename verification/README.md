# rustisflying

Know what's flying over your head: every few seconds the tracker asks a
live ADS-B feed for the aircraft inside a circle around home, picks the
closest one, names its airline from the callsign and its route from
hexdb.io, and shows the result on the terminal and a small web page. The
e-paper frame is worded and drawn by the library: which route labels fit,
where each text and mark goes, and what lands on each of the panel's two
planes (red ink only for the route arrow and the trend triangle). The
pixels themselves are set by embedded-graphics. The driver that ships
frames to the Waveshare panel is compiled only with an `epaper` feature on
Linux, which this manifest does not declare, so it is not part of the
build as shipped.

## Layout

- `src/` — the library, verified with Verus:
  - `text` — Unicode whitespace, ASCII case, trimming, splitting into
    fields and joining, all specified over `Seq<char>`;
  - `number` — decimal rendering and thousands separators;
  - `airlines` — callsign designators and the airline table;
  - `model` — airports, vertical trend, compass points;
  - `enrich` — the enrichment steps and their remembered answers (a
    `HashMap` keyed by callsign and ICAO code, through vstd's
    `StringHashMap`), including the order in which a route and its
    airports are resolved;
  - `hexdb` — request URLs and status meanings of the metadata service;
  - `config` — polling and endpoint settings with their defaults;
  - `geo` — choice of the closest aircraft by distance keys;
  - `layout`, `panel`, `terminal` — the wording of each output;
  - `frame` — the e-paper frame drawn into its two planes.
- `app/` — the program around it: configuration file, HTTP clients, the
  timer loop, floating-point quantities, the web server and the panel
  driver.
- `tests/` — tests of the library.

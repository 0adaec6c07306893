# quick_m3u8

Reading and writing the tags of HLS (HTTP Live Streaming) playlists, with the reading and
writing proved correct by Verus.

## Layout

- `src/` is the verified library.
  - `tag/unknown.rs` reads a tag line (`#EXT<name>[:<value>]`) without knowing the tag.
  - `tag/value.rs` reads tag values: integers, integer ranges, dates, playlist types and
    attribute lists (`NAME=value,...`, with quoted and unquoted values), and writes them.
  - `tag/hls/` holds one module per HLS tag: reading it from a parsed line, its getters and
    setters, its builder, and writing its line. A decimal floating point value is held as its
    text. Each tag with attributes has a law that writing it and reading the line back gives the
    same attributes. `tag/hls/mod.rs` also holds `TagLine`, which reads a parsed line as the kind
    of tag that its name gives.
  - `tag/known.rs` is the frame for custom tags, which keep their input line until mutated, and
    `KnownTagLine`, which reads a line as the user's custom tag or as a tag of the specification.
  - `date.rs` reads and writes `YYYY-MM-DDThh:mm:ss.sss` dates with offsets.
  - `utils.rs` holds the number reading and writing, splitting and trimming that the rest uses,
    and the trusted calls into `memchr` and `core::str::from_utf8`.
- `tests/` runs the library on concrete inputs.
- `app/` turns the text of floating point values into numbers (with `fast-float2`) and back, for
  the tags that hold them (`#EXTINF`, `#EXT-X-PART-INF`, `#EXT-X-SERVER-CONTROL`,
  `#EXT-X-START`, `#EXT-X-PART`, `#EXT-X-DATERANGE`, `#EXT-X-STREAM-INF`,
  `#EXT-X-I-FRAME-STREAM-INF`), and gathers every kind of tag in enums whose reading is the
  library's `TagLine` and `KnownTagLine`.

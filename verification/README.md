# libearthquake

The verified core of Earthquake, a player for Macromedia Director movies and
projectors. Every function in `src/` carries a contract, which Verus proves,
except the few small wrappers around outside crates (byteorder, bstr, binrw,
slab, and `String::from_utf16`): those are marked `#[verifier::external_body]`,
and their contracts state what the outside code's source and documentation
show, without proof.

## Layout

- `src/bytes.rs`: integers stored in byte buffers, in either byte order.
- `src/string.rs`: NUL-terminated, length-prefixed and UTF-16 strings.
- `src/collections/`: the RIFF container of Director 4+ movies (memory map,
  resource map, chunk loading) and the file list of projector containers.
- `src/detection/`: recognising movies and projectors for Mac and Windows,
  their settings, and the product name in a `PE` version resource.
- `src/resource_fork.rs`: the resources of a Macintosh resource fork, as
  values.
- `src/cast/`: cast member numbers and the cast library manager.
- `src/player/`: the score (frames, sprites, tempo, transitions, palettes,
  the channel bitmask and the delta-compressed frame stream) and the playlist
  built from a detection.
- `src/inspect.rs`: the argument parsing of the `inspect` tool.
- `tests/`: tests run against the compiled library.
- `app/`: the `inspect` command line tool: reading files and printing.

# imgtool

An image tool: metadata inspection (raster formats and camera RAW files via
EXIF), resizing, size-reducing re-encoding, format conversion and a batch
pipeline over a directory tree.

The library in `src/` holds the logic and is verified with Verus:

- `text`, `paths`: character-level helpers (ASCII lower-casing, trimming,
  substring search) and file-name extensions.
- `raster`, `compress`, `convert`, `resize`, `batch`: the checks on each
  request, in the order they are made, and the decoding, resampling and
  encoding of the image's bytes.
- `quality_search`: the search for the highest JPEG quality whose encoding
  fits a byte budget, as a state machine with its laws.
- `codec`, `color`: decoding and encoding through the `image` crate, with
  their results named over the encoded input bytes, and its color types.
- `tally`: the counts of a run that goes on past failures or stops at the
  first one.
- `metadata`: the extension table, reading and interpreting EXIF blocks
  (text, integers, GPS rationals), and how a metadata record is built from a
  file's bytes and a run is summarized.

`app/` is the command-line program around it: argument parsing, walking
directories, reading and writing files, JSON and text output, and the
floating-point scale of the resize command, which it turns into a target
size.

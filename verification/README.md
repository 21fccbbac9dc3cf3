# xv2_save_convert

Converts Xenoverse 2 save files between the PS4 layout
`[md5 header][sav header][middle][z byte]` and the PC-ready layout
`[processed data][z byte][sav header][md5 header]`.

- `src/` is the verified library: layout constants (`layout`), marker and
  `#SAV` recognition (`marker`), byte helpers and the SHA-1 fingerprint
  (`utils`), both conversions (`convert`), the choice of conversion for a file
  and a mode (`dispatch`), and proofs that relate them (`laws`), among them
  that unpacking a packed PS4 save gives it back byte for byte.
- `app/` is the command-line program: arguments, reading and writing files,
  the leftovers sidecar file, and messages.

# issen

The verified core of a forensic triage pipeline, written in Verus.

`src/` is the library; every function in it, but the trusted wrappers named
below, is verified against its contract:

- `pipeline`: resumable stage planning from recorded stage states and
  current input fingerprints.
- `timeline`, `temporal_rule`, `supertimeline`: the timeline vocabulary, the
  bundled temporal correlation rules (whose whole table, filters and
  discrepancy clauses included, is stated as a spec function) and their
  evaluation, and the narrative and CSV forms of a timeline (the CSV always
  reads back as five columns).
- `severity`, `correlation`, `bruteforce`, `session`: the severity scale,
  correlation findings, the brute-force note and the logon-session summary.
- `memory`, `dump_source`, `usb`, `wsl`, `carve`, `vhdx`, `sources`: turning
  memory-dump rows, USB history, WSL session events, unallocated extents,
  VHDX containers and evidence paths into timeline records and decisions.
- `progress_view`, `options`, `downloader`, `rule`: presentation of ingest
  progress (one-decimal figures are the tenths that `{:.1}` prints for the
  binary64 quotient, modelled in integers; rates and estimates are exact
  integer quotients), parse options, feed staleness, pivot-rule vocabulary.

Calls into outside crates (SHA-256, hex, chrono, jiff, the logon-type names
of winevt-core, the clock and a few `str` operations of std, among them
Unicode upper-casing) sit behind small trusted wrappers whose contracts say
what those crates document.

`app/` holds the I/O edge: reading files and zip archives, walking evidence
directories, running the carving engine over the regions the library
chooses, rendering the one-decimal seconds of a discrepancy gap, printing,
and the serde forms of the library's records.

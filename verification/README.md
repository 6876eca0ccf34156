# bitcoin_address_analyzer

A verified library that analyzes Bitcoin addresses: it parses an address with
the `bitcoin` crate, lists the networks it is valid for, reads its type,
output script and witness program, names the checksum that parsing
validated, and renders the result as a text report, a Markdown report or
JSON.

- `src/address.rs`: the parsed address and the trusted calls into `bitcoin`,
  each with a named result.
- `src/analyzer.rs`: `analyze` and the decisions it makes (networks,
  checksum, payload explanation), with `spec_analyze` as its contract.
- `src/encoding.rs`: lower-case hexadecimal and decimal text.
- `src/formatter.rs`: the text and Markdown reports and their labels.
- `src/json.rs`: the JSON report, rendered by `serde_json`.
- `src/laws.rs`: properties that span several functions.
- `src/marker_laws.rs`: the text report shows the witness section or the
  legacy line, never both.
- `app/main.rs`: the command-line front end.

# invoicy

Generates PDF invoices from TOML configuration files with Typst templates,
and issues Argentine electronic invoices (Factura C) against ARCA/AFIP's web
services (WSAA login, WSFEv1 authorization).

The logic is a library verified with Verus; the command-line program around
it is ordinary Rust.

## Layout

- `src/` — the verified library:
  - `text`, `typst` — building text, decimal numbers, Typst string escaping;
  - `value`, `overrides` — the TOML data model and `--set KEY=VALUE`
    overrides;
  - `formats` — the invoice formats and their Typst data definitions;
  - `schema` — the field listing of a format, read off its JSON Schema;
  - `afip` — the SOAP requests to WSAA/WSFE, the readers of their replies,
    credential validity, ticket signing and key/CSR generation;
  - `afip_invoice` — turning an `afip_c` invoice into a CAE request and
    writing the authorization back into its config;
  - `commands`, `fonts` — the decisions behind the commands (voucher ranges
    and listings, file names, font files).
- `app/` — the `invoicy` command: argument parsing, files, HTTP, the clock,
  TOML/JSON (de)serialization, floating-point sums and PDF rendering.
- `tests/` — tests of the library.

Amounts are floating-point numbers in the configs. The library carries them
as the decimal text that renders them; sums are computed by the program.

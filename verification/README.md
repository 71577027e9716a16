# dojo_world

The manifest data model of a Dojo world, and the start-up text of the Katana
node, written in Verus with their contracts proved.

- `src/manifest.rs`: base, deployment and overlay manifests; the
  `ManifestMethods` trait with its laws (reading back what was set, merging
  keeps the generated ABI and class hash, merging is idempotent) and its
  implementations, whose `merge` takes over what users set by hand.
- `src/abi.rs`: `AbiFormat`, its equality, and the computing half of loading
  an ABI: the file to read, or the JSON text of the embedded entries.
- `src/felt.rs`: field elements by their bytes, and the `{:#x}` /
  `{:#064x}` text of them, proved against a short specification.
- `src/genesis.rs`: the tables of predeployed contracts and prefunded
  accounts, the seed and the server line, as exact text.
- `src/expansion.rs`: the text of the plugin's expansion tests: the
  module files without repeats, each under its name, joined by blank lines.
- `src/outside.rs`: the outside types the library carries, and the trusted
  wrappers around `serde_json::to_string`, `camino::Utf8Path::join` and path equality.
- `app/`: serde forms of the manifest types, the file reads, and printing.

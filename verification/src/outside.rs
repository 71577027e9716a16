//! Declarations of the outside types that the library carries, and the
//! trusted wrappers around the outside calls that its logic makes.
use vstd::prelude::*;

verus! {

/// An entry of a contract class's ABI, as `starknet` defines it.
pub type ClassAbiEntry = starknet::core::types::contract::AbiEntry;

/// `starknet_crypto::FieldElement`, carried opaquely in manifest entries.
#[verifier::external_type_specification]
#[verifier::external_body]
pub struct ExFieldElement(starknet_crypto::FieldElement);

/// `smol_str::SmolStr`, carried opaquely in overlays.
#[verifier::external_type_specification]
#[verifier::external_body]
pub struct ExSmolStr(smol_str::SmolStr);

/// `starknet`'s ABI entry, carried opaquely in embedded ABIs.
#[verifier::external_type_specification]
#[verifier::external_body]
pub struct ExAbiEntry(starknet::core::types::contract::AbiEntry);

/// The error of `serde_json`.
#[verifier::external_type_specification]
#[verifier::external_body]
pub struct ExJsonError(serde_json::Error);

/// The error of reading a file.
#[verifier::external_type_specification]
#[verifier::external_body]
pub struct ExIoError(std::io::Error);

/// `Clone` of `starknet_crypto::FieldElement` is derived beside `Copy`: the
/// clone is the same value.
pub assume_specification[ <starknet_crypto::FieldElement as Clone>::clone ](
    felt: &starknet_crypto::FieldElement,
) -> (r: starknet_crypto::FieldElement)
    ensures
        r == *felt,
;

/// `Clone` of an ABI entry is derived in `starknet-core`: each field is
/// cloned, so the copy is the same value.
pub assume_specification[ <starknet::core::types::contract::AbiEntry as Clone>::clone ](
    entry: &starknet::core::types::contract::AbiEntry,
) -> (r: starknet::core::types::contract::AbiEntry)
    ensures
        r == *entry,
;

/// `Clone` of `smol_str::SmolStr`; nothing is stated of the copy.
pub assume_specification[ <smol_str::SmolStr as Clone>::clone ](
    s: &smol_str::SmolStr,
) -> smol_str::SmolStr;

/// The JSON text that `serde_json::to_string` writes for a list of ABI entries.
pub uninterp spec fn json_of_abi_entries(entries: Seq<ClassAbiEntry>) -> Seq<char>;

/// The path that `camino::Utf8Path::join` gives for `rel` adjoined to `base`.
pub uninterp spec fn utf8_path_join(base: Seq<char>, rel: Seq<char>) -> Seq<char>;

/// The components of a UTF-8 path, each by its text, as
/// `camino::Utf8Path::components` yields them on this target (a root, `.`
/// at the start, `..`, and names; each component is told apart by its text).
pub uninterp spec fn utf8_path_components(p: Seq<char>) -> Seq<Seq<char>>;

/// Calls `serde_json::to_string` on the entries. Trusted: the text is a
/// function of the entries alone, which `json_of_abi_entries` names; and the
/// call succeeds, since serde_json fails only where a `Serialize` impl fails
/// or a map has keys that are not strings, and the entries hold no map, and
/// their impls (derived, or written by hand in `starknet-core`) only pass
/// strings, integers, sequences and structs on to the serializer.
#[verifier::external_body]
pub(crate) fn abi_entries_to_json(entries: &Vec<ClassAbiEntry>) -> (r: Result<String, serde_json::Error>)
    ensures
        r is Ok,
        r matches Ok(s) ==> s@ == json_of_abi_entries(entries@),
{
    serde_json::to_string(entries)
}

/// Calls `==` on two `camino::Utf8Path`s. Trusted: camino's `PartialEq`
/// is `self.components().eq(other.components())`, so the paths are equal
/// exactly when their components, which `utf8_path_components` names, are.
#[verifier::external_body]
pub(crate) fn utf8_paths_equal(a: &str, b: &str) -> (r: bool)
    ensures
        r == (utf8_path_components(a@) == utf8_path_components(b@)),
{
    camino::Utf8Path::new(a) == camino::Utf8Path::new(b)
}

/// Calls `camino::Utf8Path::join`. Trusted: the joined path is a function of
/// the two paths alone, which `utf8_path_join` names.
#[verifier::external_body]
pub(crate) fn join_utf8_paths(base: &str, rel: &str) -> (r: String)
    ensures
        r@ == utf8_path_join(base@, rel@),
{
    camino::Utf8Path::new(base).join(rel).into_string()
}

} // verus!

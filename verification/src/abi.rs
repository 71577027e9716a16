//! How a manifest refers to the ABI of a class: by a path relative to the
//! project's root directory, or with the ABI entries embedded.
use vstd::prelude::*;
use crate::outside::{
    ClassAbiEntry, abi_entries_to_json, join_utf8_paths, json_of_abi_entries,
    utf8_path_components,
    utf8_path_join, utf8_paths_equal,
};
use vstd::std_specs::cmp::PartialEqSpecImpl;

verus! {

/// Errors of reading or writing manifests.
#[derive(Debug)]
pub enum AbstractManifestError {
    /// The ABI entries could not be written or read as JSON.
    SerdeJson(serde_json::Error),
    /// A file could not be read.
    IO(std::io::Error),
    /// A file that was to hold the ABI's entries holds a path instead.
    NotEmbedded(String),
}

/// Format of the ABI into the manifest.
#[derive(Debug)]
pub enum AbiFormat {
    /// Only a relative path to the ABI file is stored (a UTF-8 path, by its text).
    Path(String),
    /// The full ABI is embedded.
    Embed(Vec<ClassAbiEntry>),
}

/// The ABI reference as a mathematical value: the path's characters, or
/// the sequence of embedded entries.
pub enum AbiFormatView {
    Path(Seq<char>),
    Embed(Seq<ClassAbiEntry>),
}

impl View for AbiFormat {
    type V = AbiFormatView;

    open spec fn view(&self) -> AbiFormatView {
        match self {
            AbiFormat::Path(p) => AbiFormatView::Path(p@),
            AbiFormat::Embed(entries) => AbiFormatView::Embed(entries@),
        }
    }
}

impl Clone for AbiFormat {
    fn clone(&self) -> (r: Self)
        ensures
            r@ == self@,
    {
        match self {
            AbiFormat::Path(p) => AbiFormat::Path(p.clone()),
            AbiFormat::Embed(entries) => {
                let copy = entries.clone();
                assert(copy@ =~= entries@);
                AbiFormat::Embed(copy)
            },
        }
    }
}

/// The ABI as a string: either still in a file, at the given path, or the
/// JSON text of the embedded entries.
#[derive(Debug)]
pub enum AbiString {
    /// The ABI is the content of the file at this path.
    InFile(String),
    /// The ABI's JSON text.
    Text(String),
}

/// The next step of turning an ABI into its embedded form.
#[derive(Debug)]
pub enum Embedding {
    /// The ABI is to be parsed from the JSON file at this path.
    ParseFile(String),
    /// The ABI is already embedded.
    Ready(AbiFormat),
}

impl AbiFormat {
    /// The relative path of the ABI file, where the ABI is stored as a path.
    pub fn to_path(&self) -> (r: Option<&String>)
        ensures
            match self {
                AbiFormat::Path(p) => r matches Some(q) && *q == p,
                AbiFormat::Embed(_) => r is None,
            },
    {
        match self {
            AbiFormat::Path(p) => Some(p),
            AbiFormat::Embed(_) => None,
        }
    }

    /// Loads the ABI as a string: for a path, the file under `root_dir` that
    /// holds it; for embedded entries, their JSON text.
    pub fn load_abi_string(&self, root_dir: &str) -> (r: Result<AbiString, AbstractManifestError>)
        ensures
            match self {
                AbiFormat::Path(p) => r matches Ok(AbiString::InFile(f))
                    && f@ == utf8_path_join(root_dir@, p@),
                AbiFormat::Embed(entries) => r matches Ok(AbiString::Text(s))
                    && s@ == json_of_abi_entries(entries@),
            },
    {
        match self {
            AbiFormat::Path(p) => Ok(AbiString::InFile(join_utf8_paths(root_dir, p.as_str()))),
            AbiFormat::Embed(entries) => match abi_entries_to_json(entries) {
                Ok(s) => Ok(AbiString::Text(s)),
                Err(e) => Err(AbstractManifestError::SerdeJson(e)),
            },
        }
    }

    /// Converts to the embedded form: for a path, the file under `root_dir`
    /// that is to be parsed; embedded entries are already in that form.
    pub fn to_embed(&self, root_dir: &str) -> (r: Embedding)
        ensures
            match self {
                AbiFormat::Path(p) => r matches Embedding::ParseFile(f)
                    && f@ == utf8_path_join(root_dir@, p@),
                AbiFormat::Embed(_) => r matches Embedding::Ready(a) && a@ == self@,
            },
    {
        match self {
            AbiFormat::Path(p) => Embedding::ParseFile(join_utf8_paths(root_dir, p.as_str())),
            AbiFormat::Embed(_) => Embedding::Ready(self.clone()),
        }
    }
}

/// Two ABIs are equal when both are paths with the same components, as
/// `camino` compares paths, or both are embedded entries with the same JSON text.
pub open spec fn abi_formats_equal(a: AbiFormatView, b: AbiFormatView) -> bool {
    match (a, b) {
        (AbiFormatView::Path(p), AbiFormatView::Path(q)) => utf8_path_components(p)
            == utf8_path_components(q),
        (AbiFormatView::Embed(x), AbiFormatView::Embed(y)) => json_of_abi_entries(x) == json_of_abi_entries(y),
        _ => false,
    }
}

/// Whether two ABIs are equal: the same path, or embedded entries with the
/// same JSON text.
pub fn abi_format_eq(a: &AbiFormat, b: &AbiFormat) -> (r: bool)
    ensures
        r == abi_formats_equal(a@, b@),
{
    match (a, b) {
        (AbiFormat::Path(p1), AbiFormat::Path(p2)) => utf8_paths_equal(p1.as_str(), p2.as_str()),
        (AbiFormat::Embed(e1), AbiFormat::Embed(e2)) => {
            let e1_json = abi_entries_to_json(e1);
            let e2_json = abi_entries_to_json(e2);
            match (e1_json, e2_json) {
                (Ok(t1), Ok(t2)) => t1 == t2,
                _ => false,
            }
        },
        _ => false,
    }
}

/// The equality of ABIs (`==`, whose `eq_spec` is `abi_formats_equal`) is an
/// equivalence: every ABI equals itself, the order of two does not matter,
/// and two ABIs equal to a third are equal.
pub proof fn lemma_abi_equality_is_equivalence(x: AbiFormat, y: AbiFormat, z: AbiFormat)
    ensures
        abi_formats_equal(x@, x@),
        abi_formats_equal(x@, y@) == abi_formats_equal(y@, x@),
        abi_formats_equal(x@, y@) && abi_formats_equal(y@, z@) ==> abi_formats_equal(x@, z@),
{
}

/// What equality of ABIs compares: two embedded ABIs by the JSON text of
/// their entries, two paths by their components, and an embedded ABI never
/// equals a path.
pub proof fn lemma_abi_equality_compares(
    p: Seq<char>,
    q: Seq<char>,
    x: Seq<ClassAbiEntry>,
    y: Seq<ClassAbiEntry>,
)
    ensures
        abi_formats_equal(AbiFormatView::Embed(x), AbiFormatView::Embed(y)) <==> json_of_abi_entries(x)
            == json_of_abi_entries(y),
        abi_formats_equal(AbiFormatView::Path(p), AbiFormatView::Path(q)) <==> utf8_path_components(p)
            == utf8_path_components(q),
        !abi_formats_equal(AbiFormatView::Path(p), AbiFormatView::Embed(x)),
        !abi_formats_equal(AbiFormatView::Embed(x), AbiFormatView::Path(p)),
{
}

/// The embedded form of an ABI that was parsed from a file: embedded entries
/// are it; a path is refused, since the file was to hold the entries.
pub fn embedded_abi(parsed: AbiFormat) -> (r: Result<AbiFormat, AbstractManifestError>)
    ensures
        match parsed {
            AbiFormat::Embed(_) => r == Ok::<AbiFormat, AbstractManifestError>(parsed),
            AbiFormat::Path(p) => r matches Err(AbstractManifestError::NotEmbedded(q)) && q == p,
        },
{
    match parsed {
        AbiFormat::Embed(entries) => Ok(AbiFormat::Embed(entries)),
        AbiFormat::Path(p) => Err(AbstractManifestError::NotEmbedded(p)),
    }
}

impl PartialEq for AbiFormat {
    fn eq(&self, other: &Self) -> (r: bool) {
        abi_format_eq(self, other)
    }
}

impl PartialEqSpecImpl for AbiFormat {
    open spec fn obeys_eq_spec() -> bool {
        true
    }

    open spec fn eq_spec(&self, other: &AbiFormat) -> bool {
        abi_formats_equal(self@, other@)
    }
}

} // verus!

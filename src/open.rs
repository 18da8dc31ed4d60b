use vstd::prelude::*;

verus! {

#[verifier::external_type_specification]
#[verifier::external_body]
pub struct ExJsonValue(serde_json::Value);

#[verifier::external_type_specification]
#[verifier::external_body]
pub struct ExJsonError(serde_json::Error);

#[verifier::external_type_specification]
#[verifier::external_body]
pub struct ExTomlValue(toml::Value);

#[verifier::external_type_specification]
#[verifier::external_body]
pub struct ExTomlError(toml::de::Error);

/// The grammar a document is written in.
#[derive(Debug, Clone, Copy, PartialEq, Eq, Structural)]
pub enum Backend {
    Json,
    Toml,
}

/// A whole parsed document, in its backend's own representation.
#[derive(Debug)]
pub enum RawNode {
    Json(serde_json::Value),
    Toml(toml::Value),
}

/// Why a document text was not accepted by its parser.
#[derive(Debug)]
pub enum ParseError {
    Json(serde_json::Error),
    Toml(toml::de::Error),
}

/// Why a document could not be opened.
#[derive(Debug)]
pub enum OpenError {
    /// The path's file name has no extension.
    MissingExtension,
    /// The extension names no supported grammar; it is carried here.
    UnsupportedExtension(String),
    /// The file could not be read; the reason is carried here.
    IoFailure(String),
    /// The file holds no text.
    EmptyDocument,
    /// The text does not parse in the grammar its extension names.
    ParseFailure(ParseError),
    /// No candidate path was accepted by the search.
    NoPathMatched,
}

/// The extension of a path, as `std::path::Path::extension` finds it: the
/// part of the file name after its last `.`, absent when the file name has
/// no `.` other than a leading one. It depends on the path's text alone.
pub uninterp spec fn extension_of(path: Seq<char>) -> Option<Seq<char>>;

/// Whether `serde_json` accepts a text as a JSON document.
pub uninterp spec fn json_accepts(text: Seq<char>) -> bool;

/// Whether `toml` accepts a text as a TOML document.
pub uninterp spec fn toml_accepts(text: Seq<char>) -> bool;

/// Relies on `std::path::Path::extension` to find the extension of a path
/// given as UTF-8 text; the extension of such a path is UTF-8 too.
#[verifier::external_body]
fn path_extension(path: &str) -> (r: Option<String>)
    ensures
        match r {
            Some(e) => extension_of(path@) == Some(e@),
            None => extension_of(path@) is None,
        },
{
    match std::path::Path::new(path).extension() {
        Some(e) => Some(e.to_string_lossy().into_owned()),
        None => None,
    }
}

/// Relies on `serde_json::from_str` to parse a JSON document into a
/// `serde_json::Value`; whether it succeeds depends on the text alone.
#[verifier::external_body]
fn parse_json(text: &str) -> (r: Result<serde_json::Value, serde_json::Error>)
    ensures
        r is Ok <==> json_accepts(text@),
{
    serde_json::from_str::<serde_json::Value>(text)
}

/// Relies on `toml::from_str` to parse a TOML document into a `toml::Value`;
/// whether it succeeds depends on the text alone.
#[verifier::external_body]
fn parse_toml(text: &str) -> (r: Result<toml::Value, toml::de::Error>)
    ensures
        r is Ok <==> toml_accepts(text@),
{
    toml::from_str::<toml::Value>(text)
}

/// The backend that a path's extension selects: `json` and `toml` are
/// recognised, case-sensitively; any other extension, or none, is refused.
pub fn backend_for_path(path: &str) -> (r: Result<Backend, OpenError>)
    ensures
        match extension_of(path@) {
            None => r matches Err(OpenError::MissingExtension),
            Some(e) => if e == "json"@ {
                r matches Ok(Backend::Json)
            } else if e == "toml"@ {
                r matches Ok(Backend::Toml)
            } else {
                r matches Err(OpenError::UnsupportedExtension(x)) && x@ == e
            },
        },
{
    match path_extension(path) {
        None => Err(OpenError::MissingExtension),
        Some(e) => {
            if e == "json".to_owned() {
                Ok(Backend::Json)
            } else if e == "toml".to_owned() {
                Ok(Backend::Toml)
            } else {
                Err(OpenError::UnsupportedExtension(e))
            }
        },
    }
}

/// Parses a document text with the parser of `backend`. An empty text is
/// refused before any parsing; otherwise the text opens exactly when that
/// parser accepts it.
pub fn load(backend: Backend, text: &str) -> (r: Result<RawNode, OpenError>)
    ensures
        text@.len() == 0 ==> r matches Err(OpenError::EmptyDocument),
        text@.len() > 0 && backend == Backend::Json ==> match r {
            Ok(d) => json_accepts(text@) && d is Json,
            Err(e) => !json_accepts(text@) && (e matches OpenError::ParseFailure(ParseError::Json(_))),
        },
        text@.len() > 0 && backend == Backend::Toml ==> match r {
            Ok(d) => toml_accepts(text@) && d is Toml,
            Err(e) => !toml_accepts(text@) && (e matches OpenError::ParseFailure(ParseError::Toml(_))),
        },
{
    if text.is_empty() {
        return Err(OpenError::EmptyDocument);
    }
    match backend {
        Backend::Json => match parse_json(text) {
            Ok(v) => Ok(RawNode::Json(v)),
            Err(e) => Err(OpenError::ParseFailure(ParseError::Json(e))),
        },
        Backend::Toml => match parse_toml(text) {
            Ok(v) => Ok(RawNode::Toml(v)),
            Err(e) => Err(OpenError::ParseFailure(ParseError::Toml(e))),
        },
    }
}

/// Whether `search` answered `None` for each of the first `n` paths.
pub open spec fn none_before<F: Fn(String) -> Option<String>>(
    paths: Seq<String>,
    search: F,
    n: int,
) -> bool {
    forall|j: int| 0 <= j < n ==> search.ensures((#[trigger] paths[j],), None)
}

/// Tries the paths in order and opens the first one that `search` accepts,
/// with the path that `search` returned for it; paths after it are never
/// passed to `search`, and the result of opening it is returned whatever it
/// is. Fails with `NoPathMatched` when `search` accepts none, without calling
/// `open`.
///
/// `search` need only accept being called on a path when it answered `None`
/// for every earlier one, and `open` only on what `search` returned for the
/// first path it accepted: a caller whose `search` or `open` cannot be called
/// elsewhere learns that they were not.
pub fn open_first_match<T, F, O>(paths: Vec<String>, search: F, open: O) -> (r: Result<
    T,
    OpenError,
>) where F: Fn(String) -> Option<String>, O: Fn(String) -> Result<T, OpenError>
    requires
        forall|i: int|
            0 <= i < paths@.len() && none_before(paths@, search, i) ==> search.requires(
                (#[trigger] paths@[i],),
            ),
        forall|i: int, p: String|
            0 <= i < paths@.len() && none_before(paths@, search, i) && #[trigger] search.ensures(
                (paths@[i],),
                Some(p),
            ) ==> open.requires((p,)),
    ensures
        (none_before(paths@, search, paths@.len() as int) && (r matches Err(
            OpenError::NoPathMatched,
        ))) || (exists|i: int, p: String|
            0 <= i < paths@.len() && none_before(paths@, search, i) && #[trigger] search.ensures(
                (paths@[i],),
                Some(p),
            ) && open.ensures((p,), r)),
{
    let mut i: usize = 0;
    while i < paths.len()
        invariant
            0 <= i <= paths.len(),
            forall|k: int|
                0 <= k < paths@.len() && none_before(paths@, search, k) ==> search.requires(
                    (#[trigger] paths@[k],),
                ),
            forall|k: int, p: String|
                0 <= k < paths@.len() && none_before(paths@, search, k)
                    && #[trigger] search.ensures((paths@[k],), Some(p)) ==> open.requires((p,)),
            none_before(paths@, search, i as int),
        decreases paths.len() - i,
    {
        let candidate = paths[i].clone();
        match search(candidate) {
            Some(p) => {
                let r = open(p);
                assert(search.ensures((paths@[i as int],), Some(p)));
                return r;
            },
            None => {},
        }
        i += 1;
    }
    Err(OpenError::NoPathMatched)
}

} // verus!

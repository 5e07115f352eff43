use vstd::prelude::*;
use vstd::string::StringExecFns;
use crate::codec::{decode_as, decode_yaml, lossy_decoded, spec_decode, utf8_lossy, yaml_record_of};
use crate::format::{format_of, format_of_spec};
use crate::record::{Foo, FooView};

verus! {

/// Why resolving an explicit configuration file failed. Each is a fatal,
/// user-facing condition: the caller asked for a specific file.
#[derive(Debug, Clone, Copy, PartialEq, Eq, Structural)]
pub enum ResolveError {
    /// The file could not be read.
    ReadFailed,
    /// The path ends in none of the recognized suffixes.
    UnsupportedFileType,
    /// The contents failed to parse in the format the suffix selected.
    ParseFailed,
}

/// The built-in default record, used when no usable file is found.
pub open spec fn built_in_default() -> FooView {
    FooView { name: Some(seq!["default1"@, "default2"@]), id: Some(12u64) }
}

/// The bytes a read produced, if it succeeded.
pub open spec fn bytes_view(content: Option<Vec<u8>>) -> Option<Seq<u8>> {
    match content {
        Some(b) => Some(b@),
        None => None,
    }
}

/// What resolving an explicit path yields, given the outcome of reading it:
/// a failed read is fatal; then the suffix must select a format; then the
/// text (decoded as UTF-8, lossily) must parse in that format.
pub open spec fn explicit_outcome(path: Seq<char>, content: Option<Seq<u8>>) -> Result<
    FooView,
    ResolveError,
> {
    match content {
        None => Err(ResolveError::ReadFailed),
        Some(bytes) => match format_of_spec(path) {
            None => Err(ResolveError::UnsupportedFileType),
            Some(f) => match spec_decode(f, lossy_decoded(bytes)) {
                None => Err(ResolveError::ParseFailed),
                Some(v) => Ok(v),
            },
        },
    }
}

/// Resolve an explicitly requested configuration file. `content` is the
/// outcome of reading the file at `path`: the bytes, or `None` if the read
/// failed. Every failure is reported, never recovered: the caller asked for
/// this file.
pub fn resolve_explicit(path: &str, content: Option<Vec<u8>>) -> (r: Result<Foo, ResolveError>)
    ensures
        r is Ok <==> explicit_outcome(path@, bytes_view(content)) is Ok,
        r is Ok ==> r->Ok_0@ == explicit_outcome(path@, bytes_view(content))->Ok_0,
        r is Err ==> r->Err_0 == explicit_outcome(path@, bytes_view(content))->Err_0,
{
    match content {
        None => Err(ResolveError::ReadFailed),
        Some(bytes) => {
            let text = utf8_lossy(&bytes);
            match format_of(path) {
                None => Err(ResolveError::UnsupportedFileType),
                Some(f) => match decode_as(f, text.as_str()) {
                    None => Err(ResolveError::ParseFailed),
                    Some(record) => Ok(record),
                },
            }
        },
    }
}

/// The record the default file yields, if it was readable and parses as YAML.
pub open spec fn default_file_outcome(content: Option<Seq<u8>>) -> Option<FooView> {
    match content {
        Some(bytes) => yaml_record_of(lossy_decoded(bytes)),
        None => None,
    }
}

/// Try the per-user default file. `content` is the outcome of reading
/// `config.yaml` in the per-user configuration directory: the bytes, or
/// `None` if the directory is unknown or the file could not be read. Absence
/// and parse failure alike yield `None`: both are benign here.
pub fn try_default_file(content: Option<Vec<u8>>) -> (r: Option<Foo>)
    ensures
        r is Some <==> default_file_outcome(bytes_view(content)) is Some,
        r is Some ==> r->0@ == default_file_outcome(bytes_view(content))->0,
{
    match content {
        Some(bytes) => {
            let text = utf8_lossy(&bytes);
            decode_yaml(text.as_str())
        },
        None => None,
    }
}

/// The built-in default record: `name = ["default1", "default2"]`, `id = 12`.
pub fn literal_default() -> (r: Foo)
    ensures
        r@ == built_in_default(),
{
    let mut names: Vec<String> = Vec::new();
    names.push(String::from_str("default1"));
    names.push(String::from_str("default2"));
    let r = Foo { name: Some(names), id: Some(12) };
    proof {
        assert(r@.name->0 =~= seq!["default1"@, "default2"@]);
        assert(r@ =~= built_in_default());
    }
    r
}

/// What resolving without an explicit path yields: the default file's record
/// if it is present and parses, else the built-in default.
pub open spec fn default_outcome(content: Option<Seq<u8>>) -> FooView {
    match default_file_outcome(content) {
        Some(v) => v,
        None => built_in_default(),
    }
}

/// Resolve when no explicit path was given: use the per-user default file if
/// it is present and parses as YAML, else fall back, silently, to the
/// built-in default. This branch never fails.
pub fn resolve_default(content: Option<Vec<u8>>) -> (r: Foo)
    ensures
        r@ == default_outcome(bytes_view(content)),
{
    match try_default_file(content) {
        Some(record) => record,
        None => literal_default(),
    }
}

/// What full resolution yields, in priority order: an explicit path wins and
/// may fail; without one the default file is tried and the built-in default
/// closes the chain, so that branch never fails.
pub open spec fn resolve_outcome(
    explicit_path: Option<Seq<char>>,
    explicit_content: Option<Seq<u8>>,
    default_content: Option<Seq<u8>>,
) -> Result<FooView, ResolveError> {
    match explicit_path {
        Some(path) => explicit_outcome(path, explicit_content),
        None => Ok(default_outcome(default_content)),
    }
}

/// Full resolution, first match wins. `explicit_content` is the outcome of
/// reading the explicit file (meaningful only when a path is given) and
/// `default_content` the outcome of reading the per-user default file
/// (meaningful only when none is): at most one read ever happens.
pub fn resolve(
    explicit_path: Option<&str>,
    explicit_content: Option<Vec<u8>>,
    default_content: Option<Vec<u8>>,
) -> (r: Result<Foo, ResolveError>)
    ensures
        ({
            let outcome = resolve_outcome(
                match explicit_path {
                    Some(p) => Some(p@),
                    None => None,
                },
                bytes_view(explicit_content),
                bytes_view(default_content),
            );
            &&& r is Ok <==> outcome is Ok
            &&& r is Ok ==> r->Ok_0@ == outcome->Ok_0
            &&& r is Err ==> r->Err_0 == outcome->Err_0
        }),
{
    match explicit_path {
        Some(path) => resolve_explicit(path, explicit_content),
        None => Ok(resolve_default(default_content)),
    }
}

} // verus!

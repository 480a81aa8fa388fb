//! Parsing of URL-bar input into a navigable URL, following the fallback
//! chain direct URL → file path → domain → search query.

use vstd::prelude::*;
use vstd::string::StrSliceExecFns;
use vstd::string::StringExecFns;

use crate::text::{
    lemma_trim_idempotent, starts_with_char, str_contains_char, str_starts_with_char, trim,
    trim_str,
};

verus! {

#[verifier::external_type_specification]
#[verifier::external_body]
pub struct ExParseError(url::ParseError);

/// The serialization of the URL that `url::Url::parse` makes of `input`,
/// or `None` where it rejects `input`.
pub uninterp spec fn parsed_url(input: Seq<char>) -> Option<Seq<char>>;

/// The view of an optional string.
pub open spec fn opt_view(o: Option<String>) -> Option<Seq<char>> {
    match o {
        Some(s) => Some(s@),
        None => None,
    }
}

/// Whether `s` is the serialization of a URL in the `file` scheme.
pub open spec fn is_file_url(s: Seq<char>) -> bool {
    "file://"@.is_prefix_of(s)
}

/// Input that looks like a bare domain or a host with a path: no spaces,
/// and either a dot-separated name not starting with `.` or a `/` that is
/// not the first character.
pub open spec fn looks_like_domain(t: Seq<char>) -> bool {
    &&& !t.contains(' ')
    &&& ((!starts_with_char(t, '.') && t.contains('.')) || (!starts_with_char(t, '/')
        && t.contains('/')))
}

/// The domain fallback: `https://` prepended to domain-like input.
pub open spec fn domain_url(t: Seq<char>) -> Option<Seq<char>> {
    if looks_like_domain(t) {
        parsed_url("https://"@ + t)
    } else {
        None
    }
}

/// The search fallback: the input as a DuckDuckGo query.
pub open spec fn search_url(t: Seq<char>) -> Option<Seq<char>> {
    parsed_url("https://duckduckgo.com/?q="@ + t)
}

/// The first present value among the four candidates.
pub open spec fn first_some(
    a: Option<Seq<char>>,
    b: Option<Seq<char>>,
    c: Option<Seq<char>>,
    d: Option<Seq<char>>,
) -> Option<Seq<char>> {
    if a is Some {
        a
    } else if b is Some {
        b
    } else if c is Some {
        c
    } else {
        d
    }
}

/// What the URL bar navigates to for the trimmed input `t`, given the
/// outcome `file` of converting `t` into a `file` URL: nothing for empty
/// input, else the first of direct parse, file URL, domain, search.
pub open spec fn url_resolution(t: Seq<char>, file: Option<Seq<char>>) -> Option<Seq<char>> {
    if t.len() == 0 {
        None
    } else {
        first_some(parsed_url(t), file, domain_url(t), search_url(t))
    }
}

/// Whether `t` can be an absolute path on some platform: it holds a `/` or
/// a `\` (the root of a Unix or Windows path, or a Windows `\\` prefix) or a
/// `:` (a Windows drive prefix, or a Redox scheme).
pub open spec fn may_be_absolute(t: Seq<char>) -> bool {
    t.contains('/') || t.contains('\\') || t.contains(':')
}

/// What a conversion of `t` into a `file` URL can have produced: nothing,
/// or a `file` URL of non-empty input that can be an absolute path.
pub open spec fn file_outcome(t: Seq<char>, file: Option<Seq<char>>) -> bool {
    file matches Some(u) ==> is_file_url(u) && t.len() > 0 && may_be_absolute(t)
}

/// Calls `url::Url::parse` and returns the serialization of the parsed URL.
/// Claims: the result is `Ok` exactly when the parse succeeds, and its
/// string is the named parse result.
#[verifier::external_body]
fn url_parse(input: &str) -> (r: Result<String, url::ParseError>)
    ensures
        r is Ok <==> parsed_url(input@) is Some,
        r matches Ok(s) ==> parsed_url(input@) == Some(s@),
{
    url::Url::parse(input).map(String::from)
}

/// Calls `std::path::Path::is_absolute` on `path`. Claims that an absolute
/// path is non-empty and holds a `/`, a `\` or a `:`, which every platform's
/// rule requires (a leading `/` on Unix; a prefix and a root on Windows; a
/// scheme with `:` on Redox). Which paths are absolute is otherwise left
/// unsaid, because it depends on the platform.
#[verifier::external_body]
fn path_is_absolute(path: &str) -> (r: bool)
    ensures
        r ==> path@.len() > 0 && may_be_absolute(path@),
{
    std::path::Path::new(path).is_absolute()
}

/// Calls `url::Url::from_file_path` and returns the serialization of the
/// URL. Claims that a produced URL starts with `file://`, which its source
/// writes first, and that only a path that is absolute, and so holds a
/// `/`, a `\` or a `:`, converts (its source rejects other paths first);
/// the rest of the serialization depends on the platform's path syntax and
/// is left unsaid.
#[verifier::external_body]
fn url_from_file_path(path: &str) -> (r: Result<String, ()>)
    ensures
        r matches Ok(s) ==> is_file_url(s@) && path@.len() > 0 && may_be_absolute(path@),
{
    url::Url::from_file_path(path).map(String::from)
}

/// Parses `input` as an absolute URL, returning its serialization.
pub fn parse_url(input: &str) -> (r: Option<String>)
    ensures
        opt_view(r) == parsed_url(input@),
{
    match url_parse(input) {
        Ok(s) => Some(s),
        Err(_) => None,
    }
}

/// Converts an absolute file-system path into a `file` URL.
pub fn try_as_file(input: &str) -> (r: Option<String>)
    ensures
        file_outcome(input@, opt_view(r)),
{
    if path_is_absolute(input) {
        match url_from_file_path(input) {
            Ok(s) => Some(s),
            Err(_) => None,
        }
    } else {
        None
    }
}

/// Treats domain-like input as an `https` URL.
pub fn try_as_domain(input: &str) -> (r: Option<String>)
    ensures
        opt_view(r) == domain_url(input@),
{
    if str_contains_char(input, ' ') {
        return None;
    }
    let has_dot_segments = !str_starts_with_char(input, '.') && str_contains_char(input, '.');
    let has_path = !str_starts_with_char(input, '/') && str_contains_char(input, '/');
    if has_dot_segments || has_path {
        let candidate = String::from_str("https://").concat(input);
        return parse_url(candidate.as_str());
    }
    None
}

/// Turns the input into a DuckDuckGo search URL.
pub fn try_as_search(input: &str) -> (r: Option<String>)
    ensures
        opt_view(r) == search_url(input@),
{
    let candidate = String::from_str("https://duckduckgo.com/?q=").concat(input);
    parse_url(candidate.as_str())
}

/// Resolves URL-bar input given the outcome `file_url` of the file-path
/// conversion of the trimmed input.
pub fn resolve_url_input(input: &str, file_url: Option<String>) -> (r: Option<String>)
    ensures
        opt_view(r) == url_resolution(trim(input@), opt_view(file_url)),
{
    let t = trim_str(input);
    if t.unicode_len() == 0 {
        return None;
    }
    if let Some(u) = parse_url(t) {
        return Some(u);
    }
    if let Some(u) = file_url {
        return Some(u);
    }
    if let Some(u) = try_as_domain(t) {
        return Some(u);
    }
    try_as_search(t)
}

/// Parses URL-bar input into a navigable URL: the input is trimmed, empty
/// input yields nothing, and otherwise the first of a direct parse, an
/// absolute file path, a domain and a search query that yields a URL wins.
pub fn input_to_url(input: &str) -> (r: Option<String>)
    ensures
        trim(input@).len() == 0 ==> r is None,
        parsed_url(trim(input@)) is Some && trim(input@).len() > 0 ==> opt_view(r) == parsed_url(
            trim(input@),
        ),
        exists|f: Option<Seq<char>>|
            file_outcome(trim(input@), f) && opt_view(r) == url_resolution(trim(input@), f),
{
    let t = trim_str(input);
    let file = try_as_file(t);
    let r = resolve_url_input(input, file);
    assert(file_outcome(trim(input@), opt_view(file)));
    r
}

/// URL-bar input resolves as its trimmed form does: trimming twice is
/// trimming once, so for every outcome of the file-path conversion the input
/// and its trimmed form are held to the same resolution; blank input
/// resolves to nothing, and other input resolves to a URL whenever its
/// search URL parses.
pub proof fn law_resolution_ignores_surrounding_space(input: Seq<char>, file: Option<Seq<char>>)
    ensures
        trim(trim(input)) == trim(input),
        url_resolution(trim(trim(input)), file) == url_resolution(trim(input), file),
        file_outcome(trim(trim(input)), file) == file_outcome(trim(input), file),
        trim(input).len() == 0 ==> url_resolution(trim(input), file) is None,
        trim(input).len() > 0 && search_url(trim(input)) is Some ==> url_resolution(
            trim(input),
            file,
        ) is Some,
{
    lemma_trim_idempotent(input);
}

/// The fallback chain runs in its documented order, direct URL → file
/// path → domain → search query: a direct parse wins; failing that, a file
/// URL made of the input wins over the domain and search fallbacks; failing
/// both, input without spaces that has a dot not in first place, or a `/`
/// not in first place, is tried as `https://` + input; and otherwise the
/// input becomes a DuckDuckGo query. Input with a space never takes the
/// domain fallback.
pub proof fn law_fallback_order(t: Seq<char>, file: Option<Seq<char>>)
    requires
        t.len() > 0,
    ensures
        parsed_url(t) is Some ==> url_resolution(t, file) == parsed_url(t),
        parsed_url(t) is None && file is Some ==> url_resolution(t, file) == file,
        parsed_url(t) is None && file is None && !t.contains(' ') && (t[0] != '.' && t.contains(
            '.',
        ) || t[0] != '/' && t.contains('/')) && parsed_url("https://"@ + t) is Some
            ==> url_resolution(t, file) == parsed_url("https://"@ + t),
        parsed_url(t) is None && file is None && t.contains(' ') ==> url_resolution(t, file)
            == parsed_url("https://duckduckgo.com/?q="@ + t),
        parsed_url(t) is None && file is None && !t.contains('.') && !t.contains('/')
            ==> url_resolution(t, file) == parsed_url("https://duckduckgo.com/?q="@ + t),
{
}

} // verus!

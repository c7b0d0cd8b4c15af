//! The file-name resolver: the pure rule mapping an image URL to the local
//! file name its download is stored under.
//!
//! The name is the last segment of the URL's path. A URL that cannot be
//! parsed is rejected; a URL without path segments, or whose last segment
//! is empty, falls back to the literal name `tmp.bin`.
use crate::PipelineError;
use vstd::prelude::*;

verus! {

#[verifier::external_type_specification]
#[verifier::external_body]
pub struct ExUrl(url::Url);

/// The path segments a parsed URL holds, in order: `None` for URLs that
/// cannot be a base (and so have no segments).
pub uninterp spec fn segments_of_url(u: url::Url) -> Option<Seq<Seq<char>>>;

/// The path segments of a URL text: `None` when the text is not a valid
/// URL, and otherwise the segments of the URL it parses to. Parsing is a
/// function of the text alone.
pub uninterp spec fn url_segments_of(s: Seq<char>) -> Option<Option<Seq<Seq<char>>>>;

/// Relies on `url::Url::parse`: it fails exactly on text that is not a
/// valid URL, and otherwise yields the parsed URL, depending on the text
/// alone.
#[verifier::external_body]
fn parse_url(s: &str) -> (r: Option<url::Url>)
    ensures
        r is Some <==> url_segments_of(s@) is Some,
        r matches Some(u) ==> url_segments_of(s@) == Some(segments_of_url(u)),
{
    url::Url::parse(s).ok()
}

/// Relies on `url::Url::path_segments`: it splits the URL's path at `/`,
/// yielding at least one (possibly empty) segment, and returns `None`
/// exactly for cannot-be-a-base URLs.
#[verifier::external_body]
fn path_segments(u: &url::Url) -> (r: Option<Vec<String>>)
    ensures
        r.deep_view() == segments_of_url(*u),
{
    u.path_segments().map(|segs| segs.map(|p| p.to_owned()).collect())
}

/// The fallback name for URLs without a usable last path segment.
pub open spec fn default_file_name() -> Seq<char> {
    "tmp.bin"@
}

/// The resolver's rule on a URL's path segments: the last segment, or the
/// fallback name when there are no segments or the last one is empty.
pub open spec fn name_from_segments(segs: Option<Seq<Seq<char>>>) -> Seq<char> {
    match segs {
        None => default_file_name(),
        Some(s) => if s.len() == 0 || s.last().len() == 0 {
            default_file_name()
        } else {
            s.last()
        },
    }
}

/// The local file name a URL text resolves to, or `None` when the text is
/// not a valid URL.
pub open spec fn resolved_name_of(u: Seq<char>) -> Option<Seq<char>> {
    match url_segments_of(u) {
        None => None,
        Some(segs) => Some(name_from_segments(segs)),
    }
}

/// Apply the resolver's rule to a URL's path segments (`None` meaning the
/// URL has none).
pub fn file_name_from_segments(segs: Option<Vec<String>>) -> (r: String)
    ensures
        r@ == name_from_segments(segs.deep_view()),
{
    match segs {
        None => "tmp.bin".to_owned(),
        Some(v) => {
            if v.len() == 0 {
                "tmp.bin".to_owned()
            } else {
                let last = &v[v.len() - 1];
                if last.as_str().is_empty() {
                    "tmp.bin".to_owned()
                } else {
                    last.clone()
                }
            }
        },
    }
}

/// Resolve the local file name of one URL.
///
/// Returns the name exactly when the URL parses, and
/// `PipelineError::InvalidUrl` on every text that is not a valid URL. The
/// result is a function of the URL text alone.
pub fn resolve(url: &str) -> (r: Result<String, PipelineError>)
    ensures
        (match resolved_name_of(url@) {
            Some(n) => r matches Ok(f) && f@ == n,
            None => r matches Err(PipelineError::InvalidUrl),
        }),
{
    match parse_url(url) {
        None => Err(PipelineError::InvalidUrl),
        Some(u) => Ok(file_name_from_segments(path_segments(&u))),
    }
}

/// Resolving is deterministic and pure: any two resolutions of the same
/// URL text name the same file.
pub proof fn lemma_resolve_deterministic(u: Seq<char>, r1: Option<Seq<char>>, r2: Option<Seq<char>>)
    requires
        r1 == resolved_name_of(u),
        r2 == resolved_name_of(u),
    ensures
        r1 == r2,
{
}

/// Resolve the local file names of a whole URL list, in order.
///
/// Succeeds exactly when every URL parses, in which case the `i`-th name is
/// the resolved name of the `i`-th URL; fails with
/// `PipelineError::InvalidUrl` as soon as one URL does not parse.
#[verifier::loop_isolation(false)]
pub fn resolve_all(urls: &Vec<String>) -> (r: Result<Vec<String>, PipelineError>)
    ensures
        (r is Ok <==> forall|i: int|
            0 <= i < urls@.len() ==> #[trigger] resolved_name_of(urls@[i]@) is Some),
        (r matches Ok(names) ==> names@.len() == urls@.len() && forall|i: int|
            0 <= i < urls@.len() ==> #[trigger] resolved_name_of(urls@[i]@) == Some(names@[i]@)),
        r matches Err(PipelineError::InvalidUrl) || r is Ok,
{
    let mut names: Vec<String> = Vec::new();
    let mut i: usize = 0;
    while i < urls.len()
        invariant
            0 <= i <= urls@.len(),
            names@.len() == i,
            forall|k: int|
                0 <= k < i ==> #[trigger] resolved_name_of(urls@[k]@) == Some(names@[k]@),
        decreases urls@.len() - i,
    {
        match resolve(urls[i].as_str()) {
            Ok(n) => { names.push(n) },
            Err(_) => {
                assert(resolved_name_of(urls@[i as int]@) is None);
                return Err(PipelineError::InvalidUrl);
            },
        }
        i = i + 1;
    }
    Ok(names)
}

} // verus!

//! Telling a remote source from a local one.
//!
//! A source that parses as a URL is remote if its scheme is `http` or
//! `https`, and a local file if its scheme is `file`; any other scheme is
//! refused. A source that does not parse as a URL is the path of a local
//! file.
//!
//! `UrlLike` is what the text of a source says; the path of a local file is
//! there as the source gives it. Whoever has the file system at hand makes
//! that path canonical, and `UrlLike::resolve` takes the outcome and gives the
//! `SourceReference`, in which a local file has its canonical path only.

use crate::error::ClassificationError;
use crate::error::ClassificationErrorView;
use crate::text::optional_text;
use crate::text::same_text;
use vstd::prelude::*;

verus! {

/// What the pipeline reads of a parsed URL.
#[derive(Clone, Debug, PartialEq, Eq)]
pub struct ParsedUrl {
    /// The scheme, in lower case and without the colon.
    pub scheme: String,
    /// The path component.
    pub path: String,
    /// The whole URL, as the parser writes it out.
    pub serialization: String,
}

/// A `ParsedUrl` as text.
pub struct ParsedUrlView {
    pub scheme: Seq<char>,
    pub path: Seq<char>,
    pub serialization: Seq<char>,
}

impl View for ParsedUrl {
    type V = ParsedUrlView;

    open spec fn view(&self) -> ParsedUrlView {
        ParsedUrlView {
            scheme: self.scheme@,
            path: self.path@,
            serialization: self.serialization@,
        }
    }
}

/// What the text of a source says it is: a resource to fetch over the
/// network, or a file on this machine, known by the path that the source
/// gives, which need not be canonical.
#[derive(Clone, Debug, PartialEq, Eq)]
pub enum UrlLike {
    RemoteHTTP(ParsedUrl),
    LocalFile(String),
}

/// A classified source: a resource to fetch over the network, or a file on
/// this machine, known by the canonical path that the file system gave.
#[derive(Clone, Debug, PartialEq, Eq)]
pub enum SourceReference {
    Remote(ParsedUrl),
    LocalFile(String),
}

/// A `SourceReference` as text.
pub enum SourceReferenceView {
    Remote(ParsedUrlView),
    LocalFile(Seq<char>),
}

impl View for SourceReference {
    type V = SourceReferenceView;

    open spec fn view(&self) -> SourceReferenceView {
        match self {
            SourceReference::Remote(url) => SourceReferenceView::Remote(url@),
            SourceReference::LocalFile(path) => SourceReferenceView::LocalFile(path@),
        }
    }
}

impl SourceReference {
    /// Whether the source is fetched over the network.
    pub fn is_remote(&self) -> (r: bool)
        ensures
            r == (self@ is Remote),
    {
        match self {
            SourceReference::Remote(_) => true,
            _ => false,
        }
    }

    /// Whether the source is a file on this machine.
    pub fn is_local(&self) -> (r: bool)
        ensures
            r == (self@ is LocalFile),
    {
        match self {
            SourceReference::LocalFile(_) => true,
            _ => false,
        }
    }
}

/// A `UrlLike` as text.
pub enum UrlLikeView {
    RemoteHTTP(ParsedUrlView),
    LocalFile(Seq<char>),
}

impl View for UrlLike {
    type V = UrlLikeView;

    open spec fn view(&self) -> UrlLikeView {
        match self {
            UrlLike::RemoteHTTP(url) => UrlLikeView::RemoteHTTP(url@),
            UrlLike::LocalFile(path) => UrlLikeView::LocalFile(path@),
        }
    }
}

/// The outcome of a classification as text.
pub open spec fn classification_view(outcome: Result<UrlLike, ClassificationError>) -> Result<
    UrlLikeView,
    ClassificationErrorView,
> {
    match outcome {
        Ok(source) => Ok(source@),
        Err(error) => Err(error@),
    }
}

/// What `url::Url::parse` makes of `raw`: nothing where it refuses it, else
/// the scheme, the path and the serialization of the URL.
pub uninterp spec fn parsed_url(raw: Seq<char>) -> Option<ParsedUrlView>;

/// Calls `url::Url::parse` on `raw`. Where the parser returns a URL, the
/// result holds what its methods `scheme`, `path` and `as_str` return;
/// where it returns an error, the result is `None`. The contract gives that
/// result the name `parsed_url(raw@)` and claims nothing else.
#[verifier::external_body]
fn parse_url(raw: &str) -> (r: Option<ParsedUrl>)
    ensures
        match r {
            Some(url) => parsed_url(raw@) == Some(url@),
            None => parsed_url(raw@) is None,
        },
{
    match ::url::Url::parse(raw) {
        Ok(url) => Some(
            ParsedUrl {
                scheme: url.scheme().to_string(),
                path: url.path().to_string(),
                serialization: url.as_str().to_string(),
            },
        ),
        Err(_) => None,
    }
}

/// The schemes of sources that are fetched over the network.
pub open spec fn is_web_scheme(scheme: Seq<char>) -> bool {
    scheme == "http"@ || scheme == "https"@
}

/// The class of the source `raw`, given what the URL parser made of it.
pub open spec fn classification(parsed: Option<ParsedUrlView>, raw: Seq<char>) -> Result<
    UrlLikeView,
    ClassificationErrorView,
> {
    match parsed {
        Some(url) => if is_web_scheme(url.scheme) {
            Ok(UrlLikeView::RemoteHTTP(url))
        } else if url.scheme == "file"@ {
            Ok(UrlLikeView::LocalFile(url.path))
        } else {
            Err(ClassificationErrorView::UnsupportedScheme(url.scheme))
        },
        None => Ok(UrlLikeView::LocalFile(raw)),
    }
}

/// The outcome of a resolution as text.
pub open spec fn resolution_view(outcome: Result<SourceReference, ClassificationError>) -> Result<
    SourceReferenceView,
    ClassificationErrorView,
> {
    match outcome {
        Ok(source) => Ok(source@),
        Err(error) => Err(error@),
    }
}

/// A source after the attempt to make its path canonical. The attempt
/// concerns local files only: a local file takes the canonical path, or is
/// refused where there is none; a remote source needs no path.
pub open spec fn resolution(source: UrlLikeView, canonical: Option<Seq<char>>) -> Result<
    SourceReferenceView,
    ClassificationErrorView,
> {
    match source {
        UrlLikeView::RemoteHTTP(url) => Ok(SourceReferenceView::Remote(url)),
        UrlLikeView::LocalFile(_) => match canonical {
            Some(path) => Ok(SourceReferenceView::LocalFile(path)),
            None => Err(ClassificationErrorView::PathResolution),
        },
    }
}

impl UrlLike {
    /// Whether the source is fetched over the network.
    pub fn is_http(&self) -> (r: bool)
        ensures
            r == (self@ is RemoteHTTP),
    {
        match self {
            UrlLike::RemoteHTTP(_) => true,
            _ => false,
        }
    }

    /// Whether the source is a file on this machine.
    pub fn is_file(&self) -> (r: bool)
        ensures
            r == (self@ is LocalFile),
    {
        match self {
            UrlLike::LocalFile(_) => true,
            _ => false,
        }
    }

    /// Classifies the source `raw`, given what the URL parser made of it.
    pub fn from_parsed(parsed: Option<ParsedUrl>, raw: &str) -> (r: Result<
        UrlLike,
        ClassificationError,
    >)
        ensures
            classification_view(r) == classification(
                match parsed {
                    Some(url) => Some(url@),
                    None => None,
                },
                raw@,
            ),
    {
        match parsed {
            Some(url) => {
                if same_text(url.scheme.as_str(), "http") || same_text(
                    url.scheme.as_str(),
                    "https",
                ) {
                    Ok(UrlLike::RemoteHTTP(url))
                } else if same_text(url.scheme.as_str(), "file") {
                    Ok(UrlLike::LocalFile(url.path))
                } else {
                    Err(ClassificationError::UnsupportedScheme(url.scheme))
                }
            },
            None => Ok(UrlLike::LocalFile(raw.to_owned())),
        }
    }

    /// Classifies the source `x` by its text. A local file comes back with
    /// its path as the source gives it; `resolve` makes the source reference
    /// of it.
    pub fn new(x: &str) -> (r: Result<UrlLike, ClassificationError>)
        ensures
            classification_view(r) == classification(parsed_url(x@), x@),
    {
        Self::from_parsed(parse_url(x), x)
    }

    /// The path that is to be made canonical before the source can be
    /// resolved: that of a local file, and none for a remote source.
    pub fn local_path(&self) -> (r: Option<&String>)
        ensures
            match r {
                Some(path) => self@ == UrlLikeView::LocalFile(path@),
                None => self@ is RemoteHTTP,
            },
    {
        match self {
            UrlLike::RemoteHTTP(_) => None,
            UrlLike::LocalFile(path) => Some(path),
        }
    }

    /// Makes the source reference, given the outcome of making the path of
    /// a local file canonical: the local file with its canonical path, or
    /// `PathResolution` for `None`, which stands for a path that could not
    /// be made canonical. A remote source needs no path and is always
    /// resolved.
    pub fn resolve(self, canonical: Option<String>) -> (r: Result<
        SourceReference,
        ClassificationError,
    >)
        ensures
            resolution_view(r) == resolution(self@, optional_text(canonical)),
    {
        match self {
            UrlLike::RemoteHTTP(url) => Ok(SourceReference::Remote(url)),
            UrlLike::LocalFile(_) => match canonical {
                Some(path) => Ok(SourceReference::LocalFile(path)),
                None => Err(ClassificationError::PathResolution),
            },
        }
    }
}

impl std::str::FromStr for UrlLike {
    type Err = ClassificationError;

    /// Classifies the source `s`, as `UrlLike::new` does.
    fn from_str(s: &str) -> (r: Result<UrlLike, ClassificationError>)
        ensures
            classification_view(r) == classification(parsed_url(s@), s@),
    {
        UrlLike::new(s)
    }
}

/// Whether two outcomes of a classification are of the same kind.
pub open spec fn same_kind(
    a: Result<SourceReferenceView, ClassificationErrorView>,
    b: Result<SourceReferenceView, ClassificationErrorView>,
) -> bool {
    match (a, b) {
        (Ok(SourceReferenceView::Remote(_)), Ok(SourceReferenceView::Remote(_))) => true,
        (Ok(SourceReferenceView::LocalFile(_)), Ok(SourceReferenceView::LocalFile(_))) => true,
        (
            Err(ClassificationErrorView::UnsupportedScheme(_)),
            Err(ClassificationErrorView::UnsupportedScheme(_)),
        ) => true,
        (
            Err(ClassificationErrorView::PathResolution),
            Err(ClassificationErrorView::PathResolution),
        ) => true,
        _ => false,
    }
}

/// The class of a source after `classification` and `resolution`.
pub open spec fn resolved_classification(
    parsed: Option<ParsedUrlView>,
    raw: Seq<char>,
    canonical: Option<Seq<char>>,
) -> Result<SourceReferenceView, ClassificationErrorView> {
    match classification(parsed, raw) {
        Ok(source) => resolution(source, canonical),
        Err(error) => Err(error),
    }
}

/// Classifying the same source twice gives outcomes of the same kind,
/// whatever path the file system returned each time, as long as it answered
/// both times or failed both times.
pub proof fn lemma_classification_is_deterministic(
    parsed: Option<ParsedUrlView>,
    raw: Seq<char>,
    first: Option<Seq<char>>,
    second: Option<Seq<char>>,
)
    requires
        first is Some <==> second is Some,
    ensures
        same_kind(
            resolved_classification(parsed, raw, first),
            resolved_classification(parsed, raw, second),
        ),
{
}

/// A web source is classified without the file system: whatever the attempt
/// to make a path canonical returns, the outcome is the same remote source.
pub proof fn lemma_web_source_needs_no_file_system(
    url: ParsedUrlView,
    raw: Seq<char>,
    canonical: Option<Seq<char>>,
)
    requires
        is_web_scheme(url.scheme),
    ensures
        resolved_classification(Some(url), raw, canonical) == Ok::<
            SourceReferenceView,
            ClassificationErrorView,
        >(SourceReferenceView::Remote(url)),
{
}

/// A source that is no URL, or a URL of the scheme `file`, is a local file:
/// it is resolved with the canonical path that the file system gave, whatever
/// that is, and refused as `PathResolution` where the file system gave none.
pub proof fn lemma_local_source_takes_its_canonical_path(
    parsed: Option<ParsedUrlView>,
    raw: Seq<char>,
    canonical: Option<Seq<char>>,
)
    requires
        parsed matches Some(url) ==> url.scheme == "file"@,
    ensures
        resolved_classification(parsed, raw, canonical) == match canonical {
            Some(path) => Ok::<SourceReferenceView, ClassificationErrorView>(
                SourceReferenceView::LocalFile(path),
            ),
            None => Err::<SourceReferenceView, ClassificationErrorView>(
                ClassificationErrorView::PathResolution,
            ),
        },
{
    reveal_strlit("file");
    reveal_strlit("http");
    reveal_strlit("https");
    assert("file"@[0] == 'f' && "http"@[0] == 'h' && "https"@[0] == 'h');
}

} // verus!

//! URIs as the relay reads them, and the one place where a URI is built.
//!
//! A URI reaches this crate as its three parts in text.  Whether three texts
//! make a URI is for `http` to say; that answer is named by [`uri_accepts`].

use crate::text::{lemma_prefix_properties, prefix_before};
use vstd::prelude::*;

verus! {

/// `http::Error`, which says why no URI was built.  The relay does not read
/// it.
#[verifier::external_type_specification]
#[verifier::external_body]
pub struct ExHttpError(http::Error);

/// The parts of a URI: `scheme://authority/path?query`.  A part that the URI
/// lacks is `None`.
#[derive(Debug, Clone, PartialEq, Eq)]
pub struct UriParts {
    pub scheme: Option<String>,
    pub authority: Option<String>,
    pub path_and_query: Option<String>,
}

/// `UriParts` with each text as a sequence of characters.
pub struct UriPartsView {
    pub scheme: Option<Seq<char>>,
    pub authority: Option<Seq<char>>,
    pub path_and_query: Option<Seq<char>>,
}

impl View for UriParts {
    type V = UriPartsView;

    open spec fn view(&self) -> UriPartsView {
        UriPartsView {
            scheme: self.scheme.deep_view(),
            authority: self.authority.deep_view(),
            path_and_query: self.path_and_query.deep_view(),
        }
    }
}

/// Whether `http` makes a URI of these three texts: whether
/// `http::uri::Builder::build` succeeds once the builder was given them as
/// scheme, authority, and path and query.
pub uninterp spec fn uri_accepts(
    scheme: Seq<char>,
    authority: Seq<char>,
    path_and_query: Seq<char>,
) -> bool;

/// The text up to the first `#`, which is where a fragment begins.
pub open spec fn before_fragment(text: Seq<char>) -> Seq<char> {
    prefix_before(text, '#')
}

/// The path and query that a built URI shows for the text it was given: the
/// text without its fragment, and `/` where that leaves nothing.
pub open spec fn shown_path_and_query(text: Seq<char>) -> Seq<char> {
    if before_fragment(text).len() == 0 {
        seq!['/']
    } else {
        before_fragment(text)
    }
}

/// The parts of the URI built from three accepted texts.
pub open spec fn built_parts(
    scheme: Seq<char>,
    authority: Seq<char>,
    path_and_query: Seq<char>,
) -> UriPartsView {
    UriPartsView {
        scheme: Some(scheme),
        authority: Some(authority),
        path_and_query: Some(shown_path_and_query(path_and_query)),
    }
}

/// `http::Uri::builder`, its `scheme`, `authority` and `path_and_query`, and
/// `build`; the parts of the result are read back with `scheme_str`,
/// `authority` and `path_and_query`.  The call succeeds exactly on the texts
/// that [`uri_accepts`] names.  The URI then shows the scheme and the
/// authority as given, and the path and query without a fragment.
#[verifier::external_body]
pub(crate) fn build(scheme: &str, authority: &str, path_and_query: &str) -> (built: Result<
    UriParts,
    http::Error,
>)
    ensures
        match built {
            Ok(parts) => {
                &&& uri_accepts(scheme@, authority@, path_and_query@)
                &&& parts@ == built_parts(scheme@, authority@, path_and_query@)
            },
            Err(_) => !uri_accepts(scheme@, authority@, path_and_query@),
        },
{
    let uri = http::Uri::builder().scheme(scheme).authority(authority).path_and_query(
        path_and_query,
    ).build()?;
    Ok(
        UriParts {
            scheme: uri.scheme_str().map(str::to_owned),
            authority: uri.authority().map(|a| a.as_str().to_owned()),
            path_and_query: uri.path_and_query().map(|p| p.as_str().to_owned()),
        },
    )
}

/// A text that is not empty and holds no `#` is shown as it is.
pub proof fn lemma_shown_as_given(text: Seq<char>)
    requires
        text.len() > 0,
        !text.contains('#'),
    ensures
        shown_path_and_query(text) == text,
{
    lemma_prefix_properties(text, '#');
}

} // verus!

//! The two local file names that a download URL carries.
//!
//! A download URL names the archive as it is stored in its fragment, and the content once
//! unpacked in the last segment of its path: `https://host/dir/content.bin#archive.tgz`.
//! The URL is taken apart by the `url` crate, as `reqwest` hands it on.

use crate::error::DownloadError;
use crate::error::DownloadErrorView;
use vstd::prelude::*;
use vstd::string::*;

verus! {

/// Whether `reqwest::Url::parse` accepts `text`.
pub uninterp spec fn url_accepted(text: Seq<char>) -> bool;

/// The path segments of the URL that `text` writes, as `Url::path_segments` yields them.
/// `None` where the URL has no such path.
pub uninterp spec fn url_path_segments(text: Seq<char>) -> Option<Seq<Seq<char>>>;

/// The fragment of the URL that `text` writes, as `Url::fragment` returns it: what follows
/// `#`. `None` where the URL has none.
pub uninterp spec fn url_fragment(text: Seq<char>) -> Option<Seq<char>>;

/// What this library reads of a parsed URL.
#[derive(Clone, Debug, PartialEq, Eq)]
pub struct UrlParts {
    /// The segments of the path, where the URL has a path that is made of segments.
    pub segments: Option<Vec<String>>,
    /// The fragment, where the URL has one.
    pub fragment: Option<String>,
}

/// What the parts of a URL hold, as text.
pub struct UrlPartsView {
    pub segments: Option<Seq<Seq<char>>>,
    pub fragment: Option<Seq<char>>,
}

impl View for UrlParts {
    type V = UrlPartsView;

    open spec fn view(&self) -> UrlPartsView {
        UrlPartsView {
            segments: match self.segments {
                Some(segments) => Some(segments@.map_values(|s: String| s@)),
                None => None,
            },
            fragment: match self.fragment {
                Some(fragment) => Some(fragment@),
                None => None,
            },
        }
    }
}

/// `reqwest::Url::parse` on `text`, then `path_segments` and `fragment` of the URL it
/// returned, each segment and the fragment copied into a `String`. `None` where the text is
/// refused.
#[verifier::external_body]
fn url_parts(text: &str) -> (out: Option<UrlParts>)
    ensures
        out is Some <==> url_accepted(text@),
        out is Some ==> out->0@.segments == url_path_segments(text@),
        out is Some ==> out->0@.fragment == url_fragment(text@),
{
    let url = reqwest::Url::parse(text).ok()?;
    let segments = url.path_segments().map(|parts| parts.map(String::from).collect());
    let fragment = url.fragment().map(String::from);
    Some(UrlParts { segments, fragment })
}

/// The local file names of one download.
#[derive(Clone, Debug, PartialEq, Eq)]
pub struct DownloadPath {
    /// Where the archive is stored as it arrives.
    pub compressed_path: String,
    /// The name of the content once it is unpacked.
    pub uncompressed_path: String,
}

/// The two file names as text.
pub struct DownloadPathView {
    pub compressed_path: Seq<char>,
    pub uncompressed_path: Seq<char>,
}

impl View for DownloadPath {
    type V = DownloadPathView;

    open spec fn view(&self) -> DownloadPathView {
        DownloadPathView {
            compressed_path: self.compressed_path@,
            uncompressed_path: self.uncompressed_path@,
        }
    }
}

/// The last path segment of the parts, where they hold one that is not empty.
pub open spec fn last_segment(parts: UrlPartsView) -> Option<Seq<char>> {
    match parts.segments {
        Some(segments) if segments.len() > 0 && segments.last().len() > 0 => Some(
            segments.last(),
        ),
        _ => None,
    }
}

/// The file names that the parts of a URL give: the fragment names the archive, the last
/// path segment names the content. `None` where either is missing.
pub open spec fn paths_of_parts(parts: UrlPartsView) -> Option<DownloadPathView> {
    match (last_segment(parts), parts.fragment) {
        (Some(segment), Some(fragment)) => Some(
            DownloadPathView { compressed_path: fragment, uncompressed_path: segment },
        ),
        _ => None,
    }
}

/// The file names that the URL written `url` gives. `None` where the text is no URL, or the
/// URL lacks a last path segment or a fragment.
pub open spec fn paths_of_url(url: Seq<char>) -> Option<DownloadPathView> {
    if url_accepted(url) {
        paths_of_parts(
            UrlPartsView { segments: url_path_segments(url), fragment: url_fragment(url) },
        )
    } else {
        None
    }
}

impl DownloadPath {
    /// The file names that the parts of a URL give; the names are the fragment and the last
    /// segment, character for character.
    pub fn from_parts(parts: UrlParts) -> (out: Option<DownloadPath>)
        ensures
            match (out, paths_of_parts(parts@)) {
                (Some(paths), Some(expected)) => paths@ == expected,
                (None, None) => true,
                _ => false,
            },
    {
        let UrlParts { segments, fragment } = parts;
        let mut segments = match segments {
            Some(segments) => segments,
            None => { return None; },
        };
        let ghost all = segments@.map_values(|s: String| s@);
        let segment = match segments.pop() {
            Some(segment) => segment,
            None => { return None; },
        };
        assert(segment@ == all.last());
        if segment.as_str().is_empty() {
            return None;
        }
        match fragment {
            Some(fragment) => Some(
                DownloadPath { compressed_path: fragment, uncompressed_path: segment },
            ),
            None => None,
        }
    }

    /// The file names that `download_url` carries, or the failure that names the URL.
    pub fn from(download_url: &str) -> (out: Result<DownloadPath, DownloadError>)
        ensures
            match out {
                Ok(paths) => paths_of_url(download_url@) == Some(paths@),
                Err(e) => paths_of_url(download_url@) is None && e@
                    == (DownloadErrorView::MalformedUrl { url: download_url@ }),
            },
    {
        let found = match url_parts(download_url) {
            Some(parts) => DownloadPath::from_parts(parts),
            None => None,
        };
        match found {
            Some(paths) => Ok(paths),
            None => Err(DownloadError::MalformedUrl { url: String::from_str(download_url) }),
        }
    }
}

} // verus!

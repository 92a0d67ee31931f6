//! The ways in which a download fails.

use vstd::prelude::*;
use vstd::string::*;

verus! {

/// Why a download was given up. Each failure ends the download at once: none is retried.
#[derive(Clone, Debug, PartialEq, Eq)]
pub enum DownloadError {
    /// No known version met the requirement, and the manifest pins none.
    Resolution,
    /// The URL could not be parsed, or it lacks a last path segment or a fragment.
    MalformedUrl { url: String },
    /// The request failed, or the response could not be read.
    Transport { url: String },
    /// The response declared no length, or one that is no number.
    MissingMetadata { url: String },
    /// A file stands at the destination already; it is left as it is.
    FileExists { path: String },
    /// Creating the destination file or writing to it failed otherwise.
    Io { path: String },
}

/// A failure with the text of the URL or path that it names.
pub enum DownloadErrorView {
    Resolution,
    MalformedUrl { url: Seq<char> },
    Transport { url: Seq<char> },
    MissingMetadata { url: Seq<char> },
    FileExists { path: Seq<char> },
    Io { path: Seq<char> },
}

impl View for DownloadError {
    type V = DownloadErrorView;

    open spec fn view(&self) -> DownloadErrorView {
        match *self {
            DownloadError::Resolution => DownloadErrorView::Resolution,
            DownloadError::MalformedUrl { url } => DownloadErrorView::MalformedUrl { url: url@ },
            DownloadError::Transport { url } => DownloadErrorView::Transport { url: url@ },
            DownloadError::MissingMetadata { url } => DownloadErrorView::MissingMetadata {
                url: url@,
            },
            DownloadError::FileExists { path } => DownloadErrorView::FileExists { path: path@ },
            DownloadError::Io { path } => DownloadErrorView::Io { path: path@ },
        }
    }
}

impl DownloadErrorView {
    /// What the failure says of itself: what went wrong, and the URL or path that it went
    /// wrong with.
    pub open spec fn message(self) -> Seq<char> {
        match self {
            DownloadErrorView::Resolution => "no download URL or valid version given"@,
            DownloadErrorView::MalformedUrl { url } => "malformed download URL: "@ + url,
            DownloadErrorView::Transport { url } => "download failed: "@ + url,
            DownloadErrorView::MissingMetadata { url } => "no content length given: "@ + url,
            DownloadErrorView::FileExists { path } => "file exists already: "@ + path,
            DownloadErrorView::Io { path } => "could not write file: "@ + path,
        }
    }
}

impl DownloadError {
    /// The message of the failure.
    pub fn message(&self) -> (out: String)
        ensures
            out@ == self@.message(),
    {
        match self {
            DownloadError::Resolution => String::from_str(
                "no download URL or valid version given",
            ),
            DownloadError::MalformedUrl { url } => String::from_str(
                "malformed download URL: ",
            ).concat(url.as_str()),
            DownloadError::Transport { url } => String::from_str("download failed: ").concat(
                url.as_str(),
            ),
            DownloadError::MissingMetadata { url } => String::from_str(
                "no content length given: ",
            ).concat(url.as_str()),
            DownloadError::FileExists { path } => String::from_str(
                "file exists already: ",
            ).concat(path.as_str()),
            DownloadError::Io { path } => String::from_str("could not write file: ").concat(
                path.as_str(),
            ),
        }
    }
}

} // verus!

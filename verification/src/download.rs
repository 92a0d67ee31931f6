//! The course of one download, step by step.
//!
//! A download asks the network for a URL, creates a file and copies the response into it.
//! None of that happens here. This module decides what is asked for, what each answer
//! leads to, and what the download comes to in the end; the caller performs each step and
//! reports how it went.
//!
//! The steps, in their order: [`download`] resolves the version and the URL and gives a
//! [`Request`]. Once the URL has been fetched, [`Request::responded`] reads the declared
//! length, derives the file names and gives a [`Transfer`]. The caller creates the file at
//! [`Transfer::destination`], which must not exist yet, copies the response into it, reporting
//! each read to [`Transfer::record`], and ends with [`Transfer::complete`]. A step that
//! went wrong is reported to the method that returns the failure.

use crate::error::DownloadError;
use crate::error::DownloadErrorView;
use crate::manifest::Manifest;
use crate::manifest::Package;
use crate::paths::paths_of_url;
use crate::paths::DownloadPath;
use crate::paths::DownloadPathView;
use crate::progress::DownloadProgress;
use crate::progress::ReadOutcome;
use crate::template::lemma_replace_without_token;
use crate::template::occurs_at;
use crate::template::replace_all;
use crate::template::replace_token;
use crate::text::parse_decimal;
use crate::text::parse_u64;
use crate::version::requirement_of;
use crate::version::resolve_version;
use crate::version::resolved;
use crate::version::Version;
use crate::version::VersionReq;
use crate::version::VersionView;
use vstd::prelude::*;
use vstd::string::*;

verus! {

/// The token of a URL template that stands for the version.
pub open spec fn version_token() -> Seq<char> {
    seq!['{', 'v', 'e', 'r', 's', 'i', 'o', 'n', '}']
}

/// The URL that `template` gives for `version`: each `{version}` in it is replaced by the
/// canonical text of the version.
pub open spec fn assembled_url(template: Seq<char>, version: VersionView) -> Seq<char> {
    replace_all(template, version_token(), version.text())
}

/// What a manifest and a requirement resolve to: the version to download and its URL.
/// `None` where no known version meets the requirement and none is pinned.
pub open spec fn resolution(manifest: Manifest, req: Option<Seq<char>>) -> Option<
    (Seq<char>, VersionView),
> {
    match resolved(manifest.known(), req, manifest.pinned()) {
        Some(version) => Some((assembled_url(manifest.download.url@, version), version)),
        None => None,
    }
}

/// A template in which `{version}` does not occur gives itself as the URL, whatever the
/// version.
pub proof fn lemma_template_without_token(template: Seq<char>, version: VersionView)
    requires
        forall|i: int| !occurs_at(template, version_token(), i),
    ensures
        assembled_url(template, version) == template,
{
    lemma_replace_without_token(template, version_token(), version.text());
}

/// Puts `version` into `template`, in place of each `{version}`. A template without the
/// token comes back as it is.
pub fn assemble_url(template: &str, version: &Version) -> (url: String)
    ensures
        url@ == assembled_url(template@, version@),
{
    let text = version.to_text();
    proof {
        reveal_strlit("{version}");
        assert("{version}"@ =~= version_token());
    }
    replace_token(template, "{version}", text.as_str())
}

/// Resolves the version to download, and the URL to download it from.
pub fn assemble_download_url(manifest: &Manifest, req: Option<VersionReq>) -> (out: Option<
    (String, Version),
>)
    ensures
        match (out, resolution(*manifest, requirement_of(req))) {
            (Some((url, version)), Some((expected_url, expected_version))) => url@
                == expected_url && version@ == expected_version,
            (None, None) => true,
            _ => false,
        },
{
    let version = resolve_version(&manifest.versions, req, &manifest.download.version)?;
    let url = assemble_url(manifest.download.url.as_str(), &version);
    Some((url, version))
}

/// What a finished download comes to.
#[derive(Debug, PartialEq, Eq)]
pub struct DownloadInfo<'a> {
    pub package: &'a Package,
    pub version: Version,
    /// The number of bytes that were written to the archive.
    pub size: u64,
    pub compressed_path: String,
    pub uncompressed_path: String,
}

/// A download that is resolved and waits for its URL to be fetched.
#[derive(Debug, PartialEq, Eq)]
pub struct Request<'a> {
    pub package: &'a Package,
    pub url: String,
    pub version: Version,
}

/// A download whose response has arrived: the archive is to be created at the destination,
/// and the response copied into it.
#[derive(Debug, PartialEq, Eq)]
pub struct Transfer<'a> {
    pub package: &'a Package,
    pub version: Version,
    pub paths: DownloadPath,
    pub progress: DownloadProgress,
}

/// Why the archive could not be created.
#[derive(Clone, Copy, Debug, PartialEq, Eq)]
pub enum CreateFailure {
    /// A file stands at the destination already.
    AlreadyExists,
    /// Any other failure.
    Other,
}

/// The text of an optional header value.
pub open spec fn text_of(header: Option<&str>) -> Option<Seq<char>> {
    match header {
        Some(text) => Some(text@),
        None => None,
    }
}

/// The length that a response declares: the value of its length header read as a decimal
/// number. `None` where the header is missing or holds no such number.
pub open spec fn declared_length(header: Option<Seq<char>>) -> Option<u64> {
    match header {
        Some(text) => parse_decimal(text),
        None => None,
    }
}

/// What the response to the request for `url` leads to, given the value of its length
/// header: the declared length and the file names, or the failure. The length is read
/// before the names are derived.
pub open spec fn answered(url: Seq<char>, header: Option<Seq<char>>) -> Result<
    (u64, DownloadPathView),
    DownloadErrorView,
> {
    match declared_length(header) {
        None => Err(DownloadErrorView::MissingMetadata { url }),
        Some(total) => match paths_of_url(url) {
            None => Err(DownloadErrorView::MalformedUrl { url }),
            Some(paths) => Ok((total, paths)),
        },
    }
}

/// Begins a download: resolves the version and the URL. Fails where no known version meets
/// the requirement and the manifest pins none.
pub fn download<'a>(manifest: &'a Manifest, req: Option<VersionReq>) -> (out: Result<
    Request<'a>,
    DownloadError,
>)
    ensures
        match (out, resolution(*manifest, requirement_of(req))) {
            (Ok(request), Some((url, version))) => *request.package == manifest.package
                && request.url@ == url && request.version@ == version,
            (Err(e), None) => e@ == DownloadErrorView::Resolution,
            _ => false,
        },
{
    match assemble_download_url(manifest, req) {
        Some((url, version)) => Ok(Request { package: &manifest.package, url, version }),
        None => Err(DownloadError::Resolution),
    }
}

impl<'a> Request<'a> {
    /// The request could not be made, or its response could not be read.
    pub fn failed(self) -> (out: DownloadError)
        ensures
            out@ == (DownloadErrorView::Transport { url: self.url@ }),
    {
        DownloadError::Transport { url: self.url }
    }

    /// The response has arrived, with `content_length` as the value of its length header,
    /// if it has one. The declared length is read first, then the file names are derived
    /// from the URL; the counter starts at nothing, with the declared length as its total.
    pub fn responded(self, content_length: Option<&str>) -> (out: Result<
        Transfer<'a>,
        DownloadError,
    >)
        ensures
            match (out, answered(self.url@, text_of(content_length))) {
                (Ok(transfer), Ok((total, paths))) => {
                    &&& transfer.progress == (DownloadProgress {
                        total,
                        position: 0,
                        finished: false,
                    })
                    &&& transfer.paths@ == paths
                    &&& transfer.package == self.package
                    &&& transfer.version@ == self.version@
                },
                (Err(e), Err(expected)) => e@ == expected,
                _ => false,
            },
    {
        let declared = match content_length {
            Some(text) => parse_u64(text),
            None => None,
        };
        let total = match declared {
            Some(total) => total,
            None => { return Err(DownloadError::MissingMetadata { url: self.url }); },
        };
        let paths = DownloadPath::from(self.url.as_str())?;
        Ok(
            Transfer {
                package: self.package,
                version: self.version,
                paths,
                progress: DownloadProgress::new(total),
            },
        )
    }
}

impl<'a> Transfer<'a> {
    /// The path at which the archive is to be created. It must not exist yet: a file that
    /// stands there is never written over.
    pub fn destination(&self) -> (out: &str)
        ensures
            out@ == self.paths@.compressed_path,
    {
        self.paths.compressed_path.as_str()
    }

    /// The archive could not be created.
    pub fn refused(self, failure: CreateFailure) -> (out: DownloadError)
        ensures
            out@ == (match failure {
                CreateFailure::AlreadyExists => DownloadErrorView::FileExists {
                    path: self.paths@.compressed_path,
                },
                CreateFailure::Other => DownloadErrorView::Io { path: self.paths@.compressed_path },
            }),
    {
        match failure {
            CreateFailure::AlreadyExists => DownloadError::FileExists {
                path: self.paths.compressed_path,
            },
            CreateFailure::Other => DownloadError::Io { path: self.paths.compressed_path },
        }
    }

    /// Takes note of one read from the response and returns the number of bytes by which
    /// the counter advanced. Nothing but the counter changes.
    pub fn record(&mut self, outcome: ReadOutcome) -> (advance: u64)
        ensures
            final(self).progress == old(self).progress.recorded(outcome),
            advance == final(self).progress.position - old(self).progress.position,
            final(self).package == old(self).package,
            final(self).version == old(self).version,
            final(self).paths == old(self).paths,
    {
        self.progress.record(outcome)
    }

    /// Reading the response or writing the archive failed. What was written stays on disk.
    pub fn interrupted(self) -> (out: DownloadError)
        ensures
            out@ == (DownloadErrorView::Io { path: self.paths@.compressed_path }),
    {
        DownloadError::Io { path: self.paths.compressed_path }
    }

    /// The response has been copied to its end, `copied` bytes in all. Gives the result of
    /// the download, whose size is the number of bytes copied whatever length was declared,
    /// and the counter marked as finished.
    pub fn complete(self, copied: u64) -> (out: (DownloadInfo<'a>, DownloadProgress))
        ensures
            out.0.package == self.package,
            out.0.version@ == self.version@,
            out.0.size == copied,
            out.0.compressed_path@ == self.paths@.compressed_path,
            out.0.uncompressed_path@ == self.paths@.uncompressed_path,
            out.1 == (DownloadProgress { finished: true, ..self.progress }),
    {
        let mut progress = self.progress;
        progress.finish();
        (
            DownloadInfo {
                package: self.package,
                version: self.version,
                size: copied,
                compressed_path: self.paths.compressed_path,
                uncompressed_path: self.paths.uncompressed_path,
            },
            progress,
        )
    }
}

} // verus!

//! The failure taxonomy of one discover-then-download pipeline, and a task
//! failure with its year attached.

use vstd::prelude::*;

verus! {

use vstd::string::StringExecFns;

/// Why one fetch, parse or write step failed.
#[derive(Clone, Debug, PartialEq, Eq)]
pub enum DownloadError {
    /// The authenticated GET for this URL could not be sent or read.
    Fetch { url: String },
    /// The response for this URL declared no content length.
    MissingLength { url: String },
    /// An anchor on the index page lacks an href attribute.
    MalformedPage,
    /// The destination directory or file could not be created or written.
    Io { path: String },
}

impl DownloadError {
    /// A human-readable description naming the URL or path concerned.
    pub fn describe(&self) -> (r: String)
        ensures
            (match self {
                DownloadError::Fetch { url } => r@ == "Failed to GET from '"@ + url@ + "'"@,
                DownloadError::MissingLength { url } => r@ == "Failed to get content length from '"@
                    + url@ + "'"@,
                DownloadError::MalformedPage => r@
                    == "An anchor on the index page has no href attribute"@,
                DownloadError::Io { path } => r@ == "Failed to create or write '"@ + path@ + "'"@,
            }),
    {
        match self {
            DownloadError::Fetch { url } => {
                let mut r: String = "Failed to GET from '".to_owned();
                r.append(url.as_str());
                r.append("'");
                r
            },
            DownloadError::MissingLength { url } => {
                let mut r: String = "Failed to get content length from '".to_owned();
                r.append(url.as_str());
                r.append("'");
                r
            },
            DownloadError::MalformedPage => "An anchor on the index page has no href attribute".to_owned(),
            DownloadError::Io { path } => {
                let mut r: String = "Failed to create or write '".to_owned();
                r.append(path.as_str());
                r.append("'");
                r
            },
        }
    }
}

/// One year task's failure: the error with the year it happened in.
#[derive(Clone, Debug, PartialEq, Eq)]
pub struct TaskError {
    pub year: usize,
    pub cause: DownloadError,
}

} // verus!

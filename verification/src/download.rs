//! Download planning: everything the downloader decides before and between
//! the I/O calls — requiring a declared content length and deriving the
//! local filename from the document URL.

use vstd::prelude::*;

verus! {

use crate::errors::DownloadError;
use crate::strings::{chars_of, string_of_chars};

/// The final '/'-delimited segment of a URL: the characters after the last
/// slash, or the whole string when it has none.
pub open spec fn spec_filename_of(url: Seq<char>) -> Seq<char>
    decreases url.len(),
{
    if url.len() == 0 {
        Seq::empty()
    } else if url.last() == '/' {
        Seq::empty()
    } else {
        spec_filename_of(url.drop_last()).push(url.last())
    }
}

proof fn lemma_filename_is_suffix(url: Seq<char>, k: int)
    requires
        0 <= k <= url.len(),
        k > 0 ==> url[k - 1] == '/',
        forall|j: int| k <= j < url.len() ==> url[j] != '/',
    ensures
        spec_filename_of(url) == url.subrange(k, url.len() as int),
    decreases url.len(),
{
    if url.len() == k {
        assert(url.subrange(k, url.len() as int) =~= Seq::empty());
        if url.len() > 0 {
            assert(url.last() == '/');
        }
    } else {
        assert(url.last() != '/');
        lemma_filename_is_suffix(url.drop_last(), k);
        assert(url.drop_last().subrange(k, url.len() - 1) =~= url.subrange(k, url.len() - 1));
        assert(url.subrange(k, url.len() - 1).push(url.last()) =~= url.subrange(
            k,
            url.len() as int,
        ));
    }
}

/// Returns the local filename for a document URL: its final '/'-delimited
/// segment.
pub fn filename_from_url(url: &str) -> (r: String)
    ensures
        r@ == spec_filename_of(url@),
{
    let cs = chars_of(url);
    let mut k: usize = 0;
    let mut i: usize = 0;
    while i < cs.len()
        invariant
            cs@ == url@,
            i <= cs.len(),
            k <= i,
            k > 0 ==> url@[k - 1] == '/',
            forall|j: int| k <= j < i ==> url@[j] != '/',
        decreases cs.len() - i,
    {
        if cs[i] == '/' {
            k = i + 1;
        }
        i = i + 1;
    }
    let mut tail: Vec<char> = Vec::new();
    let mut j: usize = k;
    while j < cs.len()
        invariant
            cs@ == url@,
            k <= j <= cs.len(),
            tail@ == url@.subrange(k as int, j as int),
        decreases cs.len() - j,
    {
        tail.push(cs[j]);
        j = j + 1;
        assert(tail@ =~= url@.subrange(k as int, j as int));
    }
    proof {
        lemma_filename_is_suffix(url@, k as int);
    }
    string_of_chars(&tail)
}

/// What a download will do, fixed before any file is touched.
#[derive(Debug)]
pub struct DownloadPlan {
    /// The name of the file to create in the destination directory.
    pub filename: String,
    /// The declared content length, the download's total byte count.
    pub total: u64,
}

/// Decides a download from the response's declared content length: with a
/// length, the plan names the file after the URL's final segment; without
/// one, the download is rejected before any directory or file is created.
pub fn plan_download(url: &str, content_length: Option<u64>) -> (r: Result<
    DownloadPlan,
    DownloadError,
>)
    ensures
        (match content_length {
            Some(n) => r matches Ok(p) && p.total == n && p.filename@ == spec_filename_of(url@),
            None => r matches Err(e) && (e matches DownloadError::MissingLength { url: u } && u@
                == url@),
        }),
{
    match content_length {
        None => Err(DownloadError::MissingLength { url: url.to_owned() }),
        Some(n) => Ok(DownloadPlan { filename: filename_from_url(url), total: n }),
    }
}

} // verus!

//! Link discovery: which document URLs an index page offers for one year.
//!
//! The HTML itself is read by an outside parser; everything after that —
//! rejecting anchors without an href, filtering by the filename prefix,
//! resolving against the page's base URL, and deduplicating — is verified.

use vstd::prelude::*;

verus! {

use vstd::string::StringExecFns;
use crate::errors::DownloadError;
use crate::strings::str_starts_with;

/// The href attributes of the anchor elements nested under paragraph
/// elements of an HTML page, in document order; an anchor without an href
/// contributes `None`.
pub uninterp spec fn spec_paragraph_anchors(html: Seq<char>) -> Seq<Option<Seq<char>>>;

/// Relies on nipper: parse the page as HTML, select the anchors under
/// paragraph elements, and read each one's href attribute.
#[verifier::external_body]
fn paragraph_anchors(html: &str) -> (r: Vec<Option<String>>)
    ensures
        r.deep_view() == spec_paragraph_anchors(html@),
{
    let doc = nipper::Document::from(html);
    doc.select("p")
        .select("a")
        .iter()
        .map(|a| a.attr("href").map(|h| h.to_string()))
        .collect()
}

/// What discovery returns for a given anchor list: `None` when some anchor
/// lacks an href; otherwise the hrefs that carry the prefix, resolved
/// against the base URL, deduplicated keeping each URL's first occurrence.
pub open spec fn spec_discovered(
    anchors: Seq<Option<Seq<char>>>,
    prefix: Seq<char>,
    base: Seq<char>,
) -> Option<Seq<Seq<char>>>
    decreases anchors.len(),
{
    if anchors.len() == 0 {
        Some(Seq::empty())
    } else {
        match spec_discovered(anchors.drop_last(), prefix, base) {
            None => None,
            Some(acc) => match anchors.last() {
                None => None,
                Some(h) => if prefix.is_prefix_of(h) {
                    if acc.contains(base + h) {
                        Some(acc)
                    } else {
                        Some(acc.push(base + h))
                    }
                } else {
                    Some(acc)
                },
            },
        }
    }
}

/// Discovery fails exactly when some anchor lacks an href.
pub proof fn lemma_discovered_fails_iff_missing_href(
    anchors: Seq<Option<Seq<char>>>,
    prefix: Seq<char>,
    base: Seq<char>,
)
    ensures
        spec_discovered(anchors, prefix, base) is None <==> exists|i: int|
            0 <= i < anchors.len() && anchors[i] is None,
    decreases anchors.len(),
{
    if anchors.len() > 0 {
        lemma_discovered_fails_iff_missing_href(anchors.drop_last(), prefix, base);
        if exists|i: int| 0 <= i < anchors.len() && anchors[i] is None {
            let i = choose|i: int| 0 <= i < anchors.len() && anchors[i] is None;
            if i < anchors.len() - 1 {
                assert(anchors.drop_last()[i] is None);
            }
        }
        if exists|i: int| 0 <= i < anchors.drop_last().len() && anchors.drop_last()[i] is None {
            let i = choose|i: int|
                0 <= i < anchors.drop_last().len() && anchors.drop_last()[i] is None;
            assert(anchors[i] is None);
        }
    }
}

/// The discovered URL list holds no duplicates.
pub proof fn lemma_discovered_no_duplicates(
    anchors: Seq<Option<Seq<char>>>,
    prefix: Seq<char>,
    base: Seq<char>,
)
    ensures
        spec_discovered(anchors, prefix, base) matches Some(urls) ==> forall|i: int, j: int|
            0 <= i < j < urls.len() ==> urls[i] != urls[j],
    decreases anchors.len(),
{
    if anchors.len() > 0 {
        lemma_discovered_no_duplicates(anchors.drop_last(), prefix, base);
    }
}

/// A URL is discovered exactly when some anchor carries an href with the
/// prefix that resolves to it.
pub proof fn lemma_discovered_membership(
    anchors: Seq<Option<Seq<char>>>,
    prefix: Seq<char>,
    base: Seq<char>,
    url: Seq<char>,
)
    requires
        spec_discovered(anchors, prefix, base) is Some,
    ensures
        spec_discovered(anchors, prefix, base)->Some_0.contains(url) <==> exists|i: int|
            0 <= i < anchors.len() && ((#[trigger] anchors[i]) matches Some(h) && prefix.is_prefix_of(h) && url
                == base + h),
    decreases anchors.len(),
{
    if anchors.len() > 0 {
        lemma_discovered_membership(anchors.drop_last(), prefix, base, url);
        let prior = spec_discovered(anchors.drop_last(), prefix, base)->Some_0;
        let last = anchors.len() - 1;
        if prior.contains(url) {
            let i = choose|i: int|
                0 <= i < anchors.drop_last().len() && ((#[trigger] anchors.drop_last()[i]) matches Some(h)
                    && prefix.is_prefix_of(h) && url == base + h);
            assert(anchors[i] == anchors.drop_last()[i]);
        }
        if spec_discovered(anchors, prefix, base)->Some_0.contains(url) && !prior.contains(url) {
            assert(anchors[last] matches Some(h) && prefix.is_prefix_of(h) && url == base + h);
        }
        if exists|i: int|
            0 <= i < anchors.len() && ((#[trigger] anchors[i]) matches Some(h) && prefix.is_prefix_of(h) && url
                == base + h) {
            let i = choose|i: int|
                0 <= i < anchors.len() && ((#[trigger] anchors[i]) matches Some(h) && prefix.is_prefix_of(h)
                    && url == base + h);
            if i < last {
                assert(anchors.drop_last()[i] matches Some(h) && prefix.is_prefix_of(h) && url
                    == base + h);
                assert(prior.contains(url));
                let urls = spec_discovered(anchors, prefix, base)->Some_0;
                assert(urls == prior || urls == prior.push(
                    base + anchors[last]->Some_0,
                ));
                if urls != prior {
                    assert(urls.contains(url)) by {
                        let j = choose|j: int| 0 <= j < prior.len() && prior[j] == url;
                        assert(urls[j] == url);
                    }
                }
            } else {
                let urls = spec_discovered(anchors, prefix, base)->Some_0;
                if !prior.contains(url) {
                    assert(urls.last() == url);
                }
            }
        }
    }
}

/// True exactly when some entry of `v` has the characters of `s`.
fn contains_string(v: &Vec<String>, s: &String) -> (r: bool)
    ensures
        r == v.deep_view().contains(s@),
{
    let mut i: usize = 0;
    while i < v.len()
        invariant
            i <= v.len(),
            forall|j: int| 0 <= j < i ==> v.deep_view()[j] != s@,
        decreases v.len() - i,
    {
        if v[i].eq(s) {
            assert(v.deep_view()[i as int] == s@);
            return true;
        }
        i = i + 1;
    }
    false
}

/// Keeps the anchors that carry an href with the wanted prefix, resolves
/// each against the base URL, and deduplicates; fails when an anchor lacks
/// an href.
pub fn resolve_links(anchors: &Vec<Option<String>>, prefix: &str, base: &str) -> (r: Result<
    Vec<String>,
    DownloadError,
>)
    ensures
        (match spec_discovered(anchors.deep_view(), prefix@, base@) {
            Some(urls) => r matches Ok(v) && v.deep_view() == urls,
            None => r == Err::<Vec<String>, DownloadError>(DownloadError::MalformedPage),
        }),
        r matches Ok(v) ==> forall|i: int, j: int|
            0 <= i < j < v.deep_view().len() ==> v.deep_view()[i] != v.deep_view()[j],
{
    let ghost all = anchors.deep_view();
    let mut out: Vec<String> = Vec::new();
    let mut i: usize = 0;
    while i < anchors.len()
        invariant
            i <= anchors.len(),
            all == anchors.deep_view(),
            spec_discovered(all.take(i as int), prefix@, base@) == Some(out.deep_view()),
        decreases anchors.len() - i,
    {
        proof {
            assert(all.take(i + 1 as int).drop_last() =~= all.take(i as int));
            assert(all.take(i + 1 as int).last() == all[i as int]);
        }
        match &anchors[i] {
            None => {
                proof {
                    lemma_discovered_fails_iff_missing_href(all, prefix@, base@);
                }
                return Err(DownloadError::MalformedPage);
            },
            Some(h) => {
                if str_starts_with(h.as_str(), prefix) {
                    let u: String = base.to_owned().concat(h.as_str());
                    if !contains_string(&out, &u) {
                        let ghost before = out.deep_view();
                        out.push(u);
                        proof {
                            assert(out.deep_view() =~= before.push(base@ + all[i as int]->Some_0));
                        }
                    }
                }
            },
        }
        i = i + 1;
    }
    proof {
        assert(all.take(anchors.len() as int) =~= all);
        lemma_discovered_no_duplicates(all, prefix@, base@);
        assert(spec_discovered(all, prefix@, base@)->Some_0 == out.deep_view());
    }
    Ok(out)
}

/// Discovers the document URLs on one index page: the deduplicated set of
/// hrefs of anchors under paragraph elements that carry the prefix, each
/// resolved against the base URL. A page with an href-less anchor is
/// malformed; a page with no matching anchors yields the empty list.
pub fn discover_links(html: &str, prefix: &str, base: &str) -> (r: Result<
    Vec<String>,
    DownloadError,
>)
    ensures
        (match spec_discovered(spec_paragraph_anchors(html@), prefix@, base@) {
            Some(urls) => r matches Ok(v) && v.deep_view() == urls,
            None => r == Err::<Vec<String>, DownloadError>(DownloadError::MalformedPage),
        }),
        r matches Ok(v) ==> forall|i: int, j: int|
            0 <= i < j < v.deep_view().len() ==> v.deep_view()[i] != v.deep_view()[j],
{
    let anchors = paragraph_anchors(html);
    resolve_links(&anchors, prefix, base)
}

} // verus!

//! The inference pipeline: fetch a page, extract its icon candidates, fetch and
//! classify each of them, and select the best.

use crate::error::Error;
use crate::icon::{classified, Icon};
use crate::links::{candidates, extract_links, extraction, link_elements_of};
use crate::urls::url_parses;
use crate::select::{best_index, lemma_best_index, select_best};
use vstd::prelude::*;
use vstd::string::*;

verus! {

/// Fetches resources by URL. Implementations must be usable from several
/// workers at once.
pub trait Downloader {
    /// The full content at `url`, or the failure to fetch it.
    fn get(&self, url: &str) -> Result<Vec<u8>, Error>;
}

/// The text that the bytes encode in UTF-8, if they are valid UTF-8.
pub uninterp spec fn utf8_text_of(bytes: Seq<u8>) -> Option<Seq<char>>;

/// Relies on `String::from_utf8`: the text of the bytes when they are valid UTF-8.
#[verifier::external_body]
fn utf8_text(bytes: Vec<u8>) -> (r: Option<String>)
    ensures
        r is Some <==> utf8_text_of(bytes@) is Some,
        r matches Some(t) ==> utf8_text_of(bytes@) == Some(t@),
{
    String::from_utf8(bytes).ok()
}

/// The icon candidates of a page whose body `body` was fetched from `url`.
/// A body that is not UTF-8 text is a download failure.
pub fn page_links(body: Vec<u8>, url: &str) -> (r: Result<Vec<String>, Error>)
    ensures
        utf8_text_of(body@) is None ==> r matches Err(Error::Download(_)),
        utf8_text_of(body@) matches Some(t) ==> extraction(t, url@, r),
{
    match utf8_text(body) {
        Some(text) => extract_links(text.as_str(), url),
        None => Err(Error::Download(String::from_str("stream did not contain valid UTF-8"))),
    }
}

impl Icon {
    /// Downloads the candidate at `href` with `client` and classifies its bytes.
    pub fn download<D: Downloader>(client: &D, href: &str) -> (r: Result<Icon, Error>)
        ensures
            r matches Ok(icon) ==> classified(href@, icon.buffer@, icon),
    {
        match client.get(href) {
            Ok(data) => Icon::classify(href, data),
            Err(e) => Err(e),
        }
    }
}

/// `src` is one of the candidates that some markup of the page at `url` declares.
pub open spec fn page_candidate(url: Seq<char>, src: Seq<char>) -> bool {
    url_parses(url) && exists|t: Seq<char>| #[trigger] candidates(link_elements_of(t), url).contains(src)
}

/// Infers the best icon for a web page.
pub struct Inferer<D: Downloader> {
    /// Downloads pages and candidate icons.
    pub client: D,
}

impl<D: Downloader> Inferer<D> {
    pub fn new(client: D) -> (r: Self)
        ensures
            r.client == client,
    {
        Inferer { client }
    }

    /// The absolute URLs of the icon candidates declared by the page at `url`.
    pub fn scrape(&self, url: &str) -> (r: Result<Vec<String>, Error>)
        ensures
            !url_parses(url@) ==> r is Err,
            r is Ok ==> exists|t: Seq<char>| #[trigger] extraction(t, url@, r),
    {
        match self.client.get(url) {
            Ok(body) => page_links(body, url),
            Err(e) => Err(e),
        }
    }

    /// Downloads and classifies each candidate, one result per candidate in
    /// the candidates' order. A failing candidate does not stop the others.
    pub fn classify_all(&self, links: &Vec<String>) -> (r: Vec<Result<Icon, Error>>)
        ensures
            r@.len() == links@.len(),
            forall|i: int| 0 <= i < r@.len() ==> (#[trigger] r@[i] matches Ok(icon)
                ==> classified(links@[i]@, icon.buffer@, icon)),
    {
        let mut out: Vec<Result<Icon, Error>> = Vec::new();
        let mut i: usize = 0;
        while i < links.len()
            invariant
                i <= links@.len(),
                out@.len() == i,
                forall|k: int| 0 <= k < i ==> (#[trigger] out@[k] matches Ok(icon)
                    ==> classified(links@[k]@, icon.buffer@, icon)),
            decreases links@.len() - i,
        {
            out.push(Icon::download(&self.client, links[i].as_str()));
            i += 1;
        }
        out
    }

    /// The best icon for the page at `url`: the largest of its candidates that
    /// could be downloaded and decoded, the last of them among equals.
    ///
    /// A failure to fetch the page or to parse `url` ends inference; failing
    /// candidates are skipped, and where none is left the result is
    /// `NoIconsFound`.
    pub fn infer(&self, url: &str) -> (r: Result<Icon, Error>)
        ensures
            !url_parses(url@) ==> r is Err,
            r matches Ok(icon) ==> classified(icon.source@, icon.buffer@, icon),
            r matches Ok(icon) ==> page_candidate(url@, icon.source@),
    {
        let links = match self.scrape(url) {
            Ok(links) => links,
            Err(e) => {
                return Err(e);
            },
        };
        let results = self.classify_all(&links);
        let ghost s = results@;
        let r = select_best(results);
        proof {
            if r is Ok {
                lemma_best_index(s);
                let b = best_index(s);
                assert(r == s[b]);
                assert(s[b] matches Ok(icon) ==> classified(links@[b]@, icon.buffer@, icon));
                let t = choose|t: Seq<char>| #[trigger] extraction(t, url@, Ok::<Vec<String>, Error>(links));
                let c = candidates(link_elements_of(t), url@);
                assert(links@[b]@ == c[b]);
                assert(c.contains(r->Ok_0.source@));
            }
        }
        r
    }
}

} // verus!

//! Link extraction: the icon candidates that a page's markup declares.

use crate::error::{Error, ParseError};
use crate::text::{contains, str_contains};
use crate::urls::{url_check, url_join, url_join_of, url_parses};
use vstd::prelude::*;

verus! {

/// The `rel` and `href` attributes of a `<link>` element, as far as present.
pub type LinkView = (Option<Seq<char>>, Option<Seq<char>>);

/// The `<link>` elements of a parsed document, in the order in which the parser
/// created them, each as its `rel` and `href` attributes.
pub uninterp spec fn link_elements_of(html: Seq<char>) -> Seq<LinkView>;

/// The `rel` and `href` attributes of a `<link>` element.
pub struct LinkAttrs {
    pub rel: Option<String>,
    pub href: Option<String>,
}

pub open spec fn opt_view(o: Option<String>) -> Option<Seq<char>> {
    match o {
        Some(s) => Some(s@),
        None => None,
    }
}

impl LinkAttrs {
    pub open spec fn view(self) -> LinkView {
        (opt_view(self.rel), opt_view(self.href))
    }
}

/// The attributes of each of `links`.
pub open spec fn link_views(links: Seq<LinkAttrs>) -> Seq<LinkView> {
    links.map_values(|l: LinkAttrs| l.view())
}

/// Relies on scraper: `Html::parse_document` (lenient, never fails), the
/// selector `link`, which yields the `<link>` elements in the order in which the
/// parser created them, and `Element::attr` for their `rel` and `href` attributes.
#[verifier::external_body]
fn link_elements(html: &str) -> (r: Vec<LinkAttrs>)
    ensures
        r@.len() == link_elements_of(html@).len(),
        forall|i: int| 0 <= i < r@.len() ==> #[trigger] r@[i].view() == link_elements_of(html@)[i],
{
    let doc = scraper::Html::parse_document(html);
    let link = scraper::Selector::parse("link").unwrap();
    doc.select(&link).map(|el| LinkAttrs {
        rel: el.value().attr("rel").map(String::from),
        href: el.value().attr("href").map(String::from),
    }).collect()
}

/// The `href` of a link that declares an icon: its `rel` contains `icon` and its
/// `href` contains `.png`. Links missing either attribute declare none.
pub open spec fn icon_href(l: LinkView) -> Option<Seq<char>> {
    match l {
        (Some(rel), Some(href)) => if contains(rel, "icon"@) && contains(href, ".png"@) {
            Some(href)
        } else {
            None
        },
        _ => None,
    }
}

/// An `href` that mentions `http` is taken as absolute; any other is resolved
/// against the base URL, which may fail.
pub open spec fn resolve(base: Seq<char>, href: Seq<char>) -> Option<Seq<char>> {
    if contains(href, "http"@) {
        Some(href)
    } else {
        url_join_of(base, href)
    }
}

/// The candidate URLs that `links` declare against `base`, in their order: the
/// resolved `href` of each icon link whose `href` resolves.
pub open spec fn candidates(links: Seq<LinkView>, base: Seq<char>) -> Seq<Seq<char>>
    decreases links.len(),
{
    if links.len() == 0 {
        Seq::empty()
    } else {
        let prev = candidates(links.drop_last(), base);
        match icon_href(links.last()) {
            Some(h) => match resolve(base, h) {
                Some(u) => prev.push(u),
                None => prev,
            },
            None => prev,
        }
    }
}

/// Every candidate comes from a `<link>` element whose `rel` contains `icon` and
/// whose `href` contains `.png`: the `i`-th candidate is the resolved `href` of
/// such an element, and the elements of later candidates come later. So an
/// `href` containing `http` is taken as it stands and any other is the
/// `url::Url::join` of it onto `base`.
pub proof fn lemma_candidates_origin(links: Seq<LinkView>, base: Seq<char>)
    ensures
        candidates(links, base).len() <= links.len(),
        forall|i: int|
            0 <= i < candidates(links, base).len() ==> {
                let j = candidate_source(links, base, i);
                &&& 0 <= j < links.len()
                &&& icon_href(links[j]) is Some
                &&& resolve(base, icon_href(links[j])->Some_0) == Some(
                    #[trigger] candidates(links, base)[i],
                )
            },
        forall|i: int, k: int|
            0 <= i < k < candidates(links, base).len() ==> #[trigger] candidate_source(links, base, i)
                < #[trigger] candidate_source(links, base, k),
    decreases links.len(),
{
    if links.len() > 0 {
        let prev = links.drop_last();
        lemma_candidates_origin(prev, base);
        let cp = candidates(prev, base);
        let cl = candidates(links, base);
        assert(cl.len() == cp.len() || cl.len() == cp.len() + 1);
        assert forall|i: int| 0 <= i < cp.len() implies {
            &&& #[trigger] candidate_source(links, base, i) == candidate_source(prev, base, i)
            &&& 0 <= candidate_source(prev, base, i) < prev.len()
            &&& cl[i] == cp[i]
            &&& links[candidate_source(prev, base, i)] == prev[candidate_source(prev, base, i)]
        } by {
            let _ = cp[i];
        }
        assert forall|i: int, k: int| 0 <= i < k < cl.len() implies #[trigger] candidate_source(links, base, i)
            < #[trigger] candidate_source(links, base, k) by {
            if k < cp.len() {
                assert(candidate_source(prev, base, i) < candidate_source(prev, base, k));
            }
        }
        assert forall|i: int| 0 <= i < cl.len() implies {
            let j = candidate_source(links, base, i);
            &&& 0 <= j < links.len()
            &&& icon_href(links[j]) is Some
            &&& resolve(base, icon_href(links[j])->Some_0) == Some(#[trigger] cl[i])
        } by {
            if i < cp.len() {
                let _ = cp[i];
            }
        }
    }
}

/// The position in `links` of the element that declares the `i`-th candidate.
pub open spec fn candidate_source(links: Seq<LinkView>, base: Seq<char>, i: int) -> int
    decreases links.len(),
{
    if links.len() == 0 {
        0
    } else if i < candidates(links.drop_last(), base).len() {
        candidate_source(links.drop_last(), base, i)
    } else {
        links.len() - 1
    }
}

/// The absolute URLs of the icon candidates that `links` declare against `base`,
/// in their order. Links without an icon `rel`, without a `.png` `href`, or whose
/// `href` cannot be resolved against `base` are dropped.
pub fn icon_candidates(links: &Vec<LinkAttrs>, base: &str) -> (r: Vec<String>)
    ensures
        r@.len() == candidates(link_views(links@), base@).len(),
        forall|i: int| 0 <= i < r@.len() ==> #[trigger] r@[i]@ == candidates(link_views(links@), base@)[i],
{
    let ghost ls = link_views(links@);
    let mut out: Vec<String> = Vec::new();
    let mut i: usize = 0;
    while i < links.len()
        invariant
            ls == link_views(links@),
            ls.len() == links@.len(),
            i <= links@.len(),
            out@.len() == candidates(ls.subrange(0, i as int), base@).len(),
            forall|k: int| 0 <= k < out@.len() ==> #[trigger] out@[k]@ == candidates(
                ls.subrange(0, i as int),
                base@,
            )[k],
        decreases links@.len() - i,
    {
        let ghost prev = ls.subrange(0, i as int);
        let ghost next = ls.subrange(0, i + 1);
        assert(next.drop_last() =~= prev);
        assert(next.last() == links@[i as int].view());
        let l = &links[i];
        match (&l.rel, &l.href) {
            (Some(rel), Some(href)) => {
                if str_contains(rel.as_str(), "icon") && str_contains(href.as_str(), ".png") {
                    if str_contains(href.as_str(), "http") {
                        out.push(href.clone());
                    } else {
                        match url_join(base, href.as_str()) {
                            Ok(u) => out.push(u),
                            Err(_) => {},
                        }
                    }
                }
            },
            _ => {},
        }
        i += 1;
    }
    assert(ls.subrange(0, i as int) =~= ls);
    out
}

/// `r` is what extracting the icon candidates of the markup `html` of the page
/// at `base` returns: a URL parse error exactly when `base` does not parse, and
/// the candidates otherwise.
pub open spec fn extraction(html: Seq<char>, base: Seq<char>, r: Result<Vec<String>, Error>) -> bool {
    &&& (r is Err <==> !url_parses(base))
    &&& (r is Err ==> r matches Err(Error::Parse(ParseError::Url(_))))
    &&& (r matches Ok(v) ==> {
        let c = candidates(link_elements_of(html), base);
        &&& v@.len() == c.len()
        &&& forall|i: int| 0 <= i < v@.len() ==> #[trigger] v@[i]@ == c[i]
    })
}

/// The absolute URLs of the icon candidates declared by the markup `html` of the
/// page at `base`, in the order of their `<link>` elements.
///
/// A `<link>` counts when its `rel` contains `icon` and its `href` contains `.png`;
/// all others are dropped without error. An `href` containing `http` is kept as it
/// is, any other is resolved against `base`, and dropped where that fails. The one
/// failure is a URL parse error when `base` does not parse.
pub fn extract_links(html: &str, base: &str) -> (r: Result<Vec<String>, Error>)
    ensures
        extraction(html@, base@, r),
{
    match url_check(base) {
        Ok(()) => {},
        Err(e) => {
            return Err(Error::Parse(ParseError::Url(e)));
        },
    }
    let links = link_elements(html);
    assert(link_views(links@) =~= link_elements_of(html@));
    Ok(icon_candidates(&links, base))
}

} // verus!

use vstd::prelude::*;
use vstd::string::StringExecFns;
use crate::html::{link_views, matched_links, select_links, string_views};
use crate::text::{contains_seq, contains_str, replace_spaces, spaces_to_underscores, starts_with_seq, starts_with_str};

verus! {

/// A search hit: a page title and its address.
pub struct SearchResult {
    pub title: String,
    pub url: String,
}

pub const TITLE_TAG: &'static str = "Title: ";

pub const URL_TAG: &'static str = " URL: ";

/// How one result reads in the filter prompt.
pub open spec fn result_line(r: SearchResult) -> Seq<char> {
    TITLE_TAG@ + r.title@ + URL_TAG@ + r.url@
}

pub fn format_result_line(r: &SearchResult) -> (s: String)
    ensures
        s@ == result_line(*r),
{
    let mut s = String::from_str(TITLE_TAG);
    s.append(r.title.as_str());
    s.append(URL_TAG);
    s.append(r.url.as_str());
    s
}

/// Which search collaborator a sub-question goes to.
#[derive(PartialEq, Eq, Structural, Clone, Copy, Debug)]
pub enum ToolChoice {
    Encyclopedia,
    Web,
}

pub const WIKI_PREFIX: &'static str = "https://en.wikipedia.org/wiki/";

pub const HTTPS: &'static str = "https:";

pub const SLASHES: &'static str = "//";

pub const RESULT_LINK: &'static str = "a.result__a";

pub const ENCYCLOPEDIA_WORD: &'static str = "wikipedia";

pub const YOUTUBE: &'static str = "youtube.com";

pub const REDDIT: &'static str = "reddit.com";

/// A result as a pair of title and address.
pub open spec fn result_view(r: SearchResult) -> (Seq<char>, Seq<char>) {
    (r.title@, r.url@)
}

pub open spec fn result_views(rs: Seq<SearchResult>) -> Seq<(Seq<char>, Seq<char>)> {
    rs.map_values(|r: SearchResult| result_view(r))
}

/// A copy of `r` with the same title and address.
pub fn copy_result(r: &SearchResult) -> (c: SearchResult)
    ensures
        c == *r,
{
    SearchResult { title: r.title.clone(), url: r.url.clone() }
}

/// The encyclopedia article address of `title`.
pub open spec fn wikipedia_url_of(title: Seq<char>) -> Seq<char> {
    WIKI_PREFIX@ + spaces_to_underscores(title)
}

/// The encyclopedia article address of `title`: the fixed prefix, then the
/// title with each space written as an underscore.
pub fn wikipedia_url(title: &str) -> (r: String)
    ensures
        r@ == wikipedia_url_of(title@),
{
    let mut r = String::from_str(WIKI_PREFIX);
    let tail = replace_spaces(title);
    r.append(tail.as_str());
    r
}

/// Each title with its encyclopedia address.
pub open spec fn wikipedia_views(titles: Seq<Seq<char>>) -> Seq<(Seq<char>, Seq<char>)> {
    titles.map_values(|t: Seq<char>| (t, wikipedia_url_of(t)))
}

/// One result per encyclopedia title, in the order given, with its derived
/// address.
pub fn wikipedia_results(titles: &Vec<String>) -> (r: Vec<SearchResult>)
    ensures
        result_views(r@) == wikipedia_views(string_views(titles@)),
        r@.len() == titles@.len(),
        forall|i: int|
            0 <= i < titles@.len() ==> #[trigger] r@[i].title@ == titles@[i]@ && r@[i].url@
                == wikipedia_url_of(titles@[i]@),
{
    let mut r: Vec<SearchResult> = Vec::new();
    let mut i: usize = 0;
    while i < titles.len()
        invariant
            i <= titles@.len(),
            r@.len() == i,
            forall|j: int|
                0 <= j < i ==> #[trigger] r@[j].title@ == titles@[j]@ && r@[j].url@
                    == wikipedia_url_of(titles@[j]@),
        decreases titles@.len() - i,
    {
        let url = wikipedia_url(titles[i].as_str());
        r.push(SearchResult { title: titles[i].clone(), url });
        i = i + 1;
    }
    proof {
        assert(result_views(r@) =~= wikipedia_views(string_views(titles@)));
    }
    r
}

/// A link as given, but a protocol-relative one (`//host/...`) gets the
/// secure scheme.
pub open spec fn normalized_link(href: Seq<char>) -> Seq<char> {
    if starts_with_seq(href, SLASHES@) {
        HTTPS@ + href
    } else {
        href
    }
}

pub fn normalize_link(href: &str) -> (r: String)
    ensures
        r@ == normalized_link(href@),
{
    if starts_with_str(href, SLASHES) {
        let mut r = String::from_str(HTTPS);
        r.append(href);
        r
    } else {
        String::from_str(href)
    }
}

/// The results that links of a results page give: each link with an
/// address, in order, its address normalized.
pub open spec fn link_results(links: Seq<(Seq<char>, Option<Seq<char>>)>) -> Seq<(Seq<char>, Seq<char>)>
    decreases links.len(),
{
    if links.len() == 0 {
        Seq::empty()
    } else {
        let prev = link_results(links.drop_last());
        match links.last().1 {
            Some(h) => prev.push((links.last().0, normalized_link(h))),
            None => prev,
        }
    }
}

/// The results that the given links stand for: those with an address, in
/// order, with protocol-relative addresses normalized.
pub fn results_from_links(links: &Vec<(String, Option<String>)>) -> (r: Vec<SearchResult>)
    ensures
        result_views(r@) == link_results(link_views(links@)),
{
    let mut r: Vec<SearchResult> = Vec::new();
    let mut i: usize = 0;
    while i < links.len()
        invariant
            i <= links@.len(),
            result_views(r@) == link_results(link_views(links@.subrange(0, i as int))),
        decreases links@.len() - i,
    {
        proof {
            let cur = link_views(links@.subrange(0, i + 1));
            assert(cur.drop_last() =~= link_views(links@.subrange(0, i as int)));
        }
        match &links[i].1 {
            Some(h) => {
                let url = normalize_link(h.as_str());
                let title = links[i].0.clone();
                r.push(SearchResult { title, url });
                proof {
                    let cur = link_views(links@.subrange(0, i + 1));
                    assert(result_views(r@) =~= link_results(cur.drop_last()).push(
                        (cur.last().0, normalized_link(cur.last().1->Some_0)),
                    ));
                }
            },
            None => {},
        }
        i = i + 1;
    }
    proof {
        assert(links@.subrange(0, links@.len() as int) =~= links@);
    }
    r
}

/// The results on a web search results page `html`: its result links,
/// in order, as `results_from_links` reads them.
pub fn duckduckgo_results(html: &str) -> (r: Vec<SearchResult>)
    ensures
        result_views(r@) == link_results(matched_links(html@, RESULT_LINK@)),
{
    let links = select_links(html, RESULT_LINK);
    results_from_links(&links)
}

/// Addresses on excluded domains.
pub open spec fn is_blocked(url: Seq<char>) -> bool {
    contains_seq(url, YOUTUBE@) || contains_seq(url, REDDIT@)
}

/// The results whose addresses are not excluded, in order.
pub open spec fn kept(rs: Seq<(Seq<char>, Seq<char>)>) -> Seq<(Seq<char>, Seq<char>)>
    decreases rs.len(),
{
    if rs.len() == 0 {
        Seq::empty()
    } else if is_blocked(rs.last().1) {
        kept(rs.drop_last())
    } else {
        kept(rs.drop_last()).push(rs.last())
    }
}

/// No kept result has an excluded address.
pub proof fn lemma_kept_unblocked(rs: Seq<(Seq<char>, Seq<char>)>)
    ensures
        forall|i: int| 0 <= i < kept(rs).len() ==> !is_blocked(#[trigger] kept(rs)[i].1),
    decreases rs.len(),
{
    if rs.len() > 0 {
        lemma_kept_unblocked(rs.drop_last());
        let prev = kept(rs.drop_last());
        if !is_blocked(rs.last().1) {
            assert forall|i: int| 0 <= i < kept(rs).len() implies !is_blocked(
                #[trigger] kept(rs)[i].1,
            ) by {
                if i < prev.len() {
                    assert(kept(rs)[i] == prev[i]);
                }
            }
        }
    }
}

/// Whether `url` lies on an excluded domain: exact, case-sensitive
/// substring match.
pub fn blocked(url: &str) -> (r: bool)
    ensures
        r == is_blocked(url@),
{
    contains_str(url, YOUTUBE) || contains_str(url, REDDIT)
}

/// Drops every result whose address is on an excluded domain, keeping the
/// order of the rest.
pub fn exclude_blocked(results: &Vec<SearchResult>) -> (r: Vec<SearchResult>)
    ensures
        result_views(r@) == kept(result_views(results@)),
        forall|i: int| 0 <= i < r@.len() ==> !is_blocked(#[trigger] r@[i].url@),
{
    let mut r: Vec<SearchResult> = Vec::new();
    let mut i: usize = 0;
    while i < results.len()
        invariant
            i <= results@.len(),
            result_views(r@) == kept(result_views(results@.subrange(0, i as int))),
        decreases results@.len() - i,
    {
        proof {
            let cur = result_views(results@.subrange(0, i + 1));
            assert(cur.drop_last() =~= result_views(results@.subrange(0, i as int)));
        }
        if !blocked(results[i].url.as_str()) {
            let ghost before = r@;
            r.push(copy_result(&results[i]));
            proof {
                assert(result_views(r@) =~= result_views(before).push(result_view(results@[i as int])));
            }
        }
        i = i + 1;
    }
    proof {
        assert(results@.subrange(0, results@.len() as int) =~= results@);
        lemma_kept_unblocked(result_views(results@));
        assert forall|i: int| 0 <= i < r@.len() implies !is_blocked(#[trigger] r@[i].url@) by {
            assert(result_views(r@)[i].1 == r@[i].url@);
        }
    }
    r
}

/// The tool that a normalized tool answer names: the encyclopedia where it
/// mentions it, the web otherwise.
pub open spec fn tool_of(answer: Seq<char>) -> ToolChoice {
    if contains_seq(answer, ENCYCLOPEDIA_WORD@) {
        ToolChoice::Encyclopedia
    } else {
        ToolChoice::Web
    }
}

pub fn choose_tool(answer: &str) -> (r: ToolChoice)
    ensures
        r == tool_of(answer@),
{
    if contains_str(answer, ENCYCLOPEDIA_WORD) {
        ToolChoice::Encyclopedia
    } else {
        ToolChoice::Web
    }
}

} // verus!

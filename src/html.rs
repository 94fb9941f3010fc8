use vstd::prelude::*;
use vstd::string::StringExecFns;

verus! {

/// The text of each element of the document `html` that the CSS selector
/// `selector` matches, in document order; each element's text nodes are
/// joined by single spaces. An unparsable selector matches nothing.
pub uninterp spec fn matched_texts(html: Seq<char>, selector: Seq<char>) -> Seq<Seq<char>>;

/// For each element of the document `html` that `selector` matches, in
/// document order: its inner HTML and its `href` attribute, if it has one.
pub uninterp spec fn matched_links(html: Seq<char>, selector: Seq<char>) -> Seq<(Seq<char>, Option<Seq<char>>)>;

pub open spec fn string_views(v: Seq<String>) -> Seq<Seq<char>> {
    v.map_values(|s: String| s@)
}

pub open spec fn opt_view(o: Option<String>) -> Option<Seq<char>> {
    match o {
        Some(s) => Some(s@),
        None => None,
    }
}

pub open spec fn link_views(v: Seq<(String, Option<String>)>) -> Seq<(Seq<char>, Option<Seq<char>>)> {
    v.map_values(|p: (String, Option<String>)| (p.0@, opt_view(p.1)))
}

/// Relies on scraper's `Html::parse_document`, `Selector::parse`,
/// `Html::select` and `ElementRef::text`: the texts of the matched elements.
#[verifier::external_body]
fn select_texts(html: &str, selector: &str) -> (r: Vec<String>)
    ensures
        string_views(r@) == matched_texts(html@, selector@),
{
    let document = scraper::Html::parse_document(html);
    match scraper::Selector::parse(selector) {
        Ok(sel) => document.select(&sel).map(|e| e.text().collect::<Vec<_>>().join(" ")).collect(),
        Err(_) => Vec::new(),
    }
}

/// Relies on scraper's `Html::parse_document`, `Selector::parse`,
/// `Html::select`, `ElementRef::inner_html` and `ElementRef::attr`: the inner
/// HTML and `href` of the matched elements.
#[verifier::external_body]
pub(crate) fn select_links(html: &str, selector: &str) -> (r: Vec<(String, Option<String>)>)
    ensures
        link_views(r@) == matched_links(html@, selector@),
{
    let document = scraper::Html::parse_document(html);
    match scraper::Selector::parse(selector) {
        Ok(sel) => document.select(&sel).map(|e| (e.inner_html(), e.attr("href").map(|s| s.to_string()))).collect(),
        Err(_) => Vec::new(),
    }
}

/// The texts, each followed by a newline.
pub open spec fn joined_lines(ts: Seq<Seq<char>>) -> Seq<char>
    decreases ts.len(),
{
    if ts.len() == 0 {
        Seq::empty()
    } else {
        joined_lines(ts.drop_last()) + ts.last() + "\n"@
    }
}

/// The readable content of a page: the matches of the first content
/// container, in priority order, that the page has at all.
pub open spec fn extracted_content(html: Seq<char>) -> Seq<char> {
    if matched_texts(html, "article"@).len() > 0 {
        joined_lines(matched_texts(html, "article"@))
    } else if matched_texts(html, "main"@).len() > 0 {
        joined_lines(matched_texts(html, "main"@))
    } else if matched_texts(html, "#content"@).len() > 0 {
        joined_lines(matched_texts(html, "#content"@))
    } else if matched_texts(html, ".content"@).len() > 0 {
        joined_lines(matched_texts(html, ".content"@))
    } else if matched_texts(html, "div.main-content"@).len() > 0 {
        joined_lines(matched_texts(html, "div.main-content"@))
    } else {
        joined_lines(matched_texts(html, "body"@))
    }
}

fn join_lines(ts: &Vec<String>) -> (r: String)
    ensures
        r@ == joined_lines(string_views(ts@)),
{
    let mut r = String::new();
    let mut i: usize = 0;
    while i < ts.len()
        invariant
            i <= ts@.len(),
            r@ == joined_lines(string_views(ts@.subrange(0, i as int))),
        decreases ts@.len() - i,
    {
        proof {
            let cur = string_views(ts@.subrange(0, i + 1));
            assert(cur.drop_last() =~= string_views(ts@.subrange(0, i as int)));
            assert(cur.last() == ts@[i as int]@);
        }
        r.append(ts[i].as_str());
        r.append("\n");
        i = i + 1;
    }
    proof {
        assert(ts@.subrange(0, ts@.len() as int) =~= ts@);
    }
    r
}

/// The readable text of the page `html`: the text of every element that the
/// first matching content selector finds (`article`, `main`, `#content`,
/// `.content`, `div.main-content`, then `body`), each followed by a newline;
/// empty where none matches.
pub fn extract_content(html: &str) -> (r: String)
    ensures
        r@ == extracted_content(html@),
{
    let t = select_texts(html, "article");
    if t.len() > 0 {
        return join_lines(&t);
    }
    let t = select_texts(html, "main");
    if t.len() > 0 {
        return join_lines(&t);
    }
    let t = select_texts(html, "#content");
    if t.len() > 0 {
        return join_lines(&t);
    }
    let t = select_texts(html, ".content");
    if t.len() > 0 {
        return join_lines(&t);
    }
    let t = select_texts(html, "div.main-content");
    if t.len() > 0 {
        return join_lines(&t);
    }
    let t = select_texts(html, "body");
    join_lines(&t)
}

/// Selector priority is fixed: a page with any `article` element yields the
/// text of its `article` elements, whatever its `body` or other containers
/// hold.
pub proof fn lemma_article_comes_first(html: Seq<char>)
    requires
        matched_texts(html, "article"@).len() > 0,
    ensures
        extracted_content(html) == joined_lines(matched_texts(html, "article"@)),
{
}

} // verus!

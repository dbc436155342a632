//! Reading the pages of the remote site: the articles of a page as
//! Markdown, and patterns in text.

use crate::calendar::{render_calendar, renders, CalendarElement};
use crate::table::pairs_view;
use crate::text::{same_text, texts};
use vstd::prelude::*;
use vstd::string::*;

verus! {

/// The `article` elements below the `main` elements of an HTML document,
/// each serialised with its own tag, in document order, as `scraper`
/// finds them after parsing the document as a browser would.
pub uninterp spec fn article_fragments(html: Seq<char>) -> Seq<Seq<char>>;

/// The Markdown that `html2md` writes for an HTML text.
pub uninterp spec fn markdown_text(html: Seq<char>) -> Seq<char>;

/// What the first capture group of `pattern` holds at the leftmost match
/// in `text`, as the `regex` crate finds it: nothing where the pattern is
/// not a regular expression, does not match, or the group took no part.
pub uninterp spec fn first_group_text(pattern: Seq<char>, text: Seq<char>) -> Option<Seq<char>>;

/// `text` with every match of `pattern` replaced by the expansion of
/// `replacement`, as `Regex::replace_all` of the `regex` crate does it;
/// `text` itself where the pattern is not a regular expression.
pub uninterp spec fn replaced_text(
    pattern: Seq<char>,
    replacement: Seq<char>,
    text: Seq<char>,
) -> Seq<char>;

/// The first and second capture group of each match of `pattern` in
/// `text`, in the order of the matches, as `Regex::captures_iter` of the
/// `regex` crate finds them; a group that took no part in a match counts
/// as empty. No pairs where the pattern is not a regular expression.
pub uninterp spec fn group_pairs_text(pattern: Seq<char>, text: Seq<char>) -> Seq<
    (Seq<char>, Seq<char>),
>;

/// `Regex::new`, `Regex::captures_iter`, `Captures::get` and
/// `Match::as_str` of the `regex` crate. The result is given the name
/// `group_pairs_text`.
#[verifier::external_body]
pub(crate) fn group_pairs(pattern: &str, text: &str) -> (pairs: Vec<(String, String)>)
    ensures
        pairs_view(pairs@) == group_pairs_text(pattern@, text@),
{
    match regex::Regex::new(pattern) {
        Ok(re) => re.captures_iter(text).map(
            |caps| (
                caps.get(1).map_or("", |m| m.as_str()).to_string(),
                caps.get(2).map_or("", |m| m.as_str()).to_string(),
            ),
        ).collect(),
        Err(_) => Vec::new(),
    }
}

/// Selects the articles of a page with `scraper`: `Html::parse_document`,
/// then `select` with the selector `main` on the document and with
/// `article` on each element found, and `ElementRef::html` of each hit.
/// The result is given the name `article_fragments`.
#[verifier::external_body]
pub(crate) fn select_articles(html: &str) -> (fragments: Vec<String>)
    ensures
        texts(fragments@) == article_fragments(html@),
{
    let document = scraper::Html::parse_document(html);
    let main_selector = scraper::Selector::parse("main").unwrap();
    let article_selector = scraper::Selector::parse("article").unwrap();
    document.select(&main_selector).flat_map(|main| main.select(&article_selector)).map(
        |article| article.html(),
    ).collect()
}

/// For each element of an HTML document that a selector matches, in
/// document order, the tag names of the elements it lies in, the nearest
/// first, as `scraper` finds them after parsing the document as a browser
/// would. Nothing where the selector is not a selector.
pub uninterp spec fn ancestor_names(html: Seq<char>, selector: Seq<char>) -> Option<
    Seq<Seq<Seq<char>>>,
>;

/// The views of lists of names.
pub open spec fn chains_view(chains: Seq<Vec<String>>) -> Seq<Seq<Seq<char>>> {
    chains.map_values(|chain: Vec<String>| texts(chain@))
}

/// `Selector::parse`, `Html::parse_document`, `Html::select`,
/// `NodeRef::ancestors`, `ElementRef::wrap` and `Element::name` of
/// `scraper`: the names of the elements around each element that the
/// selector matches. The result is given the name `ancestor_names`.
#[verifier::external_body]
pub(crate) fn element_ancestors(html: &str, selector: &str) -> (chains: Option<Vec<Vec<String>>>)
    ensures
        match chains {
            Some(found) => ancestor_names(html@, selector@) == Some(chains_view(found@)),
            None => ancestor_names(html@, selector@) is None,
        },
{
    let selector = scraper::Selector::parse(selector).ok()?;
    let document = scraper::Html::parse_document(html);
    Some(
        document.select(&selector).map(
            |element|
                element.ancestors().filter_map(scraper::ElementRef::wrap).map(
                    |around| around.value().name().to_string(),
                ).collect(),
        ).collect(),
    )
}

/// Whether a tag is that of a list.
pub open spec fn is_list_tag(name: Seq<char>) -> bool {
    name == "ul"@ || name == "ol"@ || name == "menu"@
}

/// Whether a tag is that of a table cell.
pub open spec fn is_cell_tag(name: Seq<char>) -> bool {
    name == "td"@ || name == "th"@
}

/// Whether a list item belongs to a list, given the names of the elements
/// around it, the nearest first: going outwards, a list comes before any
/// table cell. The converter reads each table cell by itself, so a list
/// outside the cell does not count for an item inside it.
pub open spec fn is_listed(chain: Seq<Seq<char>>) -> bool
    decreases chain.len(),
{
    if chain.len() == 0 {
        false
    } else if is_list_tag(chain[0]) {
        true
    } else if is_cell_tag(chain[0]) {
        false
    } else {
        is_listed(chain.drop_first())
    }
}

/// Whether every list item of an HTML text belongs to a list. The
/// Markdown converter takes it for granted of its input that this is so,
/// and fails on an item that stands alone.
pub open spec fn convertible(html: Seq<char>) -> bool {
    match ancestor_names(html, "li"@) {
        Some(chains) => all_listed(chains),
        None => false,
    }
}

/// Whether every one of the list items belongs to a list.
pub open spec fn all_listed(chains: Seq<Seq<Seq<char>>>) -> bool {
    forall|k: int| 0 <= k < chains.len() ==> is_listed(#[trigger] chains[k])
}

/// `html2md::parse_html`. The result is given the name `markdown_text`.
/// The call panics where a list item stands outside any list, because
/// the item's handler then edits the output from its very beginning and
/// the handlers around it are left with positions beyond the end; such
/// texts are left out.
#[verifier::external_body]
pub(crate) fn to_markdown(html: &str) -> (markdown: String)
    requires
        convertible(html@),
    ensures
        markdown@ == markdown_text(html@),
{
    html2md::parse_html(html)
}

/// Decides `is_listed`.
pub fn item_is_listed(chain: &Vec<String>) -> (r: bool)
    ensures
        r == is_listed(texts(chain@)),
{
    let mut i: usize = 0;
    assert(texts(chain@).skip(0) =~= texts(chain@));
    while i < chain.len()
        invariant
            i <= chain.len(),
            is_listed(texts(chain@)) == is_listed(texts(chain@).skip(i as int)),
        decreases chain.len() - i,
    {
        let name = chain[i].as_str();
        proof {
            let rest = texts(chain@).skip(i as int);
            assert(rest[0] == chain@[i as int]@);
            assert(rest.drop_first() =~= texts(chain@).skip(i + 1));
        }
        if same_text(name, "ul") || same_text(name, "ol") || same_text(name, "menu") {
            return true;
        }
        if same_text(name, "td") || same_text(name, "th") {
            return false;
        }
        i = i + 1;
    }
    false
}

/// Decides `convertible`.
pub fn can_convert(html: &str) -> (r: bool)
    ensures
        r == convertible(html@),
{
    match element_ancestors(html, "li") {
        None => false,
        Some(chains) => {
            let mut k: usize = 0;
            while k < chains.len()
                invariant
                    k <= chains.len(),
                    ancestor_names(html@, "li"@) == Some(chains_view(chains@)),
                    forall|j: int| 0 <= j < k ==> is_listed(#[trigger] chains_view(chains@)[j]),
                decreases chains.len() - k,
            {
                assert(chains_view(chains@)[k as int] == texts(chains@[k as int]@));
                if !item_is_listed(&chains[k]) {
                    proof {
                        let found = chains_view(chains@);
                        assert(found.len() == chains@.len());
                        assert(!is_listed(found[k as int]));
                        assert(!all_listed(found));
                    }
                    return false;
                }
                k = k + 1;
            }
            true
        },
    }
}

/// `Regex::new`, `Regex::captures`, `Captures::get(1)` and `Match::as_str`
/// of the `regex` crate. The result is given the name `first_group_text`.
#[verifier::external_body]
pub(crate) fn first_group(pattern: &str, text: &str) -> (group: Option<String>)
    ensures
        match group {
            Some(g) => first_group_text(pattern@, text@) == Some(g@),
            None => first_group_text(pattern@, text@) is None,
        },
{
    let re = regex::Regex::new(pattern).ok()?;
    re.captures(text).and_then(|caps| caps.get(1)).map(|m| m.as_str().to_string())
}

/// `Regex::new` and `Regex::replace_all` of the `regex` crate. The result
/// is given the name `replaced_text`.
#[verifier::external_body]
pub(crate) fn replace_all(pattern: &str, replacement: &str, text: &str) -> (r: String)
    ensures
        r@ == replaced_text(pattern@, replacement@, text@),
{
    match regex::Regex::new(pattern) {
        Ok(re) => re.replace_all(text, replacement).into_owned(),
        Err(_) => text.to_string(),
    }
}

/// Texts written one after the other.
pub open spec fn joined(parts: Seq<Seq<char>>) -> Seq<char>
    decreases parts.len(),
{
    if parts.len() == 0 {
        Seq::<char>::empty()
    } else {
        joined(parts.drop_last()) + parts.last()
    }
}

/// Writes texts one after the other.
pub fn join_all(parts: &Vec<String>) -> (s: String)
    ensures
        s@ == joined(texts(parts@)),
{
    let mut s = String::new();
    let mut i: usize = 0;
    assert(texts(parts@).take(0) =~= Seq::<Seq<char>>::empty());
    while i < parts.len()
        invariant
            i <= parts.len(),
            s@ == joined(texts(parts@).take(i as int)),
        decreases parts.len() - i,
    {
        proof {
            let next = texts(parts@).take(i + 1);
            assert(next.drop_last() =~= texts(parts@).take(i as int));
            assert(next.last() == parts@[i as int]@);
        }
        s.append(parts[i].as_str());
        i = i + 1;
    }
    assert(texts(parts@).take(i as int) =~= texts(parts@));
    s
}

/// The Markdown of an HTML text where it can be converted, else the text
/// as it is.
pub open spec fn markdown_or_html(html: Seq<char>) -> Seq<char> {
    if convertible(html) {
        markdown_text(html)
    } else {
        html
    }
}

/// The Markdown of a page's articles, or the articles as they are where
/// they cannot be converted.
pub open spec fn article_markdown_text(html: Seq<char>) -> Seq<char> {
    markdown_or_html(joined(article_fragments(html)))
}

/// An HTML text as Markdown. A text in which a list item stands outside
/// any list cannot be converted and is handed back as it is.
pub fn markdown_of(html: &str) -> (markdown: String)
    ensures
        markdown@ == markdown_or_html(html@),
{
    if can_convert(html) {
        to_markdown(html)
    } else {
        html.to_owned()
    }
}

/// The articles of a page as Markdown: the articles are taken out of the
/// page, written one after the other, and converted together. Articles
/// that cannot be converted come back as they are.
pub fn article_markdown(html: &str) -> (markdown: String)
    ensures
        markdown@ == article_markdown_text(html@),
{
    let fragments = select_articles(html);
    let articles_html = join_all(&fragments);
    markdown_of(articles_html.as_str())
}

/// The ways of reading a page.
#[derive(Debug, Clone, Copy, PartialEq, Eq, Structural)]
pub enum ParserType {
    /// The calendar as coloured text.
    Colored,
    /// The articles as Markdown.
    Markdown,
    /// The page as it is.
    Raw,
}

/// A way of reading a page.
pub trait HttpParser {
    /// What is read in a page.
    spec fn parsed(&self, html: Seq<char>) -> Seq<char>;

    /// Reads a page.
    fn parse(&self, html: &str) -> (text: String)
        ensures
            text@ == self.parsed(html@),
    ;
}

/// The reader that hands a page back as it is.
#[derive(Debug, Clone, Copy, PartialEq, Eq, Structural)]
pub struct DummyParser;

impl HttpParser for DummyParser {
    open spec fn parsed(&self, html: Seq<char>) -> Seq<char> {
        html
    }

    fn parse(&self, html: &str) -> (text: String) {
        html.to_owned()
    }
}

/// Reads a page in the given way. The calendar is read off the page's
/// calendar element, which the caller takes out of the page.
pub fn parse_html(html: &str, parser_type: ParserType, calendar: Option<&CalendarElement>) -> (text:
    String)
    ensures
        match parser_type {
            ParserType::Colored => renders(text@, html@, calendar),
            ParserType::Markdown => text@ == article_markdown_text(html@),
            ParserType::Raw => text@ == html@,
        },
{
    match parser_type {
        ParserType::Colored => render_calendar(html, calendar),
        ParserType::Markdown => article_markdown(html),
        ParserType::Raw => (DummyParser).parse(html),
    }
}

/// The pattern of a Markdown link, with the link's text as its first
/// group.
pub const MARKDOWN_LINK: &'static str = r"\[\[?([^\[\]]+)\]?\]\([^)]+\)";

/// A Markdown text with each link replaced by the link's text.
pub fn remove_markdown_links(text: &str) -> (r: String)
    ensures
        r@ == replaced_text(MARKDOWN_LINK@, "$1"@, text@),
{
    replace_all(MARKDOWN_LINK, "$1", text)
}

} // verus!

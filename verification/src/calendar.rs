//! The calendar page as coloured text for the terminal.
//!
//! The page's markup is walked in document order. Text is cut into rows
//! at line feeds; the stars of a day are shown or not by how many the
//! user has; each piece of text gets the colour that the page's style
//! sheet gives its class.

use crate::parser::{group_pairs, group_pairs_text, join_all, joined};
use crate::table::{find_in, lemma_lookup_view, lookup_text, pairs_view};
use crate::text::{chars_of, concat2, contains_text, has_text, same_text, text_between, texts};
use vstd::prelude::*;
use vstd::string::*;

verus! {

/// A node of the calendar's markup.
#[derive(Debug, PartialEq, Eq)]
pub enum CalendarNode {
    /// Text.
    Text(String),
    /// An element.
    Element(CalendarElement),
    /// Anything else: a comment, a processing instruction.
    Other,
}

/// An element of the calendar's markup, with what the rendering reads of
/// it.
#[derive(Debug, PartialEq, Eq)]
pub struct CalendarElement {
    /// The tag name.
    pub name: String,
    /// The `class` attribute, empty where there is none.
    pub class: String,
    /// The `aria-label` attribute, empty where there is none.
    pub aria_label: String,
    /// The child nodes, in order.
    pub children: Vec<CalendarNode>,
}

/// How many stars the user has for a day.
#[derive(Debug, Clone, Copy, PartialEq, Eq, Structural)]
pub enum CalendarStars {
    One,
    Two,
}

/// A piece of text with its colour, written as in a style sheet.
#[derive(Debug, PartialEq, Eq)]
pub struct Segment {
    pub text: String,
    pub hex: String,
}

/// The mathematical content of a `Segment`.
pub struct SegmentView {
    pub text: Seq<char>,
    pub hex: Seq<char>,
}

impl View for Segment {
    type V = SegmentView;

    open spec fn view(&self) -> SegmentView {
        SegmentView { text: self.text@, hex: self.hex@ }
    }
}

/// The views of the segments of a row.
pub open spec fn row_view(row: Seq<Segment>) -> Seq<SegmentView> {
    row.map_values(|s: Segment| s@)
}

/// The views of rows.
pub open spec fn rows_view(rows: Seq<Vec<Segment>>) -> Seq<Seq<SegmentView>> {
    rows.map_values(|r: Vec<Segment>| row_view(r@))
}

/// The colour of plain text and of what is written in italics.
pub const DIM: &'static str = "#666666";

/// The colour of a class that the style sheet does not mention.
pub const PLAIN: &'static str = "#cccccc";

/// The rows so far and the row that is being filled.
pub struct Canvas {
    pub rows: Seq<Seq<SegmentView>>,
    pub row: Seq<SegmentView>,
}

impl Canvas {
    /// The canvas with one more piece in the row that is being filled.
    pub open spec fn put(self, text: Seq<char>, hex: Seq<char>) -> Canvas {
        Canvas { rows: self.rows, row: self.row.push(SegmentView { text, hex }) }
    }

    /// The canvas after a line feed: the row that is being filled is
    /// closed, unless nothing at all has been drawn so far.
    pub open spec fn line_feed(self) -> Canvas {
        if self.row.len() > 0 || self.rows.len() > 0 {
            Canvas { rows: self.rows.push(self.row), row: Seq::empty() }
        } else {
            self
        }
    }

    /// The canvas with the rows of a nested element drawn in: its first
    /// row goes on in the row that is being filled, and its last row is
    /// the one that is filled from here on.
    pub open spec fn merge(self, sub: Seq<Seq<SegmentView>>) -> Canvas {
        if sub.len() == 0 {
            self
        } else if sub.len() == 1 {
            Canvas { rows: self.rows, row: self.row + sub[0] }
        } else {
            Canvas {
                rows: self.rows + seq![self.row + sub[0]] + sub.subrange(1, sub.len() - 1),
                row: sub.last(),
            }
        }
    }

    /// The rows of a finished canvas: the row that is being filled counts
    /// if it holds anything.
    pub open spec fn finish(self) -> Seq<Seq<SegmentView>> {
        if self.row.len() > 0 {
            self.rows.push(self.row)
        } else {
            self.rows
        }
    }
}

/// The canvas after the text from `i` on has been drawn, where the piece
/// that is being read began at `start`: each line feed ends a piece and
/// closes the row, and a piece that is not empty is drawn dim.
pub open spec fn draw_text(text: Seq<char>, i: int, start: int, canvas: Canvas) -> Canvas
    decreases text.len() - i,
{
    if start < 0 || i < start {
        canvas
    } else if i >= text.len() {
        if start < text.len() {
            canvas.put(text.subrange(start, text.len() as int), DIM@)
        } else {
            canvas
        }
    } else if text[i] == '\n' {
        let drawn = if start < i {
            canvas.put(text.subrange(start, i), DIM@)
        } else {
            canvas
        };
        draw_text(text, i + 1, i + 1, drawn.line_feed())
    } else {
        draw_text(text, i + 1, start, canvas)
    }
}

/// The text that an element shows: that of its first child, if that
/// child is text.
pub open spec fn first_text(children: Seq<CalendarNode>) -> Seq<char> {
    if children.len() > 0 && children[0] is Text {
        children[0]->Text_0@
    } else {
        Seq::empty()
    }
}

/// The stars that a day's label speaks of.
pub open spec fn stars_of(label: Seq<char>) -> Option<CalendarStars> {
    if contains_text(label, "two stars"@) {
        Some(CalendarStars::Two)
    } else if contains_text(label, "one star"@) {
        Some(CalendarStars::One)
    } else {
        None
    }
}

/// Whether a span of the given class is shown to a user with these stars:
/// nothing without stars, all but the second star's mark with one, and
/// everything with two.
pub open spec fn span_shown(stars: Option<CalendarStars>, class: Seq<char>) -> bool {
    match stars {
        Some(CalendarStars::Two) => true,
        Some(CalendarStars::One) => class != "calendar-mark-verycomplete"@,
        None => false,
    }
}

/// The colour of a class.
pub open spec fn color_of(colors: Seq<(Seq<char>, Seq<char>)>, class: Seq<char>) -> Seq<char> {
    match lookup_text(colors, class) {
        Some(hex) => hex,
        None => PLAIN@,
    }
}

/// The canvas after the nodes from `i` on have been drawn.
pub open spec fn draw_nodes(
    nodes: Seq<CalendarNode>,
    i: int,
    colors: Seq<(Seq<char>, Seq<char>)>,
    stars: Option<CalendarStars>,
    canvas: Canvas,
) -> Canvas
    decreases nodes, nodes.len() - i,
{
    if 0 <= i < nodes.len() {
        let drawn = match nodes[i] {
            CalendarNode::Text(text) => draw_text(text@, 0, 0, canvas),
            CalendarNode::Element(e) => if e.name@ == "span"@ {
                if span_shown(stars, e.class@) {
                    canvas.put(first_text(e.children@), color_of(colors, e.class@))
                } else {
                    canvas
                }
            } else if e.name@ == "i"@ {
                canvas.put(first_text(e.children@), DIM@)
            } else {
                canvas.merge(calendar_rows(e.children@, colors, stars_of(e.aria_label@)))
            },
            CalendarNode::Other => canvas,
        };
        draw_nodes(nodes, i + 1, colors, stars, drawn)
    } else {
        canvas
    }
}

/// The rows that the children of an element draw, for a user with the
/// given stars for the day that the element belongs to.
pub open spec fn calendar_rows(
    nodes: Seq<CalendarNode>,
    colors: Seq<(Seq<char>, Seq<char>)>,
    stars: Option<CalendarStars>,
) -> Seq<Seq<SegmentView>>
    decreases nodes, nodes.len() + 1,
{
    draw_nodes(
        nodes,
        0,
        colors,
        stars,
        Canvas { rows: Seq::empty(), row: Seq::empty() },
    ).finish()
}

spec fn canvas_of(rows: Seq<Vec<Segment>>, row: Seq<Segment>) -> Canvas {
    Canvas { rows: rows_view(rows), row: row_view(row) }
}

fn put(row: &mut Vec<Segment>, text: String, hex: &str)
    ensures
        row_view(final(row)@) == row_view(old(row)@).push(SegmentView { text: text@, hex: hex@ }),
{
    row.push(Segment { text, hex: String::from_str(hex) });
    assert(row_view(row@) =~= row_view(old(row)@).push(SegmentView { text: text@, hex: hex@ }));
}

fn close_row(rows: &mut Vec<Vec<Segment>>, row: &mut Vec<Segment>)
    ensures
        rows_view(final(rows)@) == rows_view(old(rows)@).push(row_view(old(row)@)),
        final(row)@.len() == 0,
{
    let mut done: Vec<Segment> = Vec::new();
    std::mem::swap(row, &mut done);
    rows.push(done);
    assert(rows_view(rows@) =~= rows_view(old(rows)@).push(row_view(old(row)@)));
}

fn draw_text_node(text: &str, rows: &mut Vec<Vec<Segment>>, row: &mut Vec<Segment>)
    ensures
        canvas_of(final(rows)@, final(row)@) == draw_text(
            text@,
            0,
            0,
            canvas_of(old(rows)@, old(row)@),
        ),
{
    let cs = chars_of(text);
    let mut start: usize = 0;
    let mut i: usize = 0;
    while i < cs.len()
        invariant
            cs@ == text@,
            start <= i <= cs.len(),
            draw_text(text@, 0, 0, canvas_of(old(rows)@, old(row)@)) == draw_text(
                text@,
                i as int,
                start as int,
                canvas_of(rows@, row@),
            ),
        decreases cs.len() - i,
    {
        if cs[i] == '\n' {
            if start < i {
                put(row, text_between(text, start, i), DIM);
            }
            proof {
                assert(row_view(row@).len() == row@.len());
                assert(rows_view(rows@).len() == rows@.len());
            }
            if row.len() > 0 || rows.len() > 0 {
                close_row(rows, row);
                assert(row_view(row@) =~= Seq::<SegmentView>::empty());
            }
            start = i + 1;
        }
        i = i + 1;
    }
    if start < cs.len() {
        put(row, text_between(text, start, cs.len()), DIM);
    }
}

fn shown_text(children: &Vec<CalendarNode>) -> (text: String)
    ensures
        text@ == first_text(children@),
{
    if children.len() > 0 {
        match &children[0] {
            CalendarNode::Text(text) => text.clone(),
            _ => String::new(),
        }
    } else {
        String::new()
    }
}

/// The stars that a day's label speaks of.
pub fn stars_in_label(label: &str) -> (stars: Option<CalendarStars>)
    ensures
        stars == stars_of(label@),
{
    let text = chars_of(label);
    let two = chars_of("two stars");
    let one = chars_of("one star");
    if has_text(&text, &two) {
        Some(CalendarStars::Two)
    } else if has_text(&text, &one) {
        Some(CalendarStars::One)
    } else {
        None
    }
}

fn merge_rows(rows: &mut Vec<Vec<Segment>>, row: &mut Vec<Segment>, sub_rows: Vec<Vec<Segment>>)
    ensures
        canvas_of(final(rows)@, final(row)@) == canvas_of(old(rows)@, old(row)@).merge(
            rows_view(sub_rows@),
        ),
{
    let ghost start = canvas_of(rows@, row@);
    let ghost sub = rows_view(sub_rows@);
    let mut sub_rows = sub_rows;
    let n: usize = sub_rows.len();
    assert(sub.len() == n);
    let mut i: usize = 0;
    while i < n
        invariant
            i <= n,
            n == sub_rows@.len(),
            sub.len() == n,
            forall|k: int| i <= k < n ==> row_view(#[trigger] sub_rows@[k]@) == sub[k],
            i == 0 ==> canvas_of(rows@, row@) == start,
            i == 1 ==> canvas_of(rows@, row@) == (Canvas {
                rows: start.rows,
                row: start.row + sub[0],
            }),
            i >= 2 ==> canvas_of(rows@, row@) == (Canvas {
                rows: start.rows + seq![start.row + sub[0]] + sub.subrange(1, i - 1),
                row: sub[i - 1],
            }),
        decreases n - i,
    {
        let mut sub_row: Vec<Segment> = Vec::new();
        let ghost taken = sub_rows@[i as int];
        let ghost rest = sub_rows@;
        std::mem::swap(&mut sub_rows[i], &mut sub_row);
        assert(sub_row == taken);
        assert forall|k: int| i + 1 <= k < n implies row_view(#[trigger] sub_rows@[k]@)
            == sub[k] by {
            assert(sub_rows@[k] == rest[k]);
        }
        if i == 0 {
            let ghost before = row@;
            row.append(&mut sub_row);
            assert(row_view(row@) =~= row_view(before) + sub[0]);
        } else {
            close_row(rows, row);
            *row = sub_row;
            proof {
                if i == 1 {
                    assert(rows_view(rows@) =~= start.rows + seq![start.row + sub[0]]
                        + sub.subrange(1, 1));
                } else {
                    assert(rows_view(rows@) =~= start.rows + seq![start.row + sub[0]]
                        + sub.subrange(1, i as int));
                }
            }
        }
        i = i + 1;
    }
    proof {
        if n >= 2 {
            assert(sub.last() == sub[n - 1]);
        }
    }
}

/// Draws the children of an element: the rows of coloured text that they
/// make, for a user with `current_stars` for the day that the element
/// belongs to.
pub fn process_calendar_content(
    element: &CalendarElement,
    class_color_map: &Vec<(String, String)>,
    current_stars: Option<CalendarStars>,
) -> (rows: Vec<Vec<Segment>>)
    ensures
        rows_view(rows@) == calendar_rows(
            element.children@,
            pairs_view(class_color_map@),
            current_stars,
        ),
    decreases element,
{
    let mut rows: Vec<Vec<Segment>> = Vec::new();
    let mut current_row: Vec<Segment> = Vec::new();
    let ghost nodes = element.children@;
    let ghost blank = Canvas { rows: Seq::empty(), row: Seq::empty() };
    assert(canvas_of(rows@, current_row@) =~= blank) by {
        assert(rows_view(rows@) =~= Seq::<Seq<SegmentView>>::empty());
        assert(row_view(current_row@) =~= Seq::<SegmentView>::empty());
    }
    let mut i: usize = 0;
    while i < element.children.len()
        invariant
            i <= element.children.len(),
            nodes == element.children@,
            draw_nodes(nodes, 0, pairs_view(class_color_map@), current_stars, blank)
                == draw_nodes(
                nodes,
                i as int,
                pairs_view(class_color_map@),
                current_stars,
                canvas_of(rows@, current_row@),
            ),
        decreases element.children.len() - i,
    {
        match &element.children[i] {
            CalendarNode::Text(text) => {
                draw_text_node(text.as_str(), &mut rows, &mut current_row);
            },
            CalendarNode::Element(elem) => {
                if same_text(elem.name.as_str(), "span") {
                    let shown = match current_stars {
                        Some(CalendarStars::Two) => true,
                        Some(CalendarStars::One) => !same_text(
                            elem.class.as_str(),
                            "calendar-mark-verycomplete",
                        ),
                        None => false,
                    };
                    if shown {
                        let content = shown_text(&elem.children);
                        proof {
                            lemma_lookup_view(class_color_map@, elem.class@);
                        }
                        match find_in(class_color_map, elem.class.as_str()) {
                            Some(at) => put(
                                &mut current_row,
                                content,
                                class_color_map[at].1.as_str(),
                            ),
                            None => put(&mut current_row, content, PLAIN),
                        }
                    }
                } else if same_text(elem.name.as_str(), "i") {
                    let content = shown_text(&elem.children);
                    put(&mut current_row, content, DIM);
                } else {
                    let stars = stars_in_label(elem.aria_label.as_str());
                    let sub_rows = process_calendar_content(elem, class_color_map, stars);
                    merge_rows(&mut rows, &mut current_row, sub_rows);
                }
            },
            CalendarNode::Other => {},
        }
        i = i + 1;
    }
    proof {
        assert(row_view(current_row@).len() == current_row@.len());
    }
    if current_row.len() > 0 {
        let ghost before = rows@;
        rows.push(current_row);
        assert(rows_view(rows@) =~= rows_view(before).push(row_view(current_row@)));
    }
    rows
}

/// The pattern of a colour rule of the calendar's style sheet, with the
/// end of the class name as its first group and the colour as its second.
pub const STYLE_PATTERN: &'static str = r"\.calendar-color-([\w\d]+)\s*\{\s*color:\s*(#[0-9a-fA-F]{6});";

/// The colours that every calendar has, as class and colour.
pub open spec fn default_colors() -> Seq<(Seq<char>, Seq<char>)> {
    seq![
        ("calendar-day"@, "#cccccc"@),
        ("calendar-mark-complete"@, "#ffff66"@),
        ("calendar-mark-verycomplete"@, "#ffff66"@),
    ]
}

/// The colour table of a calendar: the colours that every calendar has,
/// then one entry for each colour rule that was found, under the full
/// name of its class. A later entry overrides an earlier one.
pub open spec fn color_table(rules: Seq<(Seq<char>, Seq<char>)>) -> Seq<(Seq<char>, Seq<char>)> {
    default_colors() + rules.map_values(
        |rule: (Seq<char>, Seq<char>)| ("calendar-color-"@ + rule.0, rule.1),
    )
}

/// Builds the colour table from the colour rules that were found in a
/// style sheet.
pub fn color_map_from(rules: &Vec<(String, String)>) -> (map: Vec<(String, String)>)
    ensures
        pairs_view(map@) == color_table(pairs_view(rules@)),
{
    let mut map: Vec<(String, String)> = Vec::new();
    map.push((String::from_str("calendar-day"), String::from_str("#cccccc")));
    map.push((String::from_str("calendar-mark-complete"), String::from_str("#ffff66")));
    map.push((String::from_str("calendar-mark-verycomplete"), String::from_str("#ffff66")));
    let mut i: usize = 0;
    while i < rules.len()
        invariant
            i <= rules.len(),
            map@.len() == 3 + i,
            pairs_view(map@).subrange(0, 3) == default_colors(),
            forall|k: int|
                0 <= k < i ==> (#[trigger] map@[3 + k]).0@ == "calendar-color-"@ + rules@[k].0@
                    && map@[3 + k].1@ == rules@[k].1@,
        decreases rules.len() - i,
    {
        let ghost before = map@;
        let class = concat2("calendar-color-", rules[i].0.as_str());
        map.push((class, rules[i].1.clone()));
        assert(pairs_view(map@).subrange(0, 3) =~= pairs_view(before).subrange(0, 3));
        assert forall|k: int| 0 <= k < i + 1 implies (#[trigger] map@[3 + k]).0@
            == "calendar-color-"@ + rules@[k].0@ && map@[3 + k].1@ == rules@[k].1@ by {
            if k < i {
                assert(map@[3 + k] == before[3 + k]);
            }
        }
        i = i + 1;
    }
    proof {
        let want = color_table(pairs_view(rules@));
        assert(pairs_view(map@).len() == want.len());
        assert forall|k: int| 0 <= k < want.len() implies pairs_view(map@)[k] == want[k] by {
            if k < 3 {
                assert(pairs_view(map@).subrange(0, 3)[k] == pairs_view(map@)[k]);
            } else {
                assert(map@[3 + (k - 3)].0@ == "calendar-color-"@ + rules@[k - 3].0@);
            }
        }
        assert(pairs_view(map@) =~= want);
    }
    map
}

/// The colour table of a calendar page, read off its style sheet.
pub fn build_color_map(html: &str) -> (map: Vec<(String, String)>)
    ensures
        pairs_view(map@) == color_table(group_pairs_text(STYLE_PATTERN@, html@)),
{
    let rules = group_pairs(STYLE_PATTERN, html);
    color_map_from(&rules)
}

/// The number that a hexadecimal digit stands for, if it is one.
pub open spec fn hex_digit(c: char) -> Option<nat> {
    if '0' <= c <= '9' {
        Some((c as u32 - '0' as u32) as nat)
    } else if 'a' <= c <= 'f' {
        Some((c as u32 - 'a' as u32 + 10) as nat)
    } else if 'A' <= c <= 'F' {
        Some((c as u32 - 'A' as u32 + 10) as nat)
    } else {
        None
    }
}

/// The number that two characters write in hexadecimal, read as std reads
/// a `u8` in base 16: two digits, or a `+` and one digit.
pub open spec fn hex_pair(a: char, b: char) -> Option<u8> {
    match (hex_digit(a), hex_digit(b)) {
        (Some(high), Some(low)) => Some((16 * high + low) as u8),
        (None, Some(low)) => if a == '+' {
            Some(low as u8)
        } else {
            None
        },
        _ => None,
    }
}

/// The colour that a text of the form `#RRGGBB` writes.
pub open spec fn hex_color(hex: Seq<char>) -> Option<(u8, u8, u8)> {
    if hex.len() == 7 && hex[0] == '#' {
        match (hex_pair(hex[1], hex[2]), hex_pair(hex[3], hex[4]), hex_pair(hex[5], hex[6])) {
            (Some(r), Some(g), Some(b)) => Some((r, g, b)),
            _ => None,
        }
    } else {
        None
    }
}

fn digit_of(c: char) -> (r: Option<u8>)
    ensures
        match r {
            Some(d) => hex_digit(c) == Some(d as nat) && d < 16,
            None => hex_digit(c) is None,
        },
{
    if '0' <= c && c <= '9' {
        Some((c as u32 - '0' as u32) as u8)
    } else if 'a' <= c && c <= 'f' {
        Some((c as u32 - 'a' as u32 + 10) as u8)
    } else if 'A' <= c && c <= 'F' {
        Some((c as u32 - 'A' as u32 + 10) as u8)
    } else {
        None
    }
}

fn pair_of(a: char, b: char) -> (r: Option<u8>)
    ensures
        r == hex_pair(a, b),
{
    match (digit_of(a), digit_of(b)) {
        (Some(high), Some(low)) => Some(16 * high + low),
        (None, Some(low)) => {
            if a == '+' {
                Some(low)
            } else {
                None
            }
        },
        _ => None,
    }
}

/// Whether every character is one of ASCII.
pub open spec fn all_ascii(s: Seq<char>) -> bool {
    forall|i: int| 0 <= i < s.len() ==> (#[trigger] s[i] as u32) < 128
}

/// Reads a colour of the form `#RRGGBB`. The text must be ASCII.
pub fn parse_hex_color(hex: &str) -> (r: Option<(u8, u8, u8)>)
    requires
        all_ascii(hex@),
    ensures
        r == hex_color(hex@),
{
    let cs = chars_of(hex);
    if cs.len() == 7 && cs[0] == '#' {
        let r = pair_of(cs[1], cs[2]);
        let g = pair_of(cs[3], cs[4]);
        let b = pair_of(cs[5], cs[6]);
        match (r, g, b) {
            (Some(r), Some(g), Some(b)) => Some((r, g, b)),
            _ => None,
        }
    } else {
        None
    }
}

/// Reads a colour of the form `#RRGGBB`, or nothing from a text that is
/// not ASCII.
pub fn read_color(hex: &str) -> (r: Option<(u8, u8, u8)>)
    ensures
        r == if all_ascii(hex@) {
            hex_color(hex@)
        } else {
            None
        },
{
    let cs = chars_of(hex);
    let mut i: usize = 0;
    while i < cs.len()
        invariant
            i <= cs.len(),
            cs@ == hex@,
            forall|k: int| 0 <= k < i ==> (#[trigger] cs@[k] as u32) < 128,
        decreases cs.len() - i,
    {
        if cs[i] as u32 >= 128 {
            return None;
        }
        i = i + 1;
    }
    parse_hex_color(hex)
}

/// `Colorize::truecolor` of the `colored` crate, written out with
/// `to_string`: the text dressed in the escape sequences of a 24-bit
/// colour, or the text as it is where colours are switched off. Which of
/// the two depends on the environment, so nothing is claimed.
#[verifier::external_body]
pub(crate) fn truecolor(text: &str, r: u8, g: u8, b: u8) -> (painted: String) {
    colored::Colorize::truecolor(text, r, g, b).to_string()
}

/// A segment as it is printed: in its colour where the colour can be
/// read, else as it is.
pub fn paint(segment: &Segment) -> (painted: String)
    ensures
        !all_ascii(segment.hex@) || hex_color(segment.hex@) is None ==> painted@ == segment.text@,
{
    match read_color(segment.hex.as_str()) {
        Some(rgb) => truecolor(segment.text.as_str(), rgb.0, rgb.1, rgb.2),
        None => segment.text.clone(),
    }
}

/// Rows written out: the pieces of a row one after the other, and a line
/// feed between two rows.
pub open spec fn rows_text(rows: Seq<Seq<Seq<char>>>) -> Seq<char>
    decreases rows.len(),
{
    if rows.len() == 0 {
        Seq::<char>::empty()
    } else if rows.len() == 1 {
        joined(rows[0])
    } else {
        rows_text(rows.drop_last()) + seq!['\n'] + joined(rows.last())
    }
}

/// The views of rows of texts.
pub open spec fn painted_view(rows: Seq<Vec<String>>) -> Seq<Seq<Seq<char>>> {
    rows.map_values(|r: Vec<String>| texts(r@))
}

/// Writes rows out: the pieces of a row one after the other, and a line
/// feed between two rows.
pub fn join_rows(rows: &Vec<Vec<String>>) -> (s: String)
    ensures
        s@ == rows_text(painted_view(rows@)),
{
    let mut s = String::new();
    let mut i: usize = 0;
    assert(painted_view(rows@).take(0) =~= Seq::<Seq<Seq<char>>>::empty());
    while i < rows.len()
        invariant
            i <= rows.len(),
            s@ == rows_text(painted_view(rows@).take(i as int)),
        decreases rows.len() - i,
    {
        proof {
            let next = painted_view(rows@).take(i + 1);
            assert(next.drop_last() =~= painted_view(rows@).take(i as int));
            assert(next.last() == texts(rows@[i as int]@));
            reveal_strlit("\n");
            assert("\n"@ =~= seq!['\n']);
        }
        if i > 0 {
            s.append("\n");
        }
        let row = join_all(&rows[i]);
        s.append(row.as_str());
        i = i + 1;
    }
    assert(painted_view(rows@).take(i as int) =~= painted_view(rows@));
    s
}

/// Whether painted rows have a piece for each segment of the rows that
/// were drawn.
pub open spec fn same_shape(painted: Seq<Seq<Seq<char>>>, rows: Seq<Seq<SegmentView>>) -> bool {
    &&& painted.len() == rows.len()
    &&& forall|i: int| 0 <= i < rows.len() ==> (#[trigger] painted[i]).len() == rows[i].len()
}

/// Paints every segment of every row.
pub fn paint_rows(rows: &Vec<Vec<Segment>>) -> (painted: Vec<Vec<String>>)
    ensures
        painted@.len() == rows@.len(),
        forall|i: int| 0 <= i < rows@.len() ==> (#[trigger] painted@[i])@.len() == rows@[i]@.len(),
        forall|i: int, j: int|
            0 <= i < rows@.len() && 0 <= j < rows@[i]@.len() && (!all_ascii(rows@[i]@[j].hex@)
                || hex_color(rows@[i]@[j].hex@) is None) ==> (#[trigger] painted@[i]@[j])@
                == rows@[i]@[j].text@,
{
    let mut painted: Vec<Vec<String>> = Vec::new();
    let mut i: usize = 0;
    while i < rows.len()
        invariant
            i <= rows.len(),
            painted@.len() == i,
            forall|a: int| 0 <= a < i ==> (#[trigger] painted@[a])@.len() == rows@[a]@.len(),
            forall|a: int, j: int|
                0 <= a < i && 0 <= j < rows@[a]@.len() && (!all_ascii(rows@[a]@[j].hex@)
                    || hex_color(rows@[a]@[j].hex@) is None) ==> (#[trigger] painted@[a]@[j])@
                    == rows@[a]@[j].text@,
        decreases rows.len() - i,
    {
        let mut row: Vec<String> = Vec::new();
        let mut j: usize = 0;
        while j < rows[i].len()
            invariant
                i < rows.len(),
                j <= rows@[i as int]@.len(),
                row@.len() == j,
                forall|k: int|
                    0 <= k < j && (!all_ascii(rows@[i as int]@[k].hex@) || hex_color(
                        rows@[i as int]@[k].hex@,
                    ) is None) ==> (#[trigger] row@[k])@ == rows@[i as int]@[k].text@,
            decreases rows@[i as int]@.len() - j,
        {
            row.push(paint(&rows[i][j]));
            j = j + 1;
        }
        painted.push(row);
        i = i + 1;
    }
    painted
}

/// Whether `text` shows the calendar of a page: nothing for a page
/// without a calendar element, else the rows that the element draws in
/// the colours of the page's style sheet, each segment painted by the
/// terminal's colour support or left as it is, the rows written out one
/// below the other.
pub open spec fn renders(text: Seq<char>, html: Seq<char>, calendar: Option<&CalendarElement>) -> bool {
    match calendar {
        None => text.len() == 0,
        Some(pre) => exists|painted: Seq<Seq<Seq<char>>>|
            {
                &&& text == rows_text(painted)
                &&& #[trigger] same_shape(
                    painted,
                    calendar_rows(
                        pre.children@,
                        color_table(group_pairs_text(STYLE_PATTERN@, html)),
                        None,
                    ),
                )
            },
    }
}

/// The calendar of a page as text for the terminal: the content of the
/// page's calendar element, row by row, in the colours of the page's
/// style sheet. A page without a calendar gives nothing.
pub fn render_calendar(html: &str, calendar: Option<&CalendarElement>) -> (text: String)
    ensures
        renders(text@, html@, calendar),
{
    match calendar {
        None => String::new(),
        Some(pre_element) => {
            let class_color_map = build_color_map(html);
            let rows = process_calendar_content(pre_element, &class_color_map, None);
            let painted = paint_rows(&rows);
            proof {
                let drawn = calendar_rows(
                    pre_element.children@,
                    color_table(group_pairs_text(STYLE_PATTERN@, html@)),
                    None,
                );
                assert(rows_view(rows@) == drawn);
                assert forall|i: int| 0 <= i < drawn.len() implies (#[trigger] painted_view(
                    painted@,
                )[i]).len() == drawn[i].len() by {
                    assert(painted@[i]@.len() == rows@[i]@.len());
                    assert(rows_view(rows@)[i] == row_view(rows@[i]@));
                }
                assert(same_shape(painted_view(painted@), drawn));
            }
            join_rows(&painted)
        },
    }
}

} // verus!

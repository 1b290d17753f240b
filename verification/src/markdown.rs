//! Markdown notes rendered into styled terminal lines: headings,
//! bold/italic/strikethrough, inline code, code blocks, lists (bullets and
//! numbers, nested), blockquotes, links and horizontal rules. Tables and
//! raw HTML fall back to plain text.
use vstd::prelude::*;

use pulldown_cmark::{Event, Options, Parser, Tag, TagEnd};

use crate::style::{Look, Piece, Tint};
use crate::text::{blank, decimal, is_blank, lines_of, push_decimal, push_str, split_lines, string_of, views};

verus! {

/// The opening of a Markdown element, as the renderer tells them apart.
#[derive(Debug, Clone)]
pub enum MdTag {
    Paragraph,
    /// A heading of the given level, 1 to 6.
    Heading(u8),
    BlockQuote,
    CodeBlock,
    /// A list: the first number of an ordered list, `None` for bullets.
    List(Option<u64>),
    Item,
    Emphasis,
    Strong,
    Strikethrough,
    /// A link to the given address.
    Link(String),
    Other,
}

/// The closing of a Markdown element.
#[derive(Debug, Clone, Copy, PartialEq, Eq, Structural)]
pub enum MdTagEnd {
    Paragraph,
    Heading,
    BlockQuote,
    CodeBlock,
    List,
    Item,
    Emphasis,
    Strong,
    Strikethrough,
    Link,
    Other,
}

/// A Markdown parse event, as the renderer tells them apart.
#[derive(Debug, Clone)]
pub enum MdEvent {
    Start(MdTag),
    End(MdTagEnd),
    Text(String),
    Code(String),
    SoftBreak,
    HardBreak,
    Rule,
    Other,
}

/// `MdTag` with its text as characters.
pub enum TagView {
    Paragraph,
    Heading(u8),
    BlockQuote,
    CodeBlock,
    List(Option<u64>),
    Item,
    Emphasis,
    Strong,
    Strikethrough,
    Link(Seq<char>),
    Other,
}

/// `MdEvent` with its texts as characters.
pub enum EventView {
    Start(TagView),
    End(MdTagEnd),
    Text(Seq<char>),
    Code(Seq<char>),
    SoftBreak,
    HardBreak,
    Rule,
    Other,
}

/// A run of text in one look, its text as characters.
#[verifier::ext_equal]
pub struct PieceView {
    pub text: Seq<char>,
    pub look: Look,
}

pub open spec fn tag_view(t: MdTag) -> TagView {
    match t {
        MdTag::Paragraph => TagView::Paragraph,
        MdTag::Heading(l) => TagView::Heading(l),
        MdTag::BlockQuote => TagView::BlockQuote,
        MdTag::CodeBlock => TagView::CodeBlock,
        MdTag::List(s) => TagView::List(s),
        MdTag::Item => TagView::Item,
        MdTag::Emphasis => TagView::Emphasis,
        MdTag::Strong => TagView::Strong,
        MdTag::Strikethrough => TagView::Strikethrough,
        MdTag::Link(u) => TagView::Link(u@),
        MdTag::Other => TagView::Other,
    }
}

pub open spec fn event_view(e: MdEvent) -> EventView {
    match e {
        MdEvent::Start(t) => EventView::Start(tag_view(t)),
        MdEvent::End(t) => EventView::End(t),
        MdEvent::Text(s) => EventView::Text(s@),
        MdEvent::Code(s) => EventView::Code(s@),
        MdEvent::SoftBreak => EventView::SoftBreak,
        MdEvent::HardBreak => EventView::HardBreak,
        MdEvent::Rule => EventView::Rule,
        MdEvent::Other => EventView::Other,
    }
}

pub open spec fn events_view(es: Seq<MdEvent>) -> Seq<EventView> {
    es.map_values(|e: MdEvent| event_view(e))
}

pub open spec fn piece_view(p: Piece) -> PieceView {
    PieceView { text: p.text@, look: p.look }
}

pub open spec fn pieces_view(ps: Seq<Piece>) -> Seq<PieceView> {
    ps.map_values(|p: Piece| piece_view(p))
}

pub open spec fn lines_view(ls: Seq<Vec<Piece>>) -> Seq<Seq<PieceView>> {
    ls.map_values(|l: Vec<Piece>| pieces_view(l@))
}

/// The events pulldown-cmark produces for a Markdown text, with
/// strikethrough enabled.
pub uninterp spec fn markdown_events(md: Seq<char>) -> Seq<EventView>;

/// The renderer's state.
#[verifier::ext_equal]
pub struct MdState {
    /// The finished lines.
    pub lines: Seq<Seq<PieceView>>,
    /// The pieces of the line being built.
    pub spans: Seq<PieceView>,
    /// The look of new text.
    pub style: Look,
    /// The looks to go back to when an inline element or heading ends.
    pub style_stack: Seq<Look>,
    /// The open lists: the next number of an ordered list, `None` for
    /// bullets.
    pub list_stack: Seq<Option<u64>>,
    /// The width of the last marker emitted at each list level.
    pub marker_widths: Seq<usize>,
    pub quote_depth: usize,
    pub in_code_block: bool,
    pub link_url: Option<Seq<char>>,
}

/// The state before the first event.
pub open spec fn initial_state() -> MdState {
    MdState {
        lines: Seq::empty(),
        spans: Seq::empty(),
        style: Look::spec_plain(),
        style_stack: Seq::empty(),
        list_stack: Seq::empty(),
        marker_widths: Seq::empty(),
        quote_depth: 0,
        in_code_block: false,
        link_url: None,
    }
}

/// Every open list has its marker width.
pub open spec fn md_wf(s: MdState) -> bool {
    s.list_stack.len() == s.marker_widths.len()
}

/// The plain look in dark gray.
pub open spec fn dim() -> Look {
    Look { fg: Some(Tint::DarkGray), ..Look::spec_plain() }
}

/// `t` repeated `n` times.
pub open spec fn repeat_text(t: Seq<char>, n: nat) -> Seq<char>
    decreases n,
{
    if n == 0 {
        Seq::empty()
    } else {
        repeat_text(t, (n - 1) as nat) + t
    }
}

/// The bar that starts the lines of a blockquote `depth` levels deep.
pub open spec fn quote_bar(depth: nat) -> PieceView {
    PieceView { text: repeat_text("│ "@, depth), look: dim() }
}

/// A line with some text that is not blank.
pub open spec fn has_content(l: Seq<PieceView>) -> bool {
    exists|i: int| 0 <= i < l.len() && !is_blank(#[trigger] l[i].text)
}

/// The line being built is finished (with the bar of the blockquote it is
/// in); nothing happens when it is empty.
pub open spec fn flushed(s: MdState) -> MdState {
    if s.spans.len() == 0 {
        s
    } else {
        let line = if s.quote_depth > 0 { seq![quote_bar(s.quote_depth as nat)] + s.spans } else { s.spans };
        MdState { lines: s.lines.push(line), spans: Seq::empty(), ..s }
    }
}

/// A blank separating line is added when the last line has content or a
/// line is being built; inside a blockquote it carries the bar.
pub open spec fn blank_before(s: MdState) -> MdState {
    let has = s.lines.len() > 0 && has_content(s.lines.last());
    if has || s.spans.len() > 0 {
        let f = flushed(s);
        let sep = if s.quote_depth > 0 { seq![quote_bar(s.quote_depth as nat)] } else { Seq::empty() };
        MdState { lines: f.lines.push(sep), ..f }
    } else {
        s
    }
}

pub open spec fn pushed_style(s: MdState, look: Look) -> MdState {
    MdState { style_stack: s.style_stack.push(s.style), style: look, ..s }
}

pub open spec fn popped_style(s: MdState) -> MdState {
    if s.style_stack.len() == 0 {
        MdState { style: Look::spec_plain(), ..s }
    } else {
        MdState { style: s.style_stack.last(), style_stack: s.style_stack.drop_last(), ..s }
    }
}

/// The look of a heading: level 1 cyan, bold and underlined, level 2 green
/// and bold, level 3 light magenta and bold, deeper ones bold.
pub open spec fn heading_look(level: u8) -> Look {
    if level == 1 {
        Look { fg: Some(Tint::Cyan), bold: true, underlined: true, ..Look::spec_plain() }
    } else if level == 2 {
        Look { fg: Some(Tint::Green), bold: true, ..Look::spec_plain() }
    } else if level == 3 {
        Look { fg: Some(Tint::LightMagenta), bold: true, ..Look::spec_plain() }
    } else {
        Look { bold: true, ..Look::spec_plain() }
    }
}

/// The sum of marker widths.
pub open spec fn width_sum(ws: Seq<usize>) -> nat
    decreases ws.len(),
{
    if ws.len() == 0 {
        0
    } else {
        width_sum(ws.drop_last()) + ws.last() as nat
    }
}

/// The list level of a new item (0 for the outermost list).
pub open spec fn item_depth(s: MdState) -> nat {
    if s.list_stack.len() > 0 { (s.list_stack.len() - 1) as nat } else { 0 }
}

/// The marker of a new item: its number and a dot in an ordered list, a
/// bullet otherwise.
pub open spec fn item_marker(s: MdState) -> Seq<char> {
    if s.list_stack.len() > 0 && s.list_stack.last() is Some {
        decimal(s.list_stack.last()->0 as nat) + ". "@
    } else {
        "• "@
    }
}

/// A new item: the line before is finished, and the item starts with its
/// marker, indented under the text of the enclosing items.
pub open spec fn item_started(s0: MdState) -> MdState {
    let s = flushed(s0);
    let indent = repeat_text(" "@, width_sum(s.marker_widths.take(item_depth(s) as int)));
    let marker = item_marker(s);
    let lists = if s.list_stack.len() > 0 && s.list_stack.last() is Some {
        s.list_stack.update(s.list_stack.len() - 1, Some((s.list_stack.last()->0 + 1) as u64))
    } else {
        s.list_stack
    };
    let widths = if s.marker_widths.len() > 0 {
        s.marker_widths.update(s.marker_widths.len() - 1, marker.len() as usize)
    } else {
        s.marker_widths
    };
    MdState {
        list_stack: lists,
        marker_widths: widths,
        spans: s.spans.push(PieceView { text: indent + marker, look: s.style }),
        ..s
    }
}

/// The state after the opening of an element.
pub open spec fn started(s: MdState, t: TagView) -> MdState {
    match t {
        TagView::Paragraph => if s.list_stack.len() == 0 { blank_before(s) } else { s },
        TagView::Heading(level) => pushed_style(blank_before(s), heading_look(level)),
        TagView::BlockQuote => {
            let b = blank_before(s);
            MdState { quote_depth: (b.quote_depth + 1) as usize, ..b }
        },
        TagView::CodeBlock => MdState { in_code_block: true, ..flushed(blank_before(s)) },
        TagView::List(start) => {
            let b = if s.list_stack.len() == 0 { blank_before(s) } else { s };
            MdState { list_stack: b.list_stack.push(start), marker_widths: b.marker_widths.push(2), ..b }
        },
        TagView::Item => item_started(s),
        TagView::Strong => pushed_style(s, Look { bold: true, ..s.style }),
        TagView::Emphasis => pushed_style(s, Look { italic: true, ..s.style }),
        TagView::Strikethrough => pushed_style(s, Look { crossed_out: true, ..s.style }),
        TagView::Link(url) => pushed_style(
            MdState { link_url: Some(url), ..s },
            Look { fg: Some(Tint::Cyan), underlined: true, ..s.style },
        ),
        TagView::Other => s,
    }
}

/// The state after the closing of an element.
pub open spec fn ended(s: MdState, t: MdTagEnd) -> MdState {
    match t {
        MdTagEnd::Paragraph => flushed(s),
        MdTagEnd::Heading => popped_style(flushed(s)),
        MdTagEnd::BlockQuote => {
            let f = flushed(s);
            MdState { quote_depth: if f.quote_depth > 0 { (f.quote_depth - 1) as usize } else { 0 }, ..f }
        },
        MdTagEnd::CodeBlock => MdState { in_code_block: false, ..s },
        MdTagEnd::List => MdState {
            list_stack: if s.list_stack.len() > 0 { s.list_stack.drop_last() } else { s.list_stack },
            marker_widths: if s.marker_widths.len() > 0 { s.marker_widths.drop_last() } else { s.marker_widths },
            ..s
        },
        MdTagEnd::Item => flushed(s),
        MdTagEnd::Strong | MdTagEnd::Emphasis | MdTagEnd::Strikethrough => popped_style(s),
        MdTagEnd::Link => {
            let p = popped_style(s);
            match s.link_url {
                Some(url) => MdState {
                    link_url: None,
                    spans: p.spans.push(PieceView { text: " ("@ + url + ")"@, look: dim() }),
                    ..p
                },
                None => p,
            }
        },
        MdTagEnd::Other => s,
    }
}

/// The lines of a code block's text, each indented by two spaces and in
/// light yellow.
pub open spec fn code_lines(text: Seq<char>) -> Seq<Seq<PieceView>> {
    lines_of(text).map_values(
        |l: Seq<char>| seq![PieceView { text: "  "@ + l, look: Look { fg: Some(Tint::LightYellow), ..Look::spec_plain() } }],
    )
}

/// The state after one event.
pub open spec fn md_step(s: MdState, e: EventView) -> MdState {
    match e {
        EventView::Start(t) => started(s, t),
        EventView::End(t) => ended(s, t),
        EventView::Text(text) => if s.in_code_block {
            MdState { lines: s.lines + code_lines(text), ..s }
        } else {
            MdState { spans: s.spans.push(PieceView { text, look: s.style }), ..s }
        },
        EventView::Code(code) => MdState {
            spans: s.spans.push(PieceView { text: "`"@ + code + "`"@, look: Look { fg: Some(Tint::LightYellow), ..s.style } }),
            ..s
        },
        EventView::SoftBreak => MdState { spans: s.spans.push(PieceView { text: " "@, look: Look::spec_plain() }), ..s },
        EventView::HardBreak => flushed(s),
        EventView::Rule => {
            let f = flushed(blank_before(s));
            MdState { lines: f.lines.push(seq![PieceView { text: repeat_text("─"@, 40), look: dim() }]), ..f }
        },
        EventView::Other => s,
    }
}

/// Whether an event can be taken in a state without an integer running
/// over: a blockquote level more, the next number of an ordered list, the
/// indentation of a new item.
pub open spec fn step_fits(s: MdState, e: EventView) -> bool {
    match e {
        EventView::Start(TagView::BlockQuote) => s.quote_depth < usize::MAX,
        EventView::Start(TagView::Item) => {
            let f = flushed(s);
            &&& (f.list_stack.len() > 0 && f.list_stack.last() is Some ==> f.list_stack.last()->0 < u64::MAX)
            &&& width_sum(f.marker_widths.take(item_depth(f) as int)) <= usize::MAX
        },
        _ => true,
    }
}

/// The state after the events.
pub open spec fn md_run(s: MdState, es: Seq<EventView>) -> MdState
    decreases es.len(),
{
    if es.len() == 0 {
        s
    } else {
        md_step(md_run(s, es.drop_last()), es.last())
    }
}

/// Every event fits the state it comes in.
pub open spec fn run_fits(s: MdState, es: Seq<EventView>) -> bool {
    forall|k: int| 0 <= k < es.len() ==> step_fits(#[trigger] md_run(s, es.take(k)), es[k])
}

/// The lines without the trailing ones that hold no content.
pub open spec fn trim_trailing(ls: Seq<Seq<PieceView>>) -> Seq<Seq<PieceView>>
    decreases ls.len(),
{
    if ls.len() > 0 && !has_content(ls.last()) {
        trim_trailing(ls.drop_last())
    } else {
        ls
    }
}

/// The rendered lines of a final state: the last line finished, trailing
/// empty lines dropped.
pub open spec fn md_finish(s: MdState) -> Seq<Seq<PieceView>> {
    trim_trailing(flushed(s).lines)
}

/// The rendering of a list of events.
pub open spec fn rendered(es: Seq<EventView>) -> Seq<Seq<PieceView>> {
    md_finish(md_run(initial_state(), es))
}

#[verifier::external_type_specification]
#[verifier::external_body]
pub struct ExEvent<'a>(Event<'a>);

#[verifier::external_type_specification]
#[verifier::external_body]
pub struct ExTag<'a>(Tag<'a>);

#[verifier::external_type_specification]
#[verifier::external_body]
pub struct ExTagEnd(TagEnd);

/// One pulldown-cmark tag, converted: the variants the renderer tells
/// apart, with the heading level as its number and the link's address.
#[verifier::external_body]
fn md_tag(t: Tag) -> MdTag {
    match t {
        Tag::Paragraph => MdTag::Paragraph,
        Tag::Heading { level, .. } => MdTag::Heading(level as u8),
        Tag::BlockQuote(_) => MdTag::BlockQuote,
        Tag::CodeBlock(_) => MdTag::CodeBlock,
        Tag::List(start) => MdTag::List(start),
        Tag::Item => MdTag::Item,
        Tag::Emphasis => MdTag::Emphasis,
        Tag::Strong => MdTag::Strong,
        Tag::Strikethrough => MdTag::Strikethrough,
        Tag::Link { dest_url, .. } => MdTag::Link(dest_url.to_string()),
        _ => MdTag::Other,
    }
}

/// One pulldown-cmark tag end, converted.
#[verifier::external_body]
fn md_tag_end(t: TagEnd) -> MdTagEnd {
    match t {
        TagEnd::Paragraph => MdTagEnd::Paragraph,
        TagEnd::Heading(_) => MdTagEnd::Heading,
        TagEnd::BlockQuote(_) => MdTagEnd::BlockQuote,
        TagEnd::CodeBlock => MdTagEnd::CodeBlock,
        TagEnd::List(_) => MdTagEnd::List,
        TagEnd::Item => MdTagEnd::Item,
        TagEnd::Emphasis => MdTagEnd::Emphasis,
        TagEnd::Strong => MdTagEnd::Strong,
        TagEnd::Strikethrough => MdTagEnd::Strikethrough,
        TagEnd::Link => MdTagEnd::Link,
        _ => MdTagEnd::Other,
    }
}

/// One pulldown-cmark event, converted; raw HTML, math, footnote
/// references and task markers become `Other`.
#[verifier::external_body]
fn md_event(e: Event) -> MdEvent {
    match e {
        Event::Start(t) => MdEvent::Start(md_tag(t)),
        Event::End(t) => MdEvent::End(md_tag_end(t)),
        Event::Text(t) => MdEvent::Text(t.to_string()),
        Event::Code(t) => MdEvent::Code(t.to_string()),
        Event::SoftBreak => MdEvent::SoftBreak,
        Event::HardBreak => MdEvent::HardBreak,
        Event::Rule => MdEvent::Rule,
        _ => MdEvent::Other,
    }
}

/// The events of pulldown-cmark's `Parser::new_ext` on the text, with
/// strikethrough enabled, converted one by one (`md_event`). They depend on
/// the text alone and are named, not stated.
#[verifier::external_body]
fn parse_events(md: &str) -> (r: Vec<MdEvent>)
    ensures
        events_view(r@) == markdown_events(md@),
{
    let mut options = Options::empty();
    options.insert(Options::ENABLE_STRIKETHROUGH);
    Parser::new_ext(md, options).map(md_event).collect()
}

/// The renderer: the lines built so far and the open elements.
pub struct Renderer {
    pub lines: Vec<Vec<Piece>>,
    pub spans: Vec<Piece>,
    pub style: Look,
    pub style_stack: Vec<Look>,
    pub list_stack: Vec<Option<u64>>,
    pub marker_widths: Vec<usize>,
    pub quote_depth: usize,
    pub in_code_block: bool,
    pub link_url: Option<String>,
}

proof fn lemma_width_sum_prefix(ws: Seq<usize>, i: int, j: int)
    requires
        0 <= i <= j <= ws.len(),
    ensures
        width_sum(ws.take(i)) <= width_sum(ws.take(j)),
    decreases j - i,
{
    if i < j {
        lemma_width_sum_prefix(ws, i, j - 1);
        assert(ws.take(j).drop_last() =~= ws.take(j - 1));
    }
}

/// `t` repeated `n` times.
fn repeat_str(t: &str, n: usize) -> (r: String)
    ensures
        r@ == repeat_text(t@, n as nat),
{
    let mut s = String::new();
    let mut i: usize = 0;
    while i < n
        invariant
            i <= n,
            s@ == repeat_text(t@, i as nat),
        decreases n - i,
    {
        push_str(&mut s, t);
        i = i + 1;
    }
    s
}

/// A copy of a piece.
fn copy_piece(p: &Piece) -> (r: Piece)
    ensures
        piece_view(r) == piece_view(*p),
{
    Piece { text: string_of(p.text.as_str()), look: p.look }
}

/// Whether a line has some text that is not blank.
fn line_has_content(line: &Vec<Piece>) -> (r: bool)
    ensures
        r == has_content(pieces_view(line@)),
{
    let mut i: usize = 0;
    while i < line.len()
        invariant
            i <= line@.len(),
            forall|k: int| 0 <= k < i ==> is_blank(#[trigger] pieces_view(line@)[k].text),
        decreases line.len() - i,
    {
        if !blank(line[i].text.as_str()) {
            assert(!is_blank(pieces_view(line@)[i as int].text));
            return true;
        }
        i = i + 1;
    }
    false
}

impl Renderer {
    /// The state the renderer holds.
    pub open spec fn state(&self) -> MdState {
        MdState {
            lines: lines_view(self.lines@),
            spans: pieces_view(self.spans@),
            style: self.style,
            style_stack: self.style_stack@,
            list_stack: self.list_stack@,
            marker_widths: self.marker_widths@,
            quote_depth: self.quote_depth,
            in_code_block: self.in_code_block,
            link_url: match self.link_url {
                Some(u) => Some(u@),
                None => None,
            },
        }
    }

    /// A renderer before the first event.
    pub fn new() -> (r: Renderer)
        ensures
            r.state() == initial_state(),
    {
        let r = Renderer {
            lines: Vec::new(),
            spans: Vec::new(),
            style: Look::plain(),
            style_stack: Vec::new(),
            list_stack: Vec::new(),
            marker_widths: Vec::new(),
            quote_depth: 0,
            in_code_block: false,
            link_url: None,
        };
        assert(r.state().lines =~= Seq::<Seq<PieceView>>::empty());
        assert(r.state().spans =~= Seq::<PieceView>::empty());
        r
    }

    /// The bar of the current blockquote.
    fn quote_bar_piece(&self) -> (r: Piece)
        ensures
            piece_view(r) == quote_bar(self.quote_depth as nat),
    {
        Piece { text: repeat_str("│ ", self.quote_depth), look: Look::colored(Tint::DarkGray) }
    }

    /// Finishes the line being built.
    fn flush_line(&mut self)
        ensures
            final(self).state() == flushed(old(self).state()),
    {
        if self.spans.len() == 0 {
            return;
        }
        let mut spans: Vec<Piece> = Vec::new();
        std::mem::swap(&mut spans, &mut self.spans);
        let ghost sv = pieces_view(spans@);
        if self.quote_depth > 0 {
            let mut quoted: Vec<Piece> = Vec::new();
            quoted.push(self.quote_bar_piece());
            let mut i: usize = 0;
            while i < spans.len()
                invariant
                    i <= spans@.len(),
                    pieces_view(quoted@) == seq![quote_bar(self.quote_depth as nat)] + pieces_view(spans@).take(i as int),
                decreases spans.len() - i,
            {
                let ghost old_q = quoted@;
                let c = copy_piece(&spans[i]);
                quoted.push(c);
                assert(pieces_view(quoted@) =~= pieces_view(old_q).push(piece_view(c)));
                assert(pieces_view(spans@).take(i + 1) =~= pieces_view(spans@).take(i as int).push(piece_view(spans@[i as int])));
                i = i + 1;
                assert(pieces_view(quoted@) =~= seq![quote_bar(self.quote_depth as nat)] + pieces_view(spans@).take(i as int));
            }
            assert(pieces_view(spans@).take(spans@.len() as int) =~= pieces_view(spans@));
            let ghost before = self.lines@;
            self.lines.push(quoted);
            assert(lines_view(self.lines@) =~= lines_view(before).push(pieces_view(quoted@)));
        } else {
            let ghost before = self.lines@;
            self.lines.push(spans);
            assert(lines_view(self.lines@) =~= lines_view(before).push(sv));
        }
        assert(pieces_view(self.spans@) =~= Seq::<PieceView>::empty());
    }

    /// Adds a blank separating line when the last line has content or a
    /// line is being built.
    fn blank_line_before(&mut self)
        ensures
            final(self).state() == blank_before(old(self).state()),
    {
        let n = self.lines.len();
        let has = if n > 0 {
            line_has_content(&self.lines[n - 1])
        } else {
            false
        };
        proof {
            if n > 0 {
                assert(lines_view(self.lines@).last() == pieces_view(self.lines@[n - 1]@));
            }
        }
        if has || self.spans.len() > 0 {
            let ghost s0 = self.state();
            assert(has || s0.spans.len() > 0);
            self.flush_line();
            let ghost f = self.state();
            assert(f == flushed(s0));
            let ghost before = self.lines@;
            let ghost sep = if s0.quote_depth > 0 { seq![quote_bar(s0.quote_depth as nat)] } else { Seq::<PieceView>::empty() };
            if self.quote_depth > 0 {
                let bar = self.quote_bar_piece();
                self.lines.push(vec![bar]);
                assert(pieces_view(self.lines@.last()@) =~= sep);
            } else {
                self.lines.push(Vec::new());
                assert(pieces_view(self.lines@.last()@) =~= sep);
            }
            assert(lines_view(self.lines@) =~= f.lines.push(sep));
            assert(self.state() =~= (MdState { lines: f.lines.push(sep), ..f }));
        }
    }

    fn push_style(&mut self, look: Look)
        ensures
            final(self).state() == pushed_style(old(self).state(), look),
    {
        self.style_stack.push(self.style);
        self.style = look;
    }

    fn pop_style(&mut self)
        ensures
            final(self).state() == popped_style(old(self).state()),
    {
        match self.style_stack.pop() {
            Some(l) => {
                self.style = l;
            },
            None => {
                self.style = Look::plain();
            },
        }
    }

    /// Adds a piece to the line being built.
    fn push_piece(&mut self, p: Piece)
        ensures
            final(self).state() == (MdState { spans: old(self).state().spans.push(piece_view(p)), ..old(self).state() }),
    {
        self.spans.push(p);
        assert(pieces_view(self.spans@) =~= pieces_view(old(self).spans@).push(piece_view(p)));
    }

    /// Starts a list item.
    fn start_item(&mut self)
        requires
            md_wf(old(self).state()),
            step_fits(old(self).state(), EventView::Start(TagView::Item)),
        ensures
            final(self).state() == item_started(old(self).state()),
    {
        self.flush_line();
        let ghost f = self.state();
        let depth = if self.list_stack.len() > 0 {
            self.list_stack.len() - 1
        } else {
            0
        };
        let mut sum: usize = 0;
        let mut i: usize = 0;
        while i < depth
            invariant
                f == self.state(),
                md_wf(f),
                depth == item_depth(f),
                i <= depth,
                width_sum(f.marker_widths.take(depth as int)) <= usize::MAX,
                sum == width_sum(f.marker_widths.take(i as int)),
            decreases depth - i,
        {
            proof {
                assert(f.marker_widths.take(i + 1).drop_last() =~= f.marker_widths.take(i as int));
                lemma_width_sum_prefix(f.marker_widths, i + 1, depth as int);
            }
            sum = sum + self.marker_widths[i];
            i = i + 1;
        }
        let mut text = repeat_str(" ", sum);
        let ghost indent = text@;
        let n = self.list_stack.len();
        let numbered = n > 0 && self.list_stack[n - 1].is_some();
        let mut marker = String::new();
        if numbered {
            let k = self.list_stack[n - 1].unwrap();
            push_decimal(&mut marker, k);
            push_str(&mut marker, ". ");
            self.list_stack.set(n - 1, Some(k + 1));
        } else {
            push_str(&mut marker, "• ");
        }
        assert(marker@ =~= item_marker(f));
        let width = crate::text::chars_of(marker.as_str()).len();
        push_str(&mut text, marker.as_str());
        let m = self.marker_widths.len();
        if m > 0 {
            self.marker_widths.set(m - 1, width);
        }
        let look = self.style;
        self.push_piece(Piece { text, look });
    }

    /// Opens an element.
    fn start_tag(&mut self, t: &MdTag)
        requires
            md_wf(old(self).state()),
            step_fits(old(self).state(), EventView::Start(tag_view(*t))),
        ensures
            final(self).state() == started(old(self).state(), tag_view(*t)),
    {
        match t {
            MdTag::Paragraph => {
                if self.list_stack.len() == 0 {
                    self.blank_line_before();
                }
            },
            MdTag::Heading(level) => {
                self.blank_line_before();
                self.push_style(heading_style(*level));
            },
            MdTag::BlockQuote => {
                self.blank_line_before();
                self.quote_depth = self.quote_depth + 1;
            },
            MdTag::CodeBlock => {
                self.blank_line_before();
                self.flush_line();
                self.in_code_block = true;
            },
            MdTag::List(start) => {
                if self.list_stack.len() == 0 {
                    self.blank_line_before();
                }
                self.list_stack.push(*start);
                self.marker_widths.push(2);
            },
            MdTag::Item => self.start_item(),
            MdTag::Strong => {
                let look = Look { bold: true, ..self.style };
                self.push_style(look);
            },
            MdTag::Emphasis => {
                let look = Look { italic: true, ..self.style };
                self.push_style(look);
            },
            MdTag::Strikethrough => {
                let look = Look { crossed_out: true, ..self.style };
                self.push_style(look);
            },
            MdTag::Link(url) => {
                self.link_url = Some(string_of(url.as_str()));
                let look = Look { fg: Some(Tint::Cyan), underlined: true, ..self.style };
                self.push_style(look);
            },
            MdTag::Other => {},
        }
    }

    /// Closes an element.
    fn end_tag(&mut self, t: MdTagEnd)
        ensures
            final(self).state() == ended(old(self).state(), t),
    {
        match t {
            MdTagEnd::Paragraph | MdTagEnd::Item => self.flush_line(),
            MdTagEnd::Heading => {
                self.flush_line();
                self.pop_style();
            },
            MdTagEnd::BlockQuote => {
                self.flush_line();
                self.quote_depth = self.quote_depth.saturating_sub(1);
            },
            MdTagEnd::CodeBlock => {
                self.in_code_block = false;
            },
            MdTagEnd::List => {
                self.list_stack.pop();
                self.marker_widths.pop();
            },
            MdTagEnd::Strong | MdTagEnd::Emphasis | MdTagEnd::Strikethrough => self.pop_style(),
            MdTagEnd::Link => {
                self.pop_style();
                let url = self.link_url.take();
                match url {
                    Some(u) => {
                        let mut text = string_of(" (");
                        push_str(&mut text, u.as_str());
                        push_str(&mut text, ")");
                        self.push_piece(Piece { text, look: Look::colored(Tint::DarkGray) });
                    },
                    None => {},
                }
            },
            MdTagEnd::Other => {},
        }
    }

    /// Text: in a code block, its lines indented as lines of their own;
    /// elsewhere a piece in the current look.
    fn text(&mut self, text: &String)
        ensures
            final(self).state() == md_step(old(self).state(), EventView::Text(text@)),
    {
        if self.in_code_block {
            let lines = split_lines(text.as_str());
            let ghost before = lines_view(self.lines@);
            let ghost code = code_lines(text@);
            let mut i: usize = 0;
            while i < lines.len()
                invariant
                    i <= lines@.len(),
                    views(lines@) == lines_of(text@),
                    code == code_lines(text@),
                    lines_view(self.lines@) == before + code.take(i as int),
                    self.spans == old(self).spans,
                    self.style == old(self).style,
                    self.style_stack == old(self).style_stack,
                    self.list_stack == old(self).list_stack,
                    self.marker_widths == old(self).marker_widths,
                    self.quote_depth == old(self).quote_depth,
                    self.in_code_block == old(self).in_code_block,
                    self.link_url == old(self).link_url,
                    before == lines_view(old(self).lines@),
                decreases lines.len() - i,
            {
                let mut t = string_of("  ");
                push_str(&mut t, lines[i].as_str());
                let p = Piece { text: t, look: Look::colored(Tint::LightYellow) };
                let ghost old_lines = self.lines@;
                self.lines.push(vec![p]);
                proof {
                    assert(views(lines@)[i as int] == lines@[i as int]@);
                    assert(pieces_view(self.lines@.last()@) =~= code[i as int]);
                    assert(lines_view(self.lines@) =~= lines_view(old_lines).push(code[i as int]));
                    assert(code.take(i + 1) =~= code.take(i as int).push(code[i as int]));
                }
                i = i + 1;
            }
            assert(code.take(lines@.len() as int) =~= code);
            assert(self.state() =~= md_step(old(self).state(), EventView::Text(text@)));
        } else {
            let look = self.style;
            self.push_piece(Piece { text: string_of(text.as_str()), look });
        }
    }

    /// Whether the event fits the state (see `step_fits`).
    fn fits(&self, e: &MdEvent) -> (r: bool)
        requires
            md_wf(self.state()),
        ensures
            r == step_fits(self.state(), event_view(*e)),
    {
        match e {
            MdEvent::Start(MdTag::BlockQuote) => self.quote_depth < usize::MAX,
            MdEvent::Start(MdTag::Item) => {
                let ghost f = flushed(self.state());
                assert(f.list_stack == self.list_stack@ && f.marker_widths == self.marker_widths@);
                let n = self.list_stack.len();
                if n > 0 {
                    match self.list_stack[n - 1] {
                        Some(k) => {
                            if k == u64::MAX {
                                return false;
                            }
                        },
                        None => {},
                    }
                }
                let depth = if n > 0 {
                    n - 1
                } else {
                    0
                };
                let mut sum: usize = 0;
                let mut i: usize = 0;
                while i < depth
                    invariant
                        md_wf(self.state()),
                        depth == item_depth(f),
                        f.marker_widths == self.marker_widths@,
                        f.list_stack == self.list_stack@,
                        f == flushed(self.state()),
                        event_view(*e) == EventView::Start(TagView::Item),
                        i <= depth,
                        sum == width_sum(f.marker_widths.take(i as int)),
                    decreases depth - i,
                {
                    assert(f.marker_widths.take(i + 1).drop_last() =~= f.marker_widths.take(i as int));
                    let w = self.marker_widths[i];
                    assert(f.marker_widths.take(i + 1).last() == w);
                    assert(width_sum(f.marker_widths.take(i + 1)) == sum + w);
                    if sum > usize::MAX - w {
                        proof {
                            lemma_width_sum_prefix(f.marker_widths, i + 1, depth as int);
                            assert(width_sum(f.marker_widths.take(depth as int)) > usize::MAX);
                        }
                        return false;
                    }
                    sum = sum + w;
                    i = i + 1;
                }
                true
            },
            _ => true,
        }
    }

    /// Takes one event.
    pub fn step(&mut self, e: &MdEvent)
        requires
            md_wf(old(self).state()),
            step_fits(old(self).state(), event_view(*e)),
        ensures
            final(self).state() == md_step(old(self).state(), event_view(*e)),
            md_wf(final(self).state()),
    {
        match e {
            MdEvent::Start(t) => self.start_tag(t),
            MdEvent::End(t) => self.end_tag(*t),
            MdEvent::Text(t) => self.text(t),
            MdEvent::Code(c) => {
                let mut text = string_of("`");
                push_str(&mut text, c.as_str());
                push_str(&mut text, "`");
                let look = Look { fg: Some(Tint::LightYellow), ..self.style };
                self.push_piece(Piece { text, look });
            },
            MdEvent::SoftBreak => self.push_piece(Piece { text: string_of(" "), look: Look::plain() }),
            MdEvent::HardBreak => self.flush_line(),
            MdEvent::Rule => {
                self.blank_line_before();
                self.flush_line();
                let bar = Piece { text: repeat_str("─", 40), look: Look::colored(Tint::DarkGray) };
                let ghost before = self.lines@;
                self.lines.push(vec![bar]);
                assert(pieces_view(self.lines@.last()@) =~= seq![piece_view(bar)]);
                assert(lines_view(self.lines@) =~= lines_view(before).push(seq![piece_view(bar)]));
            },
            MdEvent::Other => {},
        }
        proof {
            lemma_step_wf(old(self).state(), event_view(*e));
        }
    }

    /// The rendered lines: the last line finished, trailing lines without
    /// content dropped.
    pub fn finish(self) -> (r: Vec<Vec<Piece>>)
        ensures
            lines_view(r@) == md_finish(self.state()),
    {
        let mut me = self;
        me.flush_line();
        let ghost fl = lines_view(me.lines@);
        let mut lines = me.lines;
        while lines.len() > 0 && !line_has_content(&lines[lines.len() - 1])
            invariant
                trim_trailing(lines_view(lines@)) == trim_trailing(fl),
            decreases lines.len(),
        {
            let ghost before = lines@;
            assert(lines_view(before).last() == pieces_view(before[before.len() - 1]@));
            lines.pop();
            assert(lines_view(lines@) =~= lines_view(before).drop_last());
        }
        proof {
            if lines@.len() > 0 {
                assert(lines_view(lines@).last() == pieces_view(lines@[lines@.len() - 1]@));
            }
        }
        lines
    }
}

/// Every step keeps each open list's marker width.
pub proof fn lemma_step_wf(s: MdState, e: EventView)
    requires
        md_wf(s),
    ensures
        md_wf(md_step(s, e)),
{
    let b = blank_before(s);
    let f = flushed(s);
    assert(md_wf(f));
    assert(md_wf(b));
    assert(md_wf(flushed(b)));
    match e {
        EventView::Start(t) => {
            match t {
                TagView::Item => {
                    assert(md_wf(item_started(s)));
                },
                _ => {},
            }
        },
        EventView::End(t) => {
            assert(md_wf(popped_style(f)));
            assert(md_wf(popped_style(s)));
        },
        EventView::Rule => {
            assert(md_wf(flushed(b)));
        },
        _ => {},
    }
}

/// The state after the first `k + 1` events is the state after the first
/// `k` events and then event `k`.
proof fn lemma_run_take(s: MdState, es: Seq<EventView>, k: int)
    requires
        0 <= k < es.len(),
    ensures
        md_run(s, es.take(k + 1)) == md_step(md_run(s, es.take(k)), es[k]),
{
    assert(es.take(k + 1).drop_last() =~= es.take(k));
}

/// The look of a heading of the given level.
fn heading_style(level: u8) -> (r: Look)
    ensures
        r == heading_look(level),
{
    let plain = Look::plain();
    if level == 1 {
        Look { fg: Some(Tint::Cyan), bold: true, underlined: true, ..plain }
    } else if level == 2 {
        Look { fg: Some(Tint::Green), bold: true, ..plain }
    } else if level == 3 {
        Look { fg: Some(Tint::LightMagenta), bold: true, ..plain }
    } else {
        Look { bold: true, ..plain }
    }
}

/// Renders a list of events into lines; `None` when an event would run an
/// integer over (see `step_fits`).
pub fn render_events(events: &Vec<MdEvent>) -> (r: Option<Vec<Vec<Piece>>>)
    ensures
        match r {
            Some(ls) => run_fits(initial_state(), events_view(events@)) && lines_view(ls@) == rendered(events_view(events@)),
            None => !run_fits(initial_state(), events_view(events@)),
        },
{
    let ghost ev = events_view(events@);
    let mut renderer = Renderer::new();
    let mut k: usize = 0;
    while k < events.len()
        invariant
            k <= events@.len(),
            ev == events_view(events@),
            renderer.state() == md_run(initial_state(), ev.take(k as int)),
            md_wf(renderer.state()),
            forall|j: int| 0 <= j < k ==> step_fits(#[trigger] md_run(initial_state(), ev.take(j)), ev[j]),
        decreases events.len() - k,
    {
        assert(ev[k as int] == event_view(events@[k as int]));
        if !renderer.fits(&events[k]) {
            return None;
        }
        renderer.step(&events[k]);
        proof {
            lemma_run_take(initial_state(), ev, k as int);
        }
        k = k + 1;
    }
    assert(ev.take(ev.len() as int) =~= ev);
    Some(renderer.finish())
}

/// Renders Markdown source into styled lines; `None` when an event would
/// run an integer over (see `step_fits`).
pub fn render_markdown(md: &str) -> (r: Option<Vec<Vec<Piece>>>)
    ensures
        match r {
            Some(ls) => run_fits(initial_state(), markdown_events(md@)) && lines_view(ls@) == rendered(markdown_events(md@)),
            None => !run_fits(initial_state(), markdown_events(md@)),
        },
{
    let events = parse_events(md);
    render_events(&events)
}

/// A rendered text never ends with a line that holds no content: trailing
/// blank lines are dropped.
pub proof fn lemma_rendered_ends_with_content(s: MdState)
    ensures
        md_finish(s).len() > 0 ==> has_content(md_finish(s).last()),
{
    lemma_trim_trailing(flushed(s).lines);
}

proof fn lemma_trim_trailing(ls: Seq<Seq<PieceView>>)
    ensures
        trim_trailing(ls).len() > 0 ==> has_content(trim_trailing(ls).last()),
        trim_trailing(ls).len() <= ls.len(),
    decreases ls.len(),
{
    if ls.len() > 0 && !has_content(ls.last()) {
        lemma_trim_trailing(ls.drop_last());
    }
}

/// Inline styles do not leak: after bold, italic or strikethrough text is
/// closed, the look and the looks to go back to are what they were before
/// it was opened.
pub proof fn lemma_inline_style_restored(s: MdState, open: TagView, close: MdTagEnd)
    requires
        (open == TagView::Strong && close == MdTagEnd::Strong) || (open == TagView::Emphasis && close
            == MdTagEnd::Emphasis) || (open == TagView::Strikethrough && close == MdTagEnd::Strikethrough),
    ensures
        md_step(md_step(s, EventView::Start(open)), EventView::End(close)).style == s.style,
        md_step(md_step(s, EventView::Start(open)), EventView::End(close)).style_stack == s.style_stack,
{
    let s1 = md_step(s, EventView::Start(open));
    assert(s1.style_stack == s.style_stack.push(s.style));
    assert(s1.style_stack.drop_last() =~= s.style_stack);
}

/// A heading's look ends with the heading: after it is closed, the look and
/// the looks to go back to are what they were before it was opened.
pub proof fn lemma_heading_style_restored(s: MdState, level: u8)
    ensures
        md_step(md_step(s, EventView::Start(TagView::Heading(level))), EventView::End(MdTagEnd::Heading)).style
            == s.style,
        md_step(md_step(s, EventView::Start(TagView::Heading(level))), EventView::End(MdTagEnd::Heading)).style_stack
            == s.style_stack,
{
    let s1 = md_step(s, EventView::Start(TagView::Heading(level)));
    assert(s1.style_stack == s.style_stack.push(s.style));
    assert(s1.style_stack.drop_last() =~= s.style_stack);
}

/// The items of an ordered list are numbered in order: an item of a list
/// whose next number is `n` is marked `n. `, and the next item of the same
/// list `n + 1. `.
pub proof fn lemma_items_numbered_in_order(s: MdState, n: u64)
    requires
        md_wf(s),
        s.list_stack.len() > 0,
        s.list_stack.last() == Some(n),
        n < u64::MAX,
    ensures
        item_marker(flushed(s)) == decimal(n as nat) + ". "@,
        ({
            let s2 = md_step(md_step(s, EventView::Start(TagView::Item)), EventView::End(MdTagEnd::Item));
            item_marker(flushed(s2)) == decimal((n + 1) as nat) + ". "@
        }),
{
    let s1 = md_step(s, EventView::Start(TagView::Item));
    let f = flushed(s);
    assert(s1.list_stack.last() == Some((n + 1) as u64));
}

/// Inside a blockquote every finished line starts with the bar of its
/// depth.
pub proof fn lemma_quoted_lines_start_with_the_bar(s: MdState)
    requires
        s.quote_depth > 0,
        s.spans.len() > 0,
    ensures
        flushed(s).lines.last()[0] == quote_bar(s.quote_depth as nat),
        flushed(s).lines.last().len() == s.spans.len() + 1,
{
}

/// A blockquote's bar ends with it: opening a blockquote adds one level of
/// quoting, closing it takes that level away again, and a paragraph ended
/// outside every quote is finished as its own pieces, with no bar before
/// them.
pub proof fn lemma_blockquote_ends_its_bar(s: MdState)
    requires
        s.quote_depth < usize::MAX,
    ensures
        md_step(s, EventView::Start(TagView::BlockQuote)).quote_depth == s.quote_depth + 1,
        md_step(md_step(s, EventView::Start(TagView::BlockQuote)), EventView::End(MdTagEnd::BlockQuote)).quote_depth
            == s.quote_depth,
        s.quote_depth > 0 ==> md_step(s, EventView::End(MdTagEnd::BlockQuote)).quote_depth == s.quote_depth - 1,
        s.quote_depth == 0 && s.spans.len() > 0 ==> md_step(s, EventView::End(MdTagEnd::Paragraph)).lines
            == s.lines.push(s.spans),
{
}

} // verus!

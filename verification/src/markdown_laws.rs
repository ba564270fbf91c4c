//! What holds of Markdown between the events that tell of a text and what is shown of it.

use vstd::prelude::*;
use crate::markdown::{
    document, document_of, kind_of_tag, open_nodes, stack_after, KindModel, NodeModel,
};
use crate::markdown_blocks::{
    alignment_in, all_plain_text, cells_of, cells_of_rows, direct_cells, highlight_of, highlighted, item_mark,
    layout_of, places_of, plain_text, rows_of, BlockLayout, HighlightedRange, RowModel,
};
use crate::markdown_events::{
    parsed_events, ColumnAlignment, HeadingDepth, MarkdownEventModel, TagModel,
};
use crate::markdown_inline::{
    all_pieces, joined, line_of, pieces, plain_style, InlineSpan, InlineStyle, LineModel, Piece,
};
use crate::text::{decimal_text, lemma_utf8_len_concat, trimmed, utf8_len};
use crate::theme::ThemeColor;

verus! {

/// How many blocks some events open and do not close.
pub open spec fn depth(events: Seq<MarkdownEventModel>) -> int
    decreases events.len(),
{
    if events.len() == 0 {
        0
    } else {
        depth(events.drop_last()) + (match events.last() {
            MarkdownEventModel::Start(_) => 1int,
            MarkdownEventModel::End => -1int,
            _ => 0int,
        })
    }
}

/// Whether some events never close a block that they did not open.
pub open spec fn keeps_to_itself(events: Seq<MarkdownEventModel>) -> bool {
    forall|count: int| 0 <= count <= events.len() ==> depth(#[trigger] events.take(count)) >= 0
}

/// Whether some events close every block that they open, and no other.
pub open spec fn is_whole(events: Seq<MarkdownEventModel>) -> bool {
    keeps_to_itself(events) && depth(events) == 0
}

/// Some open blocks, with the content of other ones put into the last of them.
spec fn placed(outer: Seq<NodeModel>, inner: Seq<NodeModel>) -> Seq<NodeModel> {
    let last = outer.last();
    outer.drop_last().push(
        NodeModel { kind: last.kind, children: last.children + inner[0].children },
    ) + inner.skip(1)
}

proof fn lemma_shorter_keeps_to_itself(events: Seq<MarkdownEventModel>)
    requires
        events.len() > 0,
        keeps_to_itself(events),
    ensures
        keeps_to_itself(events.drop_last()),
        depth(events) >= 0,
        depth(events.drop_last()) >= 0,
{
    assert(events.take(events.len() as int) =~= events);
    assert(events.take(events.len() - 1) =~= events.drop_last());
    let shorter = events.drop_last();
    assert forall|count: int| 0 <= count <= shorter.len() implies depth(
        #[trigger] shorter.take(count),
    ) >= 0 by {
        assert(shorter.take(count) =~= events.take(count));
    }
}

proof fn lemma_open_count(events: Seq<MarkdownEventModel>)
    requires
        keeps_to_itself(events),
    ensures
        open_nodes(events).len() == depth(events) + 1,
        open_nodes(events)[0].kind is Document,
    decreases events.len(),
{
    if events.len() > 0 {
        lemma_shorter_keeps_to_itself(events);
        lemma_open_count(events.drop_last());
    }
}

proof fn lemma_some_open(events: Seq<MarkdownEventModel>)
    ensures
        open_nodes(events).len() >= 1,
    decreases events.len(),
{
    if events.len() > 0 {
        lemma_some_open(events.drop_last());
    }
}

proof fn lemma_placed(front: Seq<MarkdownEventModel>, inner: Seq<MarkdownEventModel>)
    requires
        keeps_to_itself(inner),
    ensures
        open_nodes(front + inner) == placed(open_nodes(front), open_nodes(inner)),
    decreases inner.len(),
{
    lemma_some_open(front);
    let outer = open_nodes(front);
    if inner.len() == 0 {
        assert(front + inner =~= front);
        let single = open_nodes(inner);
        assert(outer.last().children + single[0].children =~= outer.last().children);
        assert(placed(outer, single) =~= outer);
    } else {
        let shorter = inner.drop_last();
        lemma_shorter_keeps_to_itself(inner);
        lemma_placed(front, shorter);
        lemma_open_count(shorter);
        lemma_open_count(inner);
        assert((front + inner).drop_last() =~= front + shorter);
        assert((front + inner).last() == inner.last());
        let before = open_nodes(shorter);
        let event = inner.last();
        let whole = placed(outer, before);
        assert(open_nodes(front + inner) == stack_after(whole, event));
        let after = stack_after(before, event);
        assert(open_nodes(inner) == after);
        let last = outer.last();
        match event {
            MarkdownEventModel::Start(_) => {
                assert(stack_after(whole, event) =~= placed(outer, after));
            },
            MarkdownEventModel::End => {
                if before.len() == 2 {
                    assert(whole.drop_last() =~= outer.drop_last().push(
                        NodeModel { kind: last.kind, children: last.children + before[0].children },
                    ));
                    assert((last.children + before[0].children).push(before[1]) =~= last.children
                        + before[0].children.push(before[1]));
                } else {
                    assert(whole.drop_last() =~= placed(outer, before.drop_last()));
                }
                assert(stack_after(whole, event) =~= placed(outer, after));
            },
            _ => {
                if before.len() == 1 {
                    let child = crate::markdown::leaf(crate::markdown::leaf_of_event(event)->0);
                    assert((last.children + before[0].children).push(child) =~= last.children
                        + before[0].children.push(child));
                }
                assert(stack_after(whole, event) =~= placed(outer, after));
            },
        }
    }
}

/// Whether a block is of the kind that its mark-up asks for.
pub open spec fn is_kind_of(kind: KindModel, tag: TagModel) -> bool {
    match tag {
        TagModel::Paragraph => kind is Paragraph,
        TagModel::Heading(HeadingDepth::H1) => kind == KindModel::Heading(1),
        TagModel::Heading(HeadingDepth::H2) => kind == KindModel::Heading(2),
        TagModel::Heading(HeadingDepth::H3) => kind == KindModel::Heading(3),
        TagModel::Heading(HeadingDepth::H4) => kind == KindModel::Heading(4),
        TagModel::Heading(HeadingDepth::H5) => kind == KindModel::Heading(5),
        TagModel::Heading(HeadingDepth::H6) => kind == KindModel::Heading(6),
        TagModel::BlockQuote => kind is BlockQuote,
        TagModel::IndentedCode => kind == KindModel::CodeBlock(None),
        TagModel::FencedCode(info) => if trimmed(info).len() == 0 {
            kind == KindModel::CodeBlock(None)
        } else {
            kind == KindModel::CodeBlock(Some(trimmed(info)))
        },
        TagModel::List(first) => kind == KindModel::List(first),
        TagModel::Item => kind is ListItem,
        TagModel::Table(columns) => kind == KindModel::Table(columns),
        TagModel::TableHead => kind is TableHead,
        TagModel::TableRow => kind is TableRow,
        TagModel::TableCell => kind is TableCell,
        TagModel::Emphasis => kind is Emphasis,
        TagModel::Strong => kind is Strong,
        TagModel::Strikethrough => kind is Strikethrough,
        TagModel::Link => kind is Link,
        TagModel::Image => kind is Image,
        TagModel::Superscript | TagModel::Subscript => kind is GenericInline,
        _ => kind is GenericBlock,
    }
}

/// A heading keeps its depth: the first depth is level one, the sixth level six, and of two depths
/// the deeper one has the larger level.
pub proof fn law_heading_keeps_its_depth(first: HeadingDepth, second: HeadingDepth)
    ensures
        kind_of_tag(TagModel::Heading(first)) is Heading,
        1 <= kind_of_tag(TagModel::Heading(first))->Heading_0 <= 6,
        kind_of_tag(TagModel::Heading(HeadingDepth::H1)) == KindModel::Heading(1),
        kind_of_tag(TagModel::Heading(HeadingDepth::H6)) == KindModel::Heading(6),
        is_deeper(second, first) ==> kind_of_tag(TagModel::Heading(first))->Heading_0
            < kind_of_tag(TagModel::Heading(second))->Heading_0,
{
}

/// Whether a heading of one depth stands below one of another.
pub open spec fn is_deeper(depth: HeadingDepth, other: HeadingDepth) -> bool {
    match other {
        HeadingDepth::H1 => !(depth is H1),
        HeadingDepth::H2 => !(depth is H1) && !(depth is H2),
        HeadingDepth::H3 => depth is H4 || depth is H5 || depth is H6,
        HeadingDepth::H4 => depth is H5 || depth is H6,
        HeadingDepth::H5 => depth is H6,
        HeadingDepth::H6 => false,
    }
}

/// A block of a text becomes a block of the document, behind everything that the text had before
/// it: of the kind that its mark-up asks for, and with what is written inside it, and nothing
/// else, as its content.
pub proof fn law_block_is_read_with_its_content(
    front: Seq<MarkdownEventModel>,
    tag: TagModel,
    inner: Seq<MarkdownEventModel>,
)
    requires
        is_whole(front),
        is_whole(inner),
    ensures
        ({
            let events = front.push(MarkdownEventModel::Start(tag)) + inner.push(
                MarkdownEventModel::End,
            );
            let read = document_of(events);
            let block = read.children[read.children.len() - 1];
            &&& read.kind is Document
            &&& read.children.len() == document_of(front).children.len() + 1
            &&& forall|i: int|
                0 <= i < document_of(front).children.len() ==> #[trigger] read.children[i]
                    == document_of(front).children[i]
            &&& is_kind_of(block.kind, tag)
            &&& block.children == document_of(inner).children
        }),
{
    let begun = front.push(MarkdownEventModel::Start(tag));
    let before_end = begun + inner;
    let events = begun + inner.push(MarkdownEventModel::End);
    assert(events.drop_last() =~= before_end);
    assert(begun.drop_last() =~= front);
    lemma_open_count(front);
    lemma_open_count(inner);
    lemma_placed(begun, inner);
    let outer = open_nodes(begun);
    let content = open_nodes(inner);
    assert(outer.last().children + content[0].children =~= content[0].children);
    assert(open_nodes(before_end) =~= placed(outer, content));
    assert(open_nodes(before_end).len() == 2);
    assert(open_nodes(events).len() == 1);
}

/// A piece of text, a break, a rule or a mark of a task becomes the last part of the document,
/// behind everything that stood before it. A text is kept as it is written; code and formulas are
/// code; a footnote is named in square brackets.
pub proof fn law_leaf_is_read(front: Seq<MarkdownEventModel>, event: MarkdownEventModel)
    requires
        is_whole(front),
        !(event is Start),
        !(event is End),
    ensures
        ({
            let read = document_of(front.push(event));
            let part = read.children[read.children.len() - 1];
            &&& read.children.len() == document_of(front).children.len() + 1
            &&& forall|i: int|
                0 <= i < document_of(front).children.len() ==> #[trigger] read.children[i]
                    == document_of(front).children[i]
            &&& part.children.len() == 0
            &&& match event {
                MarkdownEventModel::Text(text) => part.kind == KindModel::Text(text),
                MarkdownEventModel::Html(text) => part.kind == KindModel::Text(text),
                MarkdownEventModel::InlineHtml(text) => part.kind == KindModel::Text(text),
                MarkdownEventModel::Code(text) => part.kind == KindModel::Code(text),
                MarkdownEventModel::InlineMath(text) => part.kind == KindModel::Code(text),
                MarkdownEventModel::DisplayMath(text) => part.kind == KindModel::Code(text),
                MarkdownEventModel::FootnoteReference(label) => part.kind == KindModel::Text(
                    seq!['['] + label + seq![']'],
                ),
                MarkdownEventModel::SoftBreak => part.kind is SoftBreak,
                MarkdownEventModel::HardBreak => part.kind is HardBreak,
                MarkdownEventModel::Rule => part.kind is Rule,
                MarkdownEventModel::TaskListMarker(checked) => part.kind == KindModel::TaskMarker(
                    checked,
                ),
                _ => false,
            }
        }),
{
    assert(front.push(event).drop_last() =~= front);
    lemma_open_count(front);
}

/// No text is an empty document.
pub proof fn law_nothing_is_read_as_nothing()
    ensures
        document_of(Seq::empty()).kind is Document,
        document_of(Seq::empty()).children.len() == 0,
{
}

/// What stands inside strong, emphasised, struck out or linked text is shown in that style, on top
/// of the style around it; other blocks leave the style as it is. An image is announced in italics.
pub proof fn law_style_reaches_the_content(children: Seq<NodeModel>, outer: InlineStyle)
    ensures
        pieces(NodeModel { kind: KindModel::Strong, children }, outer) == all_pieces(
            children,
            InlineStyle { is_bold: true, ..outer },
        ),
        pieces(NodeModel { kind: KindModel::Emphasis, children }, outer) == all_pieces(
            children,
            InlineStyle { is_italic: true, ..outer },
        ),
        pieces(NodeModel { kind: KindModel::GenericInline, children }, outer) == all_pieces(
            children,
            InlineStyle { is_italic: true, ..outer },
        ),
        pieces(NodeModel { kind: KindModel::Strikethrough, children }, outer) == all_pieces(
            children,
            InlineStyle { is_strikethrough: true, ..outer },
        ),
        pieces(NodeModel { kind: KindModel::Link, children }, outer) == all_pieces(
            children,
            InlineStyle { is_link: true, ..outer },
        ),
        pieces(NodeModel { kind: KindModel::Paragraph, children }, outer) == all_pieces(
            children,
            outer,
        ),
        forall|level: u8|
            #[trigger] pieces(NodeModel { kind: KindModel::Heading(level), children }, outer)
                == all_pieces(children, outer),
        pieces(NodeModel { kind: KindModel::TableCell, children }, outer) == all_pieces(
            children,
            outer,
        ),
        pieces(NodeModel { kind: KindModel::Image, children }, outer) == seq![
            Piece { text: "图片："@, style: InlineStyle { is_italic: true, ..outer } },
        ] + all_pieces(children, outer),
{
    assert(forall|style: InlineStyle|
        Seq::<Piece>::empty() + #[trigger] all_pieces(children, style) =~= all_pieces(
            children,
            style,
        ));
}

/// The parts of a line are shown one behind the other, each as it is written: text as it is, code
/// marked as code, a soft break as a space, a hard one as a line break, a task by its box.
pub proof fn law_parts_are_shown_in_order(
    nodes: Seq<NodeModel>,
    node: NodeModel,
    style: InlineStyle,
)
    ensures
        all_pieces(Seq::empty(), style).len() == 0,
        all_pieces(nodes.push(node), style) == all_pieces(nodes, style) + pieces(node, style),
        node.kind is Text ==> pieces(node, style) == seq![
            Piece { text: node.kind->Text_0, style },
        ],
        node.kind is Code ==> pieces(node, style) == seq![
            Piece {
                text: node.kind->Code_0,
                style: InlineStyle { is_code: true, ..style },
            },
        ],
        node.kind is SoftBreak ==> pieces(node, style) == seq![Piece { text: seq![' '], style }],
        node.kind is HardBreak ==> pieces(node, style) == seq![Piece { text: seq!['\n'], style }],
        node.kind is TaskMarker && node.kind->TaskMarker_0 ==> pieces(node, style) == seq![
            Piece { text: "☑ "@, style },
        ],
        node.kind is TaskMarker && !node.kind->TaskMarker_0 ==> pieces(node, style) == seq![
            Piece { text: "☐ "@, style },
        ],
        node.kind is Rule ==> pieces(node, style) == seq![Piece { text: "────────"@, style }],
{
    assert(nodes.push(node).drop_last() =~= nodes);
}

/// A style adds to the style around it and never takes from it.
pub proof fn law_outer_style_stays(node: NodeModel, outer: InlineStyle)
    ensures
        forall|i: int|
            0 <= i < pieces(node, outer).len() ==> has_style(
                (#[trigger] pieces(node, outer)[i]).style,
                outer,
            ),
    decreases node, 1int,
{
    let style = crate::markdown_inline::style_within(node.kind, outer);
    assert(has_style(style, outer));
    lemma_outer_style_stays(node.children, style);
    let shown = pieces(node, outer);
    let opening = crate::markdown_inline::opening_pieces(node.kind, style);
    let content = all_pieces(node.children, style);
    assert forall|i: int| 0 <= i < shown.len() implies has_style(
        (#[trigger] shown[i]).style,
        outer,
    ) by {
        if crate::markdown_inline::leaf_piece(node.kind, style) is None {
            assert(shown == opening + content);
            if i >= opening.len() {
                assert(shown[i] == content[i - opening.len()]);
            }
        }
    }
}

/// Whether a style has everything that another one has.
pub open spec fn has_style(style: InlineStyle, least: InlineStyle) -> bool {
    &&& least.is_bold ==> style.is_bold
    &&& least.is_italic ==> style.is_italic
    &&& least.is_strikethrough ==> style.is_strikethrough
    &&& least.is_code ==> style.is_code
    &&& least.is_link ==> style.is_link
}

proof fn lemma_outer_style_stays(nodes: Seq<NodeModel>, outer: InlineStyle)
    ensures
        forall|i: int|
            0 <= i < all_pieces(nodes, outer).len() ==> has_style(
                (#[trigger] all_pieces(nodes, outer)[i]).style,
                outer,
            ),
    decreases nodes, 0int,
{
    if nodes.len() > 0 {
        lemma_outer_style_stays(nodes.drop_last(), outer);
        law_outer_style_stays(nodes[nodes.len() - 1], outer);
        let earlier = all_pieces(nodes.drop_last(), outer);
        let last = pieces(nodes[nodes.len() - 1], outer);
        let shown = all_pieces(nodes, outer);
        assert(shown == earlier + last);
        assert forall|i: int| 0 <= i < shown.len() implies has_style(
            (#[trigger] shown[i]).style,
            outer,
        ) by {
            if i < earlier.len() {
                assert(shown[i] == earlier[i]);
            } else {
                assert(shown[i] == last[i - earlier.len()]);
            }
        }
    }
}

/// Whether some span of a line shows its bytes from one place to below another in a style.
pub open spec fn is_shown_in(line: LineModel, start: int, end: int, style: InlineStyle) -> bool {
    exists|s: int|
        0 <= s < line.spans.len() && (#[trigger] line.spans[s]).range.start <= start && end
            <= line.spans[s].range.end && line.spans[s].style == style
}

/// Every piece of a line keeps its text and its style: its bytes stand behind those of the pieces
/// before it, in a span of its style.
pub proof fn law_every_piece_keeps_its_style(more: Seq<Piece>, at: int)
    requires
        0 <= at < more.len(),
        more[at].text.len() > 0,
        utf8_len(joined(more)) <= usize::MAX,
    ensures
        ({
            let line = LineModel::blank().with_pieces(more);
            let start = utf8_len(joined(more.take(at)));
            let end = start + utf8_len(more[at].text);
            &&& line.text == joined(more)
            &&& is_shown_in(line, start as int, end as int, more[at].style)
        }),
{
    lemma_joined_line(more);
    lemma_piece_is_shown(more, at);
}

proof fn lemma_joined_line(more: Seq<Piece>)
    ensures
        LineModel::blank().with_pieces(more).text == joined(more),
    decreases more.len(),
{
    if more.len() > 0 {
        lemma_joined_line(more.drop_last());
        if more.last().text.len() == 0 {
            assert(joined(more.drop_last()) + more.last().text =~= joined(more.drop_last()));
        }
    }
}

proof fn lemma_spans_run_forwards(more: Seq<Piece>)
    requires
        utf8_len(joined(more)) <= usize::MAX,
    ensures
        forall|s: int|
            0 <= s < LineModel::blank().with_pieces(more).spans.len() ==> (
            #[trigger] LineModel::blank().with_pieces(more).spans[s]).range.start
                <= LineModel::blank().with_pieces(more).spans[s].range.end,
    decreases more.len(),
{
    if more.len() > 0 {
        let shorter = more.drop_last();
        lemma_joined_line(shorter);
        lemma_utf8_len_concat(joined(shorter), more.last().text);
        lemma_spans_run_forwards(shorter);
        let before = LineModel::blank().with_pieces(shorter);
        let line = LineModel::blank().with_pieces(more);
        assert(line == before.with_piece(more.last()));
        assert(before.text + more.last().text == joined(more));
        assert forall|s: int| 0 <= s < line.spans.len() implies (
        #[trigger] line.spans[s]).range.start <= line.spans[s].range.end by {
            if s < before.spans.len() {
                assert(before.spans[s].range.start <= before.spans[s].range.end);
            }
        }
    }
}

proof fn lemma_piece_is_shown(more: Seq<Piece>, at: int)
    requires
        0 <= at < more.len(),
        more[at].text.len() > 0,
        utf8_len(joined(more)) <= usize::MAX,
    ensures
        is_shown_in(
            LineModel::blank().with_pieces(more),
            utf8_len(joined(more.take(at))) as int,
            (utf8_len(joined(more.take(at))) + utf8_len(more[at].text)) as int,
            more[at].style,
        ),
    decreases more.len(),
{
    let shorter = more.drop_last();
    let before = LineModel::blank().with_pieces(shorter);
    let line = LineModel::blank().with_pieces(more);
    let last = more.last();
    lemma_joined_line(shorter);
    lemma_utf8_len_concat(joined(shorter), last.text);
    let start = utf8_len(joined(more.take(at))) as int;
    let end = start + utf8_len(more[at].text);
    let style = more[at].style;
    assert(line == before.with_piece(last));
    assert(before.text + last.text == joined(more));
    assert(utf8_len(before.text) <= utf8_len(before.text + last.text) <= usize::MAX);
    if at < more.len() - 1 {
        lemma_piece_is_shown(shorter, at);
        assert(shorter.take(at) =~= more.take(at));
        assert(shorter[at] == more[at]);
        assert(is_shown_in(before, start, end, style));
        let s = choose|s: int|
            0 <= s < before.spans.len() && (#[trigger] before.spans[s]).range.start <= start && end
                <= before.spans[s].range.end && before.spans[s].style == style;
        if s < before.spans.len() - 1 || last.text.len() == 0 {
            assert(line.spans[s] == before.spans[s]);
        } else if before.spans.last().style == last.style && before.spans.last().range.end
            == utf8_len(before.text) as usize {
            assert(line.spans[s].range.end == utf8_len(before.text + last.text));
        } else {
            assert(line.spans[s] == before.spans[s]);
        }
        assert(line.spans[s].range.start <= start && end <= line.spans[s].range.end
            && line.spans[s].style == style);
    } else {
        assert(more.take(at) =~= shorter);
        assert(line.text == before.text + last.text);
        lemma_spans_run_forwards(shorter);
        let s = line.spans.len() - 1;
        if before.spans.len() > 0 {
            let earlier = before.spans[before.spans.len() - 1];
            assert(earlier.range.start <= earlier.range.end);
        }
        assert(line.spans[s].range.start <= start && end <= line.spans[s].range.end
            && line.spans[s].style == style);
    }
}

/// A text is read with tables, struck out text and tasks.
pub proof fn law_text_is_read_with_all_extensions(text: Seq<char>)
    ensures
        document(text) == document_of(parsed_events(text, true, true, true)),
        line_of(document(text)) == LineModel::blank().with_pieces(
            pieces(
                document(text),
                InlineStyle {
                    is_bold: false,
                    is_italic: false,
                    is_strikethrough: false,
                    is_code: false,
                    is_link: false,
                },
            ),
        ),
{
}

/// How the blocks of a document are laid out.
pub proof fn law_blocks_have_their_layout(kind: KindModel)
    ensures
        kind is Heading ==> layout_of(kind) == BlockLayout::Heading(kind->Heading_0),
        kind is BlockQuote ==> layout_of(kind) is Quote,
        kind is CodeBlock ==> layout_of(kind) is Code,
        kind is List ==> layout_of(kind) == BlockLayout::List(kind->List_0),
        kind is Table ==> layout_of(kind) is Table,
        kind is Rule ==> layout_of(kind) is Rule,
        kind is Document || kind is ListItem || kind is GenericBlock ==> layout_of(kind)
            is Children,
        kind is Paragraph || kind is Text || kind is Code || kind is Strong || kind is Emphasis
            || kind is Link || kind is Image ==> layout_of(kind) is Line,
{
}

/// The items of a numbered list are counted on from its first number; those of any other list have
/// a bullet.
pub proof fn law_items_are_counted(start: Option<u64>, first: u64, index: int)
    requires
        0 <= index,
        first + index <= u64::MAX,
    ensures
        item_mark(Some(first), index) == decimal_text((first + index) as nat) + "."@,
        item_mark(None, index) == "•"@,
        first + index < u64::MAX ==> item_mark(Some(first), index + 1) == item_mark(
            Some((first + 1) as u64),
            index,
        ),
{
}

/// The plain text of a block is the text of its parts, one behind the other; a break is a line
/// break and a task shows whether it is done.
pub proof fn law_plain_text_keeps_every_part(
    kind: KindModel,
    children: Seq<NodeModel>,
    child: NodeModel,
)
    ensures
        all_plain_text(Seq::empty()).len() == 0,
        all_plain_text(children.push(child)) == all_plain_text(children) + plain_text(child),
        kind is CodeBlock || kind is Paragraph || kind is TableCell || kind is Heading || kind
            is Strong || kind is Emphasis || kind is Link || kind is Document || kind is ListItem
            ==> plain_text(NodeModel { kind, children }) == all_plain_text(children),
        child.kind is Text ==> plain_text(child) == child.kind->Text_0,
        child.kind is Code ==> plain_text(child) == child.kind->Code_0,
        child.kind is SoftBreak || child.kind is HardBreak ==> plain_text(child) == seq!['\n'],
        child.kind is TaskMarker && child.kind->TaskMarker_0 ==> plain_text(child) == "[x] "@,
        child.kind is TaskMarker && !child.kind->TaskMarker_0 ==> plain_text(child) == "[ ] "@,
{
    assert(children.push(child).drop_last() =~= children);
}

/// The items of a list are found where they stand, each once and in order.
pub proof fn law_every_item_is_found(nodes: Seq<NodeModel>, kind: KindModel)
    requires
        nodes.len() <= usize::MAX,
    ensures
        ({
            let places = places_of(nodes, kind);
            &&& forall|p: int|
                0 <= p < places.len() ==> (#[trigger] places[p]) < nodes.len()
                    && nodes[places[p] as int].kind == kind
            &&& forall|p: int, q: int|
                0 <= p < q < places.len() ==> (#[trigger] places[p]) < (#[trigger] places[q])
            &&& forall|i: int|
                0 <= i < nodes.len() && (#[trigger] nodes[i]).kind == kind ==> places.contains(
                    i as usize,
                )
        }),
    decreases nodes.len(),
{
    if nodes.len() > 0 {
        let shorter = nodes.drop_last();
        law_every_item_is_found(shorter, kind);
        let earlier = places_of(shorter, kind);
        let places = places_of(nodes, kind);
        assert forall|i: int|
            0 <= i < nodes.len() && (#[trigger] nodes[i]).kind == kind implies places.contains(
            i as usize,
        ) by {
            if i < shorter.len() {
                assert(shorter[i].kind == kind);
                let at = earlier.index_of(i as usize);
                assert(places[at] == i as usize);
            } else {
                assert(places[places.len() - 1] == i as usize);
            }
        }
    }
}

/// The rows of a table are its head and its rows that have cells, in order; only the head is
/// marked as such. The cells of a row are those that stand in it, in order, or else those of the
/// rows that stand in it.
pub proof fn law_table_rows_are_kept(nodes: Seq<NodeModel>, node: NodeModel)
    ensures
        rows_of(Seq::empty()).len() == 0,
        (node.kind is TableHead || node.kind is TableRow) && cells_of(node).len() > 0 ==> rows_of(
            nodes.push(node),
        ) == rows_of(nodes).push(
            RowModel { is_header: node.kind is TableHead, cells: cells_of(node) },
        ),
        !(node.kind is TableHead || node.kind is TableRow) || cells_of(node).len() == 0 ==> rows_of(
            nodes.push(node),
        ) == rows_of(nodes),
        direct_cells(nodes) == nodes.filter(|part: NodeModel| part.kind is TableCell),
        direct_cells(node.children).len() > 0 ==> cells_of(node) == node.children.filter(
            |part: NodeModel| part.kind is TableCell,
        ),
        direct_cells(node.children).len() == 0 ==> cells_of(node) == cells_of_rows(node.children),
        cells_of_rows(Seq::empty()).len() == 0,
        node.kind is TableRow ==> cells_of_rows(nodes.push(node)) == cells_of_rows(nodes)
            + direct_cells(node.children),
        !(node.kind is TableRow) ==> cells_of_rows(nodes.push(node)) == cells_of_rows(nodes),
{
    assert(nodes.push(node).drop_last() =~= nodes);
    lemma_direct_cells(nodes);
    lemma_direct_cells(node.children);
}

proof fn lemma_direct_cells(nodes: Seq<NodeModel>)
    ensures
        direct_cells(nodes) == nodes.filter(|part: NodeModel| part.kind is TableCell),
    decreases nodes.len(),
{
    reveal(Seq::filter);
    if nodes.len() > 0 {
        lemma_direct_cells(nodes.drop_last());
    }
}

/// A column is aligned as its table says; a column that the table says nothing of stands left.
pub proof fn law_columns_are_aligned(alignments: Seq<ColumnAlignment>, column: int)
    ensures
        0 <= column < alignments.len() && alignments[column] is Center ==> alignment_in(
            alignments,
            column,
        ) is Center,
        0 <= column < alignments.len() && alignments[column] is Right ==> alignment_in(
            alignments,
            column,
        ) is Right,
        0 <= column < alignments.len() && !(alignments[column] is Center) && !(alignments[column]
            is Right) ==> alignment_in(alignments, column) is Left,
        column >= alignments.len() ==> alignment_in(alignments, column) is Left,
{
}

/// Every span with a style of its own is highlighted where it stands, in order, and no plain one
/// is.
pub proof fn law_styled_spans_are_highlighted(spans: Seq<InlineSpan>)
    ensures
        highlighted(spans) == spans.filter(
            |span: InlineSpan|
                span.style.is_bold || span.style.is_italic || span.style.is_strikethrough
                    || span.style.is_code || span.style.is_link,
        ).map_values(
            |span: InlineSpan|
                HighlightedRange { range: span.range, highlight: highlight_of(span.style) },
        ),
    decreases spans.len(),
{
    reveal(Seq::filter);
    let styled = |span: InlineSpan|
        span.style.is_bold || span.style.is_italic || span.style.is_strikethrough
            || span.style.is_code || span.style.is_link;
    let shown = |span: InlineSpan|
        HighlightedRange { range: span.range, highlight: highlight_of(span.style) };
    if spans.len() > 0 {
        law_styled_spans_are_highlighted(spans.drop_last());
        assert(styled(spans.last()) == (spans.last().style != plain_style()));
        let earlier = spans.drop_last().filter(styled);
        assert(earlier.push(spans.last()).map_values(shown) =~= earlier.map_values(shown).push(
            shown(spans.last()),
        ));
    } else {
        assert(highlighted(spans) =~= spans.filter(styled).map_values(shown));
    }
}

/// How a style looks: bold and italic as they are; struck out text with a muted line; code on its
/// own background; links and code in their colours, links first.
pub proof fn law_styles_look_different(style: InlineStyle)
    ensures
        ({
            let look = highlight_of(style);
            &&& look.is_bold == style.is_bold
            &&& look.is_italic == style.is_italic
            &&& look.strikethrough is Some == style.is_strikethrough
            &&& style.is_strikethrough ==> look.strikethrough == Some(ThemeColor::ForegroundMuted)
            &&& look.background is Some == style.is_code
            &&& style.is_code ==> look.background == Some(ThemeColor::CurrentLine)
            &&& style.is_link ==> look.color == Some(ThemeColor::Info)
            &&& style.is_code && !style.is_link ==> look.color == Some(ThemeColor::SyntaxString)
            &&& !style.is_code && !style.is_link ==> look.color is None
        }),
{
}

} // verus!

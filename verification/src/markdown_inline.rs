//! Lines of Markdown text: the plain text of a node and the styles of its parts,
//! the rows of a table and the marks of a list.

use std::ops::Range;
use vstd::prelude::*;
use crate::markdown::{
    closed_document, closed_once, document_of, kind_of_tag, leaf, leaf_of_event, lemma_node_models,
    lemma_open_nodes, open_nodes, with_child, KindModel, MarkdownNode, MarkdownNodeKind, NodeModel,
};
use crate::markdown_events::MarkdownEventModel;
use crate::text::{byte_len, lemma_utf8_len_concat, lemma_utf8_len_positive, utf8_len};

verus! {

// ---------------------------------------------------------------------------
// Styles
// ---------------------------------------------------------------------------

/// How a part of a line is set.
#[derive(Clone, Copy, Debug, PartialEq, Eq, Structural)]
pub struct InlineStyle {
    /// In bold.
    pub is_bold: bool,
    /// In italics.
    pub is_italic: bool,
    /// Struck out.
    pub is_strikethrough: bool,
    /// As code.
    pub is_code: bool,
    /// As a link.
    pub is_link: bool,
}

/// The style of plain text.
pub open spec fn plain_style() -> InlineStyle {
    InlineStyle {
        is_bold: false,
        is_italic: false,
        is_strikethrough: false,
        is_code: false,
        is_link: false,
    }
}

impl Default for InlineStyle {
    /// The style of plain text.
    fn default() -> (result: InlineStyle)
        ensures
            result == plain_style(),
    {
        InlineStyle {
            is_bold: false,
            is_italic: false,
            is_strikethrough: false,
            is_code: false,
            is_link: false,
        }
    }
}

/// A part of a text, in bytes, that is set in one style.
#[derive(Debug, PartialEq, Eq)]
pub struct InlineSpan {
    /// Where it stands.
    pub range: Range<usize>,
    /// How it is set.
    pub style: InlineStyle,
}

/// A line of text: what it says, and how its parts are set.
#[verifier::ext_equal]
pub struct LineModel {
    /// What it says.
    pub text: Seq<char>,
    /// How its parts are set, from front to back.
    pub spans: Seq<InlineSpan>,
}

/// The style that a node adds to that of the node around it.
pub open spec fn style_within(kind: KindModel, outer: InlineStyle) -> InlineStyle {
    match kind {
        KindModel::Strong => InlineStyle { is_bold: true, ..outer },
        KindModel::Emphasis | KindModel::GenericInline => InlineStyle { is_italic: true, ..outer },
        KindModel::Strikethrough => InlineStyle { is_strikethrough: true, ..outer },
        KindModel::Link => InlineStyle { is_link: true, ..outer },
        _ => outer,
    }
}

/// A piece of text in one style.
#[verifier::ext_equal]
pub struct Piece {
    /// What it says.
    pub text: Seq<char>,
    /// How it is set.
    pub style: InlineStyle,
}

/// What a node without children says; none where a node speaks through its
/// children.
pub open spec fn leaf_piece(kind: KindModel, style: InlineStyle) -> Option<Piece> {
    match kind {
        KindModel::Code(text) => Some(
            Piece { text, style: InlineStyle { is_code: true, ..style } },
        ),
        KindModel::Text(text) => Some(Piece { text, style }),
        KindModel::SoftBreak => Some(Piece { text: seq![' '], style }),
        KindModel::HardBreak => Some(Piece { text: seq!['\n'], style }),
        KindModel::TaskMarker(checked) => Some(
            Piece {
                text: if checked {
                    "☑ "@
                } else {
                    "☐ "@
                },
                style,
            },
        ),
        KindModel::Rule => Some(Piece { text: "────────"@, style }),
        _ => None,
    }
}

/// What a node says before its children do.
pub open spec fn opening_pieces(kind: KindModel, style: InlineStyle) -> Seq<Piece> {
    if kind is Image {
        seq![Piece { text: "图片："@, style: InlineStyle { is_italic: true, ..style } }]
    } else {
        Seq::empty()
    }
}

/// The pieces of a node, in their order. `outer` is the style around it.
pub open spec fn pieces(node: NodeModel, outer: InlineStyle) -> Seq<Piece>
    decreases node,
{
    let style = style_within(node.kind, outer);
    match leaf_piece(node.kind, style) {
        Some(piece) => seq![piece],
        None => opening_pieces(node.kind, style) + all_pieces(node.children, style),
    }
}

/// The pieces of some nodes, in their order.
pub open spec fn all_pieces(nodes: Seq<NodeModel>, outer: InlineStyle) -> Seq<Piece>
    decreases nodes,
{
    if nodes.len() == 0 {
        Seq::empty()
    } else {
        all_pieces(nodes.drop_last(), outer) + pieces(nodes[nodes.len() - 1], outer)
    }
}

impl LineModel {
    /// An empty line.
    pub open spec fn blank() -> LineModel {
        LineModel { text: Seq::empty(), spans: Seq::empty() }
    }

    /// The line with one more piece: it continues the last span where the style is
    /// the same. An empty piece adds nothing.
    pub open spec fn with_piece(self, piece: Piece) -> LineModel {
        let start = utf8_len(self.text) as usize;
        let end = utf8_len(self.text + piece.text) as usize;
        if piece.text.len() == 0 {
            self
        } else if self.spans.len() > 0 && self.spans.last().style == piece.style
            && self.spans.last().range.end == start {
            LineModel {
                text: self.text + piece.text,
                spans: self.spans.update(
                    self.spans.len() - 1,
                    InlineSpan {
                        range: Range { start: self.spans.last().range.start, end },
                        style: piece.style,
                    },
                ),
            }
        } else {
            LineModel {
                text: self.text + piece.text,
                spans: self.spans.push(
                    InlineSpan { range: Range { start, end }, style: piece.style },
                ),
            }
        }
    }

    /// The line with more pieces.
    pub open spec fn with_pieces(self, more: Seq<Piece>) -> LineModel
        decreases more.len(),
    {
        if more.len() == 0 {
            self
        } else {
            self.with_pieces(more.drop_last()).with_piece(more.last())
        }
    }
}

proof fn lemma_with_pieces_concat(line: LineModel, first: Seq<Piece>, second: Seq<Piece>)
    ensures
        line.with_pieces(first + second) == line.with_pieces(first).with_pieces(second),
    decreases second.len(),
{
    if second.len() == 0 {
        assert(first + second =~= first);
    } else {
        assert((first + second).drop_last() =~= first + second.drop_last());
        lemma_with_pieces_concat(line, first, second.drop_last());
    }
}

/// The line of text that a node says.
pub open spec fn line_of(node: NodeModel) -> LineModel {
    LineModel::blank().with_pieces(pieces(node, plain_style()))
}

// ---------------------------------------------------------------------------
// Collecting a line
// ---------------------------------------------------------------------------

/// Adds a piece of text to a line.
pub fn append_inline_text(
    value: &str,
    style: InlineStyle,
    text: &mut String,
    spans: &mut Vec<InlineSpan>,
)
    ensures
        (LineModel { text: final(text)@, spans: final(spans)@ }) == (LineModel {
            text: old(text)@,
            spans: old(spans)@,
        }).with_piece(Piece { text: value@, style }),
{
    if value.is_empty() {
        return;
    }
    let start: usize = byte_len(text.as_str());
    text.push_str(value);
    let end: usize = byte_len(text.as_str());
    let count: usize = spans.len();
    if count > 0 && spans[count - 1].style == style && spans[count - 1].range.end == start {
        let first: usize = spans[count - 1].range.start;
        spans[count - 1] = InlineSpan { range: first..end, style };
    } else {
        spans.push(InlineSpan { range: start..end, style });
    }
}

proof fn lemma_one_piece(line: LineModel, piece: Piece)
    ensures
        line.with_pieces(seq![piece]) == line.with_piece(piece),
{
    let one = seq![piece];
    assert(one.drop_last() =~= Seq::empty());
    assert(line.with_pieces(one.drop_last()) == line);
}

/// Adds what a node says to a line.
pub fn append_inline(
    node: &MarkdownNode,
    inherited_style: InlineStyle,
    text: &mut String,
    spans: &mut Vec<InlineSpan>,
)
    ensures
        (LineModel { text: final(text)@, spans: final(spans)@ }) == (LineModel {
            text: old(text)@,
            spans: old(spans)@,
        }).with_pieces(pieces(node@, inherited_style)),
    decreases node,
{
    let ghost before = LineModel { text: text@, spans: spans@ };
    let mut style = inherited_style;
    match &node.kind {
        MarkdownNodeKind::Strong => {
            style.is_bold = true;
        },
        MarkdownNodeKind::Emphasis | MarkdownNodeKind::GenericInline => {
            style.is_italic = true;
        },
        MarkdownNodeKind::Strikethrough => {
            style.is_strikethrough = true;
        },
        MarkdownNodeKind::Link => {
            style.is_link = true;
        },
        MarkdownNodeKind::Code(value) => {
            style.is_code = true;
            proof {
                lemma_one_piece(before, Piece { text: value@, style });
            }
            append_inline_text(value.as_str(), style, text, spans);
            return;
        },
        MarkdownNodeKind::Text(value) => {
            proof {
                lemma_one_piece(before, Piece { text: value@, style });
            }
            append_inline_text(value.as_str(), style, text, spans);
            return;
        },
        MarkdownNodeKind::SoftBreak => {
            proof {
                reveal_strlit(" ");
                assert(" "@ =~= seq![' ']);
                lemma_one_piece(before, Piece { text: " "@, style });
            }
            append_inline_text(" ", style, text, spans);
            return;
        },
        MarkdownNodeKind::HardBreak => {
            proof {
                reveal_strlit("\n");
                assert("\n"@ =~= seq!['\n']);
                lemma_one_piece(before, Piece { text: "\n"@, style });
            }
            append_inline_text("\n", style, text, spans);
            return;
        },
        MarkdownNodeKind::TaskMarker(checked) => {
            let mark = if *checked {
                "☑ "
            } else {
                "☐ "
            };
            proof {
                lemma_one_piece(before, Piece { text: mark@, style });
            }
            append_inline_text(mark, style, text, spans);
            return;
        },
        MarkdownNodeKind::Image => {
            let mark_style = InlineStyle { is_italic: true, ..style };
            proof {
                lemma_one_piece(before, Piece { text: "图片："@, style: mark_style });
            }
            append_inline_text("图片：", mark_style, text, spans);
        },
        MarkdownNodeKind::Rule => {
            proof {
                lemma_one_piece(before, Piece { text: "────────"@, style });
            }
            append_inline_text("────────", style, text, spans);
            return;
        },
        _ => {},
    }
    let ghost opening = opening_pieces(node@.kind, style);
    let ghost children = node@.children;
    proof {
        lemma_node_models(node.children@);
        assert(children.take(0) =~= Seq::empty());
        assert(opening + all_pieces(children.take(0), style) =~= opening);
    }
    let mut i: usize = 0;
    while i < node.children.len()
        invariant
            i <= node.children@.len(),
            children == node@.children,
            children.len() == node.children@.len(),
            forall|k: int|
                0 <= k < children.len() ==> (#[trigger] children[k]) == node.children@[k]@,
            (LineModel { text: text@, spans: spans@ }) == before.with_pieces(
                opening + all_pieces(children.take(i as int), style),
            ),
        decreases node.children@.len() - i,
    {
        proof {
            let next = children.take(i + 1);
            assert(next.drop_last() =~= children.take(i as int));
            assert(next[next.len() - 1] == node.children@[i as int]@);
            let earlier = opening + all_pieces(children.take(i as int), style);
            let more = pieces(node.children@[i as int]@, style);
            assert(opening + all_pieces(next, style) =~= earlier + more);
            lemma_with_pieces_concat(before, earlier, more);
        }
        append_inline(&node.children[i], style, text, spans);
        i += 1;
    }
    proof {
        assert(children.take(i as int) =~= children);
    }
}

/// The line of text that a node says: its text, and how the parts are set.
pub fn inline_text_and_spans(node: &MarkdownNode) -> (result: (String, Vec<InlineSpan>))
    ensures
        (LineModel { text: result.0@, spans: result.1@ }) == line_of(node@),
{
    let mut text = String::new();
    let mut spans: Vec<InlineSpan> = Vec::new();
    proof {
        assert(text@ =~= Seq::empty());
        assert(spans@ =~= Seq::empty());
    }
    append_inline(node, InlineStyle::default(), &mut text, &mut spans);
    (text, spans)
}

/// Whether the spans of a line cover its text from front to back without a gap,
/// and no two neighbours are set alike.
pub open spec fn spans_cover(line: LineModel) -> bool {
    &&& line.text.len() == 0 <==> line.spans.len() == 0
    &&& line.spans.len() > 0 ==> line.spans[0].range.start == 0 && line.spans.last().range.end
        == utf8_len(line.text)
    &&& forall|i: int|
        0 <= i < line.spans.len() ==> (#[trigger] line.spans[i]).range.start
            < line.spans[i].range.end
    &&& forall|i: int, j: int|
        0 <= i && j == i + 1 && j < line.spans.len() ==> (#[trigger] line.spans[i]).range.end == (
        #[trigger] line.spans[j]).range.start && line.spans[i].style != line.spans[j].style
}

proof fn lemma_piece_keeps_cover(line: LineModel, piece: Piece)
    requires
        spans_cover(line),
        utf8_len(line.text + piece.text) <= usize::MAX,
    ensures
        spans_cover(line.with_piece(piece)),
{
    if piece.text.len() > 0 {
        lemma_utf8_len_concat(line.text, piece.text);
        lemma_utf8_len_positive(piece.text);
        let after = line.with_piece(piece);
        let start = utf8_len(line.text);
        if line.spans.len() == 0 {
            assert(line.text =~= Seq::empty());
            lemma_utf8_len_concat(Seq::<char>::empty(), Seq::<char>::empty());
            assert(Seq::<char>::empty() + Seq::<char>::empty() =~= Seq::<char>::empty());
        }
        assert forall|i: int, j: int|
            0 <= i && j == i + 1 && j < after.spans.len() implies (
        #[trigger] after.spans[i]).range.end == (#[trigger] after.spans[j]).range.start
            && after.spans[i].style != after.spans[j].style by {
            if j < line.spans.len() {
                assert(line.spans[i].range.end == line.spans[j].range.start);
            } else {
                assert(after.spans[i] == line.spans[i]);
                assert(line.spans.last() == line.spans[i]);
            }
        }
        assert forall|i: int| 0 <= i < after.spans.len() implies (
        #[trigger] after.spans[i]).range.start < after.spans[i].range.end by {
            if i < line.spans.len() {
                assert(line.spans[i].range.start < line.spans[i].range.end);
            }
        }
    }
}

/// The text of some pieces.
pub open spec fn joined(more: Seq<Piece>) -> Seq<char>
    decreases more.len(),
{
    if more.len() == 0 {
        Seq::empty()
    } else {
        joined(more.drop_last()) + more.last().text
    }
}

proof fn lemma_joined_concat(first: Seq<Piece>, second: Seq<Piece>)
    ensures
        joined(first + second) == joined(first) + joined(second),
    decreases second.len(),
{
    if second.len() == 0 {
        assert(first + second =~= first);
        assert(joined(first) + joined(second) =~= joined(first));
    } else {
        assert((first + second).drop_last() =~= first + second.drop_last());
        lemma_joined_concat(first, second.drop_last());
        assert(joined(first) + (joined(second.drop_last()) + second.last().text) =~= joined(first)
            + joined(second.drop_last()) + second.last().text);
    }
}

proof fn lemma_text_of_pieces(line: LineModel, more: Seq<Piece>)
    ensures
        line.with_pieces(more).text == line.text + joined(more),
    decreases more.len(),
{
    if more.len() == 0 {
        assert(line.text + joined(more) =~= line.text);
    } else {
        lemma_text_of_pieces(line, more.drop_last());
        assert(line.text + (joined(more.drop_last()) + more.last().text) =~= line.text + joined(
            more.drop_last(),
        ) + more.last().text);
        if more.last().text.len() == 0 {
            assert(line.text + joined(more) =~= line.text + joined(more.drop_last()));
        }
    }
}

proof fn lemma_pieces_keep_cover(line: LineModel, more: Seq<Piece>)
    requires
        spans_cover(line),
        utf8_len(line.text + joined(more)) <= usize::MAX,
    ensures
        spans_cover(line.with_pieces(more)),
    decreases more.len(),
{
    if more.len() > 0 {
        let shorter = more.drop_last();
        lemma_text_of_pieces(line, shorter);
        lemma_utf8_len_concat(line.text + joined(shorter), more.last().text);
        assert(line.text + (joined(shorter) + more.last().text) =~= line.text + joined(shorter)
            + more.last().text);
        lemma_pieces_keep_cover(line, shorter);
        lemma_piece_keeps_cover(line.with_pieces(shorter), more.last());
    }
}

/// The text of a node is that of its pieces, and its spans cover it from front to
/// back without a gap or an overlap. Two neighbouring spans are never set alike.
pub proof fn law_spans_cover_text(node: NodeModel)
    requires
        utf8_len(joined(pieces(node, plain_style()))) <= usize::MAX,
    ensures
        line_of(node).text == joined(pieces(node, plain_style())),
        spans_cover(line_of(node)),
{
    let all = pieces(node, plain_style());
    lemma_text_of_pieces(LineModel::blank(), all);
    assert(Seq::<char>::empty() + joined(all) =~= joined(all));
    lemma_pieces_keep_cover(LineModel::blank(), all);
}

// ---------------------------------------------------------------------------
// Nothing that was written is lost
// ---------------------------------------------------------------------------

/// What an event adds to the text of the document.
pub open spec fn event_text(event: MarkdownEventModel) -> Seq<char> {
    match event {
        MarkdownEventModel::Start(tag) => joined(
            opening_pieces(kind_of_tag(tag), plain_style()),
        ),
        MarkdownEventModel::End => Seq::empty(),
        _ => leaf_piece(leaf_of_event(event)->0, plain_style())->0.text,
    }
}

/// What some events add to the text of the document, in their order.
pub open spec fn events_text(events: Seq<MarkdownEventModel>) -> Seq<char>
    decreases events.len(),
{
    if events.len() == 0 {
        Seq::empty()
    } else {
        events_text(events.drop_last()) + event_text(events.last())
    }
}

/// What some nodes say, one after the other.
spec fn said(nodes: Seq<NodeModel>) -> Seq<char>
    decreases nodes.len(),
{
    if nodes.len() == 0 {
        Seq::empty()
    } else {
        said(nodes.drop_last()) + joined(pieces(nodes.last(), plain_style()))
    }
}

/// Whether no node of some is one that speaks for itself.
spec fn none_is_leaf(nodes: Seq<NodeModel>) -> bool {
    forall|i: int|
        0 <= i < nodes.len() ==> leaf_piece((#[trigger] nodes[i]).kind, plain_style()) is None
}

proof fn lemma_text_ignores_style(node: NodeModel, first: InlineStyle, second: InlineStyle)
    ensures
        joined(pieces(node, first)) == joined(pieces(node, second)),
    decreases node, 0nat,
{
    let left = style_within(node.kind, first);
    let right = style_within(node.kind, second);
    match leaf_piece(node.kind, left) {
        Some(piece) => {
            let other = leaf_piece(node.kind, right)->0;
            lemma_joined_one(piece);
            lemma_joined_one(other);
        },
        None => {
            lemma_texts_ignore_style(node.children, left, right);
            lemma_joined_concat(opening_pieces(node.kind, left), all_pieces(node.children, left));
            lemma_joined_concat(
                opening_pieces(node.kind, right),
                all_pieces(node.children, right),
            );
            if node.kind is Image {
                lemma_joined_one(opening_pieces(node.kind, left)[0]);
                lemma_joined_one(opening_pieces(node.kind, right)[0]);
                assert(opening_pieces(node.kind, left) =~= seq![
                    opening_pieces(node.kind, left)[0],
                ]);
                assert(opening_pieces(node.kind, right) =~= seq![
                    opening_pieces(node.kind, right)[0],
                ]);
            }
        },
    }
}

proof fn lemma_texts_ignore_style(nodes: Seq<NodeModel>, first: InlineStyle, second: InlineStyle)
    ensures
        joined(all_pieces(nodes, first)) == joined(all_pieces(nodes, second)),
    decreases nodes, 1nat,
{
    if nodes.len() > 0 {
        let shorter = nodes.drop_last();
        lemma_texts_ignore_style(shorter, first, second);
        lemma_text_ignores_style(nodes[nodes.len() - 1], first, second);
        lemma_joined_concat(all_pieces(shorter, first), pieces(nodes[nodes.len() - 1], first));
        lemma_joined_concat(all_pieces(shorter, second), pieces(nodes[nodes.len() - 1], second));
    }
}

proof fn lemma_joined_one(piece: Piece)
    ensures
        joined(seq![piece]) == piece.text,
{
    let one = seq![piece];
    assert(one.drop_last() =~= Seq::empty());
    assert(joined(one.drop_last()) + piece.text =~= piece.text);
}

/// A node that speaks through its children says one more thing when it gets one
/// more child.
proof fn lemma_child_is_said(node: NodeModel, child: NodeModel)
    requires
        leaf_piece(node.kind, plain_style()) is None,
    ensures
        joined(
            pieces(
                NodeModel { children: node.children.push(child), ..node },
                plain_style(),
            ),
        ) == joined(pieces(node, plain_style())) + joined(pieces(child, plain_style())),
{
    let style = style_within(node.kind, plain_style());
    let opening = opening_pieces(node.kind, style);
    let longer = node.children.push(child);
    assert(longer.drop_last() =~= node.children);
    assert(longer[longer.len() - 1] == child);
    let children = all_pieces(node.children, style);
    let more = pieces(child, style);
    assert(leaf_piece(node.kind, style) is None);
    assert(opening + (children + more) =~= opening + children + more);
    lemma_joined_concat(opening + children, more);
    lemma_text_ignores_style(child, style, plain_style());
}

proof fn lemma_child_into_stack(stack: Seq<NodeModel>, child: NodeModel)
    requires
        stack.len() > 0,
        none_is_leaf(stack),
    ensures
        said(with_child(stack, child)) == said(stack) + joined(pieces(child, plain_style())),
        none_is_leaf(with_child(stack, child)),
{
    let after = with_child(stack, child);
    let last = stack.last();
    assert(leaf_piece(stack[stack.len() - 1].kind, plain_style()) is None);
    lemma_child_is_said(last, child);
    assert(after.drop_last() =~= stack.drop_last());
    let head = said(stack.drop_last());
    let own = joined(pieces(last, plain_style()));
    let more = joined(pieces(child, plain_style()));
    assert(head + (own + more) =~= head + own + more);
    assert forall|i: int| 0 <= i < after.len() implies leaf_piece(
        (#[trigger] after[i]).kind,
        plain_style(),
    ) is None by {
        assert(leaf_piece(stack[i].kind, plain_style()) is None);
    }
}

proof fn lemma_closing_keeps_text(stack: Seq<NodeModel>)
    requires
        stack.len() > 0,
        none_is_leaf(stack),
    ensures
        said(closed_once(stack)) == said(stack),
        none_is_leaf(closed_once(stack)),
{
    if stack.len() > 1 {
        let shorter = stack.drop_last();
        assert forall|i: int| 0 <= i < shorter.len() implies leaf_piece(
            (#[trigger] shorter[i]).kind,
            plain_style(),
        ) is None by {
            assert(leaf_piece(stack[i].kind, plain_style()) is None);
        }
        lemma_child_into_stack(shorter, stack.last());
    }
}

proof fn lemma_leaf_is_said(kind: KindModel)
    requires
        leaf_piece(kind, plain_style()) is Some,
    ensures
        joined(pieces(leaf(kind), plain_style())) == leaf_piece(kind, plain_style())->0.text,
{
    lemma_joined_one(leaf_piece(kind, plain_style())->0);
}

proof fn lemma_open_nodes_say_events(events: Seq<MarkdownEventModel>)
    ensures
        none_is_leaf(open_nodes(events)),
        said(open_nodes(events)) == events_text(events),
    decreases events.len(),
{
    if events.len() == 0 {
        let root = leaf(KindModel::Document);
        let stack = seq![root];
        assert(stack.drop_last() =~= Seq::empty());
        assert(opening_pieces(root.kind, plain_style()) + all_pieces(root.children, plain_style())
            =~= Seq::empty());
        assert(pieces(root, plain_style()) =~= Seq::empty());
        assert(stack.last() == root);
        assert(said(stack.drop_last()) =~= Seq::empty());
        assert(said(stack) =~= Seq::empty());
    } else {
        let before = open_nodes(events.drop_last());
        let event = events.last();
        lemma_open_nodes(events.drop_last());
        lemma_open_nodes_say_events(events.drop_last());
        match event {
            MarkdownEventModel::Start(tag) => {
                let node = leaf(kind_of_tag(tag));
                let after = before.push(node);
                assert(after.drop_last() =~= before);
                let style = style_within(node.kind, plain_style());
                assert(all_pieces(node.children, style) =~= Seq::empty());
                assert(opening_pieces(node.kind, style) + all_pieces(node.children, style)
                    =~= opening_pieces(node.kind, style));
                assert(joined(pieces(node, plain_style())) == event_text(event));
                assert forall|i: int| 0 <= i < after.len() implies leaf_piece(
                    (#[trigger] after[i]).kind,
                    plain_style(),
                ) is None by {
                    if i < before.len() {
                        assert(leaf_piece(before[i].kind, plain_style()) is None);
                    }
                }
            },
            MarkdownEventModel::End => {
                lemma_closing_keeps_text(before);
                assert(events_text(events.drop_last()) + event_text(event) =~= events_text(
                    events.drop_last(),
                ));
            },
            _ => {
                let kind = leaf_of_event(event)->0;
                lemma_leaf_is_said(kind);
                lemma_child_into_stack(before, leaf(kind));
            },
        }
    }
}

proof fn lemma_closed_document_says(stack: Seq<NodeModel>)
    requires
        stack.len() > 0,
        none_is_leaf(stack),
    ensures
        joined(pieces(closed_document(stack), plain_style())) == said(stack),
    decreases stack.len(),
{
    if stack.len() <= 1 {
        assert(stack.drop_last() =~= Seq::empty());
        assert(said(stack.drop_last()) + joined(pieces(stack.last(), plain_style())) =~= joined(
            pieces(stack.last(), plain_style()),
        ));
    } else {
        lemma_closing_keeps_text(stack);
        lemma_closed_document_says(closed_once(stack));
    }
}

/// Everything that the events of a text say is shown, in their order and once:
/// nothing is lost where parts are left open, and HTML is shown as it stands.
pub proof fn law_everything_written_is_shown(events: Seq<MarkdownEventModel>)
    ensures
        line_of(document_of(events)).text == events_text(events),
{
    lemma_open_nodes(events);
    lemma_open_nodes_say_events(events);
    lemma_closed_document_says(open_nodes(events));
    let all = pieces(document_of(events), plain_style());
    lemma_text_of_pieces(LineModel::blank(), all);
    assert(Seq::<char>::empty() + joined(all) =~= joined(all));
}

} // verus!

//! Blocks of Markdown text: how each is laid out, the text of code, the marks of
//! lists, the rows of tables and the colours of styles.

use std::ops::Range;
use vstd::prelude::*;
use crate::keystroke::{copy_optional_text, optional_text};
use crate::markdown::{lemma_node_models, KindModel, MarkdownNode, MarkdownNodeKind, NodeModel};
use crate::markdown_events::ColumnAlignment;
use crate::markdown_inline::{plain_style, InlineSpan, InlineStyle};
use crate::text::{decimal, decimal_text, trim_trailing_line_feeds, without_trailing_line_feeds};
use crate::text_selection::copy_range;
use crate::theme::ThemeColor;

verus! {

// ---------------------------------------------------------------------------
// Layout
// ---------------------------------------------------------------------------

/// How a node is laid out.
#[derive(Clone, Copy, Debug, PartialEq, Eq, Structural)]
pub enum BlockLayout {
    /// As a line of text.
    Line,
    /// As a heading.
    Heading(u8),
    /// As a quotation.
    Quote,
    /// As code.
    Code,
    /// As a list.
    List(Option<u64>),
    /// As its children, one below the other.
    Children,
    /// As a table.
    Table,
    /// As a line across.
    Rule,
}

/// How a kind of node is laid out.
pub open spec fn layout_of(kind: KindModel) -> BlockLayout {
    match kind {
        KindModel::Heading(level) => BlockLayout::Heading(level),
        KindModel::BlockQuote => BlockLayout::Quote,
        KindModel::CodeBlock(_) => BlockLayout::Code,
        KindModel::List(start) => BlockLayout::List(start),
        KindModel::ListItem | KindModel::GenericBlock | KindModel::Document => {
            BlockLayout::Children
        },
        KindModel::Table(_) => BlockLayout::Table,
        KindModel::Rule => BlockLayout::Rule,
        _ => BlockLayout::Line,
    }
}

/// Says how a node is laid out. What is no block is laid out as a line of text, so
/// that nothing is lost.
pub fn block_layout(node: &MarkdownNode) -> (result: BlockLayout)
    ensures
        result == layout_of(node@.kind),
{
    match &node.kind {
        MarkdownNodeKind::Heading(level) => BlockLayout::Heading(*level),
        MarkdownNodeKind::BlockQuote => BlockLayout::Quote,
        MarkdownNodeKind::CodeBlock(_) => BlockLayout::Code,
        MarkdownNodeKind::List(start) => BlockLayout::List(*start),
        MarkdownNodeKind::ListItem
        | MarkdownNodeKind::GenericBlock
        | MarkdownNodeKind::Document => BlockLayout::Children,
        MarkdownNodeKind::Table(_) => BlockLayout::Table,
        MarkdownNodeKind::Rule => BlockLayout::Rule,
        _ => BlockLayout::Line,
    }
}

// ---------------------------------------------------------------------------
// Code
// ---------------------------------------------------------------------------

/// The text of a node as it stands in the source.
pub open spec fn plain_text(node: NodeModel) -> Seq<char>
    decreases node,
{
    match node.kind {
        KindModel::Text(text) | KindModel::Code(text) => text,
        KindModel::SoftBreak | KindModel::HardBreak => seq!['\n'],
        KindModel::TaskMarker(checked) => if checked {
            "[x] "@
        } else {
            "[ ] "@
        },
        _ => all_plain_text(node.children),
    }
}

/// The text of some nodes, one after the other.
pub open spec fn all_plain_text(nodes: Seq<NodeModel>) -> Seq<char>
    decreases nodes,
{
    if nodes.len() == 0 {
        Seq::empty()
    } else {
        all_plain_text(nodes.drop_last()) + plain_text(nodes[nodes.len() - 1])
    }
}

/// Adds the text of a node to another.
fn collect_plain_text_into(node: &MarkdownNode, value: &mut String)
    ensures
        final(value)@ == old(value)@ + plain_text(node@),
    decreases node,
{
    match &node.kind {
        MarkdownNodeKind::Text(text) | MarkdownNodeKind::Code(text) => {
            value.push_str(text.as_str());
        },
        MarkdownNodeKind::SoftBreak | MarkdownNodeKind::HardBreak => {
            value.push('\n');
            proof {
                assert(value@ =~= old(value)@ + seq!['\n']);
            }
        },
        MarkdownNodeKind::TaskMarker(checked) => {
            value.push_str(
                if *checked {
                    "[x] "
                } else {
                    "[ ] "
                },
            );
        },
        _ => {
            let ghost children = node@.children;
            let ghost before = value@;
            proof {
                lemma_node_models(node.children@);
                assert(children.take(0) =~= Seq::empty());
                assert(before + all_plain_text(children.take(0)) =~= before);
            }
            let mut i: usize = 0;
            while i < node.children.len()
                invariant
                    i <= node.children@.len(),
                    children.len() == node.children@.len(),
                    forall|k: int|
                        0 <= k < children.len() ==> (#[trigger] children[k])
                            == node.children@[k]@,
                    value@ == before + all_plain_text(children.take(i as int)),
                decreases node.children@.len() - i,
            {
                proof {
                    let next = children.take(i + 1);
                    assert(next.drop_last() =~= children.take(i as int));
                    assert(next[next.len() - 1] == node.children@[i as int]@);
                    let earlier = all_plain_text(children.take(i as int));
                    let more = plain_text(node.children@[i as int]@);
                    assert(before + (earlier + more) =~= before + earlier + more);
                }
                collect_plain_text_into(&node.children[i], value);
                i += 1;
            }
            proof {
                assert(children.take(i as int) =~= children);
            }
        },
    }
}

/// The text of a node as it stands in the source.
pub fn collect_plain_text(node: &MarkdownNode) -> (result: String)
    ensures
        result@ == plain_text(node@),
{
    let mut value = String::new();
    collect_plain_text_into(node, &mut value);
    proof {
        assert(Seq::<char>::empty() + plain_text(node@) =~= plain_text(node@));
    }
    value
}

/// What a block of code shows.
#[derive(Debug, PartialEq, Eq)]
pub struct CodeAppearance {
    /// Its language.
    pub language: Option<String>,
    /// The code without the line feeds at its end.
    pub code: String,
}

/// Works out what a block of code shows.
pub fn code_appearance(node: &MarkdownNode) -> (result: CodeAppearance)
    ensures
        optional_text(result.language) == (match node@.kind {
            KindModel::CodeBlock(language) => language,
            _ => None,
        }),
        result.code@ == without_trailing_line_feeds(plain_text(node@)),
{
    let language = match &node.kind {
        MarkdownNodeKind::CodeBlock(language) => copy_optional_text(language),
        _ => None,
    };
    let text = collect_plain_text(node);
    CodeAppearance { language, code: trim_trailing_line_feeds(text.as_str()) }
}

// ---------------------------------------------------------------------------
// Lists
// ---------------------------------------------------------------------------

/// The mark in front of an item of a list.
pub open spec fn item_mark(start: Option<u64>, index: int) -> Seq<char> {
    match start {
        Some(first) => decimal_text(
            (if first + index > u64::MAX {
                u64::MAX as int
            } else {
                first + index
            }) as nat,
        ) + "."@,
        None => "•"@,
    }
}

/// Writes the mark in front of an item of a list.
pub fn list_marker(start: Option<u64>, index: usize) -> (result: String)
    ensures
        result@ == item_mark(start, index as int),
{
    match start {
        Some(first) => {
            let mut mark = decimal(first.saturating_add(index as u64));
            mark.push_str(".");
            mark
        },
        None => "•".to_owned(),
    }
}

/// The places of some nodes that are of one kind.
pub open spec fn places_of(nodes: Seq<NodeModel>, kind: KindModel) -> Seq<usize>
    decreases nodes.len(),
{
    if nodes.len() == 0 {
        Seq::empty()
    } else {
        let earlier = places_of(nodes.drop_last(), kind);
        if nodes.last().kind == kind {
            earlier.push((nodes.len() - 1) as usize)
        } else {
            earlier
        }
    }
}

/// Finds the items of a list among its children.
pub fn list_items(node: &MarkdownNode) -> (result: Vec<usize>)
    ensures
        result@ == places_of(node@.children, KindModel::ListItem),
{
    let ghost children = node@.children;
    let mut places: Vec<usize> = Vec::new();
    proof {
        lemma_node_models(node.children@);
        assert(children.take(0) =~= Seq::empty());
    }
    let mut i: usize = 0;
    while i < node.children.len()
        invariant
            i <= node.children@.len(),
            children.len() == node.children@.len(),
            forall|k: int|
                0 <= k < children.len() ==> (#[trigger] children[k]) == node.children@[k]@,
            places@ == places_of(children.take(i as int), KindModel::ListItem),
        decreases node.children@.len() - i,
    {
        proof {
            let next = children.take(i + 1);
            assert(next.drop_last() =~= children.take(i as int));
            assert(next.last() == node.children@[i as int]@);
        }
        match &node.children[i].kind {
            MarkdownNodeKind::ListItem => {
                places.push(i);
            },
            _ => {},
        }
        i += 1;
    }
    proof {
        assert(children.take(i as int) =~= children);
    }
    places
}

// ---------------------------------------------------------------------------
// Tables
// ---------------------------------------------------------------------------

/// A row of a table.
#[derive(Debug, PartialEq, Eq)]
pub struct TableRowView<'a> {
    /// Whether it is the head.
    pub is_header: bool,
    /// Its cells.
    pub cells: Vec<&'a MarkdownNode>,
}

/// A [`TableRowView`] with the models of its cells.
#[verifier::ext_equal]
pub struct RowModel {
    /// Whether it is the head.
    pub is_header: bool,
    /// Its cells.
    pub cells: Seq<NodeModel>,
}

/// The models of some cells.
pub open spec fn cell_models(cells: Seq<&MarkdownNode>) -> Seq<NodeModel> {
    cells.map_values(|cell: &MarkdownNode| cell@)
}

/// The models of some rows.
pub open spec fn row_models(rows: Seq<TableRowView>) -> Seq<RowModel> {
    rows.map_values(
        |row: TableRowView| RowModel { is_header: row.is_header, cells: cell_models(row.cells@) },
    )
}

/// The cells among some nodes.
pub open spec fn direct_cells(nodes: Seq<NodeModel>) -> Seq<NodeModel>
    decreases nodes.len(),
{
    if nodes.len() == 0 {
        Seq::empty()
    } else {
        let earlier = direct_cells(nodes.drop_last());
        if nodes.last().kind is TableCell {
            earlier.push(nodes.last())
        } else {
            earlier
        }
    }
}

/// The cells of the rows among some nodes.
pub open spec fn cells_of_rows(nodes: Seq<NodeModel>) -> Seq<NodeModel>
    decreases nodes.len(),
{
    if nodes.len() == 0 {
        Seq::empty()
    } else {
        let earlier = cells_of_rows(nodes.drop_last());
        if nodes.last().kind is TableRow {
            earlier + direct_cells(nodes.last().children)
        } else {
            earlier
        }
    }
}

/// The cells of a row: its own, or those of the rows that it wraps.
pub open spec fn cells_of(node: NodeModel) -> Seq<NodeModel> {
    if direct_cells(node.children).len() > 0 {
        direct_cells(node.children)
    } else {
        cells_of_rows(node.children)
    }
}

/// The rows of a table that have any cells.
pub open spec fn rows_of(nodes: Seq<NodeModel>) -> Seq<RowModel>
    decreases nodes.len(),
{
    if nodes.len() == 0 {
        Seq::empty()
    } else {
        let earlier = rows_of(nodes.drop_last());
        let last = nodes.last();
        if (last.kind is TableHead || last.kind is TableRow) && cells_of(last).len() > 0 {
            earlier.push(RowModel { is_header: last.kind is TableHead, cells: cells_of(last) })
        } else {
            earlier
        }
    }
}

/// Adds the cells among a node's children to a list.
fn push_direct_cells<'a>(node: &'a MarkdownNode, cells: &mut Vec<&'a MarkdownNode>)
    ensures
        cell_models(final(cells)@) == cell_models(old(cells)@) + direct_cells(node@.children),
{
    let ghost children = node@.children;
    let ghost before = cell_models(cells@);
    proof {
        lemma_node_models(node.children@);
        assert(children.take(0) =~= Seq::empty());
        assert(before + direct_cells(children.take(0)) =~= before);
    }
    let mut i: usize = 0;
    while i < node.children.len()
        invariant
            i <= node.children@.len(),
            children.len() == node.children@.len(),
            forall|k: int|
                0 <= k < children.len() ==> (#[trigger] children[k]) == node.children@[k]@,
            cell_models(cells@) == before + direct_cells(children.take(i as int)),
        decreases node.children@.len() - i,
    {
        proof {
            let next = children.take(i + 1);
            assert(next.drop_last() =~= children.take(i as int));
            assert(next.last() == node.children@[i as int]@);
        }
        match &node.children[i].kind {
            MarkdownNodeKind::TableCell => {
                let ghost earlier = cells@;
                let child = &node.children[i];
                cells.push(child);
                proof {
                    assert(cell_models(cells@) =~= cell_models(earlier).push(child@));
                    let found = direct_cells(children.take(i as int));
                    assert(before + found.push(child@) =~= (before + found).push(child@));
                }
            },
            _ => {},
        }
        i += 1;
    }
    proof {
        assert(children.take(i as int) =~= children);
    }
}

/// Collects the cells of a row: its own, or those of the rows that it wraps.
pub fn table_cells<'a>(node: &'a MarkdownNode) -> (result: Vec<&'a MarkdownNode>)
    ensures
        cell_models(result@) == cells_of(node@),
{
    let mut cells: Vec<&'a MarkdownNode> = Vec::new();
    proof {
        assert(cell_models(cells@) =~= Seq::empty());
        assert(Seq::<NodeModel>::empty() + direct_cells(node@.children) =~= direct_cells(
            node@.children,
        ));
    }
    push_direct_cells(node, &mut cells);
    if cells.len() > 0 {
        return cells;
    }
    let ghost children = node@.children;
    proof {
        lemma_node_models(node.children@);
        assert(children.take(0) =~= Seq::empty());
    }
    let mut i: usize = 0;
    while i < node.children.len()
        invariant
            i <= node.children@.len(),
            children.len() == node.children@.len(),
            forall|k: int|
                0 <= k < children.len() ==> (#[trigger] children[k]) == node.children@[k]@,
            cell_models(cells@) == cells_of_rows(children.take(i as int)),
        decreases node.children@.len() - i,
    {
        proof {
            let next = children.take(i + 1);
            assert(next.drop_last() =~= children.take(i as int));
            assert(next.last() == node.children@[i as int]@);
        }
        match &node.children[i].kind {
            MarkdownNodeKind::TableRow => {
                push_direct_cells(&node.children[i], &mut cells);
            },
            _ => {},
        }
        i += 1;
    }
    proof {
        assert(children.take(i as int) =~= children);
    }
    cells
}

/// Collects the rows of a table.
pub fn collect_table_rows<'a>(node: &'a MarkdownNode) -> (result: Vec<TableRowView<'a>>)
    ensures
        row_models(result@) == rows_of(node@.children),
{
    let ghost children = node@.children;
    let mut rows: Vec<TableRowView<'a>> = Vec::new();
    proof {
        lemma_node_models(node.children@);
        assert(children.take(0) =~= Seq::empty());
        assert(row_models(rows@) =~= Seq::empty());
    }
    let mut i: usize = 0;
    while i < node.children.len()
        invariant
            i <= node.children@.len(),
            children.len() == node.children@.len(),
            forall|k: int|
                0 <= k < children.len() ==> (#[trigger] children[k]) == node.children@[k]@,
            row_models(rows@) == rows_of(children.take(i as int)),
        decreases node.children@.len() - i,
    {
        let child = &node.children[i];
        proof {
            let next = children.take(i + 1);
            assert(next.drop_last() =~= children.take(i as int));
            assert(next.last() == child@);
        }
        let part = match &child.kind {
            MarkdownNodeKind::TableHead => Some(true),
            MarkdownNodeKind::TableRow => Some(false),
            _ => None,
        };
        match part {
            Some(is_header) => {
                let cells = table_cells(child);
                if cells.len() > 0 {
                    let ghost earlier = rows@;
                    let ghost row = RowModel { is_header, cells: cell_models(cells@) };
                    rows.push(TableRowView { is_header, cells });
                    proof {
                        assert(row_models(rows@) =~= row_models(earlier).push(row));
                    }
                }
            },
            None => {},
        }
        i += 1;
    }
    proof {
        assert(children.take(i as int) =~= children);
    }
    rows
}

/// How the text of a cell is set.
#[derive(Clone, Copy, Debug, PartialEq, Eq, Structural)]
pub enum CellAlignment {
    /// To the left.
    Left,
    /// In the middle.
    Center,
    /// To the right.
    Right,
}

/// How the text of a cell in a column is set: to the left where nothing says
/// otherwise.
pub open spec fn alignment_in(alignments: Seq<ColumnAlignment>, column: int) -> CellAlignment {
    if column >= alignments.len() {
        CellAlignment::Left
    } else {
        match alignments[column] {
            ColumnAlignment::Center => CellAlignment::Center,
            ColumnAlignment::Right => CellAlignment::Right,
            _ => CellAlignment::Left,
        }
    }
}

/// Says how the text of a cell in a column is set.
pub fn cell_alignment(alignments: &Vec<ColumnAlignment>, column: usize) -> (result: CellAlignment)
    ensures
        result == alignment_in(alignments@, column as int),
{
    if column >= alignments.len() {
        return CellAlignment::Left;
    }
    match alignments[column] {
        ColumnAlignment::Center => CellAlignment::Center,
        ColumnAlignment::Right => CellAlignment::Right,
        _ => CellAlignment::Left,
    }
}

/// What surrounds a cell.
#[derive(Clone, Copy, Debug, PartialEq, Eq, Structural)]
pub struct CellFrame {
    /// Whether a line stands above its row.
    pub has_top_line: bool,
    /// Whether a line stands to its right.
    pub has_right_line: bool,
    /// Whether its text is heavy.
    pub is_heavy: bool,
}

/// Works out what surrounds a cell.
pub fn cell_frame(row_index: usize, column: usize, cell_count: usize, is_header: bool) -> (result:
    CellFrame)
    requires
        column < cell_count,
    ensures
        result == (CellFrame {
            has_top_line: row_index > 0,
            has_right_line: column + 1 < cell_count,
            is_heavy: is_header,
        }),
{
    CellFrame {
        has_top_line: row_index > 0,
        has_right_line: column + 1 < cell_count,
        is_heavy: is_header,
    }
}

// ---------------------------------------------------------------------------
// Colours
// ---------------------------------------------------------------------------

/// How a style is shown.
#[derive(Clone, Copy, Debug, PartialEq, Eq, Structural)]
pub struct InlineHighlight {
    /// The colour of the text.
    pub color: Option<ThemeColor>,
    /// Whether it is bold.
    pub is_bold: bool,
    /// Whether it is slanted.
    pub is_italic: bool,
    /// What lies behind it.
    pub background: Option<ThemeColor>,
    /// The colour of a line through it.
    pub strikethrough: Option<ThemeColor>,
}

/// How a style is shown. A link shows its colour and leads nowhere.
pub open spec fn highlight_of(style: InlineStyle) -> InlineHighlight {
    InlineHighlight {
        color: if style.is_link {
            Some(ThemeColor::Info)
        } else if style.is_code {
            Some(ThemeColor::SyntaxString)
        } else {
            None
        },
        is_bold: style.is_bold,
        is_italic: style.is_italic,
        background: if style.is_code {
            Some(ThemeColor::CurrentLine)
        } else {
            None
        },
        strikethrough: if style.is_strikethrough {
            Some(ThemeColor::ForegroundMuted)
        } else {
            None
        },
    }
}

/// Works out how a style is shown.
pub fn highlight_for_inline_style(style: InlineStyle) -> (result: InlineHighlight)
    ensures
        result == highlight_of(style),
{
    InlineHighlight {
        color: if style.is_link {
            Some(ThemeColor::Info)
        } else if style.is_code {
            Some(ThemeColor::SyntaxString)
        } else {
            None
        },
        is_bold: style.is_bold,
        is_italic: style.is_italic,
        background: if style.is_code {
            Some(ThemeColor::CurrentLine)
        } else {
            None
        },
        strikethrough: if style.is_strikethrough {
            Some(ThemeColor::ForegroundMuted)
        } else {
            None
        },
    }
}

/// A part of a text that is not set plainly.
#[derive(Debug, PartialEq, Eq)]
pub struct HighlightedRange {
    /// Where it stands, in bytes.
    pub range: Range<usize>,
    /// How it is shown.
    pub highlight: InlineHighlight,
}

/// The parts of a text that are not set plainly, in their order.
pub open spec fn highlighted(spans: Seq<InlineSpan>) -> Seq<HighlightedRange>
    decreases spans.len(),
{
    if spans.len() == 0 {
        Seq::empty()
    } else {
        let earlier = highlighted(spans.drop_last());
        let last = spans.last();
        if last.style != plain_style() {
            earlier.push(
                HighlightedRange { range: last.range, highlight: highlight_of(last.style) },
            )
        } else {
            earlier
        }
    }
}

/// Whether a style is shown like plain text exactly where it is that of plain text.
pub proof fn law_only_plain_style_is_plain(style: InlineStyle)
    ensures
        highlight_of(style) == highlight_of(plain_style()) <==> style == plain_style(),
{
}

/// Collects the parts of a text that are not set plainly.
pub fn highlighted_ranges(spans: &Vec<InlineSpan>) -> (result: Vec<HighlightedRange>)
    ensures
        result@ == highlighted(spans@),
{
    let mut ranges: Vec<HighlightedRange> = Vec::new();
    let plain = InlineStyle::default();
    proof {
        assert(spans@.take(0) =~= Seq::empty());
    }
    let mut i: usize = 0;
    while i < spans.len()
        invariant
            i <= spans@.len(),
            plain == plain_style(),
            ranges@ == highlighted(spans@.take(i as int)),
        decreases spans@.len() - i,
    {
        let span = &spans[i];
        proof {
            assert(spans@.take(i + 1).drop_last() =~= spans@.take(i as int));
        }
        if span.style != plain {
            ranges.push(
                HighlightedRange {
                    range: copy_range(&span.range),
                    highlight: highlight_for_inline_style(span.style),
                },
            );
        }
        i += 1;
    }
    proof {
        assert(spans@.take(i as int) =~= spans@);
    }
    ranges
}

} // verus!

//! Markdown: its parts, its styles, its tables.

use argus_ui::markdown::{
    code_block_language, parse_markdown, MarkdownNode, MarkdownNodeKind,
};
use argus_ui::markdown_blocks::{
    block_layout, cell_alignment, code_appearance, collect_plain_text, collect_table_rows,
    highlighted_ranges, list_items, list_marker, BlockLayout, CellAlignment,
};
use argus_ui::markdown_events::ColumnAlignment;
use argus_ui::markdown_inline::{inline_text_and_spans, InlineStyle};

fn find_node(
    node: &MarkdownNode,
    predicate: impl Fn(&MarkdownNodeKind) -> bool + Copy,
) -> Option<&MarkdownNode> {
    if predicate(&node.kind) {
        return Some(node);
    }
    node.children.iter().find_map(|child| find_node(child, predicate))
}

#[test]
fn markdown_table_is_parsed_into_header_and_body_rows() {
    let document =
        parse_markdown("| # | 假设 | 机制 |\n|---|---|---|\n| H1 | **连接泄漏** | 堆内存耗尽 |");
    let table = find_node(&document, |kind| matches!(kind, MarkdownNodeKind::Table(_)))
        .expect("GFM 表格必须被识别");
    let rows = collect_table_rows(table);

    assert_eq!(rows.len(), 2);
    assert!(rows[0].is_header);
    assert_eq!(rows[0].cells.len(), 3);
    assert!(!rows[1].is_header);
    let (text, spans) = inline_text_and_spans(rows[1].cells[1]);
    assert_eq!(text, "连接泄漏");
    assert!(spans.iter().any(|span| span.style.is_bold));
}

#[test]
fn nested_inline_styles_use_plain_text_and_combined_ranges() {
    let document = parse_markdown("这是 ***重要*** 的 `memory.log`，~~旧结论~~。");
    let paragraph = find_node(&document, |kind| *kind == MarkdownNodeKind::Paragraph)
        .expect("正文必须包含段落");
    let (text, spans) = inline_text_and_spans(paragraph);

    assert_eq!(text, "这是 重要 的 memory.log，旧结论。");
    assert!(spans.iter().any(|span| {
        span.style
            == InlineStyle { is_bold: true, is_italic: true, ..InlineStyle::default() }
    }));
    assert!(spans.iter().any(|span| span.style.is_code));
    assert!(spans.iter().any(|span| span.style.is_strikethrough));
}

#[test]
fn streaming_and_html_input_remain_visible_without_execution() {
    let document = parse_markdown("**仍在流式输出\n<script>alert('x')</script>");
    let (text, _) = inline_text_and_spans(&document);

    assert!(text.contains("仍在流式输出"));
    assert!(text.contains("<script>"));
    assert!(text.contains("alert('x')"));
}

#[test]
fn spans_follow_one_another_without_gaps() {
    let document = parse_markdown("甲 **乙** `丙` [丁](https://x)");
    let (text, spans) = inline_text_and_spans(&document);
    let mut end = 0;
    for span in &spans {
        assert_eq!(span.range.start, end);
        end = span.range.end;
    }
    assert_eq!(end, text.len());
    assert!(highlighted_ranges(&spans).len() < spans.len());
}

#[test]
fn code_keeps_its_lines_and_tells_its_language() {
    let document = parse_markdown("```rust\nlet a = 1;\n\n```\n");
    let code = find_node(&document, |kind| matches!(kind, MarkdownNodeKind::CodeBlock(_))).unwrap();
    let appearance = code_appearance(code);
    assert_eq!(appearance.language.as_deref(), Some("rust"));
    assert_eq!(appearance.code, "let a = 1;");
    assert_eq!(code_block_language("  "), None);
}

#[test]
fn headings_and_lists_are_laid_out_as_such() {
    let document = parse_markdown("## 标题\n\n3. 一\n4. 二\n\n- [x] 完成\n");
    let heading = find_node(&document, |kind| matches!(kind, MarkdownNodeKind::Heading(_))).unwrap();
    assert_eq!(heading.kind, MarkdownNodeKind::Heading(2));
    assert_eq!(block_layout(heading), BlockLayout::Heading(2));
    let list = find_node(&document, |kind| matches!(kind, MarkdownNodeKind::List(_))).unwrap();
    assert_eq!(list.kind, MarkdownNodeKind::List(Some(3)));
    assert_eq!(list_items(list).len(), 2);
    assert_eq!(list_marker(Some(3), 1), "4.");
    assert_eq!(list_marker(None, 1), "•");
    assert!(find_node(&document, |kind| matches!(kind, MarkdownNodeKind::TaskMarker(true))).is_some());
    assert!(collect_plain_text(&document).contains("标题"));
}

#[test]
fn columns_without_an_alignment_stand_left() {
    let alignments = vec![ColumnAlignment::Right, ColumnAlignment::Center, ColumnAlignment::Unset];
    assert_eq!(cell_alignment(&alignments, 0), CellAlignment::Right);
    assert_eq!(cell_alignment(&alignments, 1), CellAlignment::Center);
    assert_eq!(cell_alignment(&alignments, 2), CellAlignment::Left);
    assert_eq!(cell_alignment(&alignments, 9), CellAlignment::Left);
}

#[test]
fn a_table_says_how_its_columns_stand() {
    let document = parse_markdown("| a | b |\n|:-:|--:|\n| 1 | 2 |");
    let table = find_node(&document, |kind| matches!(kind, MarkdownNodeKind::Table(_))).unwrap();
    assert_eq!(
        table.kind,
        MarkdownNodeKind::Table(vec![ColumnAlignment::Center, ColumnAlignment::Right])
    );
}

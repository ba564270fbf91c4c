//! Markdown text as a stream of events.

use pulldown_cmark::{Alignment, CodeBlockKind, Event, Options, Parser, Tag};
use vstd::prelude::*;

verus! {

/// `pulldown_cmark::Event`, carried to where it is converted.
#[verifier::external_type_specification]
#[verifier::external_body]
pub struct ExEvent<'a>(pulldown_cmark::Event<'a>);

/// `pulldown_cmark::Tag`, carried to where it is converted.
#[verifier::external_type_specification]
#[verifier::external_body]
pub struct ExTag<'a>(pulldown_cmark::Tag<'a>);

/// `pulldown_cmark::HeadingLevel`, carried to where it is converted.
#[verifier::external_type_specification]
#[verifier::external_body]
pub struct ExHeadingLevel(pulldown_cmark::HeadingLevel);

/// `pulldown_cmark::Alignment`, carried to where it is converted.
#[verifier::external_type_specification]
#[verifier::external_body]
pub struct ExAlignment(pulldown_cmark::Alignment);

/// How deep a heading is.
#[derive(Clone, Copy, Debug, PartialEq, Eq, Structural)]
pub enum HeadingDepth {
    /// The first level.
    H1,
    /// The second level.
    H2,
    /// The third level.
    H3,
    /// The fourth level.
    H4,
    /// The fifth level.
    H5,
    /// The sixth level.
    H6,
}

/// How the text of a column is set.
#[derive(Clone, Copy, Debug, PartialEq, Eq, Structural)]
pub enum ColumnAlignment {
    /// As nothing says otherwise.
    Unset,
    /// To the left.
    Left,
    /// In the middle.
    Center,
    /// To the right.
    Right,
}

/// What a part of a document is.
#[derive(Debug, PartialEq, Eq)]
pub enum MarkdownTag {
    /// A paragraph.
    Paragraph,
    /// A heading.
    Heading(HeadingDepth),
    /// A quotation.
    BlockQuote,
    /// Code that is set apart by its margin.
    IndentedCode,
    /// Code between fences, with what the first fence says.
    FencedCode(String),
    /// HTML.
    HtmlBlock,
    /// A list, with its first number where it is numbered.
    List(Option<u64>),
    /// An item of a list.
    Item,
    /// A table.
    Table(Vec<ColumnAlignment>),
    /// The head of a table.
    TableHead,
    /// A row of a table.
    TableRow,
    /// A cell of a table.
    TableCell,
    /// Emphasis.
    Emphasis,
    /// Strong emphasis.
    Strong,
    /// Text that is struck out.
    Strikethrough,
    /// A link.
    Link,
    /// An image.
    Image,
    /// A footnote.
    FootnoteDefinition,
    /// A list of definitions.
    DefinitionList,
    /// What is defined.
    DefinitionListTitle,
    /// How it is defined.
    DefinitionListDefinition,
    /// What is said about the document.
    MetadataBlock,
    /// Raised text.
    Superscript,
    /// Lowered text.
    Subscript,
}

/// A [`MarkdownTag`] with its texts as sequences of characters.
#[verifier::ext_equal]
pub enum TagModel {
    /// A paragraph.
    Paragraph,
    /// A heading.
    Heading(HeadingDepth),
    /// A quotation.
    BlockQuote,
    /// Code that is set apart by its margin.
    IndentedCode,
    /// Code between fences.
    FencedCode(Seq<char>),
    /// HTML.
    HtmlBlock,
    /// A list.
    List(Option<u64>),
    /// An item of a list.
    Item,
    /// A table.
    Table(Seq<ColumnAlignment>),
    /// The head of a table.
    TableHead,
    /// A row of a table.
    TableRow,
    /// A cell of a table.
    TableCell,
    /// Emphasis.
    Emphasis,
    /// Strong emphasis.
    Strong,
    /// Text that is struck out.
    Strikethrough,
    /// A link.
    Link,
    /// An image.
    Image,
    /// A footnote.
    FootnoteDefinition,
    /// A list of definitions.
    DefinitionList,
    /// What is defined.
    DefinitionListTitle,
    /// How it is defined.
    DefinitionListDefinition,
    /// What is said about the document.
    MetadataBlock,
    /// Raised text.
    Superscript,
    /// Lowered text.
    Subscript,
}

impl View for MarkdownTag {
    type V = TagModel;

    open spec fn view(&self) -> TagModel {
        match self {
            MarkdownTag::Paragraph => TagModel::Paragraph,
            MarkdownTag::Heading(level) => TagModel::Heading(*level),
            MarkdownTag::BlockQuote => TagModel::BlockQuote,
            MarkdownTag::IndentedCode => TagModel::IndentedCode,
            MarkdownTag::FencedCode(language) => TagModel::FencedCode(language@),
            MarkdownTag::HtmlBlock => TagModel::HtmlBlock,
            MarkdownTag::List(start) => TagModel::List(*start),
            MarkdownTag::Item => TagModel::Item,
            MarkdownTag::Table(alignments) => TagModel::Table(alignments@),
            MarkdownTag::TableHead => TagModel::TableHead,
            MarkdownTag::TableRow => TagModel::TableRow,
            MarkdownTag::TableCell => TagModel::TableCell,
            MarkdownTag::Emphasis => TagModel::Emphasis,
            MarkdownTag::Strong => TagModel::Strong,
            MarkdownTag::Strikethrough => TagModel::Strikethrough,
            MarkdownTag::Link => TagModel::Link,
            MarkdownTag::Image => TagModel::Image,
            MarkdownTag::FootnoteDefinition => TagModel::FootnoteDefinition,
            MarkdownTag::DefinitionList => TagModel::DefinitionList,
            MarkdownTag::DefinitionListTitle => TagModel::DefinitionListTitle,
            MarkdownTag::DefinitionListDefinition => TagModel::DefinitionListDefinition,
            MarkdownTag::MetadataBlock => TagModel::MetadataBlock,
            MarkdownTag::Superscript => TagModel::Superscript,
            MarkdownTag::Subscript => TagModel::Subscript,
        }
    }
}

/// One step through a document.
#[derive(Debug, PartialEq, Eq)]
pub enum MarkdownEvent {
    /// A part begins.
    Start(MarkdownTag),
    /// The part that began last ends.
    End,
    /// Text.
    Text(String),
    /// Code in a line.
    Code(String),
    /// A formula in a line.
    InlineMath(String),
    /// A formula of its own.
    DisplayMath(String),
    /// HTML.
    Html(String),
    /// HTML in a line.
    InlineHtml(String),
    /// The mark of a footnote.
    FootnoteReference(String),
    /// A line break in the source.
    SoftBreak,
    /// A line break.
    HardBreak,
    /// A line across.
    Rule,
    /// A box, ticked or not.
    TaskListMarker(bool),
}

/// A [`MarkdownEvent`] with its texts as sequences of characters.
#[verifier::ext_equal]
pub enum MarkdownEventModel {
    /// A part begins.
    Start(TagModel),
    /// The part that began last ends.
    End,
    /// Text.
    Text(Seq<char>),
    /// Code in a line.
    Code(Seq<char>),
    /// A formula in a line.
    InlineMath(Seq<char>),
    /// A formula of its own.
    DisplayMath(Seq<char>),
    /// HTML.
    Html(Seq<char>),
    /// HTML in a line.
    InlineHtml(Seq<char>),
    /// The mark of a footnote.
    FootnoteReference(Seq<char>),
    /// A line break in the source.
    SoftBreak,
    /// A line break.
    HardBreak,
    /// A line across.
    Rule,
    /// A box, ticked or not.
    TaskListMarker(bool),
}

impl View for MarkdownEvent {
    type V = MarkdownEventModel;

    open spec fn view(&self) -> MarkdownEventModel {
        match self {
            MarkdownEvent::Start(tag) => MarkdownEventModel::Start(tag@),
            MarkdownEvent::End => MarkdownEventModel::End,
            MarkdownEvent::Text(text) => MarkdownEventModel::Text(text@),
            MarkdownEvent::Code(text) => MarkdownEventModel::Code(text@),
            MarkdownEvent::InlineMath(text) => MarkdownEventModel::InlineMath(text@),
            MarkdownEvent::DisplayMath(text) => MarkdownEventModel::DisplayMath(text@),
            MarkdownEvent::Html(text) => MarkdownEventModel::Html(text@),
            MarkdownEvent::InlineHtml(text) => MarkdownEventModel::InlineHtml(text@),
            MarkdownEvent::FootnoteReference(text) => MarkdownEventModel::FootnoteReference(text@),
            MarkdownEvent::SoftBreak => MarkdownEventModel::SoftBreak,
            MarkdownEvent::HardBreak => MarkdownEventModel::HardBreak,
            MarkdownEvent::Rule => MarkdownEventModel::Rule,
            MarkdownEvent::TaskListMarker(checked) => MarkdownEventModel::TaskListMarker(*checked),
        }
    }
}

/// The models of some events.
pub open spec fn event_models(events: Seq<MarkdownEvent>) -> Seq<MarkdownEventModel> {
    events.map_values(|event: MarkdownEvent| event@)
}

/// What is read beyond plain CommonMark.
#[derive(Clone, Copy, Debug, PartialEq, Eq, Structural)]
pub struct MarkdownExtensions {
    /// Tables.
    pub tables: bool,
    /// Text that is struck out.
    pub strikethrough: bool,
    /// Boxes in lists.
    pub task_lists: bool,
}

// ---------------------------------------------------------------------------
// Reading a text
// ---------------------------------------------------------------------------

/// The events of a text, with the extensions that are read.
pub uninterp spec fn parsed_events(
    text: Seq<char>,
    tables: bool,
    strikethrough: bool,
    task_lists: bool,
) -> Seq<MarkdownEventModel>;

/// One `pulldown_cmark::Alignment` in terms of this library. Nothing is stated of
/// it: it is a part of [`read_events`].
#[verifier::external_body]
fn alignment_of(alignment: pulldown_cmark::Alignment) -> (result: ColumnAlignment) {
    match alignment {
        Alignment::None => ColumnAlignment::Unset,
        Alignment::Left => ColumnAlignment::Left,
        Alignment::Center => ColumnAlignment::Center,
        Alignment::Right => ColumnAlignment::Right,
    }
}

/// One `pulldown_cmark::HeadingLevel` in terms of this library. Nothing is stated
/// of it: it is a part of [`read_events`].
#[verifier::external_body]
fn level_of(level: pulldown_cmark::HeadingLevel) -> (result: HeadingDepth) {
    match level {
        pulldown_cmark::HeadingLevel::H1 => HeadingDepth::H1,
        pulldown_cmark::HeadingLevel::H2 => HeadingDepth::H2,
        pulldown_cmark::HeadingLevel::H3 => HeadingDepth::H3,
        pulldown_cmark::HeadingLevel::H4 => HeadingDepth::H4,
        pulldown_cmark::HeadingLevel::H5 => HeadingDepth::H5,
        pulldown_cmark::HeadingLevel::H6 => HeadingDepth::H6,
    }
}

/// One `pulldown_cmark::Tag` of a line or of a rarer block in terms of this
/// library. Nothing is stated of it: it is a part of [`read_events`].
#[verifier::external_body]
fn other_tag_of<'a>(tag: pulldown_cmark::Tag<'a>) -> (result: MarkdownTag) {
    match tag {
        Tag::Emphasis => MarkdownTag::Emphasis,
        Tag::Strong => MarkdownTag::Strong,
        Tag::Strikethrough => MarkdownTag::Strikethrough,
        Tag::Link { .. } => MarkdownTag::Link,
        Tag::Image { .. } => MarkdownTag::Image,
        Tag::FootnoteDefinition(_) => MarkdownTag::FootnoteDefinition,
        Tag::DefinitionList => MarkdownTag::DefinitionList,
        Tag::DefinitionListTitle => MarkdownTag::DefinitionListTitle,
        Tag::DefinitionListDefinition => MarkdownTag::DefinitionListDefinition,
        Tag::Superscript => MarkdownTag::Superscript,
        Tag::Subscript => MarkdownTag::Subscript,
        _ => MarkdownTag::MetadataBlock,
    }
}

/// One `pulldown_cmark::Tag` in terms of this library. Nothing is stated of it: it
/// is a part of [`read_events`].
#[verifier::external_body]
fn tag_of<'a>(tag: pulldown_cmark::Tag<'a>) -> (result: MarkdownTag) {
    match tag {
        Tag::Paragraph => MarkdownTag::Paragraph,
        Tag::Heading { level, .. } => MarkdownTag::Heading(level_of(level)),
        Tag::BlockQuote(_) => MarkdownTag::BlockQuote,
        Tag::CodeBlock(CodeBlockKind::Indented) => MarkdownTag::IndentedCode,
        Tag::CodeBlock(CodeBlockKind::Fenced(s)) => MarkdownTag::FencedCode(s.into_string()),
        Tag::HtmlBlock => MarkdownTag::HtmlBlock,
        Tag::List(start) => MarkdownTag::List(start),
        Tag::Item => MarkdownTag::Item,
        Tag::Table(a) => MarkdownTag::Table(a.into_iter().map(alignment_of).collect()),
        Tag::TableHead => MarkdownTag::TableHead,
        Tag::TableRow => MarkdownTag::TableRow,
        Tag::TableCell => MarkdownTag::TableCell,
        other => other_tag_of(other),
    }
}

/// One `pulldown_cmark::Event` in terms of this library. Nothing is stated of it:
/// it is a part of [`read_events`].
#[verifier::external_body]
fn event_of<'a>(event: pulldown_cmark::Event<'a>) -> (result: MarkdownEvent) {
    match event {
        Event::Start(tag) => MarkdownEvent::Start(tag_of(tag)),
        Event::End(_) => MarkdownEvent::End,
        Event::Text(text) => MarkdownEvent::Text(text.into_string()),
        Event::Code(text) => MarkdownEvent::Code(text.into_string()),
        Event::InlineMath(text) => MarkdownEvent::InlineMath(text.into_string()),
        Event::DisplayMath(text) => MarkdownEvent::DisplayMath(text.into_string()),
        Event::Html(text) => MarkdownEvent::Html(text.into_string()),
        Event::InlineHtml(text) => MarkdownEvent::InlineHtml(text.into_string()),
        Event::FootnoteReference(n) => MarkdownEvent::FootnoteReference(n.into_string()),
        Event::SoftBreak => MarkdownEvent::SoftBreak,
        Event::HardBreak => MarkdownEvent::HardBreak,
        Event::Rule => MarkdownEvent::Rule,
        Event::TaskListMarker(checked) => MarkdownEvent::TaskListMarker(checked),
    }
}

/// `pulldown_cmark::Parser::new_ext` walks through a text, with the extensions
/// that are asked for. What it yields, converted one for one, depends on the text
/// and the extensions alone.
#[verifier::external_body]
pub(crate) fn read_events(text: &str, extensions: MarkdownExtensions) -> (result: Vec<
    MarkdownEvent,
>)
    ensures
        event_models(result@) == parsed_events(
            text@,
            extensions.tables,
            extensions.strikethrough,
            extensions.task_lists,
        ),
{
    let mut options = Options::empty();
    options.set(Options::ENABLE_TABLES, extensions.tables);
    options.set(Options::ENABLE_STRIKETHROUGH, extensions.strikethrough);
    options.set(Options::ENABLE_TASKLISTS, extensions.task_lists);
    Parser::new_ext(text, options).map(event_of).collect()
}

} // verus!

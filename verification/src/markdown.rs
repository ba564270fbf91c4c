//! Markdown text as a tree of what is shown: blocks, lists, tables and lines of
//! text whose parts are set in different styles. HTML is only ever text.

use vstd::prelude::*;
use crate::markdown_events::{
    event_models, parsed_events, read_events, ColumnAlignment, HeadingDepth, MarkdownEvent,
    MarkdownEventModel, MarkdownExtensions, MarkdownTag, TagModel,
};
use crate::keystroke::optional_text;
use crate::text::{trim, trimmed};

verus! {

/// What a node stands for.
#[derive(Debug, PartialEq, Eq)]
pub enum MarkdownNodeKind {
    /// The whole text.
    Document,
    /// A paragraph.
    Paragraph,
    /// A heading, with its level from one to six.
    Heading(u8),
    /// A quotation.
    BlockQuote,
    /// Code, with its language where one is given.
    CodeBlock(Option<String>),
    /// A list, with its first number where it is numbered.
    List(Option<u64>),
    /// An item of a list.
    ListItem,
    /// A table.
    Table(Vec<ColumnAlignment>),
    /// The head of a table.
    TableHead,
    /// A row of a table.
    TableRow,
    /// A cell of a table.
    TableCell,
    /// Emphasis.
    Emphasis,
    /// Strong emphasis.
    Strong,
    /// Text that is struck out.
    Strikethrough,
    /// A link.
    Link,
    /// An image.
    Image,
    /// Any other block.
    GenericBlock,
    /// Any other part of a line.
    GenericInline,
    /// Text.
    Text(String),
    /// Code in a line.
    Code(String),
    /// A line break in the source.
    SoftBreak,
    /// A line break.
    HardBreak,
    /// A line across.
    Rule,
    /// A box, ticked or not.
    TaskMarker(bool),
}

/// A [`MarkdownNodeKind`] with its texts as sequences of characters.
#[verifier::ext_equal]
pub enum KindModel {
    /// The whole text.
    Document,
    /// A paragraph.
    Paragraph,
    /// A heading.
    Heading(u8),
    /// A quotation.
    BlockQuote,
    /// Code.
    CodeBlock(Option<Seq<char>>),
    /// A list.
    List(Option<u64>),
    /// An item of a list.
    ListItem,
    /// A table.
    Table(Seq<ColumnAlignment>),
    /// The head of a table.
    TableHead,
    /// A row of a table.
    TableRow,
    /// A cell of a table.
    TableCell,
    /// Emphasis.
    Emphasis,
    /// Strong emphasis.
    Strong,
    /// Text that is struck out.
    Strikethrough,
    /// A link.
    Link,
    /// An image.
    Image,
    /// Any other block.
    GenericBlock,
    /// Any other part of a line.
    GenericInline,
    /// Text.
    Text(Seq<char>),
    /// Code in a line.
    Code(Seq<char>),
    /// A line break in the source.
    SoftBreak,
    /// A line break.
    HardBreak,
    /// A line across.
    Rule,
    /// A box, ticked or not.
    TaskMarker(bool),
}

impl View for MarkdownNodeKind {
    type V = KindModel;

    open spec fn view(&self) -> KindModel {
        match self {
            MarkdownNodeKind::Document => KindModel::Document,
            MarkdownNodeKind::Paragraph => KindModel::Paragraph,
            MarkdownNodeKind::Heading(level) => KindModel::Heading(*level),
            MarkdownNodeKind::BlockQuote => KindModel::BlockQuote,
            MarkdownNodeKind::CodeBlock(language) => KindModel::CodeBlock(
                optional_text(*language),
            ),
            MarkdownNodeKind::List(start) => KindModel::List(*start),
            MarkdownNodeKind::ListItem => KindModel::ListItem,
            MarkdownNodeKind::Table(alignments) => KindModel::Table(alignments@),
            MarkdownNodeKind::TableHead => KindModel::TableHead,
            MarkdownNodeKind::TableRow => KindModel::TableRow,
            MarkdownNodeKind::TableCell => KindModel::TableCell,
            MarkdownNodeKind::Emphasis => KindModel::Emphasis,
            MarkdownNodeKind::Strong => KindModel::Strong,
            MarkdownNodeKind::Strikethrough => KindModel::Strikethrough,
            MarkdownNodeKind::Link => KindModel::Link,
            MarkdownNodeKind::Image => KindModel::Image,
            MarkdownNodeKind::GenericBlock => KindModel::GenericBlock,
            MarkdownNodeKind::GenericInline => KindModel::GenericInline,
            MarkdownNodeKind::Text(text) => KindModel::Text(text@),
            MarkdownNodeKind::Code(text) => KindModel::Code(text@),
            MarkdownNodeKind::SoftBreak => KindModel::SoftBreak,
            MarkdownNodeKind::HardBreak => KindModel::HardBreak,
            MarkdownNodeKind::Rule => KindModel::Rule,
            MarkdownNodeKind::TaskMarker(checked) => KindModel::TaskMarker(*checked),
        }
    }
}

/// A node of the tree.
#[derive(Debug, PartialEq, Eq)]
pub struct MarkdownNode {
    /// What it stands for.
    pub kind: MarkdownNodeKind,
    /// What it holds.
    pub children: Vec<MarkdownNode>,
}

/// A [`MarkdownNode`] with its texts as sequences of characters.
#[verifier::ext_equal]
pub struct NodeModel {
    /// What it stands for.
    pub kind: KindModel,
    /// What it holds.
    pub children: Seq<NodeModel>,
}

/// The model of a node.
pub open spec fn node_model(node: MarkdownNode) -> NodeModel
    decreases node,
{
    NodeModel { kind: node.kind@, children: node_models(node.children@) }
}

/// The models of some nodes.
pub open spec fn node_models(nodes: Seq<MarkdownNode>) -> Seq<NodeModel>
    decreases nodes,
{
    if nodes.len() == 0 {
        Seq::empty()
    } else {
        node_models(nodes.drop_last()).push(node_model(nodes[nodes.len() - 1]))
    }
}

impl View for MarkdownNode {
    type V = NodeModel;

    open spec fn view(&self) -> NodeModel {
        node_model(*self)
    }
}

/// The model of a list of nodes holds the model of each, in their order.
pub proof fn lemma_node_models(nodes: Seq<MarkdownNode>)
    ensures
        node_models(nodes).len() == nodes.len(),
        forall|i: int| 0 <= i < nodes.len() ==> (#[trigger] node_models(nodes)[i]) == nodes[i]@,
    decreases nodes.len(),
{
    if nodes.len() > 0 {
        let shorter = nodes.drop_last();
        lemma_node_models(shorter);
        assert forall|i: int| 0 <= i < nodes.len() implies (#[trigger] node_models(nodes)[i])
            == nodes[i]@ by {
            if i < shorter.len() {
                assert(node_models(nodes)[i] == node_models(shorter)[i]);
                assert(shorter[i] == nodes[i]);
            }
        }
    }
}

proof fn lemma_node_models_push(nodes: Seq<MarkdownNode>, node: MarkdownNode)
    ensures
        node_models(nodes.push(node)) == node_models(nodes).push(node@),
{
    assert(nodes.push(node).drop_last() =~= nodes);
}

/// A node without children.
pub open spec fn leaf(kind: KindModel) -> NodeModel {
    NodeModel { kind, children: Seq::empty() }
}

impl MarkdownNode {
    /// A node without children.
    pub fn new(kind: MarkdownNodeKind) -> (result: MarkdownNode)
        ensures
            result@ == leaf(kind@),
    {
        MarkdownNode { kind, children: Vec::new() }
    }

    /// Puts a child behind the others.
    fn push_child(&mut self, child: MarkdownNode)
        ensures
            final(self)@ == (NodeModel {
                children: old(self)@.children.push(child@),
                ..old(self)@
            }),
    {
        proof {
            lemma_node_models_push(self.children@, child);
        }
        self.children.push(child);
    }
}

// ---------------------------------------------------------------------------
// From events to the tree
// ---------------------------------------------------------------------------

/// The number of a heading's level.
pub open spec fn level_number(level: HeadingDepth) -> u8 {
    match level {
        HeadingDepth::H1 => 1,
        HeadingDepth::H2 => 2,
        HeadingDepth::H3 => 3,
        HeadingDepth::H4 => 4,
        HeadingDepth::H5 => 5,
        HeadingDepth::H6 => 6,
    }
}

/// Numbers a heading's level.
pub fn heading_level_number(level: HeadingDepth) -> (result: u8)
    ensures
        result == level_number(level),
{
    match level {
        HeadingDepth::H1 => 1,
        HeadingDepth::H2 => 2,
        HeadingDepth::H3 => 3,
        HeadingDepth::H4 => 4,
        HeadingDepth::H5 => 5,
        HeadingDepth::H6 => 6,
    }
}

/// The language that a fence gives: its text without outer white space, where
/// anything is left.
pub open spec fn fence_language(fence: Seq<char>) -> Option<Seq<char>> {
    if trimmed(fence).len() == 0 {
        None
    } else {
        Some(trimmed(fence))
    }
}

/// Reads the language that a fence gives.
pub fn code_block_language(fence: &str) -> (result: Option<String>)
    ensures
        optional_text(result) == fence_language(fence@),
{
    let language = trim(fence);
    if language.as_str().is_empty() {
        None
    } else {
        Some(language)
    }
}

/// What a part of a document becomes.
pub open spec fn kind_of_tag(tag: TagModel) -> KindModel {
    match tag {
        TagModel::Paragraph => KindModel::Paragraph,
        TagModel::Heading(level) => KindModel::Heading(level_number(level)),
        TagModel::BlockQuote => KindModel::BlockQuote,
        TagModel::IndentedCode => KindModel::CodeBlock(None),
        TagModel::FencedCode(fence) => KindModel::CodeBlock(fence_language(fence)),
        TagModel::HtmlBlock => KindModel::GenericBlock,
        TagModel::List(start) => KindModel::List(start),
        TagModel::Item => KindModel::ListItem,
        TagModel::Table(alignments) => KindModel::Table(alignments),
        TagModel::TableHead => KindModel::TableHead,
        TagModel::TableRow => KindModel::TableRow,
        TagModel::TableCell => KindModel::TableCell,
        TagModel::Emphasis => KindModel::Emphasis,
        TagModel::Strong => KindModel::Strong,
        TagModel::Strikethrough => KindModel::Strikethrough,
        TagModel::Link => KindModel::Link,
        TagModel::Image => KindModel::Image,
        TagModel::FootnoteDefinition
        | TagModel::DefinitionList
        | TagModel::DefinitionListTitle
        | TagModel::DefinitionListDefinition
        | TagModel::MetadataBlock => KindModel::GenericBlock,
        TagModel::Superscript | TagModel::Subscript => KindModel::GenericInline,
    }
}

/// Says what a part of a document becomes.
pub fn node_kind_from_tag(tag: MarkdownTag) -> (result: MarkdownNodeKind)
    ensures
        result@ == kind_of_tag(tag@),
{
    match tag {
        MarkdownTag::Paragraph => MarkdownNodeKind::Paragraph,
        MarkdownTag::Heading(level) => MarkdownNodeKind::Heading(heading_level_number(level)),
        MarkdownTag::BlockQuote => MarkdownNodeKind::BlockQuote,
        MarkdownTag::IndentedCode => MarkdownNodeKind::CodeBlock(None),
        MarkdownTag::FencedCode(fence) => MarkdownNodeKind::CodeBlock(
            code_block_language(fence.as_str()),
        ),
        MarkdownTag::HtmlBlock => MarkdownNodeKind::GenericBlock,
        MarkdownTag::List(start) => MarkdownNodeKind::List(start),
        MarkdownTag::Item => MarkdownNodeKind::ListItem,
        MarkdownTag::Table(alignments) => MarkdownNodeKind::Table(alignments),
        MarkdownTag::TableHead => MarkdownNodeKind::TableHead,
        MarkdownTag::TableRow => MarkdownNodeKind::TableRow,
        MarkdownTag::TableCell => MarkdownNodeKind::TableCell,
        MarkdownTag::Emphasis => MarkdownNodeKind::Emphasis,
        MarkdownTag::Strong => MarkdownNodeKind::Strong,
        MarkdownTag::Strikethrough => MarkdownNodeKind::Strikethrough,
        MarkdownTag::Link => MarkdownNodeKind::Link,
        MarkdownTag::Image => MarkdownNodeKind::Image,
        MarkdownTag::FootnoteDefinition
        | MarkdownTag::DefinitionList
        | MarkdownTag::DefinitionListTitle
        | MarkdownTag::DefinitionListDefinition
        | MarkdownTag::MetadataBlock => MarkdownNodeKind::GenericBlock,
        MarkdownTag::Superscript | MarkdownTag::Subscript => MarkdownNodeKind::GenericInline,
    }
}

/// The leaf that an event becomes; none where it begins or ends a part.
pub open spec fn leaf_of_event(event: MarkdownEventModel) -> Option<KindModel> {
    match event {
        MarkdownEventModel::Start(_) => None,
        MarkdownEventModel::End => None,
        MarkdownEventModel::Text(text) => Some(KindModel::Text(text)),
        MarkdownEventModel::Code(text)
        | MarkdownEventModel::InlineMath(text)
        | MarkdownEventModel::DisplayMath(text) => Some(KindModel::Code(text)),
        MarkdownEventModel::Html(text)
        | MarkdownEventModel::InlineHtml(text) => Some(KindModel::Text(text)),
        MarkdownEventModel::FootnoteReference(label) => Some(
            KindModel::Text(seq!['['] + label + seq![']']),
        ),
        MarkdownEventModel::SoftBreak => Some(KindModel::SoftBreak),
        MarkdownEventModel::HardBreak => Some(KindModel::HardBreak),
        MarkdownEventModel::Rule => Some(KindModel::Rule),
        MarkdownEventModel::TaskListMarker(checked) => Some(KindModel::TaskMarker(checked)),
    }
}

/// The open nodes after the innermost got one more child.
pub open spec fn with_child(stack: Seq<NodeModel>, child: NodeModel) -> Seq<NodeModel> {
    let last = stack.last();
    stack.update(stack.len() - 1, NodeModel { children: last.children.push(child), ..last })
}

/// The open nodes after the innermost was closed. The document stays open.
pub open spec fn closed_once(stack: Seq<NodeModel>) -> Seq<NodeModel> {
    if stack.len() > 1 {
        with_child(stack.drop_last(), stack.last())
    } else {
        stack
    }
}

/// The open nodes after an event, outermost first.
pub open spec fn stack_after(stack: Seq<NodeModel>, event: MarkdownEventModel) -> Seq<NodeModel> {
    match event {
        MarkdownEventModel::Start(tag) => stack.push(leaf(kind_of_tag(tag))),
        MarkdownEventModel::End => closed_once(stack),
        _ => with_child(stack, leaf(leaf_of_event(event)->0)),
    }
}

/// The open nodes after some events, outermost first.
pub open spec fn open_nodes(events: Seq<MarkdownEventModel>) -> Seq<NodeModel>
    decreases events.len(),
{
    if events.len() == 0 {
        seq![leaf(KindModel::Document)]
    } else {
        stack_after(open_nodes(events.drop_last()), events.last())
    }
}

/// The document once every open node is closed.
pub open spec fn closed_document(stack: Seq<NodeModel>) -> NodeModel
    decreases stack.len(),
{
    if stack.len() <= 1 {
        stack[0]
    } else {
        closed_document(closed_once(stack))
    }
}

/// The document that some events describe.
pub open spec fn document_of(events: Seq<MarkdownEventModel>) -> NodeModel {
    closed_document(open_nodes(events))
}

/// The document of a text.
pub open spec fn document(text: Seq<char>) -> NodeModel {
    document_of(parsed_events(text, true, true, true))
}

/// The document itself is always open.
pub proof fn lemma_open_nodes(events: Seq<MarkdownEventModel>)
    ensures
        open_nodes(events).len() > 0,
    decreases events.len(),
{
    if events.len() > 0 {
        lemma_open_nodes(events.drop_last());
    }
}

/// Puts a node into the innermost open one.
fn push_into_last(stack: &mut Vec<MarkdownNode>, child: MarkdownNode)
    requires
        old(stack)@.len() > 0,
    ensures
        final(stack)@.len() == old(stack)@.len(),
        node_models(final(stack)@) == with_child(node_models(old(stack)@), child@),
{
    let last: usize = stack.len() - 1;
    proof {
        lemma_node_models(stack@);
    }
    stack[last].push_child(child);
    proof {
        lemma_node_models(stack@);
        assert(node_models(stack@) =~= with_child(node_models(old(stack)@), child@));
    }
}

/// Closes the innermost open node, but never the document.
fn close_last(stack: &mut Vec<MarkdownNode>)
    requires
        old(stack)@.len() > 0,
    ensures
        final(stack)@.len() > 0,
        final(stack)@.len() == (if old(stack)@.len() > 1 {
            old(stack)@.len() - 1
        } else {
            old(stack)@.len() as int
        }),
        node_models(final(stack)@) == closed_once(node_models(old(stack)@)),
{
    proof {
        lemma_node_models(stack@);
    }
    if stack.len() > 1 {
        match stack.pop() {
            Some(node) => {
                proof {
                    assert(stack@ =~= old(stack)@.drop_last());
                    assert(node_models(old(stack)@).drop_last() =~= node_models(stack@)) by {
                        lemma_node_models(stack@);
                    }
                    assert(node_models(old(stack)@).last() == node@);
                }
                push_into_last(stack, node);
            },
            None => {},
        }
    }
}

/// Takes an event in.
fn apply_markdown_event(stack: &mut Vec<MarkdownNode>, event: MarkdownEvent)
    requires
        old(stack)@.len() > 0,
    ensures
        final(stack)@.len() > 0,
        node_models(final(stack)@) == stack_after(node_models(old(stack)@), event@),
{
    let kind = match event {
        MarkdownEvent::Start(tag) => {
            let node = MarkdownNode::new(node_kind_from_tag(tag));
            proof {
                lemma_node_models_push(stack@, node);
            }
            stack.push(node);
            return;
        },
        MarkdownEvent::End => {
            close_last(stack);
            return;
        },
        MarkdownEvent::Text(text) => MarkdownNodeKind::Text(text),
        MarkdownEvent::Code(text) => MarkdownNodeKind::Code(text),
        MarkdownEvent::InlineMath(text) => MarkdownNodeKind::Code(text),
        MarkdownEvent::DisplayMath(text) => MarkdownNodeKind::Code(text),
        MarkdownEvent::Html(text) => MarkdownNodeKind::Text(text),
        MarkdownEvent::InlineHtml(text) => MarkdownNodeKind::Text(text),
        MarkdownEvent::FootnoteReference(label) => {
            let mut text = String::new();
            text.push('[');
            text.push_str(label.as_str());
            text.push(']');
            proof {
                assert(text@ =~= seq!['['] + label@ + seq![']']);
            }
            MarkdownNodeKind::Text(text)
        },
        MarkdownEvent::SoftBreak => MarkdownNodeKind::SoftBreak,
        MarkdownEvent::HardBreak => MarkdownNodeKind::HardBreak,
        MarkdownEvent::Rule => MarkdownNodeKind::Rule,
        MarkdownEvent::TaskListMarker(checked) => MarkdownNodeKind::TaskMarker(checked),
    };
    push_into_last(stack, MarkdownNode::new(kind));
}

/// Builds the document that some events describe.
pub fn build_document(events: Vec<MarkdownEvent>) -> (result: MarkdownNode)
    ensures
        result@ == document_of(event_models(events@)),
{
    let ghost models = event_models(events@);
    let mut stack: Vec<MarkdownNode> = Vec::new();
    let root = MarkdownNode::new(MarkdownNodeKind::Document);
    proof {
        lemma_node_models_push(stack@, root);
        assert(node_models(stack@.push(root)) =~= seq![leaf(KindModel::Document)]);
        assert(models.take(0) =~= Seq::empty());
    }
    stack.push(root);
    for event in iter: events
        invariant
            stack@.len() > 0,
            iter.seq() == events@,
            models == event_models(events@),
            node_models(stack@) == open_nodes(models.take(iter.index())),
    {
        proof {
            let done = iter.index();
            assert(models.take(done + 1).drop_last() =~= models.take(done));
            assert(models.take(done + 1).last() == event@);
        }
        apply_markdown_event(&mut stack, event);
    }
    proof {
        assert(models.take(models.len() as int) =~= models);
    }
    while stack.len() > 1
        invariant
            stack@.len() > 0,
            closed_document(node_models(stack@)) == document_of(models),
        decreases stack@.len(),
    {
        proof {
            lemma_node_models(stack@);
        }
        close_last(&mut stack);
    }
    proof {
        lemma_node_models(stack@);
    }
    let document = stack.remove(0);
    document
}

/// Reads a text as CommonMark with tables, struck out text and boxes in lists.
pub fn parse_markdown(markdown: &str) -> (result: MarkdownNode)
    ensures
        result@ == document(markdown@),
{
    let extensions = MarkdownExtensions { tables: true, strikethrough: true, task_lists: true };
    build_document(read_events(markdown, extensions))
}

} // verus!

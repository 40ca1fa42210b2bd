//! The node types of a document, after the Markdown schema of the editor.
use vstd::prelude::*;

verus! {

/// The type of the top node
#[derive(Debug, Copy, Clone, PartialEq, Eq, Structural)]
pub enum NodeType {
    /// The document
    Doc,
}

impl NodeType {
    /// The name of this node type
    pub fn name(&self) -> (r: &'static str)
        ensures
            r@ == "doc"@,
    {
        match self {
            NodeType::Doc => "doc",
        }
    }
}

/// Attributes of a heading
#[derive(Debug, Clone)]
pub struct HeadingAttrs {
    /// The heading level
    pub level: u8,
}

/// Attributes of a code block
#[derive(Debug, Clone)]
pub struct CodeBlockAttrs {
    /// The info string of the block
    pub params: String,
}

/// Attributes of a bullet list
#[derive(Debug, Clone)]
pub struct BulletListAttrs {
    /// Whether the list is tight
    pub tight: bool,
}

/// Attributes of an ordered list
#[derive(Debug, Clone)]
pub struct OrderedListAttrs {
    /// The number of the first item
    pub order: usize,
    /// Whether the list is tight
    pub tight: bool,
}

/// Attributes of an image; a missing `alt` or `title` is empty
#[derive(Debug, Clone, PartialEq, Eq)]
pub struct ImageAttrs {
    /// The image source
    pub src: String,
    /// The alternative text
    pub alt: String,
    /// The title
    pub title: String,
}

/// A node of a document
#[derive(Debug)]
#[allow(inconsistent_fields)]
pub enum Node {
    /// The document
    Doc {
        /// The blocks
        content: Vec<Node>,
    },
    /// A heading
    Heading {
        /// Its attributes
        attrs: HeadingAttrs,
        /// Its inline content
        content: Vec<Node>,
    },
    /// A code block
    CodeBlock {
        /// Its attributes
        attrs: CodeBlockAttrs,
        /// Its text
        content: Vec<Node>,
    },
    /// Text
    Text {
        /// The characters
        text: String,
    },
    /// A block quote
    Blockquote {
        /// The blocks
        content: Vec<Node>,
    },
    /// A paragraph
    Paragraph {
        /// Its inline content
        content: Vec<Node>,
    },
    /// A bullet list
    BulletList {
        /// The items
        content: Vec<Node>,
        /// Its attributes
        attrs: BulletListAttrs,
    },
    /// An ordered list
    OrderedList {
        /// The items
        content: Vec<Node>,
        /// Its attributes
        attrs: OrderedListAttrs,
    },
    /// A list item
    ListItem {
        /// The blocks
        content: Vec<Node>,
    },
    /// A horizontal rule
    HorizontalRule,
    /// A hard line break
    HardBreak,
    /// An image
    Image {
        /// Its attributes
        attrs: ImageAttrs,
    },
}

} // verus!

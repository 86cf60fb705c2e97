//! The plain picture of an XML event stream that the matching rules read:
//! one kind for each kind of event, with the local names, the attributes
//! and the text that the rules look at.

use vstd::prelude::*;

verus! {

/// An attribute as the rules see it: local name and value.
pub struct AttributeView {
    pub name: Seq<char>,
    pub value: Seq<char>,
}

/// One event of a document as the rules see it.
pub enum ItemView {
    /// The start of an element, with its local name and attributes.
    StartElement { name: Seq<char>, attributes: Seq<AttributeView> },
    /// The end of an element, with its local name.
    EndElement { name: Seq<char> },
    /// Character data that is not only white space.
    Characters(Seq<char>),
    /// Character data that is only white space.
    Whitespace(Seq<char>),
    /// A CDATA section, with its text.
    CData(Seq<char>),
    /// A comment, with its text.
    Comment(Seq<char>),
    /// A processing instruction.
    ProcessingInstruction,
    /// The start of the document: its declaration, or the place where one
    /// would stand.
    StartDocument,
    /// The end of the document.
    EndDocument,
}

/// An attribute of an element start.
#[derive(Debug)]
pub struct XmlAttribute {
    /// The attribute's name without any namespace prefix.
    pub name: String,
    /// The attribute's value.
    pub value: String,
}

impl DeepView for XmlAttribute {
    type V = AttributeView;

    open spec fn deep_view(&self) -> AttributeView {
        AttributeView { name: self.name@, value: self.value@ }
    }
}

/// One event of a document, holding what the rules need of it.
#[derive(Debug)]
pub enum XmlItem {
    /// The start of an element: its name without any namespace prefix, and
    /// its attributes.
    StartElement { name: String, attributes: Vec<XmlAttribute> },
    /// The end of an element: its name without any namespace prefix.
    EndElement { name: String },
    /// Character data that is not only white space.
    Characters(String),
    /// Character data that is only white space.
    Whitespace(String),
    /// A CDATA section, with its text.
    CData(String),
    /// A comment, with its text.
    Comment(String),
    /// A processing instruction.
    ProcessingInstruction,
    /// The start of the document: its declaration, or the place where one
    /// would stand.
    StartDocument,
    /// The end of the document.
    EndDocument,
}

impl DeepView for XmlItem {
    type V = ItemView;

    open spec fn deep_view(&self) -> ItemView {
        match self {
            XmlItem::StartElement { name, attributes } => ItemView::StartElement {
                name: name@,
                attributes: attributes.deep_view(),
            },
            XmlItem::EndElement { name } => ItemView::EndElement { name: name@ },
            XmlItem::Characters(text) => ItemView::Characters(text@),
            XmlItem::Whitespace(text) => ItemView::Whitespace(text@),
            XmlItem::CData(text) => ItemView::CData(text@),
            XmlItem::Comment(text) => ItemView::Comment(text@),
            XmlItem::ProcessingInstruction => ItemView::ProcessingInstruction,
            XmlItem::StartDocument => ItemView::StartDocument,
            XmlItem::EndDocument => ItemView::EndDocument,
        }
    }
}

impl XmlAttribute {
    /// An attribute with the given name and value.
    pub fn new(name: &str, value: &str) -> (attribute: XmlAttribute)
        ensures
            attribute.deep_view() == (AttributeView { name: name@, value: value@ }),
    {
        XmlAttribute { name: name.to_owned(), value: value.to_owned() }
    }
}

impl XmlItem {
    /// The start of an element without attributes.
    pub fn start(name: &str) -> (item: XmlItem)
        ensures
            item.deep_view() == (ItemView::StartElement {
                name: name@,
                attributes: Seq::<AttributeView>::empty(),
            }),
    {
        let item = XmlItem::StartElement { name: name.to_owned(), attributes: Vec::new() };
        assert(item.deep_view()->StartElement_attributes =~= Seq::<AttributeView>::empty());
        item
    }

    /// The start of an element with the given attributes.
    pub fn start_with(name: &str, attributes: Vec<XmlAttribute>) -> (item: XmlItem)
        ensures
            item.deep_view() == (ItemView::StartElement {
                name: name@,
                attributes: attributes.deep_view(),
            }),
    {
        XmlItem::StartElement { name: name.to_owned(), attributes }
    }

    /// The end of an element.
    pub fn end(name: &str) -> (item: XmlItem)
        ensures
            item.deep_view() == (ItemView::EndElement { name: name@ }),
    {
        XmlItem::EndElement { name: name.to_owned() }
    }

    /// Character data.
    pub fn characters(text: &str) -> (item: XmlItem)
        ensures
            item.deep_view() == ItemView::Characters(text@),
    {
        XmlItem::Characters(text.to_owned())
    }
}

} // verus!

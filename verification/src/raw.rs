//! The passthrough element: markup that the dialect does not know, comments
//! and text, kept as they were written.

use vstd::prelude::*;
use vstd::string::*;
use crate::attributes::{merge, pairs_of, Attributes, Pairs};
use crate::body::{
    children_markup, lemma_views_of, parsed_all, views_of, BodyElement, ElementView,
};
use crate::component::{BodyComponent, Component};
use crate::context::Context;
use crate::error::Error;
use crate::header::{Header, Override};
use crate::parser::Element;
use crate::size::{Size, SizeView};
use crate::tag::{Tag, TagView};

verus! {

/// What a passthrough element holds.
#[derive(Debug)]
enum RawKind {
    Comment(String),
    Text(String),
    Node { name: String, attributes: Attributes },
}

/// An element that renders to what the source held.
#[derive(Debug)]
pub struct RawElement {
    kind: RawKind,
    children: Vec<BodyElement>,
    context: Option<Context>,
}

/// The mathematical value of what a passthrough element holds.
pub enum RawContent {
    /// A comment, without its delimiters.
    Comment(Seq<char>),
    /// A run of text.
    Text(Seq<char>),
    /// An element that the dialect does not know, with its children.
    Node { name: Seq<char>, attributes: Pairs, children: Seq<ElementView> },
}

/// The mathematical value of a passthrough element.
pub struct RawView {
    pub content: RawContent,
    pub context: Option<SizeView>,
}

impl View for RawElement {
    type V = RawView;

    closed spec fn view(&self) -> RawView
        decreases self,
    {
        RawView {
            content: match self.kind {
                RawKind::Comment(t) => RawContent::Comment(t@),
                RawKind::Text(t) => RawContent::Text(t@),
                RawKind::Node { name, attributes } => RawContent::Node {
                    name: name@,
                    attributes: attributes@,
                    children: views_of(self.children@),
                },
            },
            context: match self.context {
                Some(c) => Some(c@),
                None => None,
            },
        }
    }
}

/// What a comment renders to.
pub open spec fn comment_markup(text: Seq<char>) -> Seq<char> {
    "<!--"@ + text + "-->"@
}

/// What a passthrough element renders to: a comment between its
/// delimiters, text as it is, and an unknown element as a tag with its
/// attributes around what its children render to, or as a tag that closes
/// itself where it has no children.
pub open spec fn raw_markup(v: RawView) -> Seq<char>
    decreases v,
{
    match v.content {
        RawContent::Comment(t) => comment_markup(t),
        RawContent::Text(t) => t,
        RawContent::Node { name, attributes, children } => {
            let tag = TagView { name, attributes, styles: Pairs::empty() };
            if children.len() == 0 {
                tag.closed_text()
            } else {
                tag.open_text() + children_markup(children) + tag.close_text()
            }
        },
    }
}

/// The passthrough reading of a parsed element: comments and text keep
/// their characters; an element keeps its name, its attributes (of one
/// that is written twice the last value, at the place of the first) and,
/// as children, what its child nodes parse to.
pub open spec fn raw_parsed(element: Element, overrides: Seq<Override>) -> RawView
    decreases element, 0nat,
{
    RawView {
        content: match element {
            Element::Comment(t) => RawContent::Comment(t@),
            Element::Text(t) => RawContent::Text(t@),
            Element::Node(node) => RawContent::Node {
                name: node.name@,
                attributes: merge(Pairs::empty(), pairs_of(node.attributes@)),
                children: parsed_all(node.children@, overrides),
            },
        },
        context: None,
    }
}

impl RawElement {
    #[verifier::type_invariant]
    spec fn well_formed(self) -> bool {
        !(self.kind is Node) ==> self.children@.len() == 0
    }

    /// A comment with the given text.
    pub fn comment(text: &str) -> (r: RawElement)
        ensures
            r@ == (RawView { content: RawContent::Comment(text@), context: None }),
    {
        RawElement { kind: RawKind::Comment(text.to_owned()), children: Vec::new(), context: None }
    }

    /// A run of text.
    pub fn text(text: &str) -> (r: RawElement)
        ensures
            r@ == (RawView { content: RawContent::Text(text@), context: None }),
    {
        RawElement { kind: RawKind::Text(text.to_owned()), children: Vec::new(), context: None }
    }

    /// Keeps a parsed element as it is. Its child nodes are parsed as body
    /// elements, so that a known element inside an unknown one is still
    /// rendered as what it is. This never fails of itself.
    pub fn parse(element: &Element, header: &Header) -> (r: Result<RawElement, Error>)
        ensures
            r matches Ok(e) && e@ == raw_parsed(*element, header.default_attributes@),
        decreases element, 0nat,
    {
        match element {
            Element::Comment(t) => Ok(RawElement::comment(t.as_str())),
            Element::Text(t) => Ok(RawElement::text(t.as_str())),
            Element::Node(node) => {
                let attributes = Attributes::new().concat(node);
                let mut children: Vec<BodyElement> = Vec::new();
                let mut i: usize = 0;
                while i < node.children.len()
                    invariant
                        i <= node.children.len(),
                        *element == Element::Node(*node),
                        views_of(children@) == parsed_all(
                            node.children@.take(i as int),
                            header.default_attributes@,
                        ),
                    decreases node.children.len() - i,
                {
                    let child = BodyElement::parse(&node.children[i], header, None)?;
                    proof {
                        assert(node.children@.take(i + 1).drop_last() =~= node.children@.take(
                            i as int,
                        ));
                        assert(children@.push(child).drop_last() =~= children@);
                    }
                    children.push(child);
                    i += 1;
                }
                assert(node.children@.take(i as int) =~= node.children@);
                Ok(
                    RawElement {
                        kind: RawKind::Node { name: node.name.clone(), attributes },
                        children,
                        context: None,
                    },
                )
            },
        }
    }
}

impl Clone for RawElement {
    fn clone(&self) -> (r: RawElement)
        ensures
            r@ == self@,
        decreases self,
    {
        proof {
            use_type_invariant(self);
        }
        let kind = match &self.kind {
            RawKind::Comment(t) => RawKind::Comment(t.clone()),
            RawKind::Text(t) => RawKind::Text(t.clone()),
            RawKind::Node { name, attributes } => RawKind::Node {
                name: name.clone(),
                attributes: attributes.clone(),
            },
        };
        let mut children: Vec<BodyElement> = Vec::new();
        let mut i: usize = 0;
        while i < self.children.len()
            invariant
                i <= self.children.len(),
                children@.len() == i,
                views_of(children@) == views_of(self.children@.take(i as int)),
            decreases self.children.len() - i,
        {
            let child = self.children[i].clone();
            proof {
                assert(self.children@.take(i + 1).drop_last() =~= self.children@.take(i as int));
                assert(children@.push(child).drop_last() =~= children@);
            }
            children.push(child);
            i += 1;
        }
        assert(self.children@.take(i as int) =~= self.children@);
        RawElement {
            kind,
            children,
            context: match &self.context {
                Some(c) => Some(c.clone()),
                None => None,
            },
        }
    }
}

impl Component for RawElement {
    open spec fn context_view(&self) -> Option<SizeView> {
        self@.context
    }

    open spec fn rendered(&self, header: &Header) -> Result<Seq<char>, Error> {
        Ok(raw_markup(self@))
    }

    fn context(&self) -> (r: Option<&Context>) {
        self.context.as_ref()
    }

    fn set_context(&mut self, ctx: Context)
        ensures
            final(self)@ == (RawView { context: Some(ctx@), ..old(self)@ }),
    {
        proof {
            use_type_invariant(&*self);
        }
        self.context = Some(ctx);
    }

    fn render(&self, header: &Header) -> (r: Result<String, Error>)
        ensures
            r is Ok,
        decreases self,
    {
        match &self.kind {
            RawKind::Comment(t) => {
                let mut out = String::from_str("<!--");
                out.append(t.as_str());
                out.append("-->");
                Ok(out)
            },
            RawKind::Text(t) => Ok(t.clone()),
            RawKind::Node { name, attributes } => {
                let tag = Tag::with_attributes(name.as_str(), attributes.clone());
                if self.children.len() == 0 {
                    return Ok(tag.closed());
                }
                let mut out = tag.open();
                let mut i: usize = 0;
                while i < self.children.len()
                    invariant
                        i <= self.children.len(),
                        out@ == tag@.open_text() + children_markup(
                            views_of(self.children@.take(i as int)),
                        ),
                    decreases self.children.len() - i,
                {
                    let piece = self.children[i].render(header)?;
                    proof {
                        let next = self.children@.take(i + 1);
                        assert(next.drop_last() =~= self.children@.take(i as int));
                        assert(views_of(next).drop_last() =~= views_of(
                            self.children@.take(i as int),
                        ));
                    }
                    out.append(piece.as_str());
                    assert(out@ =~= tag@.open_text() + children_markup(
                        views_of(self.children@.take(i + 1)),
                    ));
                    i += 1;
                }
                assert(self.children@.take(i as int) =~= self.children@);
                out.append(tag.close().as_str());
                proof {
                    lemma_views_of(self.children@);
                }
                assert(out@ =~= raw_markup(self@));
                Ok(out)
            },
        }
    }
}

impl BodyComponent for RawElement {
    open spec fn attributes_view(&self) -> Option<Pairs> {
        match self@.content {
            RawContent::Node { attributes, .. } => Some(attributes),
            _ => None,
        }
    }

    closed spec fn children_view(&self) -> Seq<BodyElement> {
        self.children@
    }

    open spec fn current_width(&self) -> Option<SizeView> {
        None
    }

    open spec fn styled(&self, name: Seq<char>, tag: TagView) -> TagView {
        tag
    }

    fn attributes(&self) -> (r: Option<&Attributes>) {
        match &self.kind {
            RawKind::Node { name, attributes } => Some(attributes),
            _ => None,
        }
    }

    fn get_children(&self) -> (r: &Vec<BodyElement>)
        ensures
            self@.content matches RawContent::Node { children, .. } ==> views_of(r@) == children,
            !(self@.content is Node) ==> r@.len() == 0,
    {
        proof {
            use_type_invariant(self);
        }
        &self.children
    }

    fn get_current_width(&self) -> (r: Option<Size>) {
        None
    }

    fn set_style(&self, name: &str, tag: Tag) -> (r: Tag) {
        tag
    }
}

} // verus!

//! The registry of body elements: one case for each kind of element that
//! the dialect knows, and the passthrough case for everything else.

use vstd::prelude::*;
use vstd::string::*;
use crate::attributes::{lemma_merge_onto_empty, pairs_of, unique_keys, Attributes, Pairs};
use crate::block::{block_parsed, dispatched_kind, Block, BlockView, Kind};
use crate::component::{size_attribute_of, view_of, BodyComponent, Component};
use crate::context::Context;
use crate::divider::{divider_attributes, divider_markup, DividerView, MJDivider};
use crate::error::Error;
use crate::header::{Header, Override};
use crate::parser::Element;
use crate::raw::{raw_markup, raw_parsed, RawContent, RawElement, RawView};
use crate::size::{Size, SizeView};
use crate::tag::{Tag, TagView};
use crate::text::str_eq;

verus! {

/// An element of the document body.
#[derive(Debug)]
pub enum BodyElement {
    /// An accordion.
    MJAccordion(Block),
    /// One fold of an accordion.
    MJAccordionElement(Block),
    /// A button.
    MJButton(Block),
    /// A carousel of images.
    MJCarousel(Block),
    /// One image of a carousel.
    MJCarouselImage(Block),
    /// A column.
    MJColumn(Block),
    /// A divider.
    MJDivider(MJDivider),
    /// A group of columns.
    MJGroup(Block),
    /// A hero banner.
    MJHero(Block),
    /// An image.
    MJImage(Block),
    /// A navigation bar.
    MJNavbar(Block),
    /// One link of a navigation bar.
    MJNavbarLink(Block),
    /// Markup that is handed on as it is.
    MJRaw(Block),
    /// A section.
    MJSection(Block),
    /// A row of social links.
    MJSocial(Block),
    /// One social link.
    MJSocialElement(Block),
    /// A vertical space.
    MJSpacer(Block),
    /// A table.
    MJTable(Block),
    /// A text.
    MJText(Block),
    /// A wrapper of sections.
    MJWrapper(Block),
    /// Anything that is no known kind: it passes through as it was written.
    Raw(RawElement),
}

/// The owned component of a body element, borrowed.
pub enum Inner<'a> {
    MJDivider(&'a MJDivider),
    Block(&'a Block),
    Raw(&'a RawElement),
}

/// The owned component of a body element, borrowed mutably.
pub enum InnerMut<'a> {
    MJDivider(&'a mut MJDivider),
    Block(&'a mut Block),
    Raw(&'a mut RawElement),
}

/// The mathematical value of a body element.
pub enum ElementView {
    Divider(DividerView),
    Block { kind: Kind, block: BlockView },
    Raw(RawView),
}

/// The values of a run of body elements.
pub open spec fn views_of(items: Seq<BodyElement>) -> Seq<ElementView>
    decreases items,
{
    if items.len() == 0 {
        Seq::empty()
    } else {
        views_of(items.drop_last()).push(items.last()@)
    }
}

/// The values of a run of elements are as many as the elements, and each is
/// the value of the element at its place.
pub proof fn lemma_views_of(items: Seq<BodyElement>)
    ensures
        views_of(items).len() == items.len(),
        forall|i: int| 0 <= i < items.len() ==> (#[trigger] views_of(items)[i]) == items[i]@,
    decreases items.len(),
{
    if items.len() > 0 {
        lemma_views_of(items.drop_last());
        assert(views_of(items) == views_of(items.drop_last()).push(items.last()@));
    }
}

impl View for BodyElement {
    type V = ElementView;

    open spec fn view(&self) -> ElementView
        decreases self,
    {
        match self {
            BodyElement::MJDivider(d) => ElementView::Divider(d@),
            BodyElement::Raw(r) => ElementView::Raw(r@),
            BodyElement::MJAccordion(b) => ElementView::Block { kind: Kind::MJAccordion, block: b@ },
            BodyElement::MJAccordionElement(b) => ElementView::Block { kind: Kind::MJAccordionElement, block: b@ },
            BodyElement::MJButton(b) => ElementView::Block { kind: Kind::MJButton, block: b@ },
            BodyElement::MJCarousel(b) => ElementView::Block { kind: Kind::MJCarousel, block: b@ },
            BodyElement::MJCarouselImage(b) => ElementView::Block { kind: Kind::MJCarouselImage, block: b@ },
            BodyElement::MJColumn(b) => ElementView::Block { kind: Kind::MJColumn, block: b@ },
            BodyElement::MJGroup(b) => ElementView::Block { kind: Kind::MJGroup, block: b@ },
            BodyElement::MJHero(b) => ElementView::Block { kind: Kind::MJHero, block: b@ },
            BodyElement::MJImage(b) => ElementView::Block { kind: Kind::MJImage, block: b@ },
            BodyElement::MJNavbar(b) => ElementView::Block { kind: Kind::MJNavbar, block: b@ },
            BodyElement::MJNavbarLink(b) => ElementView::Block { kind: Kind::MJNavbarLink, block: b@ },
            BodyElement::MJRaw(b) => ElementView::Block { kind: Kind::MJRaw, block: b@ },
            BodyElement::MJSection(b) => ElementView::Block { kind: Kind::MJSection, block: b@ },
            BodyElement::MJSocial(b) => ElementView::Block { kind: Kind::MJSocial, block: b@ },
            BodyElement::MJSocialElement(b) => ElementView::Block { kind: Kind::MJSocialElement, block: b@ },
            BodyElement::MJSpacer(b) => ElementView::Block { kind: Kind::MJSpacer, block: b@ },
            BodyElement::MJTable(b) => ElementView::Block { kind: Kind::MJTable, block: b@ },
            BodyElement::MJText(b) => ElementView::Block { kind: Kind::MJText, block: b@ },
            BodyElement::MJWrapper(b) => ElementView::Block { kind: Kind::MJWrapper, block: b@ },
        }
    }
}

/// What a body element renders to. A kind whose own markup is produced
/// outside this core renders to what its children render to.
pub open spec fn element_markup(v: ElementView) -> Seq<char>
    decreases v,
{
    match v {
        ElementView::Divider(d) => divider_markup(d.attributes, d.context),
        ElementView::Block { block, .. } => children_markup(block.children),
        ElementView::Raw(r) => raw_markup(r),
    }
}

/// What a run of body elements renders to: the markup of each, in order.
pub open spec fn children_markup(items: Seq<ElementView>) -> Seq<char>
    decreases items,
{
    if items.len() == 0 {
        Seq::empty()
    } else {
        children_markup(items.drop_last()) + element_markup(items.last())
    }
}

/// The children of a body element. A divider, a comment and text have none.
pub open spec fn children_of(v: ElementView) -> Seq<ElementView> {
    match v {
        ElementView::Block { block, .. } => block.children,
        ElementView::Raw(RawView { content: RawContent::Node { children, .. }, .. }) => children,
        _ => Seq::empty(),
    }
}

/// The element with the container width `width` as its context.
pub open spec fn with_context(v: ElementView, width: SizeView) -> ElementView {
    match v {
        ElementView::Divider(d) => ElementView::Divider(DividerView { context: Some(width), ..d }),
        ElementView::Block { kind, block } => ElementView::Block {
            kind,
            block: BlockView { context: Some(width), ..block },
        },
        ElementView::Raw(e) => ElementView::Raw(RawView { context: Some(width), ..e }),
    }
}

/// The tag name of the divider.
pub open spec fn divider_tag() -> Seq<char> {
    "mj-divider"@
}

/// Whether a tag name is that of a kind which the registry builds.
pub open spec fn is_known_tag(name: Seq<char>) -> bool {
    name == divider_tag() || dispatched_kind(name) is Some
}

/// What a parsed element becomes. A node named `mj-divider` becomes a
/// divider. A node with the name of another kind becomes a block of that
/// kind; the attributes handed down by the parent, `extra`, reach a column
/// and no other kind. Every other node, a comment and text pass through.
pub open spec fn parsed(element: Element, overrides: Seq<Override>, extra: Option<Pairs>)
    -> ElementView
    decreases element, 1nat,
{
    match element {
        Element::Node(node) => if node.name@ == divider_tag() {
            ElementView::Divider(
                DividerView {
                    attributes: divider_attributes(
                        overrides,
                        node.name@,
                        pairs_of(node.attributes@),
                    ),
                    context: None,
                },
            )
        } else if dispatched_kind(node.name@) is Some {
            let kind = dispatched_kind(node.name@)->0;
            ElementView::Block {
                kind,
                block: block_parsed(
                    node,
                    overrides,
                    if kind == Kind::MJColumn {
                        extra
                    } else {
                        None
                    },
                ),
            }
        } else {
            ElementView::Raw(raw_parsed(element, overrides))
        },
        _ => ElementView::Raw(raw_parsed(element, overrides)),
    }
}

/// What a run of parsed elements becomes; none of them is handed
/// attributes by a parent.
pub open spec fn parsed_all(items: Seq<Element>, overrides: Seq<Override>) -> Seq<ElementView>
    decreases items, 2nat,
{
    if items.len() == 0 {
        Seq::empty()
    } else {
        parsed_all(items.drop_last(), overrides).push(parsed(items.last(), overrides, None))
    }
}

/// An element is passed through exactly when it is no node with the name of
/// a known kind; a node with such a name becomes the case of that kind.
pub proof fn lemma_raw_exactly_unknown(
    element: Element,
    overrides: Seq<Override>,
    extra: Option<Pairs>,
)
    ensures
        parsed(element, overrides, extra) is Raw <==> !(element matches Element::Node(node)
            && is_known_tag(node.name@)),
        element matches Element::Node(node) ==> (node.name@ != divider_tag() && dispatched_kind(
            node.name@,
        ) is Some ==> parsed(element, overrides, extra) is Block && parsed(
            element,
            overrides,
            extra,
        )->kind == dispatched_kind(node.name@)->0),
        element matches Element::Node(node) ==> (node.name@ == divider_tag() ==> parsed(
            element,
            overrides,
            extra,
        ) is Divider),
{
}

/// An element that is no node of a known kind passes through: a comment
/// and text keep their characters, and a node keeps its name, its
/// attributes (entry for entry where no name is written twice) and what its
/// children parse to.
pub proof fn lemma_unknown_passes_through(
    element: Element,
    overrides: Seq<Override>,
    extra: Option<Pairs>,
)
    requires
        element matches Element::Node(node) ==> !is_known_tag(node.name@),
    ensures
        parsed(element, overrides, extra) == ElementView::Raw(raw_parsed(element, overrides)),
        raw_parsed(element, overrides).context is None,
        element matches Element::Comment(t) ==> raw_parsed(element, overrides).content
            == RawContent::Comment(t@),
        element matches Element::Text(t) ==> raw_parsed(element, overrides).content
            == RawContent::Text(t@),
        element matches Element::Node(node) ==> {
            &&& raw_parsed(element, overrides).content matches RawContent::Node {
                name,
                attributes,
                children,
            }
            &&& name == node.name@
            &&& children == parsed_all(node.children@, overrides)
            &&& unique_keys(pairs_of(node.attributes@)) ==> attributes == pairs_of(
                node.attributes@,
            )
        },
{
    match element {
        Element::Node(node) => {
            if unique_keys(pairs_of(node.attributes@)) {
                lemma_merge_onto_empty(pairs_of(node.attributes@));
            }
        },
        _ => {},
    }
}

impl BodyElement {
    /// The kind of the element, for the kinds other than the divider and the
    /// passthrough case.
    pub open spec fn kind_view(&self) -> Option<Kind> {
        match self@ {
            ElementView::Block { kind, .. } => Some(kind),
            _ => None,
        }
    }

    /// The block that the element owns, if it owns one.
    pub open spec fn block(&self) -> Option<Block> {
        match self {
            BodyElement::MJDivider(_) => None,
            BodyElement::Raw(_) => None,
            BodyElement::MJAccordion(b)
            | BodyElement::MJAccordionElement(b)
            | BodyElement::MJButton(b)
            | BodyElement::MJCarousel(b)
            | BodyElement::MJCarouselImage(b)
            | BodyElement::MJColumn(b)
            | BodyElement::MJGroup(b)
            | BodyElement::MJHero(b)
            | BodyElement::MJImage(b)
            | BodyElement::MJNavbar(b)
            | BodyElement::MJNavbarLink(b)
            | BodyElement::MJRaw(b)
            | BodyElement::MJSection(b)
            | BodyElement::MJSocial(b)
            | BodyElement::MJSocialElement(b)
            | BodyElement::MJSpacer(b)
            | BodyElement::MJTable(b)
            | BodyElement::MJText(b)
            | BodyElement::MJWrapper(b) => Some(*b),
        }
    }

    /// The element with its block replaced by `b`; itself where it owns
    /// none.
    pub open spec fn with_block(self, b: Block) -> BodyElement {
        match self {
            BodyElement::MJDivider(_) => self,
            BodyElement::Raw(_) => self,
            BodyElement::MJAccordion(_) => BodyElement::MJAccordion(b),
            BodyElement::MJAccordionElement(_) => BodyElement::MJAccordionElement(b),
            BodyElement::MJButton(_) => BodyElement::MJButton(b),
            BodyElement::MJCarousel(_) => BodyElement::MJCarousel(b),
            BodyElement::MJCarouselImage(_) => BodyElement::MJCarouselImage(b),
            BodyElement::MJColumn(_) => BodyElement::MJColumn(b),
            BodyElement::MJGroup(_) => BodyElement::MJGroup(b),
            BodyElement::MJHero(_) => BodyElement::MJHero(b),
            BodyElement::MJImage(_) => BodyElement::MJImage(b),
            BodyElement::MJNavbar(_) => BodyElement::MJNavbar(b),
            BodyElement::MJNavbarLink(_) => BodyElement::MJNavbarLink(b),
            BodyElement::MJRaw(_) => BodyElement::MJRaw(b),
            BodyElement::MJSection(_) => BodyElement::MJSection(b),
            BodyElement::MJSocial(_) => BodyElement::MJSocial(b),
            BodyElement::MJSocialElement(_) => BodyElement::MJSocialElement(b),
            BodyElement::MJSpacer(_) => BodyElement::MJSpacer(b),
            BodyElement::MJTable(_) => BodyElement::MJTable(b),
            BodyElement::MJText(_) => BodyElement::MJText(b),
            BodyElement::MJWrapper(_) => BodyElement::MJWrapper(b),
        }
    }

    /// The case of the kind `kind`, owning `block`.
    pub fn from_block(kind: Kind, block: Block) -> (r: BodyElement)
        ensures
            r@ == (ElementView::Block { kind, block: block@ }),
            r.block() == Some(block),
    {
        match kind {
            Kind::MJAccordion => BodyElement::MJAccordion(block),
            Kind::MJAccordionElement => BodyElement::MJAccordionElement(block),
            Kind::MJButton => BodyElement::MJButton(block),
            Kind::MJCarousel => BodyElement::MJCarousel(block),
            Kind::MJCarouselImage => BodyElement::MJCarouselImage(block),
            Kind::MJColumn => BodyElement::MJColumn(block),
            Kind::MJGroup => BodyElement::MJGroup(block),
            Kind::MJHero => BodyElement::MJHero(block),
            Kind::MJImage => BodyElement::MJImage(block),
            Kind::MJNavbar => BodyElement::MJNavbar(block),
            Kind::MJNavbarLink => BodyElement::MJNavbarLink(block),
            Kind::MJRaw => BodyElement::MJRaw(block),
            Kind::MJSection => BodyElement::MJSection(block),
            Kind::MJSocial => BodyElement::MJSocial(block),
            Kind::MJSocialElement => BodyElement::MJSocialElement(block),
            Kind::MJSpacer => BodyElement::MJSpacer(block),
            Kind::MJTable => BodyElement::MJTable(block),
            Kind::MJText => BodyElement::MJText(block),
            Kind::MJWrapper => BodyElement::MJWrapper(block),
        }
    }

    /// The kind of the element; `None` for a divider and for the
    /// passthrough case.
    pub fn kind(&self) -> (r: Option<Kind>)
        ensures
            r == self.kind_view(),
    {
        match self {
            BodyElement::MJDivider(_) => None,
            BodyElement::Raw(_) => None,
            BodyElement::MJAccordion(_) => Some(Kind::MJAccordion),
            BodyElement::MJAccordionElement(_) => Some(Kind::MJAccordionElement),
            BodyElement::MJButton(_) => Some(Kind::MJButton),
            BodyElement::MJCarousel(_) => Some(Kind::MJCarousel),
            BodyElement::MJCarouselImage(_) => Some(Kind::MJCarouselImage),
            BodyElement::MJColumn(_) => Some(Kind::MJColumn),
            BodyElement::MJGroup(_) => Some(Kind::MJGroup),
            BodyElement::MJHero(_) => Some(Kind::MJHero),
            BodyElement::MJImage(_) => Some(Kind::MJImage),
            BodyElement::MJNavbar(_) => Some(Kind::MJNavbar),
            BodyElement::MJNavbarLink(_) => Some(Kind::MJNavbarLink),
            BodyElement::MJRaw(_) => Some(Kind::MJRaw),
            BodyElement::MJSection(_) => Some(Kind::MJSection),
            BodyElement::MJSocial(_) => Some(Kind::MJSocial),
            BodyElement::MJSocialElement(_) => Some(Kind::MJSocialElement),
            BodyElement::MJSpacer(_) => Some(Kind::MJSpacer),
            BodyElement::MJTable(_) => Some(Kind::MJTable),
            BodyElement::MJText(_) => Some(Kind::MJText),
            BodyElement::MJWrapper(_) => Some(Kind::MJWrapper),
        }
    }

    /// The owned component, for changing it in place.
    pub fn inner_mut(&mut self) -> (r: InnerMut<'_>)
        ensures
            match r {
                InnerMut::MJDivider(d) => *old(self) == BodyElement::MJDivider(*d) && *final(self)
                    == BodyElement::MJDivider(*final(d)),
                InnerMut::Block(b) => old(self).block() == Some(*b) && *final(self) == old(
                    self,
                ).with_block(*final(b)),
                InnerMut::Raw(e) => *old(self) == BodyElement::Raw(*e) && *final(self)
                    == BodyElement::Raw(*final(e)),
            },
    {
        match self {
            BodyElement::MJDivider(item) => InnerMut::MJDivider(item),
            BodyElement::Raw(item) => InnerMut::Raw(item),
            BodyElement::MJAccordion(item) => InnerMut::Block(item),
            BodyElement::MJAccordionElement(item) => InnerMut::Block(item),
            BodyElement::MJButton(item) => InnerMut::Block(item),
            BodyElement::MJCarousel(item) => InnerMut::Block(item),
            BodyElement::MJCarouselImage(item) => InnerMut::Block(item),
            BodyElement::MJColumn(item) => InnerMut::Block(item),
            BodyElement::MJGroup(item) => InnerMut::Block(item),
            BodyElement::MJHero(item) => InnerMut::Block(item),
            BodyElement::MJImage(item) => InnerMut::Block(item),
            BodyElement::MJNavbar(item) => InnerMut::Block(item),
            BodyElement::MJNavbarLink(item) => InnerMut::Block(item),
            BodyElement::MJRaw(item) => InnerMut::Block(item),
            BodyElement::MJSection(item) => InnerMut::Block(item),
            BodyElement::MJSocial(item) => InnerMut::Block(item),
            BodyElement::MJSocialElement(item) => InnerMut::Block(item),
            BodyElement::MJSpacer(item) => InnerMut::Block(item),
            BodyElement::MJTable(item) => InnerMut::Block(item),
            BodyElement::MJText(item) => InnerMut::Block(item),
            BodyElement::MJWrapper(item) => InnerMut::Block(item),
        }
    }

    /// The owned component.
    pub fn inner(&self) -> (r: Inner<'_>)
        ensures
            match r {
                Inner::MJDivider(d) => *self == BodyElement::MJDivider(*d),
                Inner::Block(b) => self.block() == Some(*b),
                Inner::Raw(e) => *self == BodyElement::Raw(*e),
            },
    {
        match self {
            BodyElement::MJDivider(item) => Inner::MJDivider(item),
            BodyElement::Raw(item) => Inner::Raw(item),
            BodyElement::MJAccordion(item)
            | BodyElement::MJAccordionElement(item)
            | BodyElement::MJButton(item)
            | BodyElement::MJCarousel(item)
            | BodyElement::MJCarouselImage(item)
            | BodyElement::MJColumn(item)
            | BodyElement::MJGroup(item)
            | BodyElement::MJHero(item)
            | BodyElement::MJImage(item)
            | BodyElement::MJNavbar(item)
            | BodyElement::MJNavbarLink(item)
            | BodyElement::MJRaw(item)
            | BodyElement::MJSection(item)
            | BodyElement::MJSocial(item)
            | BodyElement::MJSocialElement(item)
            | BodyElement::MJSpacer(item)
            | BodyElement::MJTable(item)
            | BodyElement::MJText(item)
            | BodyElement::MJWrapper(item) => Inner::Block(item),
        }
    }

    /// Makes the body element that a parsed element stands for. A node with
    /// the tag name of a known kind becomes the case of that kind, built by
    /// the kind's own `parse`; `extra` is handed to the column and to no
    /// other kind. A node with any other name, a comment and text become the
    /// passthrough case, which keeps what was written. No element is
    /// refused.
    pub fn parse(element: &Element, header: &Header, extra: Option<&Attributes>) -> (r: Result<
        BodyElement,
        Error,
    >)
        ensures
            r matches Ok(b) && b@ == parsed(*element, header.default_attributes@, view_of(extra)),
        decreases element, 1nat,
    {
        let res = match element {
            Element::Node(node) => {
                if str_eq(node.name.as_str(), "mj-divider") {
                    BodyElement::MJDivider(MJDivider::parse(node, header)?)
                } else {
                    match Kind::of_tag(node.name.as_str()) {
                        Some(Kind::MJColumn) => BodyElement::MJColumn(
                            Block::parse(node, header, extra)?,
                        ),
                        Some(kind) => BodyElement::from_block(
                            kind,
                            Block::parse(node, header, None)?,
                        ),
                        None => BodyElement::Raw(RawElement::parse(element, header)?),
                    }
                }
            },
            Element::Comment(text) => BodyElement::Raw(RawElement::comment(text.as_str())),
            _ => BodyElement::Raw(RawElement::parse(element, header)?),
        };
        Ok(res)
    }

    /// Whether this is the passthrough case.
    pub fn is_raw(&self) -> (r: bool)
        ensures
            r == (self@ is Raw),
    {
        matches!(self, BodyElement::Raw(_))
    }
}

impl Clone for BodyElement {
    fn clone(&self) -> (r: BodyElement)
        ensures
            r@ == self@,
        decreases self,
    {
        match self {
            BodyElement::MJDivider(item) => BodyElement::MJDivider(item.clone()),
            BodyElement::Raw(item) => BodyElement::Raw(item.clone()),
            BodyElement::MJAccordion(item) => BodyElement::MJAccordion(item.clone()),
            BodyElement::MJAccordionElement(item) => BodyElement::MJAccordionElement(item.clone()),
            BodyElement::MJButton(item) => BodyElement::MJButton(item.clone()),
            BodyElement::MJCarousel(item) => BodyElement::MJCarousel(item.clone()),
            BodyElement::MJCarouselImage(item) => BodyElement::MJCarouselImage(item.clone()),
            BodyElement::MJColumn(item) => BodyElement::MJColumn(item.clone()),
            BodyElement::MJGroup(item) => BodyElement::MJGroup(item.clone()),
            BodyElement::MJHero(item) => BodyElement::MJHero(item.clone()),
            BodyElement::MJImage(item) => BodyElement::MJImage(item.clone()),
            BodyElement::MJNavbar(item) => BodyElement::MJNavbar(item.clone()),
            BodyElement::MJNavbarLink(item) => BodyElement::MJNavbarLink(item.clone()),
            BodyElement::MJRaw(item) => BodyElement::MJRaw(item.clone()),
            BodyElement::MJSection(item) => BodyElement::MJSection(item.clone()),
            BodyElement::MJSocial(item) => BodyElement::MJSocial(item.clone()),
            BodyElement::MJSocialElement(item) => BodyElement::MJSocialElement(item.clone()),
            BodyElement::MJSpacer(item) => BodyElement::MJSpacer(item.clone()),
            BodyElement::MJTable(item) => BodyElement::MJTable(item.clone()),
            BodyElement::MJText(item) => BodyElement::MJText(item.clone()),
            BodyElement::MJWrapper(item) => BodyElement::MJWrapper(item.clone()),
        }
    }
}

impl Component for BodyElement {
    open spec fn context_view(&self) -> Option<SizeView> {
        match self {
            BodyElement::MJDivider(item) => item.context_view(),
            BodyElement::Raw(item) => item.context_view(),
            BodyElement::MJAccordion(item)
            | BodyElement::MJAccordionElement(item)
            | BodyElement::MJButton(item)
            | BodyElement::MJCarousel(item)
            | BodyElement::MJCarouselImage(item)
            | BodyElement::MJColumn(item)
            | BodyElement::MJGroup(item)
            | BodyElement::MJHero(item)
            | BodyElement::MJImage(item)
            | BodyElement::MJNavbar(item)
            | BodyElement::MJNavbarLink(item)
            | BodyElement::MJRaw(item)
            | BodyElement::MJSection(item)
            | BodyElement::MJSocial(item)
            | BodyElement::MJSocialElement(item)
            | BodyElement::MJSpacer(item)
            | BodyElement::MJTable(item)
            | BodyElement::MJText(item)
            | BodyElement::MJWrapper(item) => item.context_view(),
        }
    }

    open spec fn rendered(&self, header: &Header) -> Result<Seq<char>, Error> {
        match self {
            BodyElement::MJDivider(item) => item.rendered(header),
            BodyElement::Raw(item) => item.rendered(header),
            BodyElement::MJAccordion(item)
            | BodyElement::MJAccordionElement(item)
            | BodyElement::MJButton(item)
            | BodyElement::MJCarousel(item)
            | BodyElement::MJCarouselImage(item)
            | BodyElement::MJColumn(item)
            | BodyElement::MJGroup(item)
            | BodyElement::MJHero(item)
            | BodyElement::MJImage(item)
            | BodyElement::MJNavbar(item)
            | BodyElement::MJNavbarLink(item)
            | BodyElement::MJRaw(item)
            | BodyElement::MJSection(item)
            | BodyElement::MJSocial(item)
            | BodyElement::MJSocialElement(item)
            | BodyElement::MJSpacer(item)
            | BodyElement::MJTable(item)
            | BodyElement::MJText(item)
            | BodyElement::MJWrapper(item) => item.rendered(header),
        }
    }

    fn update_header(&self, header: &mut Header)
        ensures
            *final(header) == *old(header),
    {
        match self {
            BodyElement::MJDivider(item) => item.update_header(header),
            BodyElement::Raw(item) => item.update_header(header),
            BodyElement::MJAccordion(item)
            | BodyElement::MJAccordionElement(item)
            | BodyElement::MJButton(item)
            | BodyElement::MJCarousel(item)
            | BodyElement::MJCarouselImage(item)
            | BodyElement::MJColumn(item)
            | BodyElement::MJGroup(item)
            | BodyElement::MJHero(item)
            | BodyElement::MJImage(item)
            | BodyElement::MJNavbar(item)
            | BodyElement::MJNavbarLink(item)
            | BodyElement::MJRaw(item)
            | BodyElement::MJSection(item)
            | BodyElement::MJSocial(item)
            | BodyElement::MJSocialElement(item)
            | BodyElement::MJSpacer(item)
            | BodyElement::MJTable(item)
            | BodyElement::MJText(item)
            | BodyElement::MJWrapper(item) => item.update_header(header),
        }
    }

    fn context(&self) -> (r: Option<&Context>) {
        match self {
            BodyElement::MJDivider(item) => item.context(),
            BodyElement::Raw(item) => item.context(),
            BodyElement::MJAccordion(item)
            | BodyElement::MJAccordionElement(item)
            | BodyElement::MJButton(item)
            | BodyElement::MJCarousel(item)
            | BodyElement::MJCarouselImage(item)
            | BodyElement::MJColumn(item)
            | BodyElement::MJGroup(item)
            | BodyElement::MJHero(item)
            | BodyElement::MJImage(item)
            | BodyElement::MJNavbar(item)
            | BodyElement::MJNavbarLink(item)
            | BodyElement::MJRaw(item)
            | BodyElement::MJSection(item)
            | BodyElement::MJSocial(item)
            | BodyElement::MJSocialElement(item)
            | BodyElement::MJSpacer(item)
            | BodyElement::MJTable(item)
            | BodyElement::MJText(item)
            | BodyElement::MJWrapper(item) => item.context(),
        }
    }

    fn set_context(&mut self, ctx: Context)
        ensures
            final(self)@ == with_context(old(self)@, ctx@),
    {
        match self.inner_mut() {
            InnerMut::MJDivider(item) => item.set_context(ctx),
            InnerMut::Block(item) => item.set_context(ctx),
            InnerMut::Raw(item) => item.set_context(ctx),
        }
    }

    fn render(&self, header: &Header) -> (r: Result<String, Error>)
        ensures
            r matches Ok(s) && s@ == element_markup(self@),
        decreases self,
    {
        match self {
            BodyElement::MJDivider(item) => {
                let r = item.render(header);
                assert(self.rendered(header) == item.rendered(header));
                r
            },
            BodyElement::Raw(item) => item.render(header),
            BodyElement::MJAccordion(item)
            | BodyElement::MJAccordionElement(item)
            | BodyElement::MJButton(item)
            | BodyElement::MJCarousel(item)
            | BodyElement::MJCarouselImage(item)
            | BodyElement::MJColumn(item)
            | BodyElement::MJGroup(item)
            | BodyElement::MJHero(item)
            | BodyElement::MJImage(item)
            | BodyElement::MJNavbar(item)
            | BodyElement::MJNavbarLink(item)
            | BodyElement::MJRaw(item)
            | BodyElement::MJSection(item)
            | BodyElement::MJSocial(item)
            | BodyElement::MJSocialElement(item)
            | BodyElement::MJSpacer(item)
            | BodyElement::MJTable(item)
            | BodyElement::MJText(item)
            | BodyElement::MJWrapper(item) => item.render(header),
        }
    }
}

impl BodyComponent for BodyElement {
    open spec fn attributes_view(&self) -> Option<Pairs> {
        match self {
            BodyElement::MJDivider(item) => item.attributes_view(),
            BodyElement::Raw(item) => item.attributes_view(),
            BodyElement::MJAccordion(item)
            | BodyElement::MJAccordionElement(item)
            | BodyElement::MJButton(item)
            | BodyElement::MJCarousel(item)
            | BodyElement::MJCarouselImage(item)
            | BodyElement::MJColumn(item)
            | BodyElement::MJGroup(item)
            | BodyElement::MJHero(item)
            | BodyElement::MJImage(item)
            | BodyElement::MJNavbar(item)
            | BodyElement::MJNavbarLink(item)
            | BodyElement::MJRaw(item)
            | BodyElement::MJSection(item)
            | BodyElement::MJSocial(item)
            | BodyElement::MJSocialElement(item)
            | BodyElement::MJSpacer(item)
            | BodyElement::MJTable(item)
            | BodyElement::MJText(item)
            | BodyElement::MJWrapper(item) => item.attributes_view(),
        }
    }

    open spec fn children_view(&self) -> Seq<BodyElement> {
        match self {
            BodyElement::MJDivider(item) => item.children_view(),
            BodyElement::Raw(item) => item.children_view(),
            BodyElement::MJAccordion(item)
            | BodyElement::MJAccordionElement(item)
            | BodyElement::MJButton(item)
            | BodyElement::MJCarousel(item)
            | BodyElement::MJCarouselImage(item)
            | BodyElement::MJColumn(item)
            | BodyElement::MJGroup(item)
            | BodyElement::MJHero(item)
            | BodyElement::MJImage(item)
            | BodyElement::MJNavbar(item)
            | BodyElement::MJNavbarLink(item)
            | BodyElement::MJRaw(item)
            | BodyElement::MJSection(item)
            | BodyElement::MJSocial(item)
            | BodyElement::MJSocialElement(item)
            | BodyElement::MJSpacer(item)
            | BodyElement::MJTable(item)
            | BodyElement::MJText(item)
            | BodyElement::MJWrapper(item) => item.children_view(),
        }
    }

    open spec fn current_width(&self) -> Option<SizeView> {
        match self {
            BodyElement::MJDivider(item) => item.current_width(),
            BodyElement::Raw(item) => item.current_width(),
            BodyElement::MJAccordion(item)
            | BodyElement::MJAccordionElement(item)
            | BodyElement::MJButton(item)
            | BodyElement::MJCarousel(item)
            | BodyElement::MJCarouselImage(item)
            | BodyElement::MJColumn(item)
            | BodyElement::MJGroup(item)
            | BodyElement::MJHero(item)
            | BodyElement::MJImage(item)
            | BodyElement::MJNavbar(item)
            | BodyElement::MJNavbarLink(item)
            | BodyElement::MJRaw(item)
            | BodyElement::MJSection(item)
            | BodyElement::MJSocial(item)
            | BodyElement::MJSocialElement(item)
            | BodyElement::MJSpacer(item)
            | BodyElement::MJTable(item)
            | BodyElement::MJText(item)
            | BodyElement::MJWrapper(item) => item.current_width(),
        }
    }

    open spec fn styled(&self, name: Seq<char>, tag: TagView) -> TagView {
        match self {
            BodyElement::MJDivider(item) => item.styled(name, tag),
            BodyElement::Raw(item) => item.styled(name, tag),
            BodyElement::MJAccordion(item)
            | BodyElement::MJAccordionElement(item)
            | BodyElement::MJButton(item)
            | BodyElement::MJCarousel(item)
            | BodyElement::MJCarouselImage(item)
            | BodyElement::MJColumn(item)
            | BodyElement::MJGroup(item)
            | BodyElement::MJHero(item)
            | BodyElement::MJImage(item)
            | BodyElement::MJNavbar(item)
            | BodyElement::MJNavbarLink(item)
            | BodyElement::MJRaw(item)
            | BodyElement::MJSection(item)
            | BodyElement::MJSocial(item)
            | BodyElement::MJSocialElement(item)
            | BodyElement::MJSpacer(item)
            | BodyElement::MJTable(item)
            | BodyElement::MJText(item)
            | BodyElement::MJWrapper(item) => item.styled(name, tag),
        }
    }

    fn get_children(&self) -> (r: &Vec<BodyElement>)
        ensures
            views_of(r@) == children_of(self@),
    {
        match self {
            BodyElement::MJDivider(item) => item.get_children(),
            BodyElement::Raw(item) => item.get_children(),
            BodyElement::MJAccordion(item)
            | BodyElement::MJAccordionElement(item)
            | BodyElement::MJButton(item)
            | BodyElement::MJCarousel(item)
            | BodyElement::MJCarouselImage(item)
            | BodyElement::MJColumn(item)
            | BodyElement::MJGroup(item)
            | BodyElement::MJHero(item)
            | BodyElement::MJImage(item)
            | BodyElement::MJNavbar(item)
            | BodyElement::MJNavbarLink(item)
            | BodyElement::MJRaw(item)
            | BodyElement::MJSection(item)
            | BodyElement::MJSocial(item)
            | BodyElement::MJSocialElement(item)
            | BodyElement::MJSpacer(item)
            | BodyElement::MJTable(item)
            | BodyElement::MJText(item)
            | BodyElement::MJWrapper(item) => item.get_children(),
        }
    }

    fn get_current_width(&self) -> (r: Option<Size>) {
        match self {
            BodyElement::MJDivider(item) => item.get_current_width(),
            BodyElement::Raw(item) => item.get_current_width(),
            BodyElement::MJAccordion(item)
            | BodyElement::MJAccordionElement(item)
            | BodyElement::MJButton(item)
            | BodyElement::MJCarousel(item)
            | BodyElement::MJCarouselImage(item)
            | BodyElement::MJColumn(item)
            | BodyElement::MJGroup(item)
            | BodyElement::MJHero(item)
            | BodyElement::MJImage(item)
            | BodyElement::MJNavbar(item)
            | BodyElement::MJNavbarLink(item)
            | BodyElement::MJRaw(item)
            | BodyElement::MJSection(item)
            | BodyElement::MJSocial(item)
            | BodyElement::MJSocialElement(item)
            | BodyElement::MJSpacer(item)
            | BodyElement::MJTable(item)
            | BodyElement::MJText(item)
            | BodyElement::MJWrapper(item) => item.get_current_width(),
        }
    }

    fn attributes(&self) -> (r: Option<&Attributes>) {
        match self {
            BodyElement::MJDivider(item) => item.attributes(),
            BodyElement::Raw(item) => item.attributes(),
            BodyElement::MJAccordion(item)
            | BodyElement::MJAccordionElement(item)
            | BodyElement::MJButton(item)
            | BodyElement::MJCarousel(item)
            | BodyElement::MJCarouselImage(item)
            | BodyElement::MJColumn(item)
            | BodyElement::MJGroup(item)
            | BodyElement::MJHero(item)
            | BodyElement::MJImage(item)
            | BodyElement::MJNavbar(item)
            | BodyElement::MJNavbarLink(item)
            | BodyElement::MJRaw(item)
            | BodyElement::MJSection(item)
            | BodyElement::MJSocial(item)
            | BodyElement::MJSocialElement(item)
            | BodyElement::MJSpacer(item)
            | BodyElement::MJTable(item)
            | BodyElement::MJText(item)
            | BodyElement::MJWrapper(item) => item.attributes(),
        }
    }

    fn set_style(&self, key: &str, tag: Tag) -> (r: Tag) {
        match self {
            BodyElement::MJDivider(item) => item.set_style(key, tag),
            BodyElement::Raw(item) => item.set_style(key, tag),
            BodyElement::MJAccordion(item)
            | BodyElement::MJAccordionElement(item)
            | BodyElement::MJButton(item)
            | BodyElement::MJCarousel(item)
            | BodyElement::MJCarouselImage(item)
            | BodyElement::MJColumn(item)
            | BodyElement::MJGroup(item)
            | BodyElement::MJHero(item)
            | BodyElement::MJImage(item)
            | BodyElement::MJNavbar(item)
            | BodyElement::MJNavbarLink(item)
            | BodyElement::MJRaw(item)
            | BodyElement::MJSection(item)
            | BodyElement::MJSocial(item)
            | BodyElement::MJSocialElement(item)
            | BodyElement::MJSpacer(item)
            | BodyElement::MJTable(item)
            | BodyElement::MJText(item)
            | BodyElement::MJWrapper(item) => item.set_style(key, tag),
        }
    }

    fn get_width(&self) -> (r: Option<Size>)
        ensures
            match r {
                Some(s) => size_attribute_of(self.attributes_view(), "width"@) == Some(s@),
                None => size_attribute_of(self.attributes_view(), "width"@) is None,
            },
    {
        match self {
            BodyElement::MJDivider(item) => item.get_width(),
            BodyElement::Raw(item) => item.get_width(),
            BodyElement::MJAccordion(item)
            | BodyElement::MJAccordionElement(item)
            | BodyElement::MJButton(item)
            | BodyElement::MJCarousel(item)
            | BodyElement::MJCarouselImage(item)
            | BodyElement::MJColumn(item)
            | BodyElement::MJGroup(item)
            | BodyElement::MJHero(item)
            | BodyElement::MJImage(item)
            | BodyElement::MJNavbar(item)
            | BodyElement::MJNavbarLink(item)
            | BodyElement::MJRaw(item)
            | BodyElement::MJSection(item)
            | BodyElement::MJSocial(item)
            | BodyElement::MJSocialElement(item)
            | BodyElement::MJSpacer(item)
            | BodyElement::MJTable(item)
            | BodyElement::MJText(item)
            | BodyElement::MJWrapper(item) => item.get_width(),
        }
    }
}

} // verus!

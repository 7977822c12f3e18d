//! The protocol that every element kind follows: a context set by the
//! parent, a hook into the document header, and a fallible rendering; for
//! body elements also attributes, children, widths and named styles.

use vstd::prelude::*;
use vstd::string::*;
use crate::attributes::{lookup, Attributes, Pairs};
use crate::body::BodyElement;
use crate::context::Context;
use crate::error::Error;
use crate::header::Header;
use crate::size::{parse_size, Size, SizeView, MAX_MAGNITUDE};
use crate::spacing::{horizontal_padding, horizontal_padding_of};
use crate::tag::{Tag, TagView};

verus! {

/// The value of the attribute `key`, where there are attributes and they
/// have the key.
pub open spec fn attribute_of(attributes: Option<Pairs>, key: Seq<char>) -> Option<Seq<char>> {
    match attributes {
        Some(p) => lookup(p, key),
        None => None,
    }
}

/// The attribute `key` read as a size, where it is present.
pub open spec fn size_attribute_of(attributes: Option<Pairs>, key: Seq<char>) -> Option<SizeView> {
    match attribute_of(attributes, key) {
        Some(text) => Some(parse_size(text)),
        None => None,
    }
}

/// The left and right padding that the `padding` attribute asks for, added
/// up; nothing where there is no such attribute.
pub open spec fn padding_horizontal_of(attributes: Option<Pairs>) -> int {
    match attribute_of(attributes, "padding"@) {
        Some(text) => horizontal_padding(text),
        None => 0,
    }
}

/// The value of the attribute `key`, if there are attributes and they have
/// the key.
pub fn attribute<'a>(attributes: Option<&'a Attributes>, key: &str) -> (r: Option<&'a String>)
    ensures
        match r {
            Some(v) => attribute_of(view_of(attributes), key@) == Some(v@),
            None => attribute_of(view_of(attributes), key@) is None,
        },
{
    match attributes {
        Some(a) => a.get(key),
        None => None,
    }
}

/// The attribute `key` read as a size, if there are attributes and they
/// have the key.
pub fn size_attribute(attributes: Option<&Attributes>, key: &str) -> (r: Option<Size>)
    ensures
        match r {
            Some(s) => size_attribute_of(view_of(attributes), key@) == Some(s@) && s@.in_range(),
            None => size_attribute_of(view_of(attributes), key@) is None,
        },
{
    match attribute(attributes, key) {
        Some(v) => Some(Size::parse(v.as_str())),
        None => None,
    }
}

/// The left and right padding of the `padding` attribute, added up, as a
/// pixel length.
pub fn padding_horizontal_width(attributes: Option<&Attributes>) -> (r: Size)
    ensures
        r@ == SizeView::Pixel(padding_horizontal_of(view_of(attributes))),
        0 <= r@.value() <= 2 * MAX_MAGNITUDE,
{
    match attribute(attributes, "padding") {
        Some(text) => Size::Pixel(horizontal_padding_of(text.as_str())),
        None => Size::Pixel(0),
    }
}

/// The container width that a context holds, if there is a context.
pub fn container_width(context: Option<&Context>) -> (r: Option<Size>)
    ensures
        match r {
            Some(s) => width_of(context) == Some(s@) && s@.in_range(),
            None => width_of(context) is None,
        },
{
    match context {
        Some(c) => Some(c.container_width()),
        None => None,
    }
}

/// The entries of attributes that may be absent.
pub open spec fn view_of(attributes: Option<&Attributes>) -> Option<Pairs> {
    match attributes {
        Some(a) => Some(a@),
        None => None,
    }
}

/// The container width of a context that may be absent.
pub open spec fn width_of(context: Option<&Context>) -> Option<SizeView> {
    match context {
        Some(c) => Some(c@),
        None => None,
    }
}

/// What every element kind can do.
pub trait Component {
    /// The container width that the parent has set, if it has set one.
    spec fn context_view(&self) -> Option<SizeView>;

    /// The markup that the component renders to under `header`, or the
    /// error that stops it.
    spec fn rendered(&self, header: &Header) -> Result<Seq<char>, Error>;

    /// The context, if the parent has set one.
    fn context(&self) -> (r: Option<&Context>)
        ensures
            match r {
                Some(c) => self.context_view() == Some(c@),
                None => self.context_view() is None,
            },
    ;

    /// Sets the context, in place of any earlier one.
    fn set_context(&mut self, ctx: Context)
        ensures
            final(self).context_view() == Some(ctx@),
    ;

    /// Registers what the component contributes to the whole document. A
    /// kind that contributes nothing leaves the header as it is.
    fn update_header(&self, header: &mut Header)
        default_ensures
            *final(header) == *old(header),
    {
    }

    /// Renders the component. The result depends on the component, its
    /// context and the header alone.
    fn render(&self, header: &Header) -> (r: Result<String, Error>)
        ensures
            match r {
                Ok(s) => self.rendered(header) == Ok::<Seq<char>, Error>(s@),
                Err(e) => self.rendered(header) == Err::<Seq<char>, Error>(e),
            },
    ;
}

/// What every element of the document body can do.
pub trait BodyComponent: Component {
    /// The attributes, for a kind that carries any.
    spec fn attributes_view(&self) -> Option<Pairs>;

    /// The children, in document order.
    spec fn children_view(&self) -> Seq<BodyElement>;

    /// The width that the element takes up among its siblings, for a kind
    /// that takes part in that.
    spec fn current_width(&self) -> Option<SizeView>;

    /// `tag` with the style rules of the slot `name` applied.
    spec fn styled(&self, name: Seq<char>, tag: TagView) -> TagView;

    /// The attributes; `None` for an element that carries none.
    fn attributes(&self) -> (r: Option<&Attributes>)
        ensures
            match r {
                Some(a) => self.attributes_view() == Some(a@),
                None => self.attributes_view() is None,
            },
    ;

    /// The children in document order; empty for a leaf.
    fn get_children(&self) -> (r: &Vec<BodyElement>)
        ensures
            r@ == self.children_view(),
    ;

    /// The width that the element takes up for its parent's bookkeeping.
    fn get_current_width(&self) -> (r: Option<Size>)
        ensures
            match r {
                Some(w) => self.current_width() == Some(w@),
                None => self.current_width() is None,
            },
    ;

    /// Applies the style rules of the slot `name` to `tag`.
    fn set_style(&self, name: &str, tag: Tag) -> (r: Tag)
        ensures
            r@ == self.styled(name@, tag@),
    ;

    /// The value of the attribute `key`, if the element has it.
    fn get_attribute(&self, key: &str) -> (r: Option<&String>)
        ensures
            match r {
                Some(v) => attribute_of(self.attributes_view(), key@) == Some(v@),
                None => attribute_of(self.attributes_view(), key@) is None,
            },
    {
        attribute(self.attributes(), key)
    }

    /// The attribute `key` read as a size, if the element has it.
    fn get_size_attribute(&self, key: &str) -> (r: Option<Size>)
        ensures
            match r {
                Some(s) => size_attribute_of(self.attributes_view(), key@) == Some(s@)
                    && s@.in_range(),
                None => size_attribute_of(self.attributes_view(), key@) is None,
            },
    {
        size_attribute(self.attributes(), key)
    }

    /// The declared width: the `width` attribute read as a size.
    fn get_width(&self) -> (r: Option<Size>)
        default_ensures
            match r {
                Some(s) => size_attribute_of(self.attributes_view(), "width"@) == Some(s@),
                None => size_attribute_of(self.attributes_view(), "width"@) is None,
            },
    {
        self.get_size_attribute("width")
    }

    /// The container width from the context, if the parent has set one.
    fn get_container_width(&self) -> (r: Option<Size>)
        ensures
            match r {
                Some(s) => self.context_view() == Some(s@) && s@.in_range(),
                None => self.context_view() is None,
            },
    {
        container_width(self.context())
    }

    /// The left and right padding of the `padding` attribute, added up, as a
    /// pixel length.
    fn get_padding_horizontal_width(&self) -> (r: Size)
        ensures
            r@ == SizeView::Pixel(padding_horizontal_of(self.attributes_view())),
            0 <= r@.value() <= 2 * MAX_MAGNITUDE,
    {
        padding_horizontal_width(self.attributes())
    }
}

} // verus!

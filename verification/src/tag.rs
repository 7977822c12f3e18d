//! A builder for one HTML element: a name, attributes and style
//! declarations, each kept in the order in which its keys were first set.

use vstd::prelude::*;
use vstd::string::*;
use crate::attributes::{upsert, Attributes, Pairs};

verus! {

/// An HTML element under construction.
#[derive(Debug)]
pub struct Tag {
    name: String,
    attributes: Attributes,
    styles: Attributes,
}

/// The mathematical value of a [`Tag`].
pub struct TagView {
    pub name: Seq<char>,
    pub attributes: Pairs,
    pub styles: Pairs,
}

impl View for Tag {
    type V = TagView;

    closed spec fn view(&self) -> TagView {
        TagView { name: self.name@, attributes: self.attributes@, styles: self.styles@ }
    }
}

/// The attributes as they stand in an opening tag: each one a space, the
/// key, and the value in double quotes.
pub open spec fn attributes_text(p: Pairs) -> Seq<char>
    decreases p.len(),
{
    if p.len() == 0 {
        Seq::empty()
    } else {
        attributes_text(p.drop_last()) + " "@ + p.last().0 + "=\""@ + p.last().1 + "\""@
    }
}

/// The style declarations as they stand in a `style` attribute: each one
/// the property, a colon, the value and a semicolon.
pub open spec fn styles_text(p: Pairs) -> Seq<char>
    decreases p.len(),
{
    if p.len() == 0 {
        Seq::empty()
    } else {
        styles_text(p.drop_last()) + p.last().0 + ":"@ + p.last().1 + ";"@
    }
}

/// The `style` attribute of a tag; empty when there are no declarations.
pub open spec fn style_attribute_text(styles: Pairs) -> Seq<char> {
    if styles.len() == 0 {
        Seq::empty()
    } else {
        " style=\""@ + styles_text(styles) + "\""@
    }
}

impl TagView {
    /// An opening tag up to, and without, the bracket that ends it.
    pub open spec fn head_text(self) -> Seq<char> {
        "<"@ + self.name + attributes_text(self.attributes) + style_attribute_text(self.styles)
    }

    /// The opening tag.
    pub open spec fn open_text(self) -> Seq<char> {
        self.head_text() + ">"@
    }

    /// The element as a tag that closes itself, for an element without
    /// content.
    pub open spec fn closed_text(self) -> Seq<char> {
        self.head_text() + " />"@
    }

    /// The closing tag.
    pub open spec fn close_text(self) -> Seq<char> {
        "</"@ + self.name + ">"@
    }

    /// The whole element around `content`.
    pub open spec fn render_text(self, content: Seq<char>) -> Seq<char> {
        self.open_text() + content + self.close_text()
    }

    /// The tag with the attribute `key` set to `value`.
    pub open spec fn with_attribute(self, key: Seq<char>, value: Seq<char>) -> TagView {
        TagView { attributes: upsert(self.attributes, key, value), ..self }
    }

    /// The tag with the style property `key` set to `value`.
    pub open spec fn with_style(self, key: Seq<char>, value: Seq<char>) -> TagView {
        TagView { styles: upsert(self.styles, key, value), ..self }
    }
}

/// A tag with the given name and nothing else.
pub open spec fn new_tag(name: Seq<char>) -> TagView {
    TagView { name, attributes: Pairs::empty(), styles: Pairs::empty() }
}

/// A `table` without border, cell padding or cell spacing.
pub open spec fn table_tag() -> TagView {
    new_tag("table"@).with_attribute("border"@, "0"@).with_attribute(
        "cellpadding"@,
        "0"@,
    ).with_attribute("cellspacing"@, "0"@)
}

/// A [`table_tag`] marked as a layout table.
pub open spec fn table_presentation_tag() -> TagView {
    table_tag().with_attribute("role"@, "presentation"@)
}

impl Tag {
    /// A tag with the given name, no attributes and no styles.
    pub fn new(name: &str) -> (r: Tag)
        ensures
            r@ == new_tag(name@),
    {
        Tag { name: name.to_owned(), attributes: Attributes::new(), styles: Attributes::new() }
    }

    /// A `table` without border, cell padding or cell spacing.
    pub fn table() -> (r: Tag)
        ensures
            r@ == table_tag(),
    {
        Tag::new("table").set_attribute("border", "0").set_attribute(
            "cellpadding",
            "0",
        ).set_attribute("cellspacing", "0")
    }

    /// A table that screen readers treat as layout, not as data.
    pub fn table_presentation() -> (r: Tag)
        ensures
            r@ == table_presentation_tag(),
    {
        Tag::table().set_attribute("role", "presentation")
    }

    /// The tag with the attribute `key` set to `value`; a later value for a
    /// key replaces the earlier one at its place.
    pub fn set_attribute(self, key: &str, value: &str) -> (r: Tag)
        ensures
            r@ == self@.with_attribute(key@, value@),
    {
        Tag { name: self.name, attributes: self.attributes.add(key, value), styles: self.styles }
    }

    /// As [`Tag::set_attribute`] where a value is given; the tag unchanged
    /// where none is.
    pub fn maybe_set_attribute(self, key: &str, value: Option<&String>) -> (r: Tag)
        ensures
            r@ == match value {
                Some(v) => self@.with_attribute(key@, v@),
                None => self@,
            },
    {
        match value {
            Some(v) => self.set_attribute(key, v.as_str()),
            None => self,
        }
    }

    /// The tag with the style property `key` set to `value`; a later value
    /// for a property replaces the earlier one at its place.
    pub fn set_style(self, key: &str, value: &str) -> (r: Tag)
        ensures
            r@ == self@.with_style(key@, value@),
    {
        Tag { name: self.name, attributes: self.attributes, styles: self.styles.add(key, value) }
    }

    /// As [`Tag::set_style`] where a value is given; the tag unchanged where
    /// none is.
    pub fn maybe_set_style(self, key: &str, value: Option<&String>) -> (r: Tag)
        ensures
            r@ == match value {
                Some(v) => self@.with_style(key@, v@),
                None => self@,
            },
    {
        match value {
            Some(v) => self.set_style(key, v.as_str()),
            None => self,
        }
    }

    /// A tag with the given name and attributes, and no styles.
    pub fn with_attributes(name: &str, attributes: Attributes) -> (r: Tag)
        ensures
            r@ == (TagView { name: name@, attributes: attributes@, styles: Pairs::empty() }),
    {
        Tag { name: name.to_owned(), attributes, styles: Attributes::new() }
    }

    /// The opening tag, with the attributes and then the styles.
    pub fn open(&self) -> (r: String)
        ensures
            r@ == self@.open_text(),
    {
        let mut out = self.head();
        out.append(">");
        out
    }

    /// The element as a tag that closes itself.
    pub fn closed(&self) -> (r: String)
        ensures
            r@ == self@.closed_text(),
    {
        let mut out = self.head();
        out.append(" />");
        out
    }

    /// The opening tag without the bracket that ends it.
    fn head(&self) -> (r: String)
        ensures
            r@ == self@.head_text(),
    {
        let mut out = String::from_str("<");
        out.append(self.name.as_str());
        let mut i: usize = 0;
        while i < self.attributes.len()
            invariant
                i <= self.attributes@.len(),
                out@ == "<"@ + self.name@ + attributes_text(self.attributes@.take(i as int)),
            decreases self.attributes@.len() - i,
        {
            proof {
                assert(self.attributes@.take(i + 1).drop_last() =~= self.attributes@.take(
                    i as int,
                ));
            }
            let ghost before = out@;
            out.append(" ");
            out.append(self.attributes.key_at(i).as_str());
            out.append("=\"");
            out.append(self.attributes.value_at(i).as_str());
            out.append("\"");
            assert(out@ =~= "<"@ + self.name@ + attributes_text(self.attributes@.take(i + 1)));
            i += 1;
        }
        assert(self.attributes@.take(i as int) =~= self.attributes@);
        if self.styles.len() > 0 {
            let ghost before = out@;
            out.append(" style=\"");
            let mut j: usize = 0;
            while j < self.styles.len()
                invariant
                    j <= self.styles@.len(),
                    out@ == before + " style=\""@ + styles_text(self.styles@.take(j as int)),
                decreases self.styles@.len() - j,
            {
                proof {
                    assert(self.styles@.take(j + 1).drop_last() =~= self.styles@.take(j as int));
                }
                out.append(self.styles.key_at(j).as_str());
                out.append(":");
                out.append(self.styles.value_at(j).as_str());
                out.append(";");
                assert(out@ =~= before + " style=\""@ + styles_text(self.styles@.take(j + 1)));
                j += 1;
            }
            assert(self.styles@.take(j as int) =~= self.styles@);
            out.append("\"");
            assert(out@ =~= before + style_attribute_text(self.styles@));
        }
        assert(out@ =~= self@.head_text());
        out
    }

    /// The closing tag.
    pub fn close(&self) -> (r: String)
        ensures
            r@ == self@.close_text(),
    {
        let mut out = String::from_str("</");
        out.append(self.name.as_str());
        out.append(">");
        out
    }

    /// The element around `content`: opening tag, content, closing tag.
    pub fn render(&self, content: &str) -> (r: String)
        ensures
            r@ == self@.render_text(content@),
    {
        let mut out = self.open();
        out.append(content);
        out.append(self.close().as_str());
        assert(out@ =~= self@.render_text(content@));
        out
    }
}

} // verus!

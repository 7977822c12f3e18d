//! The divider: a horizontal rule drawn as a top border, rendered once for
//! engines that read CSS and once more, with a width in pixels, for the
//! legacy table-layout engines.

use vstd::prelude::*;
use vstd::string::*;
use crate::attributes::{
    has_key, lemma_merge_lookup, lemma_upsert_absent, lookup, merge, pairs_of, Attributes, Pairs,
};
use crate::body::BodyElement;
use crate::component::{
    container_width, padding_horizontal_of, padding_horizontal_width, size_attribute,
    size_attribute_of, BodyComponent, Component,
};
use crate::condition::{conditional_tag, conditional_text};
use crate::context::Context;
use crate::error::Error;
use crate::header::{effective_defaults, overrides_for, Header, Override};
use crate::parser::Node;
use crate::size::{size_text, Size, SizeView, SCALE};
use crate::tag::{new_tag, table_presentation_tag, Tag, TagView};
use crate::text::str_eq;

verus! {

/// The attributes of a divider that says nothing itself: a solid black
/// border of 4px, 10px of padding above and below and 25px at the sides, and
/// the full width.
pub open spec fn default_attributes() -> Pairs {
    seq![
        ("border-color"@, "#000000"@),
        ("border-style"@, "solid"@),
        ("border-width"@, "4px"@),
        ("padding"@, "10px 25px"@),
        ("width"@, "100%"@),
    ]
}

/// What a divider has once it is parsed: the three parts of its border.
pub open spec fn has_border(attributes: Pairs) -> bool {
    &&& lookup(attributes, "border-style"@) is Some
    &&& lookup(attributes, "border-width"@) is Some
    &&& lookup(attributes, "border-color"@) is Some
}

/// The attributes of a divider made from a node with the attributes `node`
/// and the tag name `tag`: the defaults, under the document-wide overrides
/// for the tag, under what the node itself says.
pub open spec fn divider_attributes(overrides: Seq<Override>, tag: Seq<char>, node: Pairs) -> Pairs {
    merge(effective_defaults(overrides, tag, default_attributes()), node)
}

/// The width, in pixels, that the legacy fragment is given.
///
/// The container width comes from the context, and is 100 where none is
/// set. A percentage is taken of the container's whole width, and the
/// horizontal padding is then taken off that share. An absolute width stands
/// as it is, without the padding taken off. An opaque width is ignored: the
/// result is the container width less the padding; a width of one million
/// or more counts as opaque. Magnitudes are in thousandths, and a share is
/// cut off below the thousandth.
pub open spec fn outlook_width(attributes: Pairs, context: Option<SizeView>) -> SizeView {
    let container = match context {
        Some(c) => c.value(),
        None => 100 * SCALE,
    };
    let padding = padding_horizontal_of(Some(attributes));
    let width = match size_attribute_of(Some(attributes), "width"@) {
        Some(w) => w,
        None => SizeView::Percent(100 * SCALE),
    };
    match width {
        SizeView::Percent(p) => SizeView::Pixel(container * p / (100 * SCALE) - padding),
        SizeView::Pixel(v) => SizeView::Pixel(v),
        SizeView::Raw(_) => SizeView::Pixel(container - padding),
    }
}

/// The `border-top` declaration: style, width and colour of the border.
pub open spec fn border_top(attributes: Pairs) -> Seq<char> {
    lookup(attributes, "border-style"@)->0 + " "@ + lookup(attributes, "border-width"@)->0 + " "@
        + lookup(attributes, "border-color"@)->0
}

/// `tag` with the rules of the slot `p`: the top border, a font size of
/// 1px, centring margins, and the declared width where there is one.
pub open spec fn style_p(attributes: Pairs, tag: TagView) -> TagView {
    let base = tag.with_style("border-top"@, border_top(attributes)).with_style(
        "font-size"@,
        "1px"@,
    ).with_style("margin"@, "0px auto"@);
    match lookup(attributes, "width"@) {
        Some(w) => base.with_style("width"@, w),
        None => base,
    }
}

/// `tag` with the rules of the slot `outlook`: those of `p`, with the width
/// replaced by the one computed in pixels.
pub open spec fn style_outlook(attributes: Pairs, context: Option<SizeView>, tag: TagView)
    -> TagView {
    style_p(attributes, tag).with_style("width"@, size_text(outlook_width(attributes, context)))
}

/// `tag` with the rules of the slot `name`; a slot that the divider does not
/// have leaves the tag as it is.
pub open spec fn divider_styled(
    attributes: Pairs,
    context: Option<SizeView>,
    name: Seq<char>,
    tag: TagView,
) -> TagView {
    if name == "p"@ {
        style_p(attributes, tag)
    } else if name == "outlook"@ {
        style_outlook(attributes, context, tag)
    } else {
        tag
    }
}

/// The fragment for engines that read CSS: an empty paragraph with the
/// rules of the slot `p`.
pub open spec fn primary_fragment(attributes: Pairs) -> Seq<char> {
    style_p(attributes, new_tag("p"@)).render_text(Seq::empty())
}

/// The table of the legacy fragment: a centred layout table with the rules
/// of the slot `outlook`, as wide as [`outlook_width`] says.
pub open spec fn legacy_table(attributes: Pairs, context: Option<SizeView>) -> TagView {
    style_outlook(attributes, context, table_presentation_tag()).with_attribute(
        "align"@,
        "center"@,
    ).with_attribute("width"@, size_text(outlook_width(attributes, context)))
}

/// The cell of the legacy fragment, without height.
pub open spec fn legacy_cell() -> TagView {
    new_tag("td"@).with_style("height"@, "0"@).with_style("line-height"@, "0"@)
}

/// The fragment for the legacy engines: table, row and cell around a
/// non-breaking space, inside a conditional comment.
pub open spec fn legacy_fragment(attributes: Pairs, context: Option<SizeView>) -> Seq<char> {
    conditional_text(
        legacy_table(attributes, context).render_text(
            new_tag("tr"@).render_text(legacy_cell().render_text("&nbsp;"@)),
        ),
    )
}

/// What a divider renders to: the primary fragment, then the legacy one.
pub open spec fn divider_markup(attributes: Pairs, context: Option<SizeView>) -> Seq<char> {
    primary_fragment(attributes) + legacy_fragment(attributes, context)
}

/// The mathematical value of a divider.
pub struct DividerView {
    pub attributes: Pairs,
    pub context: Option<SizeView>,
}

/// A divider element.
#[derive(Debug)]
pub struct MJDivider {
    attributes: Attributes,
    context: Option<Context>,
    children: Vec<BodyElement>,
}

impl View for MJDivider {
    type V = DividerView;

    closed spec fn view(&self) -> DividerView {
        DividerView {
            attributes: self.attributes@,
            context: match self.context {
                Some(c) => Some(c@),
                None => None,
            },
        }
    }
}

/// The default attributes have the three parts of the border, each with its
/// default value, and the defaults for padding and width.
pub proof fn lemma_default_attributes()
    ensures
        lookup(default_attributes(), "border-color"@) == Some("#000000"@),
        lookup(default_attributes(), "border-style"@) == Some("solid"@),
        lookup(default_attributes(), "border-width"@) == Some("4px"@),
        lookup(default_attributes(), "padding"@) == Some("10px 25px"@),
        lookup(default_attributes(), "width"@) == Some("100%"@),
        has_border(default_attributes()),
{
    lemma_keys_differ();
    let d = default_attributes();
    reveal_with_fuel(lookup, 6);
    assert(d.drop_first()[0] == d[1]);
    assert(d.drop_first().drop_first()[0] == d[2]);
    assert(d.drop_first().drop_first().drop_first()[0] == d[3]);
    assert(d.drop_first().drop_first().drop_first().drop_first()[0] == d[4]);
}

/// The five attribute names of the defaults are pairwise distinct.
pub proof fn lemma_keys_differ()
    ensures
        "border-color"@ != "border-style"@,
        "border-color"@ != "border-width"@,
        "border-color"@ != "padding"@,
        "border-color"@ != "width"@,
        "border-style"@ != "border-width"@,
        "border-style"@ != "padding"@,
        "border-style"@ != "width"@,
        "border-width"@ != "padding"@,
        "border-width"@ != "width"@,
        "padding"@ != "width"@,
{
    reveal_strlit("border-color");
    reveal_strlit("border-style");
    reveal_strlit("border-width");
    reveal_strlit("padding");
    reveal_strlit("width");
    assert("border-color"@.len() == 12);
    assert("border-style"@.len() == 12);
    assert("border-width"@.len() == 12);
    assert("padding"@.len() == 7);
    assert("width"@.len() == 5);
    assert("border-color"@[7] == 'c');
    assert("border-style"@[7] == 's');
    assert("border-width"@[7] == 'w');
}

/// A divider keeps the parts of its border whatever the header and the node
/// say, and where neither the overrides for the tag nor the node name an
/// attribute, the divider has it with its default value.
pub proof fn lemma_divider_attributes(
    overrides: Seq<Override>,
    tag: Seq<char>,
    node: Pairs,
    key: Seq<char>,
)
    ensures
        has_border(divider_attributes(overrides, tag, node)),
        !has_key(overrides_for(overrides, tag), key) && !has_key(node, key) ==> lookup(
            divider_attributes(overrides, tag, node),
            key,
        ) == lookup(default_attributes(), key),
{
    lemma_default_attributes();
    let over = overrides_for(overrides, tag);
    let mid = effective_defaults(overrides, tag, default_attributes());
    lemma_merge_lookup(default_attributes(), over, "border-style"@);
    lemma_merge_lookup(default_attributes(), over, "border-width"@);
    lemma_merge_lookup(default_attributes(), over, "border-color"@);
    lemma_merge_lookup(default_attributes(), over, key);
    lemma_merge_lookup(mid, node, "border-style"@);
    lemma_merge_lookup(mid, node, "border-width"@);
    lemma_merge_lookup(mid, node, "border-color"@);
    lemma_merge_lookup(mid, node, key);
}

/// A divider whose node names none of the three parts of the border, in a
/// document that overrides none of them for the node's tag, has each part
/// with its default value.
pub proof fn lemma_border_defaults(overrides: Seq<Override>, tag: Seq<char>, node: Pairs)
    requires
        !has_key(node, "border-color"@),
        !has_key(node, "border-style"@),
        !has_key(node, "border-width"@),
        !has_key(overrides_for(overrides, tag), "border-color"@),
        !has_key(overrides_for(overrides, tag), "border-style"@),
        !has_key(overrides_for(overrides, tag), "border-width"@),
    ensures
        lookup(divider_attributes(overrides, tag, node), "border-color"@) == Some("#000000"@),
        lookup(divider_attributes(overrides, tag, node), "border-style"@) == Some("solid"@),
        lookup(divider_attributes(overrides, tag, node), "border-width"@) == Some("4px"@),
{
    lemma_default_attributes();
    lemma_divider_attributes(overrides, tag, node, "border-color"@);
    lemma_divider_attributes(overrides, tag, node, "border-style"@);
    lemma_divider_attributes(overrides, tag, node, "border-width"@);
}

/// A node without attributes, in a document without overrides, gives a
/// divider exactly the default attributes.
pub proof fn lemma_bare_divider(tag: Seq<char>)
    ensures
        divider_attributes(Seq::empty(), tag, Pairs::empty()) == default_attributes(),
{
}

/// A slot that the divider does not have leaves the tag as it is.
pub proof fn lemma_unknown_slot(
    attributes: Pairs,
    context: Option<SizeView>,
    name: Seq<char>,
    tag: TagView,
)
    requires
        name != "p"@,
        name != "outlook"@,
    ensures
        divider_styled(attributes, context, name, tag) == tag,
{
}

/// The legacy width is a pixel length whatever the attributes and the
/// context are.
pub proof fn lemma_outlook_width_is_pixel(attributes: Pairs, context: Option<SizeView>)
    ensures
        outlook_width(attributes, context) is Pixel,
{
}

impl MJDivider {
    #[verifier::type_invariant]
    spec fn well_formed(self) -> bool {
        has_border(self.attributes@) && self.children@.len() == 0
    }

    /// The default attributes of the kind.
    fn base_attributes() -> (r: Attributes)
        ensures
            r@ == default_attributes(),
    {
        proof {
            lemma_keys_differ();
        }
        let a = Attributes::new();
        proof {
            lemma_upsert_absent(a@, "border-color"@, "#000000"@);
        }
        let a = a.add("border-color", "#000000");
        proof {
            lemma_upsert_absent(a@, "border-style"@, "solid"@);
        }
        let a = a.add("border-style", "solid");
        proof {
            lemma_upsert_absent(a@, "border-width"@, "4px"@);
        }
        let a = a.add("border-width", "4px");
        proof {
            lemma_upsert_absent(a@, "padding"@, "10px 25px"@);
        }
        let a = a.add("padding", "10px 25px");
        proof {
            lemma_upsert_absent(a@, "width"@, "100%"@);
        }
        let a = a.add("width", "100%");
        assert(a@ =~= default_attributes());
        a
    }

    /// The defaults of the kind under the document-wide overrides for the
    /// node's tag name.
    fn default_attributes(node: &Node, header: &Header) -> (r: Attributes)
        ensures
            r@ == effective_defaults(header.default_attributes@, node.name@, default_attributes()),
    {
        header.default_attributes.get_attributes(node, Self::base_attributes())
    }

    /// Makes a divider from a node: the node's attributes over the
    /// document-wide overrides over the defaults, and no context yet. This
    /// never fails.
    pub fn parse(node: &Node, header: &Header) -> (r: Result<MJDivider, Error>)
        ensures
            r matches Ok(d) && d@ == (DividerView {
                attributes: divider_attributes(
                    header.default_attributes@,
                    node.name@,
                    pairs_of(node.attributes@),
                ),
                context: None,
            }) && has_border(d@.attributes),
    {
        let attributes = Self::default_attributes(node, header).concat(node);
        proof {
            lemma_divider_attributes(
                header.default_attributes@,
                node.name@,
                pairs_of(node.attributes@),
                "width"@,
            );
        }
        Ok(MJDivider { attributes, context: None, children: Vec::new() })
    }

    /// Applies the rules of the slot `p` to `tag`.
    fn set_style_p(&self, tag: Tag) -> (r: Tag)
        ensures
            r@ == style_p(self@.attributes, tag@),
    {
        proof {
            use_type_invariant(self);
        }
        let style = self.attributes.get("border-style").unwrap();
        let width = self.attributes.get("border-width").unwrap();
        let color = self.attributes.get("border-color").unwrap();
        let mut border = style.clone();
        border.append(" ");
        border.append(width.as_str());
        border.append(" ");
        border.append(color.as_str());
        tag.set_style("border-top", border.as_str()).set_style("font-size", "1px").set_style(
            "margin",
            "0px auto",
        ).maybe_set_style("width", self.attributes.get("width"))
    }

    /// Applies the rules of the slot `outlook` to `tag`.
    fn set_style_outlook(&self, tag: Tag) -> (r: Tag)
        ensures
            r@ == style_outlook(self@.attributes, self@.context, tag@),
    {
        self.set_style_p(tag).set_style("width", self.get_outlook_width().to_string().as_str())
    }

    /// The width, in pixels, of the legacy fragment. It is always a pixel
    /// length, whatever the declared width is.
    ///
    /// A declared width of one million pixels or more, or of one million
    /// percent or more, is an opaque token to [`Size::parse`] and is treated
    /// as one here: the result is the container width less the padding.
    pub fn get_outlook_width(&self) -> (r: Size)
        ensures
            r@ == outlook_width(self@.attributes, self@.context),
            r@ is Pixel,
    {
        let container_width = match container_width(self.context.as_ref()) {
            Some(value) => value,
            None => Size::Percent(100_000),
        };
        let padding_horizontal = padding_horizontal_width(Some(&self.attributes));
        let width = match size_attribute(Some(&self.attributes), "width") {
            Some(value) => value,
            None => Size::Percent(100_000),
        };
        let container: i64 = container_width.value();
        let padding: i64 = padding_horizontal.value();
        match width {
            Size::Percent(value) => {
                assert(0 <= container * value <= 999_999_999 * 999_999_999) by (nonlinear_arith)
                    requires
                        0 <= container <= 999_999_999,
                        0 <= value <= 999_999_999,
                ;
                Size::Pixel((container * value) / 100_000 - padding)
            },
            Size::Pixel(value) => Size::Pixel(value),
            Size::Raw(_) => Size::Pixel(container - padding),
        }
    }

    /// The fragment for the legacy engines.
    fn render_after(&self) -> (r: String)
        ensures
            r@ == legacy_fragment(self@.attributes, self@.context),
    {
        let width = self.get_outlook_width().to_string();
        let table = self.set_style_outlook(Tag::table_presentation()).set_attribute(
            "align",
            "center",
        ).set_attribute("width", width.as_str());
        let tr = Tag::new("tr");
        let td = Tag::new("td").set_style("height", "0").set_style("line-height", "0");
        let cell = td.render("&nbsp;");
        let row = tr.render(cell.as_str());
        let whole = table.render(row.as_str());
        conditional_tag(whole.as_str())
    }
}

impl Clone for MJDivider {
    fn clone(&self) -> (r: MJDivider)
        ensures
            r@ == self@,
    {
        proof {
            use_type_invariant(self);
        }
        MJDivider {
            attributes: self.attributes.clone(),
            context: match &self.context {
                Some(c) => Some(c.clone()),
                None => None,
            },
            children: Vec::new(),
        }
    }
}

impl Component for MJDivider {
    open spec fn context_view(&self) -> Option<SizeView> {
        self@.context
    }

    open spec fn rendered(&self, header: &Header) -> Result<Seq<char>, Error> {
        Ok(divider_markup(self@.attributes, self@.context))
    }

    fn context(&self) -> (r: Option<&Context>) {
        self.context.as_ref()
    }

    fn set_context(&mut self, ctx: Context)
        ensures
            final(self)@ == (DividerView { context: Some(ctx@), ..old(self)@ }),
    {
        proof {
            use_type_invariant(&*self);
        }
        self.context = Some(ctx);
    }

    fn render(&self, header: &Header) -> (r: Result<String, Error>)
        ensures
            r is Ok,
    {
        let mut out = self.set_style_p(Tag::new("p")).render("");
        out.append(self.render_after().as_str());
        proof {
            reveal_strlit("");
            assert(""@ =~= Seq::<char>::empty());
        }
        Ok(out)
    }
}

impl BodyComponent for MJDivider {
    open spec fn attributes_view(&self) -> Option<Pairs> {
        Some(self@.attributes)
    }

    open spec fn children_view(&self) -> Seq<BodyElement> {
        Seq::empty()
    }

    open spec fn current_width(&self) -> Option<SizeView> {
        None
    }

    open spec fn styled(&self, name: Seq<char>, tag: TagView) -> TagView {
        divider_styled(self@.attributes, self@.context, name, tag)
    }

    fn attributes(&self) -> (r: Option<&Attributes>) {
        Some(&self.attributes)
    }

    fn get_children(&self) -> (r: &Vec<BodyElement>) {
        proof {
            use_type_invariant(self);
        }
        assert(self.children@ =~= Seq::empty());
        &self.children
    }

    fn get_current_width(&self) -> (r: Option<Size>) {
        None
    }

    fn set_style(&self, name: &str, tag: Tag) -> (r: Tag) {
        if str_eq(name, "p") {
            self.set_style_p(tag)
        } else if str_eq(name, "outlook") {
            self.set_style_outlook(tag)
        } else {
            tag
        }
    }
}

} // verus!

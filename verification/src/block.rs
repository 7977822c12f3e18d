//! The kinds of body element whose own markup is produced outside this
//! core. Here each of them has its attributes, its children and its
//! context, and renders to what its children render to.

use vstd::prelude::*;
use vstd::string::*;
use crate::attributes::{merge, pairs_of, Attributes, Pairs};
use crate::body::{
    children_markup, lemma_views_of, parsed_all, views_of, BodyElement, ElementView,
};
use crate::component::{view_of, BodyComponent, Component};
use crate::context::Context;
use crate::error::Error;
use crate::header::{effective_defaults, Header, Override};
use crate::parser::Node;
use crate::size::{Size, SizeView};
use crate::tag::{Tag, TagView};
use crate::text::str_eq;

verus! {

/// A kind of body element other than the divider.
#[derive(Clone, Copy, Debug, PartialEq, Eq, Structural)]
pub enum Kind {
    MJAccordion,
    MJAccordionElement,
    MJButton,
    MJCarousel,
    MJCarouselImage,
    MJColumn,
    MJGroup,
    MJHero,
    MJImage,
    MJNavbar,
    MJNavbarLink,
    MJRaw,
    MJSection,
    MJSocial,
    MJSocialElement,
    MJSpacer,
    MJTable,
    MJText,
    MJWrapper,
}

/// The kind that a tag name stands for in the body of a document, for the
/// names other than that of the divider. The whole name counts, and the
/// case of its letters. A kind that only stands inside another kind has no
/// name here.
pub open spec fn dispatched_kind(name: Seq<char>) -> Option<Kind> {
    if name == "mj-accordion"@ {
        Some(Kind::MJAccordion)
    } else if name == "mj-button"@ {
        Some(Kind::MJButton)
    } else if name == "mj-carousel"@ {
        Some(Kind::MJCarousel)
    } else if name == "mj-column"@ {
        Some(Kind::MJColumn)
    } else if name == "mj-group"@ {
        Some(Kind::MJGroup)
    } else if name == "mj-hero"@ {
        Some(Kind::MJHero)
    } else if name == "mj-image"@ {
        Some(Kind::MJImage)
    } else if name == "mj-navbar"@ {
        Some(Kind::MJNavbar)
    } else if name == "mj-raw"@ {
        Some(Kind::MJRaw)
    } else if name == "mj-section"@ {
        Some(Kind::MJSection)
    } else if name == "mj-social"@ {
        Some(Kind::MJSocial)
    } else if name == "mj-spacer"@ {
        Some(Kind::MJSpacer)
    } else if name == "mj-table"@ {
        Some(Kind::MJTable)
    } else if name == "mj-text"@ {
        Some(Kind::MJText)
    } else if name == "mj-wrapper"@ {
        Some(Kind::MJWrapper)
    } else {
        None
    }
}

/// Each of the fifteen names stands for its namesake, and the name of the
/// divider for none of these kinds.
pub proof fn lemma_dispatch_table()
    ensures
        dispatched_kind("mj-accordion"@) == Some(Kind::MJAccordion),
        dispatched_kind("mj-button"@) == Some(Kind::MJButton),
        dispatched_kind("mj-carousel"@) == Some(Kind::MJCarousel),
        dispatched_kind("mj-column"@) == Some(Kind::MJColumn),
        dispatched_kind("mj-group"@) == Some(Kind::MJGroup),
        dispatched_kind("mj-hero"@) == Some(Kind::MJHero),
        dispatched_kind("mj-image"@) == Some(Kind::MJImage),
        dispatched_kind("mj-navbar"@) == Some(Kind::MJNavbar),
        dispatched_kind("mj-raw"@) == Some(Kind::MJRaw),
        dispatched_kind("mj-section"@) == Some(Kind::MJSection),
        dispatched_kind("mj-social"@) == Some(Kind::MJSocial),
        dispatched_kind("mj-spacer"@) == Some(Kind::MJSpacer),
        dispatched_kind("mj-table"@) == Some(Kind::MJTable),
        dispatched_kind("mj-text"@) == Some(Kind::MJText),
        dispatched_kind("mj-wrapper"@) == Some(Kind::MJWrapper),
        dispatched_kind("mj-divider"@) is None,
{
    reveal_strlit("mj-accordion");
    reveal_strlit("mj-button");
    reveal_strlit("mj-carousel");
    reveal_strlit("mj-column");
    reveal_strlit("mj-divider");
    reveal_strlit("mj-group");
    reveal_strlit("mj-hero");
    reveal_strlit("mj-image");
    reveal_strlit("mj-navbar");
    reveal_strlit("mj-raw");
    reveal_strlit("mj-section");
    reveal_strlit("mj-social");
    reveal_strlit("mj-spacer");
    reveal_strlit("mj-table");
    reveal_strlit("mj-text");
    reveal_strlit("mj-wrapper");
    assert("mj-accordion"@.len() == 12);
    assert("mj-carousel"@.len() == 11);
    assert("mj-raw"@.len() == 6);
    assert("mj-divider"@.len() == 10 && "mj-divider"@[3] == 'd');
    assert("mj-section"@.len() == 10 && "mj-section"@[3] == 's');
    assert("mj-wrapper"@.len() == 10 && "mj-wrapper"@[3] == 'w');
    assert("mj-button"@.len() == 9 && "mj-button"@[3] == 'b');
    assert("mj-column"@.len() == 9 && "mj-column"@[3] == 'c');
    assert("mj-navbar"@.len() == 9 && "mj-navbar"@[3] == 'n');
    assert("mj-social"@.len() == 9 && "mj-social"@[3] == 's' && "mj-social"@[4] == 'o');
    assert("mj-spacer"@.len() == 9 && "mj-spacer"@[3] == 's' && "mj-spacer"@[4] == 'p');
    assert("mj-group"@.len() == 8 && "mj-group"@[3] == 'g');
    assert("mj-image"@.len() == 8 && "mj-image"@[3] == 'i');
    assert("mj-table"@.len() == 8 && "mj-table"@[3] == 't');
    assert("mj-hero"@.len() == 7 && "mj-hero"@[3] == 'h');
    assert("mj-text"@.len() == 7 && "mj-text"@[3] == 't');
}

/// The mathematical value of a [`Block`].
pub struct BlockView {
    pub attributes: Pairs,
    pub children: Seq<ElementView>,
    pub context: Option<SizeView>,
}

/// The attributes that may come from a parent, or none.
pub open spec fn extra_pairs(extra: Option<Pairs>) -> Pairs {
    match extra {
        Some(p) => p,
        None => Pairs::empty(),
    }
}

/// What a node becomes as a block: its attributes are those of the node
/// over those handed down by the parent over the document-wide overrides
/// for the node's tag name; its children are what the node's children
/// parse to; it has no context yet.
pub open spec fn block_parsed(node: Node, overrides: Seq<Override>, extra: Option<Pairs>)
    -> BlockView
    decreases node, 0nat,
{
    BlockView {
        attributes: merge(
            merge(effective_defaults(overrides, node.name@, Pairs::empty()), extra_pairs(extra)),
            pairs_of(node.attributes@),
        ),
        children: parsed_all(node.children@, overrides),
        context: None,
    }
}

/// A body element of a kind whose own markup is produced elsewhere.
#[derive(Debug)]
pub struct Block {
    attributes: Attributes,
    children: Vec<BodyElement>,
    context: Option<Context>,
}

impl View for Block {
    type V = BlockView;

    closed spec fn view(&self) -> BlockView
        decreases self,
    {
        BlockView {
            attributes: self.attributes@,
            children: views_of(self.children@),
            context: match self.context {
                Some(c) => Some(c@),
                None => None,
            },
        }
    }
}

impl Kind {
    /// The kind that a tag name stands for, if it stands for one.
    pub fn of_tag(name: &str) -> (r: Option<Kind>)
        ensures
            r == dispatched_kind(name@),
    {
        if str_eq(name, "mj-accordion") {
            Some(Kind::MJAccordion)
        } else if str_eq(name, "mj-button") {
            Some(Kind::MJButton)
        } else if str_eq(name, "mj-carousel") {
            Some(Kind::MJCarousel)
        } else if str_eq(name, "mj-column") {
            Some(Kind::MJColumn)
        } else if str_eq(name, "mj-group") {
            Some(Kind::MJGroup)
        } else if str_eq(name, "mj-hero") {
            Some(Kind::MJHero)
        } else if str_eq(name, "mj-image") {
            Some(Kind::MJImage)
        } else if str_eq(name, "mj-navbar") {
            Some(Kind::MJNavbar)
        } else if str_eq(name, "mj-raw") {
            Some(Kind::MJRaw)
        } else if str_eq(name, "mj-section") {
            Some(Kind::MJSection)
        } else if str_eq(name, "mj-social") {
            Some(Kind::MJSocial)
        } else if str_eq(name, "mj-spacer") {
            Some(Kind::MJSpacer)
        } else if str_eq(name, "mj-table") {
            Some(Kind::MJTable)
        } else if str_eq(name, "mj-text") {
            Some(Kind::MJText)
        } else if str_eq(name, "mj-wrapper") {
            Some(Kind::MJWrapper)
        } else {
            None
        }
    }
}

impl Block {
    /// Makes a block from a node. `extra` holds attributes that the parent
    /// hands down; the node's own attributes win over them, and they win
    /// over the document-wide overrides. The node's children are parsed as
    /// body elements. This never fails of itself.
    pub fn parse(node: &Node, header: &Header, extra: Option<&Attributes>) -> (r: Result<
        Block,
        Error,
    >)
        ensures
            r matches Ok(b) && b@ == block_parsed(
                *node,
                header.default_attributes@,
                view_of(extra),
            ),
        decreases node, 0nat,
    {
        let defaults = header.default_attributes.get_attributes(node, Attributes::new());
        let handed = match extra {
            Some(e) => defaults.merge(e),
            None => defaults,
        };
        let attributes = handed.concat(node);
        let mut children: Vec<BodyElement> = Vec::new();
        let mut i: usize = 0;
        while i < node.children.len()
            invariant
                i <= node.children.len(),
                views_of(children@) == parsed_all(
                    node.children@.take(i as int),
                    header.default_attributes@,
                ),
            decreases node.children.len() - i,
        {
            let child = BodyElement::parse(&node.children[i], header, None)?;
            proof {
                assert(node.children@.take(i + 1).drop_last() =~= node.children@.take(i as int));
                assert(children@.push(child).drop_last() =~= children@);
            }
            children.push(child);
            i += 1;
        }
        assert(node.children@.take(i as int) =~= node.children@);
        Ok(Block { attributes, children, context: None })
    }
}

impl Clone for Block {
    fn clone(&self) -> (r: Block)
        ensures
            r@ == self@,
        decreases self,
    {
        let mut children: Vec<BodyElement> = Vec::new();
        let mut i: usize = 0;
        while i < self.children.len()
            invariant
                i <= self.children.len(),
                children@.len() == i,
                views_of(children@) == views_of(self.children@.take(i as int)),
            decreases self.children.len() - i,
        {
            let child = self.children[i].clone();
            proof {
                assert(self.children@.take(i + 1).drop_last() =~= self.children@.take(i as int));
                assert(children@.push(child).drop_last() =~= children@);
            }
            children.push(child);
            i += 1;
        }
        assert(self.children@.take(i as int) =~= self.children@);
        Block {
            attributes: self.attributes.clone(),
            children,
            context: match &self.context {
                Some(c) => Some(c.clone()),
                None => None,
            },
        }
    }
}

impl Component for Block {
    open spec fn context_view(&self) -> Option<SizeView> {
        self@.context
    }

    open spec fn rendered(&self, header: &Header) -> Result<Seq<char>, Error> {
        Ok(children_markup(self@.children))
    }

    fn context(&self) -> (r: Option<&Context>) {
        self.context.as_ref()
    }

    fn set_context(&mut self, ctx: Context)
        ensures
            final(self)@ == (BlockView { context: Some(ctx@), ..old(self)@ }),
    {
        self.context = Some(ctx);
    }

    fn render(&self, header: &Header) -> (r: Result<String, Error>)
        ensures
            r is Ok,
        decreases self,
    {
        let mut out = String::from_str("");
        proof {
            reveal_strlit("");
            assert(out@ =~= Seq::<char>::empty());
        }
        let mut i: usize = 0;
        while i < self.children.len()
            invariant
                i <= self.children.len(),
                out@ == children_markup(views_of(self.children@.take(i as int))),
            decreases self.children.len() - i,
        {
            let piece = self.children[i].render(header)?;
            proof {
                let next = self.children@.take(i + 1);
                assert(next.drop_last() =~= self.children@.take(i as int));
                assert(views_of(next).drop_last() =~= views_of(self.children@.take(i as int)));
            }
            out.append(piece.as_str());
            i += 1;
        }
        assert(self.children@.take(i as int) =~= self.children@);
        Ok(out)
    }
}

impl BodyComponent for Block {
    open spec fn attributes_view(&self) -> Option<Pairs> {
        Some(self@.attributes)
    }

    closed spec fn children_view(&self) -> Seq<BodyElement> {
        self.children@
    }

    open spec fn current_width(&self) -> Option<SizeView> {
        None
    }

    open spec fn styled(&self, name: Seq<char>, tag: TagView) -> TagView {
        tag
    }

    fn attributes(&self) -> (r: Option<&Attributes>) {
        Some(&self.attributes)
    }

    fn get_children(&self) -> (r: &Vec<BodyElement>)
        ensures
            views_of(r@) == self@.children,
    {
        &self.children
    }

    fn get_current_width(&self) -> (r: Option<Size>) {
        None
    }

    fn set_style(&self, name: &str, tag: Tag) -> (r: Tag) {
        tag
    }
}

} // verus!

//! Document-wide settings, collected before anything is rendered.

use vstd::prelude::*;
use vstd::string::*;
use crate::attributes::{merge, Attributes, Pairs};
use crate::parser::Node;
use crate::text::str_eq;

verus! {

/// One document-wide default: for elements with tag name `tag`, the
/// attribute `key` is `value` unless the element says otherwise.
pub type Override = (Seq<char>, Seq<char>, Seq<char>);

/// The overrides that apply to `tag`, as attributes, in the order in which
/// they were registered.
pub open spec fn overrides_for(entries: Seq<Override>, tag: Seq<char>) -> Pairs
    decreases entries.len(),
{
    if entries.len() == 0 {
        Pairs::empty()
    } else if entries.last().0 == tag {
        overrides_for(entries.drop_last(), tag).push((entries.last().1, entries.last().2))
    } else {
        overrides_for(entries.drop_last(), tag)
    }
}

/// The effective defaults of an element with tag name `tag`: the
/// document-wide overrides for the tag layered over the defaults of its
/// kind.
pub open spec fn effective_defaults(entries: Seq<Override>, tag: Seq<char>, base: Pairs) -> Pairs {
    merge(base, overrides_for(entries, tag))
}

/// The registry of default-attribute overrides, keyed by tag name.
#[derive(Debug)]
pub struct DefaultAttributes {
    entries: Vec<(String, String, String)>,
}

impl View for DefaultAttributes {
    type V = Seq<Override>;

    closed spec fn view(&self) -> Seq<Override> {
        Seq::new(
            self.entries@.len(),
            |i: int| (self.entries@[i].0@, self.entries@[i].1@, self.entries@[i].2@),
        )
    }
}

impl DefaultAttributes {
    /// A registry without overrides.
    pub fn new() -> (r: DefaultAttributes)
        ensures
            r@ == Seq::<Override>::empty(),
    {
        let r = DefaultAttributes { entries: Vec::new() };
        assert(r@ =~= Seq::<Override>::empty());
        r
    }

    /// Registers, after those already there, that elements named `tag` have
    /// `key` set to `value` by default.
    pub fn add(&mut self, tag: &str, key: &str, value: &str)
        ensures
            final(self)@ == old(self)@.push((tag@, key@, value@)),
    {
        self.entries.push((tag.to_owned(), key.to_owned(), value.to_owned()));
        assert(self@ =~= old(self)@.push((tag@, key@, value@)));
    }

    /// The defaults of the node's kind, `base`, with the overrides for the
    /// node's tag name layered over them.
    pub fn get_attributes(&self, node: &Node, base: Attributes) -> (r: Attributes)
        ensures
            r@ == effective_defaults(self@, node.name@, base@),
    {
        let mut r = base;
        let mut i: usize = 0;
        while i < self.entries.len()
            invariant
                i <= self.entries.len(),
                r@ == merge(base@, overrides_for(self@.take(i as int), node.name@)),
            decreases self.entries.len() - i,
        {
            proof {
                assert(self@.take(i + 1).drop_last() =~= self@.take(i as int));
                let found = overrides_for(self@.take(i as int), node.name@);
                let e = self@[i as int];
                assert(found.push((e.1, e.2)).drop_last() =~= found);
            }
            if str_eq(self.entries[i].0.as_str(), node.name.as_str()) {
                r = r.add(self.entries[i].1.as_str(), self.entries[i].2.as_str());
            }
            i += 1;
        }
        assert(self@.take(i as int) =~= self@);
        r
    }
}

/// What the whole document shares. It is filled before rendering starts and
/// only read while elements render.
#[derive(Debug)]
pub struct Header {
    pub default_attributes: DefaultAttributes,
}

impl Header {
    /// A header without any override.
    pub fn new() -> (r: Header)
        ensures
            r.default_attributes@ == Seq::<Override>::empty(),
    {
        Header { default_attributes: DefaultAttributes::new() }
    }
}

} // verus!

//! Hierarchical paths: a structural builder, its wire form, and the
//! slash-delimited shorthand.
use crate::gnmi::{GnmiPath, PathElem};
use std::collections::HashMap;
use vstd::prelude::*;

verus! {

/// What a path element means: its name and its attributes.
pub struct ElementModel {
    pub name: Seq<char>,
    pub attributes: Map<String, String>,
}

/// What a path means: target, origin and the ordered elements.
pub struct PathModel {
    pub target: Seq<char>,
    pub origin: Seq<char>,
    pub elements: Seq<ElementModel>,
}

impl PathModel {
    /// Every element has a non-empty name.
    pub open spec fn named(self) -> bool {
        forall|i: int| 0 <= i < self.elements.len() ==> #[trigger] self.elements[i].name.len() > 0
    }
}

impl View for PathElem {
    type V = ElementModel;

    open spec fn view(&self) -> ElementModel {
        ElementModel { name: self.name@, attributes: self.key@ }
    }
}

impl View for GnmiPath {
    type V = PathModel;

    open spec fn view(&self) -> PathModel {
        PathModel {
            target: self.target@,
            origin: self.origin@,
            elements: self.elem@.map_values(|e: PathElem| e@),
        }
    }
}

/// One step of a structural path. Its name is never empty.
#[derive(Debug)]
pub struct PathElement {
    name: String,
    values: HashMap<String, String>,
}

impl View for PathElement {
    type V = ElementModel;

    closed spec fn view(&self) -> ElementModel {
        ElementModel { name: self.name@, attributes: self.values@ }
    }
}

impl Clone for PathElement {
    fn clone(&self) -> (r: PathElement)
        ensures
            r@ == self@,
    {
        proof {
            use_type_invariant(self);
        }
        PathElement { name: self.name.clone(), values: self.values.clone() }
    }
}

impl PathElement {
    #[verifier::type_invariant]
    spec fn named(self) -> bool {
        self.name@.len() > 0
    }

    pub fn new(name: &str, values: HashMap<String, String>) -> (r: PathElement)
        requires
            name@.len() > 0,
        ensures
            r@ == (ElementModel { name: name@, attributes: values@ }),
    {
        PathElement { name: String::from_str(name), values }
    }

    /// The element in wire form; name and attributes are carried over verbatim.
    pub fn to_wire(&self) -> (r: PathElem)
        ensures
            r@ == self@,
            r@.name.len() > 0,
    {
        proof {
            use_type_invariant(self);
        }
        PathElem { name: self.name.clone(), key: self.values.clone() }
    }
}

/// A hierarchical address: target, origin and an ordered sequence of elements.
/// The order of the elements is part of the address.
#[derive(Debug, Clone)]
pub struct Path {
    target: String,
    origin: String,
    elements: Vec<PathElement>,
}

impl View for Path {
    type V = PathModel;

    closed spec fn view(&self) -> PathModel {
        PathModel {
            target: self.target@,
            origin: self.origin@,
            elements: self.elements@.map_values(|e: PathElement| e@),
        }
    }
}

impl Path {
    pub fn new(target: &str, origin: &str) -> (r: Path)
        ensures
            r@ == (PathModel { target: target@, origin: origin@, elements: Seq::empty() }),
    {
        let r = Path {
            target: String::from_str(target),
            origin: String::from_str(origin),
            elements: Vec::new(),
        };
        assert(r@.elements =~= Seq::empty());
        r
    }

    /// Appends an element after the ones already there.
    pub fn push(&mut self, name: &str, values: HashMap<String, String>)
        requires
            name@.len() > 0,
        ensures
            final(self)@ == (PathModel {
                elements: old(self)@.elements.push(ElementModel { name: name@, attributes: values@ }),
                ..old(self)@
            }),
    {
        self.elements.push(PathElement::new(name, values));
        assert(self@.elements =~= old(self)@.elements.push(
            ElementModel { name: name@, attributes: values@ },
        ));
    }

    /// The path in wire form: one wire element per element, in the same order,
    /// with target and origin unchanged. Nothing is escaped or normalised.
    pub fn to_wire(&self) -> (r: GnmiPath)
        ensures
            r@ == self@,
            r@.named(),
    {
        let mut elem: Vec<PathElem> = Vec::new();
        let mut i: usize = 0;
        while i < self.elements.len()
            invariant
                i <= self.elements.len(),
                elem.len() == i,
                elem@.map_values(|e: PathElem| e@) =~= self@.elements.take(i as int),
                forall|j: int| 0 <= j < i ==> #[trigger] elem@[j]@.name.len() > 0,
            decreases self.elements.len() - i,
        {
            let e = self.elements[i].to_wire();
            elem.push(e);
            i = i + 1;
            assert(elem@.map_values(|e: PathElem| e@) =~= self@.elements.take(i as int));
        }
        assert(self@.elements.take(i as int) =~= self@.elements);
        let r = GnmiPath { origin: self.origin.clone(), elem, target: self.target.clone() };
        assert(forall|j: int|
            0 <= j < r@.elements.len() ==> #[trigger] r@.elements[j] == elem@[j]@);
        r
    }

    /// Reads a path back from its wire form; `None` when an element has an
    /// empty name, which no structural path holds.
    pub fn from_wire(p: &GnmiPath) -> (r: Option<Path>)
        ensures
            r is Some <==> p@.named(),
            r matches Some(q) ==> q@ == p@,
    {
        let mut elements: Vec<PathElement> = Vec::new();
        let mut i: usize = 0;
        while i < p.elem.len()
            invariant
                i <= p.elem.len(),
                elements.len() == i,
                elements@.map_values(|e: PathElement| e@) =~= p@.elements.take(i as int),
                forall|j: int| 0 <= j < i ==> #[trigger] p@.elements[j].name.len() > 0,
            decreases p.elem.len() - i,
        {
            let e = &p.elem[i];
            if e.name.as_str().unicode_len() == 0 {
                assert(p@.elements[i as int] == e@);
                assert(p@.elements[i as int].name.len() == 0);
                return None;
            }
            elements.push(PathElement::new(e.name.as_str(), e.key.clone()));
            i = i + 1;
            assert(elements@.map_values(|e: PathElement| e@) =~= p@.elements.take(i as int));
        }
        assert(p@.elements.take(i as int) =~= p@.elements);
        let q = Path { target: p.target.clone(), origin: p.origin.clone(), elements };
        Some(q)
    }
}

impl Default for Path {
    /// A path without target, origin or elements.
    fn default() -> (r: Path)
        ensures
            r@ == (PathModel { target: Seq::empty(), origin: Seq::empty(), elements: Seq::empty() }),
    {
        let r = Path { target: String::new(), origin: String::new(), elements: Vec::new() };
        assert(r@.elements =~= Seq::empty());
        r
    }
}

/// The pieces of `s` between `/` separators, empty pieces included.
pub open spec fn pieces(s: Seq<char>) -> Seq<Seq<char>>
    decreases s.len(),
{
    if s.len() == 0 {
        seq![Seq::empty()]
    } else {
        let p = pieces(s.drop_last());
        if s.last() == '/' {
            p.push(Seq::empty())
        } else {
            p.update(p.len() - 1, p.last().push(s.last()))
        }
    }
}

/// The element names that the shorthand `s` stands for: one per non-empty
/// piece between `/` separators, or `s` itself when it holds no `/`.
pub open spec fn shorthand_names(s: Seq<char>) -> Seq<Seq<char>> {
    if s.contains('/') {
        pieces(s).filter(|x: Seq<char>| x.len() > 0)
    } else {
        seq![s]
    }
}

/// One element per name, in the same order, each without attributes.
pub open spec fn bare_elements(names: Seq<Seq<char>>) -> Seq<ElementModel> {
    names.map_values(|n: Seq<char>| ElementModel { name: n, attributes: Map::empty() })
}

/// The wire path that the shorthand `s` stands for: no target, no origin, and
/// one element per name, each without attributes.
pub open spec fn shorthand_path(s: Seq<char>) -> PathModel {
    PathModel { target: Seq::empty(), origin: Seq::empty(), elements: bare_elements(shorthand_names(s)) }
}

/// A structural path survives the trip to wire form and back: whatever
/// `to_wire` makes of `p` (`wire`), `from_wire` reads back (`back`) as a path
/// with the same target and origin and the same elements, in the same order
/// and with the same attributes.
pub proof fn lemma_wire_round_trip(p: Path, wire: GnmiPath, back: Option<Path>)
    requires
        wire@ == p@,
        wire@.named(),
        back is Some <==> wire@.named(),
        back matches Some(q) ==> q@ == wire@,
    ensures
        back matches Some(q) && q@ == p@,
{
}

} // verus!

use crate::text::str_eq;
use vstd::prelude::*;

verus! {

/// One available print size of a paper type, with its price.
#[derive(Debug, Clone, PartialEq, Eq)]
pub struct PaperSize {
    pub size: String,
    pub price: i32,
}

/// The model of a size entry.
#[verifier::ext_equal]
pub struct SizeV {
    pub size: Seq<char>,
    pub price: int,
}

impl View for PaperSize {
    type V = SizeV;

    open spec fn view(&self) -> SizeV {
        SizeV { size: self.size@, price: self.price as int }
    }
}

impl DeepView for PaperSize {
    type V = SizeV;

    open spec fn deep_view(&self) -> SizeV {
        self.view()
    }
}

/// One paper type of the catalog, with its ordered sizes.
#[derive(Debug, Clone, PartialEq, Eq)]
pub struct PaperType {
    pub name: String,
    pub sizes: Vec<PaperSize>,
}

/// The model of a paper type.
#[verifier::ext_equal]
pub struct PaperTypeV {
    pub name: Seq<char>,
    pub sizes: Seq<SizeV>,
}

impl View for PaperType {
    type V = PaperTypeV;

    open spec fn view(&self) -> PaperTypeV {
        PaperTypeV { name: self.name@, sizes: self.sizes.deep_view() }
    }
}

impl DeepView for PaperType {
    type V = PaperTypeV;

    open spec fn deep_view(&self) -> PaperTypeV {
        self.view()
    }
}

/// The ordered names of a catalog's paper types.
pub open spec fn names_of(cat: Seq<PaperTypeV>) -> Seq<Seq<char>> {
    Seq::new(cat.len(), |i: int| cat[i].name)
}

/// The sizes of the first paper type with the given name, and no sizes at
/// all when the catalog has no such paper.
pub open spec fn sizes_of(cat: Seq<PaperTypeV>, name: Seq<char>) -> Seq<SizeV>
    decreases cat.len(),
{
    if cat.len() == 0 {
        Seq::empty()
    } else if cat[0].name == name {
        cat[0].sizes
    } else {
        sizes_of(cat.subrange(1, cat.len() as int), name)
    }
}

/// The catalog: an ordered list of paper types, 1-based indices into it
/// and into each size list are the only valid user selections.
#[derive(Debug, Clone)]
pub struct Paper {
    pub paper: Vec<PaperType>,
}

impl View for Paper {
    type V = Seq<PaperTypeV>;

    open spec fn view(&self) -> Seq<PaperTypeV> {
        self.paper.deep_view()
    }
}

fn clone_sizes(v: &Vec<PaperSize>) -> (r: Vec<PaperSize>)
    ensures
        r.deep_view() == v.deep_view(),
{
    let mut r: Vec<PaperSize> = Vec::new();
    let mut i: usize = 0;
    while i < v.len()
        invariant
            0 <= i <= v.len(),
            r@.len() == i,
            forall|j: int| 0 <= j < i ==> r@[j]@ == v@[j]@,
        decreases v.len() - i,
    {
        let s = PaperSize { size: v[i].size.clone(), price: v[i].price };
        r.push(s);
        i += 1;
    }
    proof {
        assert(r.deep_view() =~= v.deep_view());
    }
    r
}

impl Paper {
    /// A catalog over the given paper types.
    pub fn new(paper: Vec<PaperType>) -> (p: Paper)
        ensures
            p@ == paper.deep_view(),
    {
        Paper { paper }
    }

    /// The ordered paper names, for prompts and for resolving selections.
    pub fn paper_vec(&self) -> (r: Vec<String>)
        ensures
            r.deep_view() == names_of(self@),
    {
        let mut r: Vec<String> = Vec::new();
        let mut i: usize = 0;
        while i < self.paper.len()
            invariant
                0 <= i <= self.paper.len(),
                r@.len() == i,
                forall|j: int| 0 <= j < i ==> r@[j]@ == self.paper@[j]@.name,
            decreases self.paper.len() - i,
        {
            r.push(self.paper[i].name.clone());
            i += 1;
        }
        proof {
            assert(r.deep_view() =~= names_of(self@));
        }
        r
    }

    /// The sizes of the named paper type, empty when the name is unknown.
    pub fn sizes_by_paper(&self, paper: &str) -> (r: Vec<PaperSize>)
        ensures
            r.deep_view() == sizes_of(self@, paper@),
    {
        let mut i: usize = 0;
        proof {
            assert(self@.subrange(0, self@.len() as int) =~= self@);
        }
        while i < self.paper.len()
            invariant
                0 <= i <= self.paper.len(),
                sizes_of(self@, paper@) == sizes_of(
                    self@.subrange(i as int, self@.len() as int),
                    paper@,
                ),
            decreases self.paper.len() - i,
        {
            proof {
                let rest = self@.subrange(i as int, self@.len() as int);
                assert(rest[0] == self@[i as int]);
                assert(rest.subrange(1, rest.len() as int) =~= self@.subrange(
                    i as int + 1,
                    self@.len() as int,
                ));
            }
            if str_eq(self.paper[i].name.as_str(), paper) {
                return clone_sizes(&self.paper[i].sizes);
            }
            i += 1;
        }
        proof {
            assert(self@.subrange(self@.len() as int, self@.len() as int) =~= Seq::<
                PaperTypeV,
            >::empty());
        }
        Vec::new()
    }
}

} // verus!

//! Paths into a configuration tree.

use vstd::prelude::*;

verus! {

/// The location of a value in a configuration tree: the keys that lead to it
/// from the root, outermost first.
#[derive(Debug, Clone, PartialEq, Eq)]
pub struct ConfigPath {
    pub segments: Vec<String>,
}

impl View for ConfigPath {
    type V = Seq<Seq<char>>;

    open spec fn view(&self) -> Seq<Seq<char>> {
        self.segments.deep_view()
    }
}

impl DeepView for ConfigPath {
    type V = Seq<Seq<char>>;

    open spec fn deep_view(&self) -> Seq<Seq<char>> {
        self@
    }
}

impl ConfigPath {
    /// The path of the root: no segments.
    pub fn new() -> (path: ConfigPath)
        ensures
            path@ == Seq::<Seq<char>>::empty(),
    {
        let path = ConfigPath { segments: Vec::new() };
        assert(path@ =~= Seq::<Seq<char>>::empty());
        path
    }

    /// The number of segments.
    pub fn len(&self) -> (n: usize)
        ensures
            n == self@.len(),
    {
        self.segments.len()
    }

    /// A copy of this path, segment by segment.
    pub fn duplicate(&self) -> (copy: ConfigPath)
        ensures
            copy@ == self@,
    {
        let mut segments: Vec<String> = Vec::new();
        let mut i: usize = 0;
        while i < self.segments.len()
            invariant
                i <= self.segments.len(),
                segments@.len() == i,
                forall|j: int| 0 <= j < i ==> segments@[j]@ == (#[trigger] self.segments@[j])@,
            decreases self.segments.len() - i,
        {
            let segment = self.segments[i].clone();
            segments.push(segment);
            i += 1;
        }
        let copy = ConfigPath { segments };
        assert(copy@ =~= self@);
        copy
    }

    /// This path with one more segment at its end.
    pub fn join(&self, part: &str) -> (longer: ConfigPath)
        ensures
            longer@ == self@.push(part@),
    {
        let mut longer = self.duplicate();
        longer.segments.push(part.to_owned());
        assert(longer@ =~= self@.push(part@));
        longer
    }
}

} // verus!

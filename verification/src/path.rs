//! The dialog's navigation cursor: a directory path kept as its sequence of
//! components, from the filesystem root downwards.  An empty sequence stands
//! for the root itself.

use vstd::prelude::*;

verus! {

/// A directory path as a sequence of path components.
#[derive(Debug, PartialEq, Eq)]
pub struct DirPath {
    pub components: Vec<String>,
}

impl View for DirPath {
    type V = Seq<Seq<char>>;

    open spec fn view(&self) -> Seq<Seq<char>> {
        self.components@.map_values(|c: String| c@)
    }
}

/// The parent of a path; the root is its own parent.
pub open spec fn parent_of(p: Seq<Seq<char>>) -> Seq<Seq<char>> {
    if p.len() == 0 {
        p
    } else {
        p.drop_last()
    }
}

/// Descending into a child directory and going back returns to the same
/// path.
pub proof fn lemma_child_parent_round_trip(p: Seq<Seq<char>>, name: Seq<char>)
    ensures
        parent_of(p.push(name)) == p,
{
    assert(p.push(name).drop_last() =~= p);
}

/// Copies a component list.
fn clone_components(v: &Vec<String>) -> (r: Vec<String>)
    ensures
        r@ == v@,
{
    let mut r: Vec<String> = Vec::new();
    let mut i: usize = 0;
    while i < v.len()
        invariant
            i <= v.len(),
            r@ =~= v@.take(i as int),
        decreases v.len() - i,
    {
        r.push(v[i].clone());
        i += 1;
    }
    proof {
        assert(v@.take(v@.len() as int) =~= v@);
    }
    r
}

impl DirPath {
    /// The root path, with no components.
    pub fn root() -> (r: DirPath)
        ensures
            r@ == Seq::<Seq<char>>::empty(),
    {
        let r = DirPath { components: Vec::new() };
        proof {
            assert(r@ =~= Seq::<Seq<char>>::empty());
        }
        r
    }

    /// The number of components.
    pub fn depth(&self) -> (n: usize)
        ensures
            n == self@.len(),
    {
        self.components.len()
    }

    /// A copy of this path.
    pub fn duplicate(&self) -> (r: DirPath)
        ensures
            r@ == self@,
    {
        DirPath { components: clone_components(&self.components) }
    }

    /// The path of the named child directory or file.
    pub fn child(&self, name: &str) -> (r: DirPath)
        ensures
            r@ == self@.push(name@),
    {
        let mut components = clone_components(&self.components);
        components.push(String::from_str(name));
        let r = DirPath { components };
        proof {
            assert(r@ =~= self@.push(name@));
        }
        r
    }

    /// The parent path; at the root the path is unchanged.
    pub fn parent(&self) -> (r: DirPath)
        ensures
            r@ == parent_of(self@),
    {
        let mut components = clone_components(&self.components);
        if components.len() > 0 {
            let _last = components.pop();
        }
        let r = DirPath { components };
        proof {
            assert(r@ =~= parent_of(self@));
        }
        r
    }

    /// The ancestor made of the first `count` components.
    pub fn ancestor(&self, count: usize) -> (r: DirPath)
        requires
            count <= self@.len(),
        ensures
            r@ == self@.take(count as int),
    {
        let mut components: Vec<String> = Vec::new();
        let mut i: usize = 0;
        while i < count
            invariant
                i <= count,
                count <= self.components@.len(),
                components@ =~= self.components@.take(i as int),
            decreases count - i,
        {
            components.push(self.components[i].clone());
            i += 1;
        }
        let r = DirPath { components };
        proof {
            assert(r@ =~= self@.take(count as int));
        }
        r
    }
}

} // verus!

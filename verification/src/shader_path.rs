//! Shader source paths as sequences of components, and what it means for a
//! changed file to be a registered source.

use vstd::prelude::*;

verus! {

/// A path, one string per component, outermost first.
#[derive(Clone, PartialEq, Eq, Debug)]
pub struct ShaderPath {
    pub components: Vec<String>,
}

impl View for ShaderPath {
    type V = Seq<Seq<char>>;

    open spec fn view(&self) -> Seq<Seq<char>> {
        Seq::new(self.components@.len(), |i: int| self.components@[i]@)
    }
}

/// Whether the last components of `path` are exactly those of `suffix`.
/// Only whole components count; the empty path ends every path.
pub open spec fn path_ends_with(path: Seq<Seq<char>>, suffix: Seq<Seq<char>>) -> bool {
    suffix.len() <= path.len() && path.subrange(path.len() - suffix.len(), path.len() as int)
        == suffix
}

impl ShaderPath {
    /// The path with the given components.
    pub fn new(components: Vec<String>) -> (path: Self)
        ensures
            path.components == components,
    {
        ShaderPath { components }
    }

    /// A copy with the same components.
    pub fn duplicate(&self) -> (copy: Self)
        ensures
            copy@ == self@,
    {
        let mut components: Vec<String> = Vec::new();
        let mut i: usize = 0;
        while i < self.components.len()
            invariant
                i <= self.components.len(),
                components@.len() == i,
                forall|j: int| 0 <= j < i ==> #[trigger] components@[j]@ == self.components@[j]@,
            decreases self.components.len() - i,
        {
            components.push(self.components[i].clone());
            i += 1;
        }
        let copy = ShaderPath { components };
        proof {
            assert(copy@ =~= self@);
        }
        copy
    }

    /// Tells whether two paths have the same components.
    pub fn same_as(&self, other: &ShaderPath) -> (same: bool)
        ensures
            same == (self@ == other@),
    {
        if self.components.len() != other.components.len() {
            proof {
                assert(self@.len() != other@.len());
            }
            return false;
        }
        let mut i: usize = 0;
        while i < self.components.len()
            invariant
                self.components.len() == other.components.len(),
                i <= self.components.len(),
                forall|j: int| 0 <= j < i ==> #[trigger] self@[j] == other@[j],
            decreases self.components.len() - i,
        {
            if self.components[i] != other.components[i] {
                proof {
                    assert(self@[i as int] != other@[i as int]);
                }
                return false;
            }
            i += 1;
        }
        proof {
            assert(self@ =~= other@);
        }
        true
    }

    /// Tells whether this path ends with `suffix`, component by component.
    pub fn ends_with(&self, suffix: &ShaderPath) -> (found: bool)
        ensures
            found == path_ends_with(self@, suffix@),
    {
        let n = self.components.len();
        let m = suffix.components.len();
        if m > n {
            return false;
        }
        let start = n - m;
        let ghost tail = self@.subrange(start as int, n as int);
        let mut i: usize = 0;
        while i < m
            invariant
                n == self.components.len(),
                m == suffix.components.len(),
                start == n - m,
                i <= m,
                tail == self@.subrange(start as int, n as int),
                forall|j: int| 0 <= j < i ==> #[trigger] tail[j] == suffix@[j],
            decreases m - i,
        {
            if self.components[start + i] != suffix.components[i] {
                proof {
                    assert(tail[i as int] == self@[start + i]);
                    assert(tail[i as int] != suffix@[i as int]);
                }
                return false;
            }
            proof {
                assert(tail[i as int] == self@[start + i]);
            }
            i += 1;
        }
        proof {
            assert(tail =~= suffix@);
        }
        true
    }
}

} // verus!

use vstd::prelude::*;

use crate::render::Vertex;

verus! {

/// A user-interface element that can produce the vertices that draw it.
pub trait GenVertices {
    fn gen_vertices(&self) -> Vec<Vertex>;
}

/// Elements laid out together: each child is the vertex list of one
/// element, and the group draws all of them in order.
pub struct Group<V> {
    pub children: Vec<Vec<V>>,
}

/// The vertex lists of `children`, one after the other.
pub open spec fn concat_all<V>(children: Seq<Vec<V>>) -> Seq<V> {
    children.map_values(|c: Vec<V>| c@).flatten()
}

impl<V: Copy> Group<V> {
    /// All children's vertices, in order.
    pub fn gen_vertices(&self) -> (r: Vec<V>)
        ensures
            r@ == concat_all(self.children@),
    {
        let mut r: Vec<V> = Vec::new();
        let mut i: usize = 0;
        while i < self.children.len()
            invariant
                i <= self.children@.len(),
                r@ == concat_all(self.children@.subrange(0, i as int)),
            decreases self.children@.len() - i,
        {
            let child = &self.children[i];
            let ghost before = r@;
            let mut j: usize = 0;
            while j < child.len()
                invariant
                    j <= child@.len(),
                    r@ == before + child@.subrange(0, j as int),
                decreases child@.len() - j,
            {
                r.push(child[j]);
                proof {
                    assert(child@.subrange(0, j + 1) =~= child@.subrange(0, j as int).push(
                        child@[j as int],
                    ));
                }
                j = j + 1;
            }
            proof {
                let s = self.children@.subrange(0, i + 1).map_values(|c: Vec<V>| c@);
                let t = self.children@.subrange(0, i as int).map_values(|c: Vec<V>| c@);
                s.lemma_flatten_and_flatten_alt_are_equivalent();
                t.lemma_flatten_and_flatten_alt_are_equivalent();
                assert(s.drop_last() =~= t);
                assert(child@.subrange(0, j as int) =~= child@);
                assert(s.last() == child@);
            }
            i = i + 1;
        }
        proof {
            assert(self.children@.subrange(0, i as int) =~= self.children@);
        }
        r
    }
}

impl GenVertices for Group<Vertex> {
    fn gen_vertices(&self) -> Vec<Vertex> {
        Group::<Vertex>::gen_vertices(self)
    }
}

} // verus!

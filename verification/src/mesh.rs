//! A triangle mesh: a list of points and a list of indices, three per
//! triangle, each of which names a point of the list.
use vstd::prelude::*;

verus! {

/// Why a list of points and a list of indices do not make a mesh.
#[derive(Clone, Copy, Debug, PartialEq, Eq, Structural)]
pub enum MeshError {
    /// There is no point at all.
    NoVertices,
    /// The number of indices is not a multiple of three.
    RaggedIndices,
    /// Some index names no point.
    IndexOutOfRange,
}

/// Every index names one of `vertex_count` points.
pub open spec fn indices_in_range(vertex_count: nat, indices: Seq<u16>) -> bool {
    forall|i: int| 0 <= i < indices.len() ==> (#[trigger] indices[i]) < vertex_count
}

/// The points and indices make a mesh.
pub open spec fn is_topology(vertex_count: nat, indices: Seq<u16>) -> bool {
    &&& vertex_count > 0
    &&& indices.len() % 3 == 0
    &&& indices_in_range(vertex_count, indices)
}

/// What `check_topology` answers: the first of the three faults that
/// applies, in the order of `MeshError`, or `Ok`.
pub open spec fn topology_verdict(vertex_count: nat, indices: Seq<u16>) -> Result<(), MeshError> {
    if vertex_count == 0 {
        Err(MeshError::NoVertices)
    } else if indices.len() % 3 != 0 {
        Err(MeshError::RaggedIndices)
    } else if !indices_in_range(vertex_count, indices) {
        Err(MeshError::IndexOutOfRange)
    } else {
        Ok(())
    }
}

/// Decides whether `indices` describes triangles over `vertex_count` points.
pub fn check_topology(vertex_count: usize, indices: &Vec<u16>) -> (r: Result<(), MeshError>)
    ensures
        r == topology_verdict(vertex_count as nat, indices@),
        r.is_ok() <==> is_topology(vertex_count as nat, indices@),
{
    if vertex_count == 0 {
        return Err(MeshError::NoVertices);
    }
    if indices.len() % 3 != 0 {
        return Err(MeshError::RaggedIndices);
    }
    let mut i: usize = 0;
    while i < indices.len()
        invariant
            i <= indices.len(),
            vertex_count > 0,
            indices@.len() % 3 == 0,
            forall|j: int| 0 <= j < i ==> (#[trigger] indices@[j]) < vertex_count,
        decreases indices.len() - i,
    {
        if indices[i] as usize >= vertex_count {
            assert(!(indices@[i as int] < vertex_count));
            return Err(MeshError::IndexOutOfRange);
        }
        i += 1;
    }
    Ok(())
}

/// A mesh over points of type `P`. The indices are fixed for its lifetime;
/// only the points move.
pub struct Mesh<P> {
    vertices: Vec<P>,
    indices: Vec<u16>,
}

impl<P> Mesh<P> {
    /// The points, in order.
    pub closed spec fn points(&self) -> Seq<P> {
        self.vertices@
    }

    /// The indices, in order: three for each triangle.
    pub closed spec fn index_list(&self) -> Seq<u16> {
        self.indices@
    }

    /// The three indices of triangle `t`.
    pub open spec fn triangle_at(&self, t: int) -> (int, int, int) {
        (
            self.index_list()[3 * t] as int,
            self.index_list()[3 * t + 1] as int,
            self.index_list()[3 * t + 2] as int,
        )
    }

    /// The three corners of triangle `t`, in the order of its indices.
    pub open spec fn corners_at(&self, t: int) -> (P, P, P) {
        (
            self.points()[self.triangle_at(t).0],
            self.points()[self.triangle_at(t).1],
            self.points()[self.triangle_at(t).2],
        )
    }

    /// The number of triangles.
    pub open spec fn triangles(&self) -> nat {
        self.index_list().len() / 3
    }

    /// `steps` is a run of `f` over the triangles in order: each value but
    /// the first is what `f` made of the value before it and the corners of
    /// the next triangle.
    pub open spec fn is_run<A, F: Fn(A, P, P, P) -> A>(&self, f: &F, steps: Seq<A>) -> bool {
        &&& steps.len() == self.triangles() + 1
        &&& forall|t: int|
            0 <= t < self.triangles() ==> {
                let c = #[trigger] self.corners_at(t);
                f.ensures((steps[t], c.0, c.1, c.2), steps[t + 1])
            }
    }

    #[verifier::type_invariant]
    spec fn well_formed(&self) -> bool {
        is_topology(self.vertices@.len(), self.indices@)
    }

    /// Makes a mesh of `vertices` and `indices`, or says why they make none.
    pub fn new(vertices: Vec<P>, indices: Vec<u16>) -> (r: Result<Self, MeshError>)
        ensures
            match r {
                Ok(m) => {
                    &&& is_topology(vertices@.len(), indices@)
                    &&& m.points() == vertices@
                    &&& m.index_list() == indices@
                },
                Err(e) => topology_verdict(vertices@.len(), indices@) == Err::<(), MeshError>(e),
            },
    {
        match check_topology(vertices.len(), &indices) {
            Ok(()) => Ok(Mesh { vertices, indices }),
            Err(e) => Err(e),
        }
    }

    /// The number of points.
    pub fn vertex_count(&self) -> (n: usize)
        ensures
            n == self.points().len(),
            n > 0,
    {
        proof {
            use_type_invariant(self);
        }
        self.vertices.len()
    }

    /// The number of triangles.
    pub fn triangle_count(&self) -> (n: usize)
        ensures
            n == self.triangles(),
    {
        self.indices.len() / 3
    }

    /// The points, for reading.
    pub fn vertices(&self) -> (v: &Vec<P>)
        ensures
            v@ == self.points(),
    {
        &self.vertices
    }

    /// The indices, for reading.
    pub fn indices(&self) -> (v: &Vec<u16>)
        ensures
            v@ == self.index_list(),
    {
        &self.indices
    }

    /// The indices of triangle `t`, or `None` where the mesh has no such
    /// triangle. Each index names a point.
    pub fn triangle(&self, t: usize) -> (r: Option<(usize, usize, usize)>)
        ensures
            r.is_some() <==> t < self.triangles(),
            match r {
                Some(tri) => {
                    &&& (tri.0 as int, tri.1 as int, tri.2 as int) == self.triangle_at(t as int)
                    &&& tri.0 < self.points().len()
                    &&& tri.1 < self.points().len()
                    &&& tri.2 < self.points().len()
                },
                None => true,
            },
    {
        proof {
            use_type_invariant(self);
        }
        if t >= self.indices.len() / 3 {
            return None;
        }
        let a: usize = self.indices[3 * t] as usize;
        let b: usize = self.indices[3 * t + 1] as usize;
        let c: usize = self.indices[3 * t + 2] as usize;
        Some((a, b, c))
    }
}

impl<P: Copy> Mesh<P> {
    /// The corners of triangle `t`, or `None` where the mesh has no such
    /// triangle.
    pub fn corners(&self, t: usize) -> (r: Option<(P, P, P)>)
        ensures
            r == if t < self.triangles() {
                Some(self.corners_at(t as int))
            } else {
                None
            },
    {
        match self.triangle(t) {
            Some((a, b, c)) => Some((self.vertices[a], self.vertices[b], self.vertices[c])),
            None => None,
        }
    }

    /// Carries a value through the triangles in order: `f` is called once
    /// for each, with the value so far and the triangle's corners, and gives
    /// the next value. The result is the last value of that run, `start`
    /// where the mesh has no triangle.
    pub fn fold_triangles<A, F: Fn(A, P, P, P) -> A>(&self, start: A, f: &F) -> (r: A)
        requires
            forall|a: A, i: P, j: P, k: P| f.requires((a, i, j, k)),
        ensures
            exists|steps: Seq<A>|
                #![trigger self.is_run(f, steps)]
                self.is_run(f, steps) && steps[0] == start && steps[self.triangles() as int] == r,
    {
        let n: usize = self.triangle_count();
        let ghost mut steps: Seq<A> = seq![start];
        let mut value: A = start;
        let mut t: usize = 0;
        while t < n
            invariant
                t <= n,
                n == self.triangles(),
                steps.len() == t + 1,
                steps[0] == start,
                steps[t as int] == value,
                forall|a: A, i: P, j: P, k: P| f.requires((a, i, j, k)),
                forall|u: int|
                    0 <= u < t ==> {
                        let c = #[trigger] self.corners_at(u);
                        f.ensures((steps[u], c.0, c.1, c.2), steps[u + 1])
                    },
            decreases n - t,
        {
            let corners: Option<(P, P, P)> = self.corners(t);
            match corners {
                Some((i, j, k)) => {
                    value = f(value, i, j, k);
                },
                None => {},
            }
            proof {
                steps = steps.push(value);
            }
            t += 1;
        }
        assert(self.is_run(f, steps));
        value
    }

    /// Replaces every point by its image under `f`. The indices stay.
    pub fn transform<F: Fn(P) -> P>(&mut self, f: &F)
        requires
            forall|i: int|
                0 <= i < old(self).points().len() ==> #[trigger] f.requires((old(self).points()[i],)),
        ensures
            final(self).index_list() == old(self).index_list(),
            final(self).points().len() == old(self).points().len(),
            forall|i: int|
                0 <= i < old(self).points().len() ==> f.ensures(
                    (#[trigger] old(self).points()[i],),
                    final(self).points()[i],
                ),
    {
        proof {
            use_type_invariant(&*self);
            assert(self.points() == self.vertices@);
        }
        let n: usize = self.vertices.len();
        let mut moved: Vec<P> = Vec::with_capacity(n);
        let mut i: usize = 0;
        while i < n
            invariant
                i <= n,
                n == self.vertices@.len(),
                moved@.len() == i,
                forall|j: int| 0 <= j < n ==> #[trigger] f.requires((self.vertices@[j],)),
                forall|j: int|
                    0 <= j < i ==> f.ensures((#[trigger] self.vertices@[j],), moved@[j]),
            decreases n - i,
        {
            moved.push(f(self.vertices[i]));
            i += 1;
        }
        self.vertices = moved;
    }
}

} // verus!

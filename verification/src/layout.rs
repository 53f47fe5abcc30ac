//! From the flat arrays of a model file to vertices and indices.
//!
//! A model file gives positions as a flat list, three numbers to a point,
//! texture coordinates as another, two numbers to a point, and indices as
//! 32-bit numbers. The mesh wants one record per point and 16-bit indices.
use vstd::prelude::*;

verus! {

/// A colour: red, green, blue and opacity, each from 0 to 255.
#[derive(Clone, Copy, Debug, PartialEq, Eq, Structural)]
pub struct Rgba {
    pub r: u8,
    pub g: u8,
    pub b: u8,
    pub a: u8,
}

/// The colour that every vertex of a loaded model starts with: an opaque
/// middle gray.
pub open spec fn gray() -> Rgba {
    Rgba { r: 127, g: 127, b: 127, a: 255 }
}

/// One point of a model: where it is, where it lies on the texture, and its
/// colour.
#[derive(Clone, Copy, Debug)]
pub struct Vertex<T> {
    pub x: T,
    pub y: T,
    pub z: T,
    pub u: T,
    pub v: T,
    pub color: Rgba,
}

/// How many vertices the two lists give: as many as both have numbers for.
pub open spec fn vertex_total(positions: nat, texcoords: nat) -> nat {
    if positions / 3 <= texcoords / 2 {
        positions / 3
    } else {
        texcoords / 2
    }
}

/// The vertex at place `i` of what the two lists give.
pub open spec fn vertex_at<T>(positions: Seq<T>, texcoords: Seq<T>, i: int) -> Vertex<T> {
    Vertex {
        x: positions[3 * i],
        y: positions[3 * i + 1],
        z: positions[3 * i + 2],
        u: texcoords[2 * i],
        v: texcoords[2 * i + 1],
        color: gray(),
    }
}

/// Groups the flat lists into vertices. Numbers left over at the end of
/// either list, and points for which the other list has no numbers, are
/// dropped.
pub fn gather_vertices<T: Copy>(positions: &Vec<T>, texcoords: &Vec<T>) -> (r: Vec<Vertex<T>>)
    ensures
        r@.len() == vertex_total(positions@.len(), texcoords@.len()),
        forall|i: int| 0 <= i < r@.len() ==> #[trigger] r@[i] == vertex_at(positions@, texcoords@, i),
{
    let by_position: usize = positions.len() / 3;
    let by_texture: usize = texcoords.len() / 2;
    let n: usize = if by_position <= by_texture {
        by_position
    } else {
        by_texture
    };
    let mut out: Vec<Vertex<T>> = Vec::with_capacity(n);
    let mut i: usize = 0;
    while i < n
        invariant
            i <= n,
            n == vertex_total(positions@.len(), texcoords@.len()),
            3 * n <= positions@.len() <= usize::MAX,
            2 * n <= texcoords@.len() <= usize::MAX,
            out@.len() == i,
            forall|j: int| 0 <= j < i ==> #[trigger] out@[j] == vertex_at(positions@, texcoords@, j),
        decreases n - i,
    {
        out.push(
            Vertex {
                x: positions[3 * i],
                y: positions[3 * i + 1],
                z: positions[3 * i + 2],
                u: texcoords[2 * i],
                v: texcoords[2 * i + 1],
                color: Rgba { r: 127, g: 127, b: 127, a: 255 },
            },
        );
        i += 1;
    }
    out
}

/// The low 16 bits of a 32-bit index.
pub open spec fn low_half(index: u32) -> u16 {
    (index & 0xffffu32) as u16
}

/// Cuts every index down to its low 16 bits. An index below 65536 keeps its
/// value.
pub fn narrow_indices(indices: &Vec<u32>) -> (r: Vec<u16>)
    ensures
        r@.len() == indices@.len(),
        forall|i: int| 0 <= i < r@.len() ==> #[trigger] r@[i] == low_half(indices@[i]),
        forall|i: int| 0 <= i < r@.len() && indices@[i] < 65536 ==> #[trigger] r@[i] == indices@[i],
{
    let mut out: Vec<u16> = Vec::with_capacity(indices.len());
    let mut i: usize = 0;
    while i < indices.len()
        invariant
            i <= indices@.len(),
            out@.len() == i,
            forall|j: int| 0 <= j < i ==> #[trigger] out@[j] == low_half(indices@[j]),
            forall|j: int| 0 <= j < i && indices@[j] < 65536 ==> #[trigger] out@[j] == indices@[j],
        decreases indices.len() - i,
    {
        let wide: u32 = indices[i];
        assert(wide & 0xffffu32 <= 0xffffu32) by (bit_vector);
        assert(wide < 65536 ==> wide & 0xffffu32 == wide) by (bit_vector);
        out.push((wide & 0xffffu32) as u16);
        i += 1;
    }
    out
}

} // verus!

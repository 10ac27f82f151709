//! Mesh bookkeeping: buffer handles, index counts, and the layout of
//! consecutively packed vertex attributes.
//!
//! The GPU calls themselves live outside this crate; what is verified here
//! is the state a mesh carries between those calls (which buffer objects it
//! owns, how many indices to draw and of which type) and the arithmetic of
//! attribute layout: the common stride of interleaved attributes and the
//! byte offset where each one starts.

use vstd::prelude::*;

verus! {

/// The GPU enumerant for 32-bit unsigned indices, the index type used by
/// the tuple-based index upload.
pub const INDEX_TYPE_U32: u32 = 0x1405;

/// A mesh: its vertex-array, vertex-buffer and element-buffer handles, and
/// what its index buffer holds.
pub struct Mesh {
    pub vao: u32,
    pub vbo: u32,
    pub ebo: u32,
    pub indices_count: i32,
    pub index_type: u32,
}

impl Mesh {
    /// A mesh over the given buffer handles, with no indices recorded yet.
    pub fn new(vao: u32, vbo: u32, ebo: u32) -> (r: Mesh)
        ensures
            r.vao == vao,
            r.vbo == vbo,
            r.ebo == ebo,
            r.indices_count == 0,
            r.index_type == INDEX_TYPE_U32,
    {
        Mesh { vao, vbo, ebo, indices_count: 0, index_type: INDEX_TYPE_U32 }
    }

    /// Records an index upload: how many indices the element buffer now
    /// holds, and their type.
    pub fn set_indices(&mut self, indices_count: i32, index_type: u32)
        requires
            indices_count >= 0,
        ensures
            final(self).indices_count == indices_count,
            final(self).index_type == index_type,
            final(self).vao == old(self).vao,
            final(self).vbo == old(self).vbo,
            final(self).ebo == old(self).ebo,
    {
        self.indices_count = indices_count;
        self.index_type = index_type;
    }

    /// Records an upload of 32-bit index triangles: three indices per tuple.
    pub fn set_indices_u32_tuples(&mut self, tuple_count: usize)
        requires
            3 * tuple_count <= i32::MAX,
        ensures
            final(self).indices_count == 3 * tuple_count,
            final(self).index_type == INDEX_TYPE_U32,
            final(self).vao == old(self).vao,
            final(self).vbo == old(self).vbo,
            final(self).ebo == old(self).ebo,
    {
        let count = 3 * tuple_count;
        self.set_indices(count as i32, INDEX_TYPE_U32);
    }

    /// How many indices a draw call should use.
    pub fn indices_count(&self) -> (r: i32)
        ensures
            r == self.indices_count,
    {
        self.indices_count
    }

    /// The type of the recorded indices.
    pub fn index_type(&self) -> (r: u32)
        ensures
            r == self.index_type,
    {
        self.index_type
    }

    /// The vertex-array handle.
    pub fn vao(&self) -> (r: u32)
        ensures
            r == self.vao,
    {
        self.vao
    }

    /// The vertex-buffer handle.
    pub fn vbo(&self) -> (r: u32)
        ensures
            r == self.vbo,
    {
        self.vbo
    }

    /// The element-buffer handle.
    pub fn ebo(&self) -> (r: u32)
        ensures
            r == self.ebo,
    {
        self.ebo
    }
}

/// One interleaved vertex attribute, laid out for the GPU: its attribute
/// index, how many elements it has, their type enumerant, the common byte
/// stride of the vertex, and the byte offset where this attribute starts.
pub struct AttribPointer {
    pub index: u32,
    pub count: usize,
    pub elem_type: u32,
    pub stride: usize,
    pub offset: usize,
}

/// The byte offset of attribute `k` in a vertex of consecutively packed
/// attributes, each given as (element count, element size, type enumerant):
/// the sum of the sizes of the attributes before it.
pub open spec fn attrib_offset(s: Seq<(usize, usize, u32)>, k: int) -> int
    decreases k,
{
    if k <= 0 {
        0
    } else {
        attrib_offset(s, k - 1) + s[k - 1].0 * s[k - 1].1
    }
}

/// The byte stride of a vertex: the total size of all its attributes.
pub open spec fn attrib_stride(s: Seq<(usize, usize, u32)>) -> int {
    attrib_offset(s, s.len() as int)
}

/// Offsets grow monotonically with the attribute position.
proof fn lemma_attrib_offset_monotonic(s: Seq<(usize, usize, u32)>, a: int, b: int)
    requires
        0 <= a <= b,
    ensures
        attrib_offset(s, a) <= attrib_offset(s, b),
    decreases b - a,
{
    if a < b {
        lemma_attrib_offset_monotonic(s, a, b - 1);
        assert(s[b - 1].0 * s[b - 1].1 >= 0) by (nonlinear_arith);
    }
}

/// The layout of consecutively packed vertex attributes: attribute `k` gets
/// index `start_id + k`, the common stride is the total vertex size, and
/// each offset is the sum of the sizes before it.  `None` exactly when the
/// stride does not fit in `usize` or the indices would pass `u32::MAX`.
pub fn consecutive_attrib_layout(start_id: u32, attribs: &Vec<(usize, usize, u32)>) -> (r: Option<
    Vec<AttribPointer>,
>)
    ensures
        r is Some <==> attrib_stride(attribs@) <= usize::MAX && start_id + attribs@.len()
            <= u32::MAX + 1,
        r is Some ==> {
            let rs = r->Some_0@;
            &&& rs.len() == attribs@.len()
            &&& forall|k: int|
                0 <= k < rs.len() ==> {
                    &&& (#[trigger] rs[k]).index == start_id + k
                    &&& rs[k].count == attribs@[k].0
                    &&& rs[k].elem_type == attribs@[k].2
                    &&& rs[k].stride == attrib_stride(attribs@)
                    &&& rs[k].offset == attrib_offset(attribs@, k)
                }
        },
{
    if attribs.len() > 0 && attribs.len() - 1 > (u32::MAX - start_id) as usize {
        proof {
            lemma_attrib_offset_monotonic(attribs@, 0, attribs@.len() as int);
        }
        return None;
    }
    let mut stride: usize = 0;
    let mut k: usize = 0;
    while k < attribs.len()
        invariant
            k <= attribs@.len(),
            stride == attrib_offset(attribs@, k as int),
        decreases attribs@.len() - k,
    {
        let (count, size, _) = attribs[k];
        let piece = match count.checked_mul(size) {
            Some(p) => p,
            None => {
                proof {
                    lemma_attrib_offset_monotonic(attribs@, k + 1, attribs@.len() as int);
                    assert(attrib_offset(attribs@, k as int) >= 0) by {
                        lemma_attrib_offset_monotonic(attribs@, 0, k as int);
                    }
                }
                return None;
            },
        };
        let next = match stride.checked_add(piece) {
            Some(n) => n,
            None => {
                proof {
                    lemma_attrib_offset_monotonic(attribs@, k + 1, attribs@.len() as int);
                }
                return None;
            },
        };
        stride = next;
        k = k + 1;
    }
    let mut out: Vec<AttribPointer> = Vec::new();
    let mut offset: usize = 0;
    let mut i: usize = 0;
    while i < attribs.len()
        invariant
            i <= attribs@.len(),
            stride == attrib_stride(attribs@),
            attribs@.len() <= u32::MAX - start_id + 1,
            offset == attrib_offset(attribs@, i as int),
            offset <= stride,
            out@.len() == i,
            forall|k: int|
                0 <= k < i ==> {
                    &&& (#[trigger] out@[k]).index == start_id + k
                    &&& out@[k].count == attribs@[k].0
                    &&& out@[k].elem_type == attribs@[k].2
                    &&& out@[k].stride == attrib_stride(attribs@)
                    &&& out@[k].offset == attrib_offset(attribs@, k)
                },
        decreases attribs@.len() - i,
    {
        let (count, size, elem_type) = attribs[i];
        proof {
            lemma_attrib_offset_monotonic(attribs@, i + 1, attribs@.len() as int);
            assert(attrib_offset(attribs@, i as int) + count * size == attrib_offset(
                attribs@,
                i as int + 1,
            ));
        }
        out.push(
            AttribPointer { index: start_id + (i as u32), count, elem_type, stride, offset },
        );
        offset = offset + count * size;
        i = i + 1;
    }
    Some(out)
}

} // verus!

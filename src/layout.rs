use vstd::prelude::*;

use crate::vertex::Vertex;

verus! {

/// Size in bytes of one vertex in a device vertex buffer: eighteen 32-bit words.
pub const VERTEX_STRIDE: usize = 72;

/// Size in bytes of the per-draw transform payload: three 4x4 matrices.
pub const CONST_BUFFER_SIZE: usize = 192;

/// The four bytes of a word, least significant first.
pub open spec fn le_bytes(w: u32) -> Seq<u8> {
    seq![(w % 256) as u8, ((w / 256) % 256) as u8, ((w / 65536) % 256) as u8, ((w / 16777216) % 256) as u8]
}

/// Words laid out one after another, each little-endian.
pub open spec fn encode_words(ws: Seq<u32>) -> Seq<u8>
    decreases ws.len(),
{
    if ws.len() == 0 {
        Seq::empty()
    } else {
        encode_words(ws.drop_last()) + le_bytes(ws.last())
    }
}

/// A vertex's words in buffer order: position, normal, tangent, color, uv0, uv1.
pub open spec fn vertex_words(v: Vertex) -> Seq<u32> {
    seq![
        v.position.x, v.position.y, v.position.z,
        v.normal.x, v.normal.y, v.normal.z,
        v.tangent.x, v.tangent.y, v.tangent.z, v.tangent.w,
        v.color.x, v.color.y, v.color.z, v.color.w,
        v.uv0.x, v.uv0.y,
        v.uv1.x, v.uv1.y,
    ]
}

pub open spec fn vertices_words(vs: Seq<Vertex>) -> Seq<u32>
    decreases vs.len(),
{
    if vs.len() == 0 {
        Seq::empty()
    } else {
        vertices_words(vs.drop_last()) + vertex_words(vs.last())
    }
}

pub proof fn lemma_encode_len(ws: Seq<u32>)
    ensures
        encode_words(ws).len() == 4 * ws.len(),
    decreases ws.len(),
{
    if ws.len() > 0 {
        lemma_encode_len(ws.drop_last());
    }
}

pub proof fn lemma_encode_concat(a: Seq<u32>, b: Seq<u32>)
    ensures
        encode_words(a + b) == encode_words(a) + encode_words(b),
    decreases b.len(),
{
    if b.len() == 0 {
        assert(a + b =~= a);
        assert(encode_words(b) =~= Seq::<u8>::empty());
        assert(encode_words(a) + encode_words(b) =~= encode_words(a));
    } else {
        lemma_encode_concat(a, b.drop_last());
        assert((a + b).drop_last() =~= a + b.drop_last());
        assert((a + b).last() == b.last());
        assert(encode_words(a) + encode_words(b) =~= encode_words(a) + encode_words(b.drop_last())
            + le_bytes(b.last()));
    }
}

pub proof fn lemma_vertices_words_len(vs: Seq<Vertex>)
    ensures
        vertices_words(vs).len() == 18 * vs.len(),
    decreases vs.len(),
{
    if vs.len() > 0 {
        lemma_vertices_words_len(vs.drop_last());
    }
}

/// Appends the little-endian bytes of `w`.
fn push_word(out: &mut Vec<u8>, w: u32)
    ensures
        final(out)@ == old(out)@ + le_bytes(w),
{
    out.push((w % 256) as u8);
    out.push(((w / 256) % 256) as u8);
    out.push(((w / 65536) % 256) as u8);
    out.push(((w / 16777216) % 256) as u8);
    assert(final(out)@ =~= old(out)@ + le_bytes(w));
}

/// Appends the encoding of each word of `ws` in order.
fn push_words(out: &mut Vec<u8>, ws: &[u32])
    ensures
        final(out)@ == old(out)@ + encode_words(ws@),
{
    let ghost start = out@;
    let mut k: usize = 0;
    while k < ws.len()
        invariant
            k <= ws@.len(),
            out@ == start + encode_words(ws@.take(k as int)),
        decreases ws@.len() - k,
    {
        push_word(out, ws[k]);
        proof {
            assert(ws@.take(k + 1).drop_last() =~= ws@.take(k as int));
            assert(out@ =~= start + encode_words(ws@.take(k + 1)));
        }
        k = k + 1;
    }
    assert(ws@.take(k as int) =~= ws@);
}

fn vertex_word_array(v: &Vertex) -> (ws: [u32; 18])
    ensures
        ws@ == vertex_words(*v),
{
    let ws = [
        v.position.x, v.position.y, v.position.z,
        v.normal.x, v.normal.y, v.normal.z,
        v.tangent.x, v.tangent.y, v.tangent.z, v.tangent.w,
        v.color.x, v.color.y, v.color.z, v.color.w,
        v.uv0.x, v.uv0.y,
        v.uv1.x, v.uv1.y,
    ];
    assert(ws@ =~= vertex_words(*v));
    ws
}

/// The contents of a device vertex buffer for a batch: each vertex's words in
/// order, little-endian, `VERTEX_STRIDE` bytes per vertex.
pub fn vertex_bytes(vs: &Vec<Vertex>) -> (b: Vec<u8>)
    ensures
        b@ == encode_words(vertices_words(vs@)),
        b@.len() == VERTEX_STRIDE * vs@.len(),
{
    let mut out: Vec<u8> = Vec::new();
    let mut i: usize = 0;
    while i < vs.len()
        invariant
            i <= vs@.len(),
            out@ == encode_words(vertices_words(vs@.take(i as int))),
        decreases vs@.len() - i,
    {
        let ws = vertex_word_array(&vs[i]);
        push_words(&mut out, ws.as_slice());
        proof {
            let pre = vs@.take(i as int);
            assert(vs@.take(i + 1).drop_last() =~= pre);
            assert(vs@.take(i + 1).last() == vs@[i as int]);
            lemma_encode_concat(vertices_words(pre), vertex_words(vs@[i as int]));
        }
        i = i + 1;
    }
    proof {
        assert(vs@.take(i as int) =~= vs@);
        lemma_vertices_words_len(vs@);
        lemma_encode_len(vertices_words(vs@));
    }
    out
}

/// A 4x4 matrix of binary32 bit patterns, column-major: entry (row, col) at
/// `4 * col + row`.
#[derive(Clone, Copy, PartialEq, Eq, Debug)]
pub struct Matrix4 {
    pub m: [u32; 16],
}

impl Matrix4 {
    pub open spec fn at(&self, row: int, col: int) -> u32 {
        self.m@[4 * col + row]
    }

    /// The transposed matrix, for a device that reads matrices row-major.
    pub fn transpose(&self) -> (t: Matrix4)
        ensures
            forall|row: int, col: int| 0 <= row < 4 && 0 <= col < 4 ==> #[trigger] t.at(row, col) == self.at(col, row),
    {
        let a = &self.m;
        Matrix4 {
            m: [
                a[0], a[4], a[8], a[12],
                a[1], a[5], a[9], a[13],
                a[2], a[6], a[10], a[14],
                a[3], a[7], a[11], a[15],
            ],
        }
    }
}

/// The per-draw uniform payload.
#[derive(Clone, Copy, PartialEq, Eq, Debug)]
pub struct ConstBuffer {
    pub model_matrix: Matrix4,
    pub view_matrix: Matrix4,
    pub proj_matrix: Matrix4,
}

impl ConstBuffer {
    pub open spec fn words(&self) -> Seq<u32> {
        self.model_matrix.m@ + self.view_matrix.m@ + self.proj_matrix.m@
    }

    /// The payload as the device reads it: model, view, then projection
    /// matrix, each entry little-endian, `CONST_BUFFER_SIZE` bytes.
    pub fn to_bytes(&self) -> (b: Vec<u8>)
        ensures
            b@ == encode_words(self.words()),
            b@.len() == CONST_BUFFER_SIZE,
    {
        let mut out: Vec<u8> = Vec::new();
        push_words(&mut out, self.model_matrix.m.as_slice());
        push_words(&mut out, self.view_matrix.m.as_slice());
        push_words(&mut out, self.proj_matrix.m.as_slice());
        proof {
            let a = self.model_matrix.m@;
            let b = self.view_matrix.m@;
            let c = self.proj_matrix.m@;
            lemma_encode_concat(a, b);
            lemma_encode_concat(a + b, c);
            assert(out@ =~= encode_words(a) + encode_words(b) + encode_words(c));
            lemma_encode_len(self.words());
        }
        out
    }
}

} // verus!

use vstd::prelude::*;

use crate::error::FormatError;

verus! {

/// Declared scalar encoding of an accessor. All are little-endian.
#[derive(Clone, Copy, PartialEq, Eq, Debug, Structural)]
pub enum ComponentType {
    I8,
    U8,
    I16,
    U16,
    U32,
    /// IEEE-754 binary32.
    F32,
}

/// One decoded scalar: an integer encoding's value, or the bit pattern of a
/// binary32 encoding.
#[derive(Clone, Copy, PartialEq, Eq, Debug, Structural)]
pub enum Component {
    Int(i64),
    FloatBits(u32),
}

impl ComponentType {
    pub open spec fn byte_size(self) -> nat {
        match self {
            ComponentType::I8 | ComponentType::U8 => 1,
            ComponentType::I16 | ComponentType::U16 => 2,
            ComponentType::U32 | ComponentType::F32 => 4,
        }
    }

    pub fn size(&self) -> (r: usize)
        ensures
            r == self.byte_size(),
    {
        match self {
            ComponentType::I8 | ComponentType::U8 => 1,
            ComponentType::I16 | ComponentType::U16 => 2,
            ComponentType::U32 | ComponentType::F32 => 4,
        }
    }
}

/// Unsigned little-endian value of `n` bytes starting at `s`.
pub open spec fn le_value(b: Seq<u8>, s: int, n: nat) -> int {
    if n == 1 {
        b[s] as int
    } else if n == 2 {
        b[s] + 256 * b[s + 1]
    } else {
        b[s] + 256 * b[s + 1] + 65536 * b[s + 2] + 16777216 * b[s + 3]
    }
}

/// Two's-complement reading of an unsigned value of `bits` bits.
pub open spec fn signed(u: int, bits: nat) -> int {
    if u < pow2(bits) / 2 {
        u
    } else {
        u - pow2(bits)
    }
}

pub open spec fn pow2(bits: nat) -> int {
    if bits == 8 {
        256
    } else {
        65536
    }
}

/// Scalar `i` of a span of the given encoding.
pub open spec fn component_at(b: Seq<u8>, ty: ComponentType, i: int) -> Component {
    decode_at(b, ty, i * ty.byte_size())
}

pub open spec fn decoded(b: Seq<u8>, ty: ComponentType, count: int) -> Seq<Component> {
    Seq::new(count as nat, |i: int| component_at(b, ty, i))
}

/// Integer zero, or the bit pattern of +0.0.
pub open spec fn is_zero(c: Component) -> bool {
    c == Component::Int(0) || c == Component::FloatBits(0)
}

fn read_component(b: &[u8], ty: ComponentType, s: usize) -> (c: Component)
    requires
        s + ty.byte_size() <= b@.len(),
    ensures
        c == decode_at(b@, ty, s as int),
{
    match ty {
        ComponentType::I8 => {
            let u = b[s] as i64;
            Component::Int(if u < 128 { u } else { u - 256 })
        },
        ComponentType::U8 => Component::Int(b[s] as i64),
        ComponentType::I16 => {
            let u = b[s] as i64 + 256 * (b[s + 1] as i64);
            Component::Int(if u < 32768 { u } else { u - 65536 })
        },
        ComponentType::U16 => Component::Int(b[s] as i64 + 256 * (b[s + 1] as i64)),
        ComponentType::U32 => Component::Int(
            b[s] as i64 + 256 * (b[s + 1] as i64) + 65536 * (b[s + 2] as i64) + 16777216 * (b[s + 3] as i64),
        ),
        ComponentType::F32 => Component::FloatBits(
            b[s] as u32 + 256 * (b[s + 1] as u32) + 65536 * (b[s + 2] as u32) + 16777216 * (b[s + 3] as u32),
        ),
    }
}

/// The scalar whose encoding starts at byte `s`.
pub open spec fn decode_at(b: Seq<u8>, ty: ComponentType, s: int) -> Component {
    match ty {
        ComponentType::I8 => Component::Int(signed(le_value(b, s, 1), 8) as i64),
        ComponentType::U8 => Component::Int(le_value(b, s, 1) as i64),
        ComponentType::I16 => Component::Int(signed(le_value(b, s, 2), 16) as i64),
        ComponentType::U16 => Component::Int(le_value(b, s, 2) as i64),
        ComponentType::U32 => Component::Int(le_value(b, s, 4) as i64),
        ComponentType::F32 => Component::FloatBits(le_value(b, s, 4) as u32),
    }
}

/// Decodes `count` scalars of the declared encoding, one per scalar, values
/// kept as they are (integers are not rescaled). Fails when the span is not
/// exactly `count` scalars long.
pub fn convert_accessor_buffer(span: &[u8], ty: ComponentType, count: usize) -> (r: Result<
    Vec<Component>,
    FormatError,
>)
    ensures
        r is Err <==> span@.len() != count * ty.byte_size(),
        r is Err ==> r->Err_0 == FormatError::AccessorLengthMismatch,
        r matches Ok(v) ==> v@ == decoded(span@, ty, count as int),
{
    let size = ty.size();
    let len = span.len();
    let expected = count.checked_mul(size);
    match expected {
        Some(n) => {
            if span.len() != n {
                return Err(FormatError::AccessorLengthMismatch);
            }
        },
        None => {
            return Err(FormatError::AccessorLengthMismatch);
        },
    }
    let mut out: Vec<Component> = Vec::new();
    let mut i: usize = 0;
    let mut s: usize = 0;
    while i < count
        invariant
            span@.len() == count * size,
            count * size <= usize::MAX,
            size == ty.byte_size(),
            1 <= size <= 4,
            i <= count,
            s == i * size,
            out@ =~= decoded(span@, ty, i as int),
        decreases count - i,
    {
        proof {
            assert(i * size + size <= count * size) by (nonlinear_arith)
                requires
                    i < count,
                    size >= 1,
            ;
            assert((i + 1) * size == i * size + size) by (nonlinear_arith);
        }
        let c = read_component(span, ty, s);
        out.push(c);
        s = s + size;
        i = i + 1;
    }
    Ok(out)
}

/// Every scalar decoded from all-zero bytes is zero, whatever the encoding.
pub proof fn lemma_zero_bytes_decode_to_zero(b: Seq<u8>, ty: ComponentType, count: int)
    requires
        forall|k: int| 0 <= k < b.len() ==> b[k] == 0,
        0 <= count,
        b.len() == count * ty.byte_size(),
    ensures
        decoded(b, ty, count).len() == count,
        forall|i: int| 0 <= i < count ==> is_zero(#[trigger] decoded(b, ty, count)[i]),
{
    assert forall|i: int| 0 <= i < count implies is_zero(#[trigger] decoded(b, ty, count)[i]) by {
        let n = ty.byte_size() as int;
        assert(i * n + n <= count * n) by (nonlinear_arith)
            requires
                0 <= i < count,
                n >= 1,
        ;
        assert(0 <= i * n) by (nonlinear_arith)
            requires
                0 <= i,
                n >= 1,
        ;
    }
}

/// An index narrowed to 16 bits: its value modulo 65536, so indices past
/// 65535 wrap around.
pub open spec fn narrowed(x: int) -> u16 {
    (x % 65536) as u16
}

/// Narrows decoded index values to 16 bits, keeping the low 16 bits of each.
/// Fails on binary32 indices.
pub fn narrow_indices(values: &Vec<Component>) -> (r: Result<Vec<u16>, FormatError>)
    ensures
        r is Err <==> exists|i: int| 0 <= i < values@.len() && (#[trigger] values@[i]) is FloatBits,
        r is Err ==> r->Err_0 == FormatError::FloatIndices,
        r matches Ok(v) ==> v@.len() == values@.len() && forall|i: int|
            0 <= i < values@.len() ==> (#[trigger] v@[i]) == narrowed(values@[i]->Int_0 as int),
{
    let mut out: Vec<u16> = Vec::new();
    let mut i: usize = 0;
    while i < values.len()
        invariant
            i <= values@.len(),
            out@.len() == i,
            forall|j: int| 0 <= j < i ==> (#[trigger] values@[j]) is Int,
            forall|j: int| 0 <= j < i ==> (#[trigger] out@[j]) == narrowed(values@[j]->Int_0 as int),
        decreases values@.len() - i,
    {
        match values[i] {
            Component::Int(x) => {
                let n: u16 = if x >= 0 {
                    (x % 65536) as u16
                } else {
                    let w: i64 = -(x + 1);
                    let m: i64 = w % 65536;
                    assert(x % 65536 == 65535 - m);
                    (65535 - m) as u16
                };
                out.push(n);
            },
            Component::FloatBits(_) => {
                return Err(FormatError::FloatIndices);
            },
        }
        i = i + 1;
    }
    Ok(out)
}

} // verus!

use vstd::prelude::*;
use crate::arith::{all_wf, instance_values, lemma_relation_canonical, lemma_values_canonical, relation, values_of};
use crate::field::{le_value, modulus, Base};

verus! {

/// The number of bytes in the encoding of one field element.
pub const ELEMENT_BYTES: usize = 32;

/// The `i`-th 32-byte chunk of `bytes`.
pub open spec fn chunk(bytes: Seq<u8>, i: int) -> Seq<u8> {
    bytes.subrange(32 * i, 32 * i + 32)
}

/// `bytes` is the concatenation of the encodings of the elements of `s`.
pub open spec fn encodes(s: Seq<Base>, bytes: Seq<u8>) -> bool {
    &&& bytes.len() == 32 * s.len()
    &&& forall|i: int| 0 <= i < s.len() ==> #[trigger] s[i].bytes() == chunk(bytes, i)
}

/// `bytes` splits into 32-byte chunks, each the encoding of an integer below
/// the modulus.
pub open spec fn decodable(bytes: Seq<u8>) -> bool {
    &&& bytes.len() % 32 == 0
    &&& forall|i: int| 0 <= i < bytes.len() / 32 ==> le_value(#[trigger] chunk(bytes, i)) < modulus()
}

/// Encodes a public instance as the concatenation of its elements' canonical
/// 32-byte encodings.
pub fn encode_instances(instances: &[Base]) -> (r: Vec<u8>)
    requires
        instances@.len() * 32 <= usize::MAX,
    ensures
        encodes(instances@, r@),
{
    let mut r: Vec<u8> = Vec::new();
    let mut i: usize = 0;
    while i < instances.len()
        invariant
            0 <= i <= instances@.len(),
            instances@.len() * 32 <= usize::MAX,
            r@.len() == 32 * i,
            forall|k: int| 0 <= k < i ==> #[trigger] instances@[k].bytes() == chunk(r@, k),
        decreases instances@.len() - i,
    {
        let repr = instances[i].to_repr();
        let ghost prefix = r@;
        let mut j: usize = 0;
        while j < ELEMENT_BYTES
            invariant
                0 <= j <= 32,
                r@.len() == 32 * i + j,
                r@.subrange(0, 32 * i) == prefix,
                prefix.len() == 32 * i,
                forall|t: int| 0 <= t < j ==> r@[32 * i + t] == repr@[t],
            decreases 32 - j,
        {
            r.push(repr[j]);
            assert(r@.subrange(0, 32 * i) =~= prefix);
            j = j + 1;
        }
        assert(chunk(r@, i as int) =~= repr@);
        assert forall|k: int| 0 <= k < i + 1 implies #[trigger] instances@[k].bytes() == chunk(r@, k) by {
            if k < i {
                assert(chunk(r@, k) =~= chunk(prefix, k));
            }
        }
        i = i + 1;
    }
    r
}

/// Decodes a public instance from its encoding; `None` where the length is
/// not a multiple of 32 or a chunk is not a canonical encoding.
pub fn decode_instances(bytes: &[u8]) -> (r: Option<Vec<Base>>)
    ensures
        r is Some <==> decodable(bytes@),
        r matches Some(d) ==> all_wf(d@) && encodes(d@, bytes@),
{
    if bytes.len() % ELEMENT_BYTES != 0 {
        return None;
    }
    let n = bytes.len() / ELEMENT_BYTES;
    let mut d: Vec<Base> = Vec::new();
    let mut i: usize = 0;
    while i < n
        invariant
            0 <= i <= n,
            n == bytes@.len() / 32,
            bytes@.len() % 32 == 0,
            d@.len() == i,
            all_wf(d@),
            forall|k: int| 0 <= k < i ==> #[trigger] d@[k].bytes() == chunk(bytes@, k),
            forall|k: int| 0 <= k < i ==> le_value(#[trigger] chunk(bytes@, k)) < modulus(),
        decreases n - i,
    {
        let len = bytes.len();
        assert(32 * i + 32 <= len) by (nonlinear_arith)
            requires
                i < n,
                n == len / 32,
                len % 32 == 0,
        ;
        let start: usize = 32 * i;
        let mut arr: [u8; 32] = [0u8; 32];
        let mut j: usize = 0;
        while j < ELEMENT_BYTES
            invariant
                0 <= j <= 32,
                0 <= i < n,
                32 * i + 32 <= bytes@.len(),
                start == 32 * i,
                n == bytes@.len() / 32,
                bytes@.len() % 32 == 0,
                forall|t: int| 0 <= t < j ==> arr@[t] == bytes@[32 * i + t],
            decreases 32 - j,
        {
            arr.set(j, bytes[start + j]);
            j = j + 1;
        }
        assert(arr@ =~= chunk(bytes@, i as int));
        match Base::from_repr(arr) {
            Some(x) => {
                d.push(x);
            },
            None => {
                return None;
            },
        }
        i = i + 1;
    }
    Some(d)
}

/// Decoding undoes encoding: the encoding of canonical elements is decodable,
/// and every sequence it decodes to is the one encoded.
pub proof fn lemma_round_trip(s: Seq<Base>, bytes: Seq<u8>, d: Seq<Base>)
    requires
        all_wf(s),
        encodes(s, bytes),
        encodes(d, bytes),
    ensures
        decodable(bytes),
        d == s,
{
    assert forall|i: int| 0 <= i < bytes.len() / 32 implies le_value(#[trigger] chunk(bytes, i)) < modulus() by {
        s[i].lemma_encoding();
        assert(s[i].wf());
    }
    assert forall|i: int| 0 <= i < s.len() implies s[i] == d[i] by {
        s[i].lemma_bytes_determine(&d[i]);
    }
    assert(s =~= d);
}

/// Changing any one byte of the encoding of a correct public instance gives
/// bytes that either decode to nothing or decode to an instance that the
/// relation refuses for the same private inputs.
pub proof fn lemma_flipped_byte_refused(
    a: Base,
    b: Base,
    inst: Seq<Base>,
    bytes: Seq<u8>,
    pos: int,
    v: u8,
    other: Seq<Base>,
)
    requires
        a.wf(),
        b.wf(),
        all_wf(inst),
        values_of(inst) == instance_values(a.value(), b.value()),
        encodes(inst, bytes),
        0 <= pos < bytes.len(),
        v != bytes[pos],
        all_wf(other),
        encodes(other, bytes.update(pos, v)),
    ensures
        !relation(a.value(), b.value(), values_of(other)),
{
    let flipped = bytes.update(pos, v);
    let k = pos / 32;
    let j = pos % 32;
    assert(pos == 32 * k + j && 0 <= j < 32);
    assert(0 <= k < inst.len()) by (nonlinear_arith)
        requires
            pos == 32 * k + j,
            0 <= j < 32,
            0 <= pos < 32 * inst.len(),
    ;
    assert(other.len() == inst.len());
    assert(chunk(flipped, k)[j] == v);
    assert(chunk(bytes, k)[j] == bytes[pos]);
    assert(other[k].bytes() != inst[k].bytes());
    lemma_values_canonical(inst);
    lemma_values_canonical(other);
    if other[k].value() == inst[k].value() {
        other[k].lemma_value_determines(&inst[k]);
    }
    assert(values_of(other)[k] != values_of(inst)[k]);
    lemma_relation_canonical(a.value(), b.value(), values_of(other));
}

} // verus!

use vstd::prelude::*;
use halo2_proofs::pasta::Fp;
use halo2_proofs::pasta::group::ff::PrimeField;

verus! {

/// The order of the Pallas base field.
pub open spec fn modulus() -> int {
    0x40000000000000000000000000000000224698fc094cf91b992d30ed00000001int
}

/// The integer that a little-endian byte string encodes.
pub open spec fn le_value(s: Seq<u8>) -> int
    decreases s.len(),
{
    if s.len() == 0 {
        0
    } else {
        s[0] as int + 256 * le_value(s.subrange(1, s.len() as int))
    }
}

/// Reduction into the canonical range `[0, modulus)`.
pub open spec fn reduce(x: int) -> int {
    x % modulus()
}

pub proof fn lemma_le_value_nonneg(s: Seq<u8>)
    ensures
        le_value(s) >= 0,
    decreases s.len(),
{
    if s.len() > 0 {
        lemma_le_value_nonneg(s.subrange(1, s.len() as int));
    }
}

/// Two byte strings of one length that encode the same integer are equal.
pub proof fn lemma_le_value_injective(s: Seq<u8>, t: Seq<u8>)
    requires
        s.len() == t.len(),
        le_value(s) == le_value(t),
    ensures
        s == t,
    decreases s.len(),
{
    if s.len() > 0 {
        let s1 = s.subrange(1, s.len() as int);
        let t1 = t.subrange(1, t.len() as int);
        lemma_le_value_nonneg(s1);
        lemma_le_value_nonneg(t1);
        let (x, y, a, b) = (s[0] as int, t[0] as int, le_value(s1), le_value(t1));
        assert(x == y && a == b) by (nonlinear_arith)
            requires
                0 <= x < 256,
                0 <= y < 256,
                a >= 0,
                b >= 0,
                x + 256 * a == y + 256 * b,
        ;
        lemma_le_value_injective(s1, t1);
        assert(s =~= seq![s[0]] + s1);
        assert(t =~= seq![t[0]] + t1);
    }
}

/// An element of the Pallas base field, held in its canonical 32-byte
/// little-endian encoding.
#[derive(Clone, Copy, Debug, PartialEq, Eq)]
pub struct Base {
    pub(crate) repr: [u8; 32],
}

impl Base {
    /// The integer in `[0, modulus)` that this element stands for.
    pub closed spec fn value(&self) -> int {
        le_value(self.repr@)
    }

    /// The encoding of this element.
    pub closed spec fn bytes(&self) -> Seq<u8> {
        self.repr@
    }

    /// The encoding is canonical: it encodes an integer below the modulus.
    pub open spec fn wf(&self) -> bool {
        self.value() < modulus()
    }

    pub proof fn lemma_encoding(&self)
        ensures
            self.bytes().len() == 32,
            self.value() == le_value(self.bytes()),
            self.value() >= 0,
    {
        lemma_le_value_nonneg(self.repr@);
    }

    /// Elements with the same value have the same encoding.
    pub proof fn lemma_value_determines(&self, o: &Base)
        requires
            self.value() == o.value(),
        ensures
            self == o,
    {
        lemma_le_value_injective(self.repr@, o.repr@);
        assert(self.repr@ == o.repr@);
        assert(self.repr == o.repr);
    }

    /// Elements with the same encoding are equal.
    pub proof fn lemma_bytes_determine(&self, o: &Base)
        requires
            self.bytes() == o.bytes(),
        ensures
            self == o,
    {
        assert(self.repr@ == o.repr@);
        assert(self.repr == o.repr);
    }

    /// The element whose value is `n`.
    pub fn from_u64(n: u64) -> (r: Base)
        ensures
            r.wf(),
            r.value() == n as int,
    {
        fp_from_u64(n)
    }

    /// Reads a canonical encoding; `None` where the bytes encode an integer
    /// that is not below the modulus.
    pub fn from_repr(bytes: [u8; 32]) -> (r: Option<Base>)
        ensures
            r.is_some() <==> le_value(bytes@) < modulus(),
            r matches Some(x) ==> x.wf() && x.bytes() == bytes@ && x.value() == le_value(bytes@),
    {
        fp_from_repr(bytes)
    }

    /// The canonical encoding of this element.
    pub fn to_repr(&self) -> (r: [u8; 32])
        ensures
            r@ == self.bytes(),
            le_value(r@) == self.value(),
    {
        self.repr
    }

    /// Field addition.
    pub fn add(&self, o: &Base) -> (r: Base)
        requires
            self.wf(),
            o.wf(),
        ensures
            r.wf(),
            r.value() == reduce(self.value() + o.value()),
    {
        fp_add(self, o)
    }

    /// Field subtraction.
    pub fn sub(&self, o: &Base) -> (r: Base)
        requires
            self.wf(),
            o.wf(),
        ensures
            r.wf(),
            r.value() == reduce(self.value() - o.value()),
    {
        fp_sub(self, o)
    }

    /// Field multiplication.
    pub fn mul(&self, o: &Base) -> (r: Base)
        requires
            self.wf(),
            o.wf(),
        ensures
            r.wf(),
            r.value() == reduce(self.value() * o.value()),
    {
        fp_mul(self, o)
    }

    /// Whether two elements are equal, decided on their encodings.
    pub fn same(&self, o: &Base) -> (r: bool)
        ensures
            r <==> self.value() == o.value(),
    {
        let mut i: usize = 0;
        while i < 32
            invariant
                0 <= i <= 32,
                forall|j: int| 0 <= j < i ==> self.repr@[j] == o.repr@[j],
            decreases 32 - i,
        {
            if self.repr[i] != o.repr[i] {
                proof {
                    if self.value() == o.value() {
                        lemma_le_value_injective(self.repr@, o.repr@);
                    }
                }
                return false;
            }
            i = i + 1;
        }
        assert(self.repr@ =~= o.repr@);
        true
    }
}

/// Relies on pasta_curves' `From<u64> for Fp` (the element `n`) and
/// `PrimeField::to_repr` (its canonical little-endian encoding).
#[verifier::external_body]
fn fp_from_u64(n: u64) -> (r: Base)
    ensures
        r.wf(),
        r.value() == n as int,
{
    Base { repr: Fp::from(n).to_repr() }
}

/// Relies on pasta_curves' `PrimeField::from_repr` for `Fp`: it accepts
/// exactly the little-endian encodings of integers below the modulus, and
/// `to_repr` gives such an encoding back unchanged.
#[verifier::external_body]
fn fp_from_repr(bytes: [u8; 32]) -> (r: Option<Base>)
    ensures
        r.is_some() <==> le_value(bytes@) < modulus(),
        r matches Some(x) ==> x.wf() && x.bytes() == bytes@ && x.value() == le_value(bytes@),
{
    Option::from(Fp::from_repr(bytes)).map(|x: Fp| Base { repr: x.to_repr() })
}

/// Relies on pasta_curves' `Add for Fp`: addition modulo the field order.
#[verifier::external_body]
fn fp_add(a: &Base, b: &Base) -> (r: Base)
    requires
        a.wf(),
        b.wf(),
    ensures
        r.wf(),
        r.value() == reduce(a.value() + b.value()),
{
    let x = Fp::from_repr(a.repr).unwrap();
    let y = Fp::from_repr(b.repr).unwrap();
    Base { repr: (x + y).to_repr() }
}

/// Relies on pasta_curves' `Sub for Fp`: subtraction modulo the field order.
#[verifier::external_body]
fn fp_sub(a: &Base, b: &Base) -> (r: Base)
    requires
        a.wf(),
        b.wf(),
    ensures
        r.wf(),
        r.value() == reduce(a.value() - b.value()),
{
    let x = Fp::from_repr(a.repr).unwrap();
    let y = Fp::from_repr(b.repr).unwrap();
    Base { repr: (x - y).to_repr() }
}

/// Relies on pasta_curves' `Mul for Fp`: multiplication modulo the field order.
#[verifier::external_body]
fn fp_mul(a: &Base, b: &Base) -> (r: Base)
    requires
        a.wf(),
        b.wf(),
    ensures
        r.wf(),
        r.value() == reduce(a.value() * b.value()),
{
    let x = Fp::from_repr(a.repr).unwrap();
    let y = Fp::from_repr(b.repr).unwrap();
    Base { repr: (x * y).to_repr() }
}

} // verus!

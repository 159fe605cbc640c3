use vstd::prelude::*;
use crate::field::{modulus, reduce, Base};

verus! {

/// The identity of the add gate on one row: `a + b - sum = 0` in the field.
pub open spec fn add_gate(a: int, b: int, out: int) -> bool {
    (a + b - out) % modulus() == 0
}

/// The identity of the sub gate on one row: `a - b - diff = 0` in the field.
pub open spec fn sub_gate(a: int, b: int, out: int) -> bool {
    (a - b - out) % modulus() == 0
}

/// The identity of the mul gate on one row: `a * b - product = 0` in the field.
pub open spec fn mul_gate(a: int, b: int, out: int) -> bool {
    (a * b - out) % modulus() == 0
}

/// The values of the public instance, in order: sum, product, difference.
pub open spec fn instance_values(a: int, b: int) -> Seq<int> {
    seq![reduce(a + b), reduce(a * b), reduce(a - b)]
}

/// The values that a sequence of elements stands for.
pub open spec fn values_of(s: Seq<Base>) -> Seq<int> {
    s.map_values(|x: Base| x.value())
}

/// Every element of the sequence is canonical.
pub open spec fn all_wf(s: Seq<Base>) -> bool {
    forall|i: int| 0 <= i < s.len() ==> #[trigger] s[i].wf()
}

/// The relation the circuit proves: `inst` is `[a + b, a * b, a - b]`.
pub open spec fn relation(a: int, b: int, inst: Seq<int>) -> bool {
    inst.len() == 3 && add_gate(a, b, inst[0]) && mul_gate(a, b, inst[1]) && sub_gate(a, b, inst[2])
}

/// A private input: a concrete element for the prover, or unknown when only
/// the shape of the circuit matters (key generation).
#[derive(Clone, Copy, Debug, PartialEq, Eq)]
pub enum Witness {
    Known(Base),
    Unknown,
}

impl Witness {
    pub open spec fn wf(&self) -> bool {
        match self {
            Witness::Known(x) => x.wf(),
            Witness::Unknown => true,
        }
    }

    /// The sum of two inputs; unknown where either is.
    pub fn add(&self, o: &Witness) -> (r: Witness)
        requires
            self.wf(),
            o.wf(),
        ensures
            r.wf(),
            match (*self, *o) {
                (Witness::Known(x), Witness::Known(y)) => r matches Witness::Known(z)
                    && z.value() == reduce(x.value() + y.value()),
                _ => r == Witness::Unknown,
            },
    {
        match (self, o) {
            (Witness::Known(x), Witness::Known(y)) => Witness::Known(x.add(y)),
            _ => Witness::Unknown,
        }
    }

    /// The difference of two inputs; unknown where either is.
    pub fn sub(&self, o: &Witness) -> (r: Witness)
        requires
            self.wf(),
            o.wf(),
        ensures
            r.wf(),
            match (*self, *o) {
                (Witness::Known(x), Witness::Known(y)) => r matches Witness::Known(z)
                    && z.value() == reduce(x.value() - y.value()),
                _ => r == Witness::Unknown,
            },
    {
        match (self, o) {
            (Witness::Known(x), Witness::Known(y)) => Witness::Known(x.sub(y)),
            _ => Witness::Unknown,
        }
    }

    /// The product of two inputs; unknown where either is.
    pub fn mul(&self, o: &Witness) -> (r: Witness)
        requires
            self.wf(),
            o.wf(),
        ensures
            r.wf(),
            match (*self, *o) {
                (Witness::Known(x), Witness::Known(y)) => r matches Witness::Known(z)
                    && z.value() == reduce(x.value() * y.value()),
                _ => r == Witness::Unknown,
            },
    {
        match (self, o) {
            (Witness::Known(x), Witness::Known(y)) => Witness::Known(x.mul(y)),
            _ => Witness::Unknown,
        }
    }
}

/// The public instance `[a + b, a * b, a - b]` for the private inputs `a`, `b`.
pub fn public_instances(a: &Base, b: &Base) -> (r: Vec<Base>)
    requires
        a.wf(),
        b.wf(),
    ensures
        r@.len() == 3,
        all_wf(r@),
        values_of(r@) == instance_values(a.value(), b.value()),
{
    let mut r: Vec<Base> = Vec::new();
    r.push(a.add(b));
    r.push(a.mul(b));
    r.push(a.sub(b));
    assert(values_of(r@) =~= instance_values(a.value(), b.value()));
    r
}

/// Whether `instances` is the public instance that `a`, `b` give: exactly
/// three elements, in the order sum, product, difference.
pub fn satisfies(a: &Base, b: &Base, instances: &[Base]) -> (r: bool)
    requires
        a.wf(),
        b.wf(),
        all_wf(instances@),
    ensures
        r <==> relation(a.value(), b.value(), values_of(instances@)),
{
    proof {
        lemma_values_canonical(instances@);
        lemma_relation_canonical(a.value(), b.value(), values_of(instances@));
    }
    if instances.len() != 3 {
        return false;
    }
    let expected = public_instances(a, b);
    proof {
        lemma_values_canonical(expected@);
    }
    instances[0].same(&expected[0]) && instances[1].same(&expected[1]) && instances[2].same(
        &expected[2],
    )
}

/// The values of canonical elements lie in `[0, modulus)`.
pub proof fn lemma_values_canonical(s: Seq<Base>)
    requires
        all_wf(s),
    ensures
        values_of(s).len() == s.len(),
        forall|i: int| 0 <= i < s.len() ==> values_of(s)[i] == s[i].value(),
        forall|i: int| 0 <= i < s.len() ==> 0 <= #[trigger] values_of(s)[i] < modulus(),
{
    assert forall|i: int| 0 <= i < s.len() implies 0 <= #[trigger] values_of(s)[i] < modulus() by {
        s[i].lemma_encoding();
        assert(values_of(s)[i] == s[i].value());
        assert(s[i].wf());
    }
}

/// On canonical values the relation is equality with the public instance.
pub proof fn lemma_relation_canonical(a: int, b: int, inst: Seq<int>)
    requires
        forall|i: int| 0 <= i < inst.len() ==> 0 <= #[trigger] inst[i] < modulus(),
    ensures
        relation(a, b, inst) <==> inst == instance_values(a, b),
{
    if inst.len() == 3 {
        lemma_gate_canonical(a + b, inst[0]);
        lemma_gate_canonical(a * b, inst[1]);
        lemma_gate_canonical(a - b, inst[2]);
        if inst =~= instance_values(a, b) {
        }
    }
}

/// `x - out` vanishes in the field, for a canonical `out`, exactly when `out`
/// is `x` reduced.
proof fn lemma_gate_canonical(x: int, out: int)
    requires
        0 <= out < modulus(),
    ensures
        ((x - out) % modulus() == 0) <==> out == reduce(x),
{
    let m = modulus();
    vstd::arithmetic::div_mod::lemma_fundamental_div_mod(x, m);
    vstd::arithmetic::div_mod::lemma_fundamental_div_mod(x - out, m);
    if (x - out) % m == 0 {
        vstd::arithmetic::div_mod::lemma_mod_multiples_vanish(
            (x - out) / m,
            out,
            m,
        );
        vstd::arithmetic::div_mod::lemma_small_mod(out as nat, m as nat);
        assert(x == (x - out) / m * m + out);
        assert(x % m == ((x - out) / m * m + out) % m);
    } else {
        if out == x % m {
            assert(x - out == (x / m) * m) by (nonlinear_arith)
                requires
                    x == m * (x / m) + x % m,
                    out == x % m,
            ;
            vstd::arithmetic::div_mod::lemma_mod_multiples_basic(x / m, m);
        }
    }
}

} // verus!

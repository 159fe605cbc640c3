use vstd::prelude::*;
use crate::arith::{
    add_gate, all_wf, instance_values, mul_gate, public_instances, relation, sub_gate, values_of, Witness,
};
use crate::field::{reduce, Base};

verus! {

/// The three custom gates of the arithmetic chip, each behind its own selector.
#[derive(Clone, Copy, Debug, PartialEq, Eq)]
pub enum Gate {
    Add,
    Sub,
    Mul,
}

impl Gate {
    /// The polynomial identity this selector enforces, on the values of one row.
    pub open spec fn holds(self, lhs: int, rhs: int, out: int) -> bool {
        match self {
            Gate::Add => add_gate(lhs, rhs, out),
            Gate::Sub => sub_gate(lhs, rhs, out),
            Gate::Mul => mul_gate(lhs, rhs, out),
        }
    }

    /// The value computed from the two inputs.
    pub open spec fn eval(self, lhs: int, rhs: int) -> int {
        match self {
            Gate::Add => reduce(lhs + rhs),
            Gate::Sub => reduce(lhs - rhs),
            Gate::Mul => reduce(lhs * rhs),
        }
    }

    /// The output witness; unknown where an input is.
    pub fn apply(&self, lhs: &Witness, rhs: &Witness) -> (r: Witness)
        requires
            lhs.wf(),
            rhs.wf(),
        ensures
            r.wf(),
            match (*lhs, *rhs) {
                (Witness::Known(x), Witness::Known(y)) => r matches Witness::Known(z)
                    && z.value() == self.eval(x.value(), y.value()),
                _ => r == Witness::Unknown,
            },
    {
        match self {
            Gate::Add => lhs.add(rhs),
            Gate::Sub => lhs.sub(rhs),
            Gate::Mul => lhs.mul(rhs),
        }
    }
}

/// The computed value satisfies the polynomial identity.
pub proof fn lemma_eval_holds(g: Gate, lhs: int, rhs: int)
    ensures
        g.holds(lhs, rhs, g.eval(lhs, rhs)),
{
    let m = crate::field::modulus();
    let x = match g {
        Gate::Add => lhs + rhs,
        Gate::Sub => lhs - rhs,
        Gate::Mul => lhs * rhs,
    };
    vstd::arithmetic::div_mod::lemma_fundamental_div_mod(x, m);
    assert(x - x % m == (x / m) * m) by (nonlinear_arith)
        requires
            x == m * (x / m) + x % m,
    ;
    vstd::arithmetic::div_mod::lemma_mod_multiples_basic(x / m, m);
}

/// For all private inputs `a`, `b`, the public instance `[a + b, a * b, a - b]`
/// satisfies the relation: a correctly formed instance is always accepted.
pub proof fn lemma_correct_instance_satisfies(a: int, b: int)
    ensures
        relation(a, b, instance_values(a, b)),
{
    lemma_eval_holds(Gate::Add, a, b);
    lemma_eval_holds(Gate::Mul, a, b);
    lemma_eval_holds(Gate::Sub, a, b);
}

/// One row of the chip: the selected identity, the two inputs
/// copied in, the output, and the public instance slot the output is bound to.
#[derive(Clone, Copy, Debug, PartialEq, Eq)]
pub struct Row {
    pub gate: Gate,
    pub lhs: Witness,
    pub rhs: Witness,
    pub out: Witness,
    pub slot: usize,
}

/// The identity selected on each row, in the order the circuit lays them out.
pub open spec fn gate_order() -> Seq<Gate> {
    seq![Gate::Add, Gate::Mul, Gate::Sub]
}

/// The arithmetic circuit: two private inputs, each known or not.
#[derive(Clone, Copy, Debug, PartialEq, Eq)]
pub struct ArithCircuit {
    pub a: Witness,
    pub b: Witness,
}

impl ArithCircuit {
    pub open spec fn wf(&self) -> bool {
        self.a.wf() && self.b.wf()
    }

    /// A circuit that holds the private inputs `a` and `b`.
    pub fn new(a: Base, b: Base) -> (r: ArithCircuit)
        ensures
            r == (ArithCircuit { a: Witness::Known(a), b: Witness::Known(b) }),
    {
        ArithCircuit { a: Witness::Known(a), b: Witness::Known(b) }
    }

    /// The same circuit with every private input unknown, for key generation.
    pub fn without_witnesses(&self) -> (r: ArithCircuit)
        ensures
            r == (ArithCircuit { a: Witness::Unknown, b: Witness::Unknown }),
    {
        ArithCircuit { a: Witness::Unknown, b: Witness::Unknown }
    }

    /// The rows that synthesis assigns: sum, product and difference of the
    /// same pair of inputs, bound to instance slots 0, 1 and 2.
    pub fn rows(&self) -> (r: Vec<Row>)
        requires
            self.wf(),
        ensures
            r@.len() == 3,
            forall|i: int|
                0 <= i < 3 ==> {
                    let row = #[trigger] r@[i];
                    &&& row.gate == gate_order()[i]
                    &&& row.lhs == self.a
                    &&& row.rhs == self.b
                    &&& row.slot == i
                    &&& row.out.wf()
                    &&& match (self.a, self.b) {
                        (Witness::Known(x), Witness::Known(y)) => row.out matches Witness::Known(
                            z,
                        ) && z.value() == row.gate.eval(x.value(), y.value()),
                        _ => row.out == Witness::Unknown,
                    }
                },
    {
        let mut r: Vec<Row> = Vec::new();
        let gates = [Gate::Add, Gate::Mul, Gate::Sub];
        let mut i: usize = 0;
        while i < 3
            invariant
                0 <= i <= 3,
                self.wf(),
                gates@ == gate_order(),
                r@.len() == i,
                forall|j: int|
                    0 <= j < i ==> {
                        let row = #[trigger] r@[j];
                        &&& row.gate == gate_order()[j]
                        &&& row.lhs == self.a
                        &&& row.rhs == self.b
                        &&& row.slot == j
                        &&& row.out.wf()
                        &&& match (self.a, self.b) {
                            (Witness::Known(x), Witness::Known(y)) => row.out matches Witness::Known(
                                z,
                            ) && z.value() == row.gate.eval(x.value(), y.value()),
                            _ => row.out == Witness::Unknown,
                        }
                    },
            decreases 3 - i,
        {
            let g = gates[i];
            let out = g.apply(&self.a, &self.b);
            r.push(Row { gate: g, lhs: self.a, rhs: self.b, out, slot: i });
            i = i + 1;
        }
        r
    }

    /// The public instance that the private inputs give; `None` where an
    /// input is unknown.
    pub fn instances(&self) -> (r: Option<Vec<Base>>)
        requires
            self.wf(),
        ensures
            match (self.a, self.b) {
                (Witness::Known(x), Witness::Known(y)) => r matches Some(v) && v@.len() == 3
                    && all_wf(v@) && values_of(v@) == instance_values(x.value(), y.value()),
                _ => r is None,
            },
    {
        match (&self.a, &self.b) {
            (Witness::Known(x), Witness::Known(y)) => Some(public_instances(x, y)),
            _ => None,
        }
    }
}

} // verus!

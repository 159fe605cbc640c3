use vstd::prelude::*;
use halo2_proofs::pasta::group::ff::PrimeField;
use halo2_proofs::pasta::{pallas, vesta, Fp};
use halo2_proofs::plonk;
use halo2_proofs::plonk::{Circuit, SingleVerifier};
use halo2_proofs::poly::commitment::Params;
use halo2_proofs::transcript::{Blake2bRead, Blake2bWrite, Challenge255};
use rand::RngCore;
use crate::arith::{all_wf, relation, satisfies, values_of, Witness};
use crate::circuit::ArithCircuit;
use core::marker::PhantomData;
use vstd::std_specs::cmp::PartialEqSpec;
use halo2_proofs::plonk::ConstraintSystem;
use vstd::arithmetic::power2::{lemma2_to64, lemma_pow2_strictly_increases, lemma_pow2_unfold, pow2};
use crate::field::Base;

verus! {

/// The number of elements in the public instance: sum, product, difference.
pub const INSTANCE_LEN: usize = 3;

/// The largest degree for which commitment parameters can be derived.
pub const MAX_DEGREE: u32 = 31;

#[verifier::external_type_specification]
#[verifier::external_body]
pub struct ExPlonkError(plonk::Error);

/// Name for halo2's verdict on a proof: whether `plonk::verify_proof`, with
/// commitment parameters of degree `k`, the verifying key whose pinned
/// description is `pinned_vk`, and a Blake2b transcript over `proof`, accepts
/// the single instance column `instances`.
pub uninterp spec fn plonk_accepts(k: u32, pinned_vk: Seq<char>, proof: Seq<u8>, instances: Seq<int>) -> bool;

/// Commitment parameters of degree `k` and the verifying key derived with
/// them, kept opaque: their types carry a curve bound that cannot be declared.
#[verifier::external_body]
#[derive(Debug)]
pub struct VerifierParts {
    params: Params<vesta::Affine>,
    vk: plonk::VerifyingKey<vesta::Affine>,
}

impl Clone for VerifierParts {
    /// Relies on the `Clone` impls that halo2 derives for `Params` and
    /// `plonk::VerifyingKey`; nothing is claimed of the copy.
    #[verifier::external_body]
    fn clone(&self) -> (r: VerifierParts) {
        VerifierParts { params: self.params.clone(), vk: self.vk.clone() }
    }
}

/// Commitment parameters of degree `k` and the proving key derived with them.
#[verifier::external_body]
pub struct ProverParts {
    params: Params<vesta::Affine>,
    pk: plonk::ProvingKey<vesta::Affine>,
}

/// The degree of the constraint system of the circuit type `C`, as
/// `C::configure` declares it. Only `circuit_shape` makes one, so the degree
/// is that of `C`.
pub struct CircuitShape<C> {
    degree: u64,
    marker: PhantomData<C>,
}

impl<C> CircuitShape<C> {
    pub closed spec fn degree(&self) -> u64 {
        self.degree
    }
}

/// Whether an evaluation domain for a table of `2^k` rows and constraints of
/// degree `degree` fits the field: `2^k * (degree - 1) <= 2^32`.
pub open spec fn fits(k: u32, degree: u64) -> bool {
    &&& k <= MAX_DEGREE
    &&& degree >= 1
    &&& pow2(k as nat) * (degree - 1) <= pow2(32)
}

/// Why a key could not be built.
#[derive(Clone, Copy, Debug, PartialEq, Eq)]
pub enum KeyError {
    /// `2^k` rows times the circuit's degree exceed the field's two-adicity,
    /// or `k` exceeds what the commitment parameters support.
    DegreeTooLarge,
    /// Key generation failed, for instance because `2^k` rows cannot hold the circuit.
    Keygen,
}

/// Why a proof could not be created.
#[derive(Clone, Copy, Debug, PartialEq, Eq)]
pub enum ProofError {
    /// A private input of the witness is unknown.
    MissingWitness,
    /// The public instance is not `[a + b, a * b, a - b]` for the witness.
    InstanceMismatch,
    /// The proving system refused the circuit or the instance.
    Creation,
}

/// A proof was not accepted. Every cause gives this one value.
#[derive(Clone, Copy, Debug, PartialEq, Eq)]
pub enum VerifyError {
    Rejected,
}

/// A verifying key for a circuit, built at degree `k` (a table of `2^k` rows).
#[derive(Clone, Debug)]
pub struct VerifyingKey {
    k: u32,
    pinned: String,
    parts: VerifierParts,
}

/// A proving key for the circuit type `C`, built at degree `k`.
pub struct ProvingKey<C> {
    k: u32,
    parts: ProverParts,
    marker: PhantomData<C>,
}

/// An opaque proof.
#[derive(Clone, Debug, Default)]
pub struct Proof(Vec<u8>);

/// Relies on halo2's `ConstraintSystem::default`, `C::configure` and
/// `ConstraintSystem::degree`: the degree the circuit's constraints require.
#[verifier::external_body]
fn circuit_shape<C: Circuit<Fp>>() -> (r: CircuitShape<C>) {
    let mut cs = ConstraintSystem::<Fp>::default();
    let _ = C::configure(&mut cs);
    CircuitShape { degree: cs.degree() as u64, marker: PhantomData }
}

/// Relies on halo2's `Params::new` (which asserts `k < 32`) and
/// `plonk::keygen_vk`, which derives the verifying key of `c` or reports an
/// error; its evaluation domain asserts `2^k * (degree - 1) <= 2^32`. Returns
/// the key's pinned description (`VerifyingKey::pinned`, formatted) beside it.
#[verifier::external_body]
fn keygen_vk<C: Circuit<Fp>>(k: u32, c: &C, shape: &CircuitShape<C>) -> (r: Result<(VerifierParts, String), plonk::Error>)
    requires
        fits(k, shape.degree()),
{
    let params = Params::new(k);
    let vk = plonk::keygen_vk(&params, c)?;
    let pinned = format!("{:?}", vk.pinned());
    Ok((VerifierParts { params, vk }, pinned))
}

/// Relies on halo2's `Params::new` (which asserts `k < 32`), `plonk::keygen_vk`
/// and `plonk::keygen_pk`, which derive the keys of `c` or report an error;
/// the evaluation domain asserts `2^k * (degree - 1) <= 2^32`.
#[verifier::external_body]
fn keygen_pk<C: Circuit<Fp>>(k: u32, c: &C, shape: &CircuitShape<C>) -> (r: Result<ProverParts, plonk::Error>)
    requires
        fits(k, shape.degree()),
{
    let params = Params::new(k);
    let vk = plonk::keygen_vk(&params, c)?;
    plonk::keygen_pk(&params, vk, c).map(|pk| ProverParts { params, pk })
}

/// Relies on halo2's `plonk::verify_proof` with a `SingleVerifier` and a
/// Blake2b transcript read from `proof`: its verdict depends only on the
/// parameters (fixed by `k`), the key (fixed by its pinned description), the
/// proof bytes and the instance.
#[verifier::external_body]
fn plonk_verify(vk: &VerifyingKey, proof: &[u8], instances: &[Base]) -> (r: Result<(), plonk::Error>)
    requires
        all_wf(instances@),
    ensures
        r is Ok <==> plonk_accepts(vk.k, vk.pinned@, proof@, values_of(instances@)),
{
    let inst: Vec<pallas::Base> = instances.iter().map(|x| Fp::from_repr(x.repr).unwrap()).collect();
    let strategy = SingleVerifier::new(&vk.parts.params);
    let mut transcript = Blake2bRead::<_, vesta::Affine, Challenge255<_>>::init(proof);
    plonk::verify_proof(&vk.parts.params, &vk.parts.vk, strategy, &[&[&inst[..]]], &mut transcript)
}

/// Relies on halo2's `plonk::create_proof` with a Blake2b transcript, whose
/// finalized bytes are the proof, on the circuit `C::from(*witness)`.
/// Blinding is drawn from `rng`.
#[verifier::external_body]
fn plonk_create<C: Circuit<Fp> + From<ArithCircuit>, R: RngCore>(
    pk: &ProvingKey<C>,
    witness: &ArithCircuit,
    instances: &[Base],
    rng: R,
) -> (r: Result<Vec<u8>, plonk::Error>)
    requires
        all_wf(instances@),
{
    let inst: Vec<pallas::Base> = instances.iter().map(|x| Fp::from_repr(x.repr).unwrap()).collect();
    let mut transcript = Blake2bWrite::<_, vesta::Affine, Challenge255<_>>::init(vec![]);
    let circuit = C::from(*witness);
    plonk::create_proof(&pk.parts.params, &pk.parts.pk, &[circuit], &[&[&inst[..]]], rng, &mut transcript)?;
    Ok(transcript.finalize())
}

/// Whether `2^k * (degree - 1) <= 2^32`, for `k <= MAX_DEGREE`.
fn degree_fits(k: u32, degree: u64) -> (r: bool)
    ensures
        r == fits(k, degree),
{
    if k > MAX_DEGREE || degree < 1 {
        return false;
    }
    let mut rows: u64 = 1;
    let mut i: u32 = 0;
    proof {
        lemma2_to64();
    }
    while i < k
        invariant
            0 <= i <= k <= MAX_DEGREE,
            rows == pow2(i as nat),
            rows <= 0x8000_0000,
        decreases k - i,
    {
        proof {
            lemma_pow2_unfold((i + 1) as nat);
            lemma2_to64();
            if i + 1 < 31 {
                lemma_pow2_strictly_increases((i + 1) as nat, 31);
            }
        }
        rows = rows * 2;
        i = i + 1;
    }
    let d: u64 = degree - 1;
    assert((rows as int) * (d as int) <= 0x8000_0000 * 0xffff_ffff_ffff_ffff) by (nonlinear_arith)
        requires
            rows <= 0x8000_0000,
            d <= 0xffff_ffff_ffff_ffff,
    ;
    (rows as u128) * (d as u128) <= 0x1_0000_0000u128
}

impl VerifyingKey {
    /// The degree the key was built at.
    pub closed spec fn degree(&self) -> u32 {
        self.k
    }

    /// The pinned description of the key, which fixes how it verifies.
    pub closed spec fn pinned_view(&self) -> Seq<char> {
        self.pinned@
    }

    /// Derives commitment parameters of degree `k` and the verifying key of
    /// the circuit's shape; the witness in `c` plays no part. Refused where
    /// `2^k` rows of the circuit's degree do not fit the field.
    pub fn build<C: Circuit<Fp>>(k: u32, c: &C) -> (r: Result<VerifyingKey, KeyError>)
        ensures
            k > MAX_DEGREE ==> r == Err::<VerifyingKey, KeyError>(KeyError::DegreeTooLarge),
            r matches Ok(vk) ==> vk.degree() == k,
    {
        let shape = circuit_shape::<C>();
        if !degree_fits(k, shape.degree) {
            return Err(KeyError::DegreeTooLarge);
        }
        match keygen_vk(k, c, &shape) {
            Ok((parts, pinned)) => Ok(VerifyingKey { k, pinned, parts }),
            Err(_) => Err(KeyError::Keygen),
        }
    }

    /// The degree the key was built at.
    pub fn k(&self) -> (r: u32)
        ensures
            r == self.degree(),
    {
        self.k
    }
}

impl<C: Circuit<Fp>> ProvingKey<C> {
    /// The degree the key was built at.
    pub closed spec fn degree(&self) -> u32 {
        self.k
    }

    /// Derives commitment parameters of degree `k` and the proving key of
    /// the circuit's shape. Refused where `2^k` rows of the circuit's degree
    /// do not fit the field.
    pub fn build(k: u32, c: &C) -> (r: Result<ProvingKey<C>, KeyError>)
        ensures
            k > MAX_DEGREE ==> r == Err::<ProvingKey<C>, KeyError>(KeyError::DegreeTooLarge),
            r matches Ok(pk) ==> pk.degree() == k,
    {
        let shape = circuit_shape::<C>();
        if !degree_fits(k, shape.degree) {
            return Err(KeyError::DegreeTooLarge);
        }
        match keygen_pk(k, c, &shape) {
            Ok(parts) => Ok(ProvingKey { k, parts, marker: PhantomData }),
            Err(_) => Err(KeyError::Keygen),
        }
    }

    /// The degree the key was built at.
    pub fn k(&self) -> (r: u32)
        ensures
            r == self.degree(),
    {
        self.k
    }
}

impl PartialEq for Proof {
    /// Proofs are equal when their bytes are.
    fn eq(&self, o: &Proof) -> (r: bool) {
        let n = self.0.len();
        if n != o.0.len() {
            return false;
        }
        let mut i: usize = 0;
        while i < n
            invariant
                0 <= i <= n,
                n == self.0@.len(),
                n == o.0@.len(),
                forall|j: int| 0 <= j < i ==> self.0@[j] == o.0@[j],
            decreases n - i,
        {
            if self.0[i] != o.0[i] {
                return false;
            }
            i = i + 1;
        }
        assert(self.0@ =~= o.0@);
        true
    }
}

impl vstd::std_specs::cmp::PartialEqSpecImpl for Proof {
    open spec fn obeys_eq_spec() -> bool {
        true
    }

    open spec fn eq_spec(&self, o: &Proof) -> bool {
        self.bytes() == o.bytes()
    }
}

impl Eq for Proof {
}

/// Two proofs are equal exactly when their bytes are: a proof is its bytes.
pub proof fn lemma_proof_equal_iff_bytes(p: &Proof, q: &Proof)
    ensures
        p.eq_spec(q) <==> p.bytes() == q.bytes(),
{
}

impl Proof {
    /// The bytes of the proof.
    pub closed spec fn bytes(&self) -> Seq<u8> {
        self.0@
    }

    /// A proof made of the given bytes.
    pub fn new(bytes: Vec<u8>) -> (r: Proof)
        ensures
            r.bytes() == bytes@,
    {
        Proof(bytes)
    }

    /// The bytes of the proof.
    pub fn as_ref(&self) -> (r: &[u8])
        ensures
            r@ == self.bytes(),
    {
        self.0.as_slice()
    }

    /// Checks the proof against a verifying key and the public instance
    /// `[sum, product, difference]`. It is accepted exactly when the instance
    /// has three elements and halo2 accepts it; every failure is the same value.
    pub fn verify(&self, vk: &VerifyingKey, instances: &[Base]) -> (r: Result<(), VerifyError>)
        requires
            all_wf(instances@),
        ensures
            r is Ok <==> (instances@.len() == INSTANCE_LEN && plonk_accepts(
                vk.degree(),
                vk.pinned_view(),
                self.bytes(),
                values_of(instances@),
            )),
            r is Err ==> r == Err::<(), VerifyError>(VerifyError::Rejected),
    {
        if instances.len() != INSTANCE_LEN {
            return Err(VerifyError::Rejected);
        }
        match plonk_verify(vk, self.0.as_slice(), instances) {
            Ok(()) => Ok(()),
            Err(_) => Err(VerifyError::Rejected),
        }
    }

    /// Creates a proof that `witness` gives the public instance `instances`,
    /// with the circuit `C` built from that same witness and blinding drawn
    /// from `rng`. Refused before any work where an input of the witness is
    /// unknown or the instance is not `[a + b, a * b, a - b]` for it;
    /// otherwise halo2 decides.
    pub fn create<C: Circuit<Fp> + From<ArithCircuit>, R: RngCore>(
        pk: &ProvingKey<C>,
        witness: &ArithCircuit,
        instances: &[Base],
        rng: R,
    ) -> (r: Result<Proof, ProofError>)
        requires
            witness.wf(),
            all_wf(instances@),
        ensures
            match (witness.a, witness.b) {
                (Witness::Known(x), Witness::Known(y)) => {
                    &&& (r == Err::<Proof, ProofError>(ProofError::InstanceMismatch) <==> !relation(
                        x.value(),
                        y.value(),
                        values_of(instances@),
                    ))
                    &&& r is Err ==> r == Err::<Proof, ProofError>(ProofError::InstanceMismatch)
                        || r == Err::<Proof, ProofError>(ProofError::Creation)
                },
                _ => r == Err::<Proof, ProofError>(ProofError::MissingWitness),
            },
    {
        match (&witness.a, &witness.b) {
            (Witness::Known(x), Witness::Known(y)) => {
                if !satisfies(x, y, instances) {
                    return Err(ProofError::InstanceMismatch);
                }
                match plonk_create(pk, witness, instances, rng) {
                    Ok(bytes) => Ok(Proof(bytes)),
                    Err(_) => Err(ProofError::Creation),
                }
            },
            _ => Err(ProofError::MissingWitness),
        }
    }
}

} // verus!

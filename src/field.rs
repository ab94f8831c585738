//! Elements of the Pallas base field, held by their canonical little-endian
//! representation. Arithmetic is carried out by `pasta_curves`.
use halo2_proofs::pasta::group::ff::PrimeField;
use halo2_proofs::pasta::Fp;
use vstd::prelude::*;

verus! {

/// The prime modulus of the Pallas base field:
/// `0x40000000000000000000000000000000224698fc094cf91b992d30ed00000001`.
pub open spec fn modulus() -> nat {
    0x40000000000000000000000000000000nat * 0x100000000000000000000000000000000nat
        + 0x224698fc094cf91b992d30ed00000001nat
}

/// The unsigned integer that a little-endian byte string denotes.
pub open spec fn le_val(s: Seq<u8>) -> nat
    decreases s.len(),
{
    if s.len() == 0 {
        0
    } else {
        s[0] as nat + 256 * le_val(s.drop_first())
    }
}

/// A field element. Its bytes are always the canonical representative,
/// an integer below the modulus.
#[derive(Clone, Copy, Debug, PartialEq, Eq)]
pub struct Fe {
    repr: [u8; 32],
}

/// The field element `n mod p`, for an integer `n` of any sign.
pub open spec fn fe_of_int(n: int) -> nat {
    (n % (modulus() as int)) as nat
}

impl Fe {
    /// The canonical integer representative of the element.
    pub closed spec fn val(self) -> nat {
        le_val(self.repr@)
    }

    #[verifier::type_invariant]
    spec fn canonical(self) -> bool {
        self.val() < modulus()
    }

    /// The element `n`.
    pub fn from_u64(n: u64) -> (r: Fe)
        ensures
            r.val() == n as nat,
    {
        fp_from_u64(n)
    }

    /// The element `n mod p`; a negative `n` gives `p - |n|`.
    pub fn from_i64(n: i64) -> (r: Fe)
        ensures
            r.val() == fe_of_int(n as int),
    {
        if n >= 0 {
            let r = fp_from_u64(n as u64);
            assert(modulus() > 0x10000000000000000nat);
            assert((n as int) % (modulus() as int) == n as int) by {
                vstd::arithmetic::div_mod::lemma_small_mod(n as nat, modulus());
            }
            r
        } else {
            let m: u64 = if n == i64::MIN { 0x8000_0000_0000_0000u64 } else { (-n) as u64 };
            let a = fp_from_u64(m);
            let r = fp_neg(&a);
            assert(modulus() > 0x10000000000000000nat);
            assert(m as int == -(n as int));
            assert(((modulus() - m) as int) % (modulus() as int) == (modulus() - m) as int) by {
                vstd::arithmetic::div_mod::lemma_small_mod((modulus() - m) as nat, modulus());
            }
            assert((n as int) % (modulus() as int) == (modulus() as int + n as int) % (modulus() as int)) by {
                vstd::arithmetic::div_mod::lemma_mod_add_multiples_vanish(n as int, modulus() as int);
            }
            r
        }
    }

    /// The canonical little-endian bytes of the element.
    pub fn to_bytes(&self) -> (r: [u8; 32])
        ensures
            le_val(r@) == self.val(),
    {
        self.repr
    }

    /// The element whose canonical little-endian bytes are `b`; `None` when
    /// `b` denotes an integer not below the modulus.
    pub fn from_bytes(b: [u8; 32]) -> (r: Option<Fe>)
        ensures
            r.is_some() <==> le_val(b@) < modulus(),
            r.is_some() ==> r.unwrap().val() == le_val(b@),
    {
        fp_from_repr(b)
    }

    /// The element zero.
    pub fn zero() -> (r: Fe)
        ensures
            r.val() == 0,
    {
        fp_from_u64(0)
    }

    /// Field addition.
    pub fn add(&self, o: &Fe) -> (r: Fe)
        ensures
            r.val() == (self.val() + o.val()) % modulus(),
    {
        proof {
            use_type_invariant(self);
            use_type_invariant(o);
        }
        fp_add(self, o)
    }

    /// Field multiplication.
    pub fn mul(&self, o: &Fe) -> (r: Fe)
        ensures
            r.val() == (self.val() * o.val()) % modulus(),
    {
        proof {
            use_type_invariant(self);
            use_type_invariant(o);
        }
        fp_mul(self, o)
    }

    /// Field negation.
    pub fn neg(&self) -> (r: Fe)
        ensures
            r.val() == (modulus() - self.val()) as nat % modulus(),
    {
        proof {
            use_type_invariant(self);
        }
        fp_neg(self)
    }

    /// Whether the canonical integer of `self` exceeds that of `o`.
    pub fn gt(&self, o: &Fe) -> (r: bool)
        ensures
            r == (self.val() > o.val()),
    {
        proof {
            use_type_invariant(self);
            use_type_invariant(o);
        }
        fp_gt(self, o)
    }

    /// Whether the two elements are equal.
    pub fn same(&self, o: &Fe) -> (r: bool)
        ensures
            r == (self.val() == o.val()),
    {
        proof {
            use_type_invariant(self);
            use_type_invariant(o);
        }
        fp_eq(self, o)
    }
}

/// Relies on `Fp: From<u64>` (the element `n`) and `PrimeField::to_repr`
/// (the canonical little-endian bytes).
#[verifier::external_body]
fn fp_from_u64(n: u64) -> (r: Fe)
    ensures
        r.val() == n as nat,
{
    Fe { repr: Fp::from(n).to_repr() }
}

/// Relies on `PrimeField::from_repr`, which accepts exactly the little-endian
/// encodings of integers below the modulus, and on `PrimeField::to_repr`,
/// which gives back the same bytes.
#[verifier::external_body]
fn fp_from_repr(b: [u8; 32]) -> (r: Option<Fe>)
    ensures
        r.is_some() <==> le_val(b@) < modulus(),
        r.is_some() ==> r.unwrap().val() == le_val(b@),
{
    let x = Fp::from_repr(b);
    if bool::from(x.is_some()) {
        Some(Fe { repr: x.unwrap().to_repr() })
    } else {
        None
    }
}

/// Relies on `PrimeField::from_repr`, which accepts canonical bytes, and on
/// `Fp + Fp`, addition modulo the field's prime.
#[verifier::external_body]
fn fp_add(a: &Fe, b: &Fe) -> (r: Fe)
    requires
        a.val() < modulus(),
        b.val() < modulus(),
    ensures
        r.val() == (a.val() + b.val()) % modulus(),
{
    let x = Fp::from_repr(a.repr).unwrap() + Fp::from_repr(b.repr).unwrap();
    Fe { repr: x.to_repr() }
}

/// Relies on `PrimeField::from_repr`, which accepts canonical bytes, and on
/// `Fp * Fp`, multiplication modulo the field's prime.
#[verifier::external_body]
fn fp_mul(a: &Fe, b: &Fe) -> (r: Fe)
    requires
        a.val() < modulus(),
        b.val() < modulus(),
    ensures
        r.val() == (a.val() * b.val()) % modulus(),
{
    let x = Fp::from_repr(a.repr).unwrap() * Fp::from_repr(b.repr).unwrap();
    Fe { repr: x.to_repr() }
}

/// Relies on `PrimeField::from_repr`, which accepts canonical bytes, and on
/// `-Fp`, the additive inverse modulo the field's prime.
#[verifier::external_body]
fn fp_neg(a: &Fe) -> (r: Fe)
    requires
        a.val() < modulus(),
    ensures
        r.val() == (modulus() - a.val()) as nat % modulus(),
{
    let x = -Fp::from_repr(a.repr).unwrap();
    Fe { repr: x.to_repr() }
}

/// Relies on `Fp`'s `Ord`, which compares the canonical representations as
/// unsigned integers, most significant byte first.
#[verifier::external_body]
fn fp_gt(a: &Fe, b: &Fe) -> (r: bool)
    requires
        a.val() < modulus(),
        b.val() < modulus(),
    ensures
        r == (a.val() > b.val()),
{
    Fp::from_repr(a.repr).unwrap() > Fp::from_repr(b.repr).unwrap()
}

/// Relies on `Fp`'s `PartialEq`, equality of field elements.
#[verifier::external_body]
fn fp_eq(a: &Fe, b: &Fe) -> (r: bool)
    requires
        a.val() < modulus(),
        b.val() < modulus(),
    ensures
        r == (a.val() == b.val()),
{
    Fp::from_repr(a.repr).unwrap() == Fp::from_repr(b.repr).unwrap()
}

} // verus!

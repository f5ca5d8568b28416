//! Unsigned 256-bit amounts.
//!
//! An amount is held as two 128-bit limbs and stands for the natural number
//! `hi * 2^128 + lo`. Comparison, addition, subtraction and the narrowing
//! conversions are proved here against that number. Multiplication and
//! division are left to `cosmwasm_std::Uint256`, behind two trusted functions.
use cosmwasm_std::Uint256;
use vstd::prelude::*;

verus! {

/// `2^128`, the weight of the high limb.
pub open spec fn limb_base() -> nat {
    0x1_0000_0000_0000_0000_0000_0000_0000_0000nat
}

/// `2^256 - 1`, the largest amount.
pub open spec fn u256_max() -> nat {
    0xffff_ffff_ffff_ffff_ffff_ffff_ffff_ffff_ffff_ffff_ffff_ffff_ffff_ffff_ffff_ffffnat
}

/// An unsigned 256-bit integer.
#[derive(Clone, Copy, Debug, PartialEq, Eq, Structural)]
pub struct U256 {
    /// The upper 128 bits.
    pub hi: u128,
    /// The lower 128 bits.
    pub lo: u128,
}

impl View for U256 {
    type V = nat;

    open spec fn view(&self) -> nat {
        self.hi as nat * limb_base() + self.lo as nat
    }
}

impl U256 {
    /// The amount zero.
    pub fn zero() -> (r: U256)
        ensures
            r@ == 0,
    {
        U256 { hi: 0, lo: 0 }
    }

    /// The amount that stands for `value`.
    pub fn from_u128(value: u128) -> (r: U256)
        ensures
            r@ == value,
    {
        U256 { hi: 0, lo: value }
    }

    /// The amount that stands for `value`.
    pub fn from_u64(value: u64) -> (r: U256)
        ensures
            r@ == value,
    {
        U256 { hi: 0, lo: value as u128 }
    }

    /// Whether the amount is zero.
    pub fn is_zero(&self) -> (r: bool)
        ensures
            r <==> self@ == 0,
    {
        self.hi == 0 && self.lo == 0
    }

    /// Whether `self` is strictly below `other`.
    pub fn lt(&self, other: &U256) -> (r: bool)
        ensures
            r <==> self@ < other@,
    {
        self.hi < other.hi || (self.hi == other.hi && self.lo < other.lo)
    }

    /// Whether `self` is at most `other`.
    pub fn le(&self, other: &U256) -> (r: bool)
        ensures
            r <==> self@ <= other@,
    {
        self.hi < other.hi || (self.hi == other.hi && self.lo <= other.lo)
    }

    /// Whether `self` is strictly above `other`.
    pub fn gt(&self, other: &U256) -> (r: bool)
        ensures
            r <==> self@ > other@,
    {
        other.lt(self)
    }

    /// The amount as a `u64`, when it fits.
    pub fn to_u64(&self) -> (r: Option<u64>)
        ensures
            self@ <= u64::MAX ==> r == Some(self@ as u64),
            self@ > u64::MAX ==> r is None,
    {
        if self.hi == 0 && self.lo <= 0xffff_ffff_ffff_ffff {
            Some(self.lo as u64)
        } else {
            None
        }
    }

    /// The amount as a `u128`, when it fits.
    pub fn to_u128(&self) -> (r: Option<u128>)
        ensures
            self@ <= u128::MAX ==> r == Some(self@ as u128),
            self@ > u128::MAX ==> r is None,
    {
        if self.hi == 0 {
            Some(self.lo)
        } else {
            None
        }
    }

    /// The sum, unless it exceeds `2^256 - 1`.
    pub fn checked_add(&self, other: &U256) -> (r: Option<U256>)
        ensures
            self@ + other@ <= u256_max() ==> r is Some && r->0@ == self@ + other@,
            self@ + other@ > u256_max() ==> r is None,
    {
        match self.lo.checked_add(other.lo) {
            Some(lo) => match self.hi.checked_add(other.hi) {
                Some(hi) => Some(U256 { hi, lo }),
                None => None,
            },
            None => {
                let lo: u128 = self.lo - (u128::MAX - other.lo) - 1;
                match self.hi.checked_add(other.hi) {
                    Some(partial) => match partial.checked_add(1) {
                        Some(hi) => Some(U256 { hi, lo }),
                        None => None,
                    },
                    None => None,
                }
            },
        }
    }

    /// The difference, unless `other` is the larger.
    pub fn checked_sub(&self, other: &U256) -> (r: Option<U256>)
        ensures
            other@ <= self@ ==> r is Some && r->0@ == self@ - other@,
            other@ > self@ ==> r is None,
    {
        if self.lo >= other.lo {
            match self.hi.checked_sub(other.hi) {
                Some(hi) => Some(U256 { hi, lo: self.lo - other.lo }),
                None => None,
            }
        } else {
            let lo: u128 = u128::MAX - (other.lo - self.lo) + 1;
            match self.hi.checked_sub(other.hi) {
                Some(partial) => match partial.checked_sub(1) {
                    Some(hi) => Some(U256 { hi, lo }),
                    None => None,
                },
                None => None,
            }
        }
    }

    /// The product, unless it exceeds `2^256 - 1`.
    pub fn checked_mul(&self, other: &U256) -> (r: Option<U256>)
        ensures
            self@ * other@ <= u256_max() ==> r is Some && r->0@ == self@ * other@,
            self@ * other@ > u256_max() ==> r is None,
    {
        uint256_checked_mul(*self, *other)
    }

    /// The quotient rounded down, unless `other` is zero.
    pub fn checked_div(&self, other: &U256) -> (r: Option<U256>)
        ensures
            other@ != 0 ==> r is Some && r->0@ == self@ / other@,
            other@ == 0 ==> r is None,
    {
        uint256_checked_div(*self, *other)
    }
}

/// Trusted: `cosmwasm_std::Uint256::checked_mul`, called on the numbers that
/// `a` and `b` stand for, each handed over as its 32 big-endian bytes. The
/// outside function returns the product where that is at most `2^256 - 1`,
/// and an overflow error otherwise; the error becomes `None`.
#[verifier::external_body]
fn uint256_checked_mul(a: U256, b: U256) -> (r: Option<U256>)
    ensures
        a@ * b@ <= u256_max() ==> r is Some && r->0@ == a@ * b@,
        a@ * b@ > u256_max() ==> r is None,
{
    let x: [u8; 32] = [a.hi.to_be_bytes(), a.lo.to_be_bytes()].concat().try_into().unwrap();
    let y: [u8; 32] = [b.hi.to_be_bytes(), b.lo.to_be_bytes()].concat().try_into().unwrap();
    match Uint256::from_be_bytes(x).checked_mul(Uint256::from_be_bytes(y)) {
        Ok(product) => {
            let be = product.to_be_bytes();
            let hi = u128::from_be_bytes(be[..16].try_into().unwrap());
            let lo = u128::from_be_bytes(be[16..].try_into().unwrap());
            Some(U256 { hi, lo })
        },
        Err(_) => None,
    }
}

/// Trusted: `cosmwasm_std::Uint256::checked_div`, called on the numbers that
/// `a` and `b` stand for, each handed over as its 32 big-endian bytes. The
/// outside function returns the quotient rounded down where the divisor is
/// not zero, and a division-by-zero error otherwise; the error becomes `None`.
#[verifier::external_body]
fn uint256_checked_div(a: U256, b: U256) -> (r: Option<U256>)
    ensures
        b@ != 0 ==> r is Some && r->0@ == a@ / b@,
        b@ == 0 ==> r is None,
{
    let x: [u8; 32] = [a.hi.to_be_bytes(), a.lo.to_be_bytes()].concat().try_into().unwrap();
    let y: [u8; 32] = [b.hi.to_be_bytes(), b.lo.to_be_bytes()].concat().try_into().unwrap();
    match Uint256::from_be_bytes(x).checked_div(Uint256::from_be_bytes(y)) {
        Ok(quotient) => {
            let be = quotient.to_be_bytes();
            let hi = u128::from_be_bytes(be[..16].try_into().unwrap());
            let lo = u128::from_be_bytes(be[16..].try_into().unwrap());
            Some(U256 { hi, lo })
        },
        Err(_) => None,
    }
}

} // verus!

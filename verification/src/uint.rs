//! Unsigned 256-bit amounts.
//!
//! An amount is held as four 64-bit limbs, least significant first, and is
//! modelled by the natural number the limbs spell out. The checked and
//! saturating operations are carried out by `casper_types::U256`.
use vstd::prelude::*;

verus! {

/// Two to the power 64: the weight of one limb relative to the one below it.
pub open spec fn limb_base() -> nat {
    0x1_0000_0000_0000_0000
}

/// The largest value a 256-bit amount can hold, two to the power 256 less one.
pub open spec fn max_u256() -> nat {
    (limb_base() * limb_base() * limb_base() * limb_base() - 1) as nat
}

/// An unsigned 256-bit integer.
#[derive(Clone, Copy, Debug, PartialEq, Eq)]
pub struct U256 {
    /// The four limbs, least significant first.
    pub limbs: [u64; 4],
}

impl View for U256 {
    type V = nat;

    open spec fn view(&self) -> nat {
        (self.limbs@[0] + 0x1_0000_0000_0000_0000 * (self.limbs@[1] + 0x1_0000_0000_0000_0000 * (
        self.limbs@[2] + 0x1_0000_0000_0000_0000 * self.limbs@[3]))) as nat
    }
}

impl U256 {
    /// Every amount fits in 256 bits.
    pub proof fn lemma_bounded(self)
        ensures
            self@ <= max_u256(),
    {
    }

    /// Two amounts that denote the same number are the same amount.
    pub proof fn lemma_injective(self, other: U256)
        requires
            self@ == other@,
        ensures
            self == other,
    {
        assert(self.limbs@ =~= other.limbs@);
        assert(self.limbs == other.limbs);
    }

    /// The amount zero.
    pub fn zero() -> (r: U256)
        ensures
            r@ == 0,
    {
        U256 { limbs: [0, 0, 0, 0] }
    }

    /// The amount one.
    pub fn one() -> (r: U256)
        ensures
            r@ == 1,
    {
        U256 { limbs: [1, 0, 0, 0] }
    }

    /// The largest amount.
    pub fn max_value() -> (r: U256)
        ensures
            r@ == max_u256(),
    {
        U256 {
            limbs: [
                0xffff_ffff_ffff_ffff,
                0xffff_ffff_ffff_ffff,
                0xffff_ffff_ffff_ffff,
                0xffff_ffff_ffff_ffff,
            ],
        }
    }

    /// The amount that a 64-bit integer denotes.
    pub fn from_u64(x: u64) -> (r: U256)
        ensures
            r@ == x,
    {
        U256 { limbs: [x, 0, 0, 0] }
    }

    /// The amount that a 128-bit integer denotes.
    pub fn from_u128(x: u128) -> (r: U256)
        ensures
            r@ == x,
    {
        let low: u64 = (x & 0xffff_ffff_ffff_ffff) as u64;
        let high: u64 = (x >> 64) as u64;
        assert(x == (x & 0xffff_ffff_ffff_ffff) + 0x1_0000_0000_0000_0000 * (x >> 64))
            by (bit_vector);
        assert((x & 0xffff_ffff_ffff_ffff) <= 0xffff_ffff_ffff_ffff) by (bit_vector);
        assert((x >> 64) <= 0xffff_ffff_ffff_ffff) by (bit_vector);
        U256 { limbs: [low, high, 0, 0] }
    }

    /// The amount as a machine index, where it is small enough to be one.
    pub fn to_usize(&self) -> (r: Option<usize>)
        ensures
            match r {
                Some(i) => i == self@,
                None => self@ > usize::MAX,
            },
    {
        if self.limbs[1] != 0 || self.limbs[2] != 0 || self.limbs[3] != 0 {
            None
        } else if self.limbs[0] > usize::MAX as u64 {
            None
        } else {
            Some(self.limbs[0] as usize)
        }
    }

    /// Whether the two amounts are the same number.
    pub fn equals(&self, other: &U256) -> (r: bool)
        ensures
            r == (self@ == other@),
            r == (*self == *other),
    {
        let same: bool = self.limbs[0] == other.limbs[0] && self.limbs[1] == other.limbs[1]
            && self.limbs[2] == other.limbs[2] && self.limbs[3] == other.limbs[3];
        proof {
            if self@ == other@ {
                self.lemma_injective(*other);
            }
            if same {
                assert(self.limbs@ =~= other.limbs@);
                assert(self.limbs == other.limbs);
            }
        }
        same
    }

    /// Whether the amount is zero.
    pub fn is_zero(&self) -> (r: bool)
        ensures
            r == (self@ == 0),
    {
        self.limbs[0] == 0 && self.limbs[1] == 0 && self.limbs[2] == 0 && self.limbs[3] == 0
    }

    /// Whether this amount is strictly below `other`.
    pub fn lt(&self, other: &U256) -> (r: bool)
        ensures
            r == (self@ < other@),
    {
        if self.limbs[3] != other.limbs[3] {
            self.limbs[3] < other.limbs[3]
        } else if self.limbs[2] != other.limbs[2] {
            self.limbs[2] < other.limbs[2]
        } else if self.limbs[1] != other.limbs[1] {
            self.limbs[1] < other.limbs[1]
        } else {
            self.limbs[0] < other.limbs[0]
        }
    }

    /// Calls `casper_types::U256::checked_add`: the sum, or nothing where the
    /// sum does not fit in 256 bits.
    #[verifier::external_body]
    pub(crate) fn checked_add(self, other: U256) -> (r: Option<U256>)
        ensures
            match r {
                Some(v) => v@ == self@ + other@,
                None => self@ + other@ > max_u256(),
            },
    {
        match casper_types::U256(self.limbs).checked_add(casper_types::U256(other.limbs)) {
            Some(v) => Some(U256 { limbs: v.0 }),
            None => None,
        }
    }

    /// Calls `casper_types::U256::checked_sub`: the difference, or nothing
    /// where `other` is the larger.
    #[verifier::external_body]
    pub(crate) fn checked_sub(self, other: U256) -> (r: Option<U256>)
        ensures
            match r {
                Some(v) => v@ == self@ - other@,
                None => self@ < other@,
            },
    {
        match casper_types::U256(self.limbs).checked_sub(casper_types::U256(other.limbs)) {
            Some(v) => Some(U256 { limbs: v.0 }),
            None => None,
        }
    }

    /// Calls `casper_types::U256::saturating_add`: the sum, or the largest
    /// amount where the sum does not fit in 256 bits.
    #[verifier::external_body]
    pub(crate) fn saturating_add(self, other: U256) -> (r: U256)
        ensures
            r@ == if self@ + other@ <= max_u256() {
                self@ + other@
            } else {
                max_u256()
            },
    {
        U256 {
            limbs: casper_types::U256(self.limbs).saturating_add(casper_types::U256(other.limbs)).0,
        }
    }

    /// Calls `casper_types::U256::saturating_sub`: the difference, or zero
    /// where `other` is the larger.
    #[verifier::external_body]
    pub(crate) fn saturating_sub(self, other: U256) -> (r: U256)
        ensures
            r@ == if self@ >= other@ {
                self@ - other@
            } else {
                0
            },
    {
        U256 {
            limbs: casper_types::U256(self.limbs).saturating_sub(casper_types::U256(other.limbs)).0,
        }
    }
}

} // verus!

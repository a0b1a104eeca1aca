//! Privilege tiers.
use vstd::prelude::*;

verus! {

/// The privilege tier of an identity. An identity holds one badge at most;
/// one that holds none has no rights.
#[derive(Clone, Copy, Debug, PartialEq, Eq, Structural)]
pub enum SecurityBadge {
    /// May configure the ledger and settle bridge requests.
    Admin,
    /// May mint.
    Minter,
    /// Has been stripped of its rights.
    NoRights,
}

/// The byte that stands for a badge in storage.
pub open spec fn badge_byte(badge: SecurityBadge) -> u8 {
    match badge {
        SecurityBadge::Admin => 0,
        SecurityBadge::Minter => 1,
        SecurityBadge::NoRights => 2,
    }
}

impl SecurityBadge {
    /// The stored form of the badge: the one byte that stands for it.
    pub fn to_bytes(&self) -> (r: Vec<u8>)
        ensures
            r@ == seq![badge_byte(*self)],
    {
        let byte: u8 = match self {
            SecurityBadge::Admin => 0,
            SecurityBadge::Minter => 1,
            SecurityBadge::NoRights => 2,
        };
        let mut bytes: Vec<u8> = Vec::new();
        bytes.push(byte);
        assert(bytes@ =~= seq![byte]);
        bytes
    }

    /// The length of the stored form.
    pub fn serialized_length(&self) -> (r: usize)
        ensures
            r == 1,
    {
        1
    }

    /// The badge whose stored form starts the given bytes, if their first
    /// byte stands for one. What follows the first byte is not looked at.
    pub fn from_bytes(bytes: &[u8]) -> (r: Option<SecurityBadge>)
        requires
            bytes@.len() > 0,
        ensures
            match r {
                Some(badge) => badge_byte(badge) == bytes@[0],
                None => bytes@[0] > 2,
            },
    {
        let first: u8 = bytes[0];
        if first == 0 {
            Some(SecurityBadge::Admin)
        } else if first == 1 {
            Some(SecurityBadge::Minter)
        } else if first == 2 {
            Some(SecurityBadge::NoRights)
        } else {
            None
        }
    }
}

/// Which badges may mint: a choice made when the ledger is set up.
#[derive(Clone, Copy, Debug, PartialEq, Eq, Structural)]
pub enum MintPolicy {
    /// Minters alone.
    MinterOnly,
    /// Admins and minters.
    AdminOrMinter,
}

/// Whether `policy` lets a holder of `badge` mint.
pub open spec fn may_mint(policy: MintPolicy, badge: SecurityBadge) -> bool {
    match policy {
        MintPolicy::MinterOnly => badge == SecurityBadge::Minter,
        MintPolicy::AdminOrMinter => badge == SecurityBadge::Minter || badge
            == SecurityBadge::Admin,
    }
}

/// The badges that may mint under `policy`, as they are listed.
pub open spec fn minting_badges(policy: MintPolicy) -> Seq<SecurityBadge> {
    match policy {
        MintPolicy::MinterOnly => seq![SecurityBadge::Minter],
        MintPolicy::AdminOrMinter => seq![SecurityBadge::Minter, SecurityBadge::Admin],
    }
}

impl MintPolicy {
    /// The badges that may mint under this policy.
    pub fn allowed_badges(&self) -> (r: Vec<SecurityBadge>)
        ensures
            r@ == minting_badges(*self),
            forall|badge: SecurityBadge| r@.contains(badge) <==> may_mint(*self, badge),
    {
        let mut allowed: Vec<SecurityBadge> = Vec::new();
        allowed.push(SecurityBadge::Minter);
        match self {
            MintPolicy::MinterOnly => {
                assert(allowed@ =~= seq![SecurityBadge::Minter]);
                assert(allowed@[0] == SecurityBadge::Minter);
            },
            MintPolicy::AdminOrMinter => {
                allowed.push(SecurityBadge::Admin);
                assert(allowed@ =~= seq![SecurityBadge::Minter, SecurityBadge::Admin]);
                assert(allowed@[0] == SecurityBadge::Minter);
                assert(allowed@[1] == SecurityBadge::Admin);
            },
        }
        allowed
    }
}

/// Whether events are recorded.
#[derive(Clone, Copy, Debug, PartialEq, Eq, Structural)]
pub enum EventsMode {
    /// No event is recorded.
    NoEvents,
    /// Every event is recorded.
    CES,
}

} // verus!

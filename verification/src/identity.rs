//! Identities and ticket handles: plain values that the platform hands out
//! and takes back. The library keeps no record of them.

use core::cmp::Ordering;
use vstd::prelude::*;
use vstd::std_specs::cmp::PartialOrdSpec;

verus! {

/// The 64-bit identifier of an account or peer on the platform.
///
/// Two identities are the same exactly when their 64 bits are the same, and
/// they are ordered as their bits are as a number.
#[derive(Clone, Copy, Debug, PartialEq, Eq, Structural, Ord, Hash)]
pub struct SteamId(u64);

impl PartialOrd for SteamId {
    fn partial_cmp(&self, other: &SteamId) -> (r: Option<Ordering>) {
        if self.0 < other.0 {
            Some(Ordering::Less)
        } else if self.0 == other.0 {
            Some(Ordering::Equal)
        } else {
            Some(Ordering::Greater)
        }
    }
}

impl vstd::std_specs::cmp::PartialOrdSpecImpl for SteamId {
    open spec fn obeys_partial_cmp_spec() -> bool {
        true
    }

    open spec fn partial_cmp_spec(&self, other: &SteamId) -> Option<Ordering> {
        if self@ < other@ {
            Some(Ordering::Less)
        } else if self@ == other@ {
            Some(Ordering::Equal)
        } else {
            Some(Ordering::Greater)
        }
    }
}

impl View for SteamId {
    type V = u64;

    closed spec fn view(&self) -> u64 {
        self.0
    }
}

impl SteamId {
    /// The identity with the given 64 bits.
    pub fn from_raw(id: u64) -> (r: SteamId)
        ensures
            r@ == id,
    {
        SteamId(id)
    }

    /// The 64 bits of the identity.
    pub fn raw(&self) -> (r: u64)
        ensures
            r == self@,
    {
        self.0
    }

    /// Identities with the same bits are the same identity, and the one
    /// with the smaller bits comes first.
    pub proof fn lemma_compared_by_bits(a: SteamId, b: SteamId)
        ensures
            (a == b) <==> (a@ == b@),
            a.partial_cmp_spec(&b) == Some(Ordering::Less) <==> a@ < b@,
            a.partial_cmp_spec(&b) == Some(Ordering::Equal) <==> a@ == b@,
            a.partial_cmp_spec(&b) == Some(Ordering::Greater) <==> a@ > b@,
    {
    }
}

/// The handle of an authentication ticket, as the platform gave it out with
/// the ticket. Its one use is to cancel that ticket.
///
/// A handle says nothing about whether its ticket is still valid.
#[derive(Clone, Copy, Debug, PartialEq, Eq, Structural)]
pub struct AuthTicket(u32);

impl View for AuthTicket {
    type V = u32;

    closed spec fn view(&self) -> u32 {
        self.0
    }
}

impl AuthTicket {
    /// The handle with the given value.
    pub fn from_raw(handle: u32) -> (r: AuthTicket)
        ensures
            r@ == handle,
    {
        AuthTicket(handle)
    }

    /// The value of the handle.
    pub fn raw(&self) -> (r: u32)
        ensures
            r == self@,
    {
        self.0
    }

    /// Handles with the same value are the same handle, so handles that the
    /// platform gave out as distinct stay distinct.
    pub proof fn lemma_equal_by_value(a: AuthTicket, b: AuthTicket)
        ensures
            (a == b) <==> (a@ == b@),
    {
    }
}

} // verus!

//! BIP44 addressing: the account / change / index triple below the fixed
//! purpose and coin-type components of a derivation path.

use crate::hdpayload::Path;
use vstd::prelude::*;

verus! {

/// First path component: the BIP44 purpose, hardened.
pub const BIP44_PURPOSE: u32 = 0x8000002C;

/// Second path component: the coin type, hardened.
pub const BIP44_COIN_TYPE: u32 = 0x80000717;

/// Indices at or above this threshold are hardened.
pub const HARDENED: u32 = 0x80000000;

/// An address below the fixed purpose and coin type: account, change and
/// index.
#[derive(Debug, PartialEq, Eq, Structural)]
pub struct Addressing {
    pub account: u32,
    pub change: u32,
    pub index: u32,
}

/// Whether an address is handed out (external) or used for change
/// (internal).
#[derive(Debug, PartialEq, Eq, Structural)]
pub enum AddrType {
    Internal,
    External,
}

impl Clone for Addressing {
    fn clone(&self) -> (r: Addressing)
        ensures
            r == *self,
    {
        Addressing { account: self.account, change: self.change, index: self.index }
    }
}

impl Clone for AddrType {
    fn clone(&self) -> (r: AddrType)
        ensures
            r == *self,
    {
        match self {
            AddrType::Internal => AddrType::Internal,
            AddrType::External => AddrType::External,
        }
    }
}

impl AddrType {
    /// The change component that stands for an address type.
    pub open spec fn spec_change(self) -> u32 {
        match self {
            AddrType::Internal => 1,
            AddrType::External => 0,
        }
    }
}

impl Addressing {
    /// A fresh record: the account index hardened, index 0.
    pub open spec fn spec_new(account: u32, typ: AddrType) -> Addressing {
        Addressing { account: HARDENED | account, change: typ.spec_change(), index: 0 }
    }

    /// The five components of the record's path.
    pub open spec fn spec_to_path(self) -> Seq<u32> {
        seq![BIP44_PURPOSE, BIP44_COIN_TYPE, self.account, self.change, self.index]
    }

    /// The record that a path stands for: exactly five components, the
    /// first two the purpose and coin type, the third hardened.
    pub open spec fn spec_from_path(path: Seq<u32>) -> Option<Addressing> {
        if path.len() == 5 && path[0] == BIP44_PURPOSE && path[1] == BIP44_COIN_TYPE && path[2]
            >= HARDENED {
            Some(Addressing { account: path[2], change: path[3], index: path[4] })
        } else {
            None
        }
    }

    /// The record `n` places further on; none where `n` is itself hardened.
    /// The index wraps around at 2^32.
    pub open spec fn spec_incr(self, n: u32) -> Option<Addressing> {
        if n >= HARDENED {
            None
        } else {
            Some(
                Addressing {
                    account: self.account,
                    change: self.change,
                    index: ((self.index + n) % 0x1_0000_0000) as u32,
                },
            )
        }
    }

    /// A fresh record for an account: the account index is hardened, the
    /// index is 0.
    pub fn new(account: u32, typ: AddrType) -> (r: Addressing)
        ensures
            r == Self::spec_new(account, typ),
    {
        let change: u32 = match typ {
            AddrType::Internal => 1,
            AddrType::External => 0,
        };
        Addressing { account: 0x80000000 | account, change: change, index: 0 }
    }

    /// The derivation path of the record: purpose, coin type, account,
    /// change, index.
    pub fn to_path(&self) -> (r: Path)
        ensures
            r@ == self.spec_to_path(),
    {
        let mut components: Vec<u32> = Vec::new();
        components.push(BIP44_PURPOSE);
        components.push(BIP44_COIN_TYPE);
        components.push(self.account);
        components.push(self.change);
        components.push(self.index);
        Path::new(components)
    }

    /// The address type: external where the change component is 0, internal
    /// otherwise.
    pub fn address_type(&self) -> (r: AddrType)
        ensures
            r == (if self.change == 0 {
                AddrType::External
            } else {
                AddrType::Internal
            }),
    {
        if self.change == 0 {
            AddrType::External
        } else {
            AddrType::Internal
        }
    }

    /// The record that a path stands for, if it is a path of this scheme.
    pub fn from_path(path: Path) -> (r: Option<Addressing>)
        ensures
            r == Self::spec_from_path(path@),
    {
        if path.len() != 5 {
            return None;
        }
        let components = path.to_vec();
        if components[0] != BIP44_PURPOSE {
            return None;
        }
        if components[1] != BIP44_COIN_TYPE {
            return None;
        }
        if components[2] < 0x80000000 {
            return None;
        }
        Some(Addressing { account: components[2], change: components[3], index: components[4] })
    }

    /// How many records `next_chunks` gives for a requested chunk size: the
    /// size itself, cut off where the step would become hardened.
    pub open spec fn spec_chunk_len(chunk_size: usize) -> nat {
        if chunk_size <= HARDENED {
            chunk_size as nat
        } else {
            HARDENED as nat
        }
    }

    /// Up to `chunk_size` successive records starting at this one: the
    /// record at position `j` is this one advanced by `j`.
    pub fn next_chunks(&self, chunk_size: usize) -> (r: Vec<Addressing>)
        ensures
            r@.len() == Self::spec_chunk_len(chunk_size),
            forall|j: int| 0 <= j < r@.len() ==> Some(#[trigger] r@[j]) == self.spec_incr(j as u32),
    {
        let mut v: Vec<Addressing> = Vec::new();
        let mut i: usize = 0;
        while i < chunk_size
            invariant
                i <= chunk_size,
                i <= HARDENED,
                v@.len() == i,
                forall|j: int| 0 <= j < v@.len() ==> Some(#[trigger] v@[j]) == self.spec_incr(
                    j as u32,
                ),
            ensures
                v@.len() == Self::spec_chunk_len(chunk_size),
                forall|j: int| 0 <= j < v@.len() ==> Some(#[trigger] v@[j]) == self.spec_incr(
                    j as u32,
                ),
            decreases chunk_size - i,
        {
            if i >= 0x80000000 {
                break;
            }
            match self.incr(i as u32) {
                None => {
                    break;
                },
                Some(r) => {
                    v.push(r);
                },
            }
            i += 1;
        }
        v
    }

    /// The record `incr` places further on; nothing where `incr` is itself
    /// hardened. The index wraps around at 2^32.
    pub fn incr(&self, incr: u32) -> (r: Option<Addressing>)
        ensures
            r == self.spec_incr(incr),
    {
        if incr >= 0x80000000 {
            return None;
        }
        Some(
            Addressing {
                account: self.account,
                change: self.change,
                index: self.index.wrapping_add(incr),
            },
        )
    }
}

/// A record made by `new` survives the way through its path: reading the
/// path back gives the record again, whatever the account and address type.
pub proof fn lemma_new_path_round_trip(account: u32, typ: AddrType)
    ensures
        Addressing::spec_from_path(Addressing::spec_new(account, typ).spec_to_path()) == Some(
            Addressing::spec_new(account, typ),
        ),
{
    assert(HARDENED | account >= HARDENED) by (bit_vector);
}

/// Reading a path back gives the record it was rendered from exactly when
/// the record's account is hardened; otherwise the path is rejected.
pub proof fn lemma_path_round_trip(addressing: Addressing)
    ensures
        addressing.account >= HARDENED ==> Addressing::spec_from_path(addressing.spec_to_path())
            == Some(addressing),
        addressing.account < HARDENED ==> Addressing::spec_from_path(addressing.spec_to_path())
            is None,
{
}

/// A path that is accepted renders back to itself.
pub proof fn lemma_from_path_inverse(path: Seq<u32>)
    requires
        Addressing::spec_from_path(path) is Some,
    ensures
        Addressing::spec_from_path(path)->Some_0.spec_to_path() == path,
{
}

/// A hardened step gives nothing; a step of zero gives the record unchanged.
pub proof fn lemma_incr_edges(addressing: Addressing, n: u32)
    ensures
        n >= HARDENED ==> addressing.spec_incr(n) is None,
        n < HARDENED ==> addressing.spec_incr(n) is Some,
        addressing.spec_incr(0) == Some(addressing),
{
}

} // verus!

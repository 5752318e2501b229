//! The bid ledger of one auction, kept in a stable-structures B-tree map over
//! a memory of its own, and the identity type that keys it, with its order.
use candid::Principal;
use core::cmp::Ordering;
use ic_stable_structures::{BTreeMap as StableBTreeMap, VectorMemory};
use vstd::prelude::*;

verus! {

/// Identities are the host's principals, carried through as opaque values.
#[verifier::external_type_specification]
#[verifier::external_body]
pub struct ExPrincipal(Principal);

/// Relies on the derived `PartialEq` of `Principal`: two principals compare
/// equal exactly when they are the same value.
pub assume_specification[ <Principal as core::cmp::PartialEq>::eq ](
    a: &Principal,
    b: &Principal,
) -> (r: bool)
    ensures
        r == (*a == *b),
;

/// How the derived `Ord` of `Principal` orders two principals.
pub uninterp spec fn principal_cmp(a: Principal, b: Principal) -> Ordering;

/// Relies on the derived `Ord` of `Principal` (over its length, then its
/// bytes): a total order, whose `Equal` is equality, and which reverses when
/// the arguments are swapped.
pub assume_specification[ <Principal as core::cmp::Ord>::cmp ](
    a: &Principal,
    b: &Principal,
) -> (r: Ordering)
    ensures
        r == principal_cmp(*a, *b),
        (r == Ordering::Equal) == (*a == *b),
        (r == Ordering::Less) == (principal_cmp(*b, *a) == Ordering::Greater),
;

/// A map from bidder to that bidder's last accepted bid: a stable-structures
/// B-tree over a memory of its own, which no other structure shares. The map
/// stays hidden from the verifier (its memory type is a `RefCell`, which the
/// verifier does not model); `ledger_entries` names its contents.
#[verifier::external_body]
pub struct BidLedger {
    map: StableBTreeMap<Principal, u128, VectorMemory>,
}

/// What a ledger holds: the amount recorded for each bidder.
pub uninterp spec fn ledger_entries(l: BidLedger) -> Map<Principal, u128>;

impl BidLedger {
    /// Relies on `ic_stable_structures::BTreeMap::new`, over a fresh memory
    /// from `VectorMemory::default`: a newly created map holds nothing.
    #[verifier::external_body]
    pub(crate) fn new() -> (r: BidLedger)
        ensures
            ledger_entries(r).dom() == Set::<Principal>::empty(),
    {
        BidLedger { map: StableBTreeMap::new(VectorMemory::default()) }
    }

    /// Relies on `ic_stable_structures::BTreeMap::insert`: the key now maps to
    /// the value, replacing any earlier value, and no other key changes.
    #[verifier::external_body]
    pub(crate) fn insert(&mut self, bidder: Principal, amount: u128)
        ensures
            ledger_entries(*final(self)) == ledger_entries(*old(self)).insert(bidder, amount),
    {
        self.map.insert(bidder, amount);
    }

    /// Relies on `ic_stable_structures::BTreeMap::get`: the value stored under
    /// the key, if any.
    #[verifier::external_body]
    pub(crate) fn get(&self, bidder: &Principal) -> (r: Option<u128>)
        ensures
            r == (if ledger_entries(*self).contains_key(*bidder) {
                Some(ledger_entries(*self)[*bidder])
            } else {
                None
            }),
    {
        self.map.get(bidder)
    }

    /// Relies on `ic_stable_structures::BTreeMap::iter`: every entry is visited
    /// once, in ascending order of key.
    #[verifier::external_body]
    pub(crate) fn entries(&self) -> (r: Vec<(Principal, u128)>)
        ensures
            r@.len() == ledger_entries(*self).dom().len(),
            forall|i: int|
                0 <= i < r@.len() ==> ledger_entries(*self).contains_key(#[trigger] r@[i].0)
                    && ledger_entries(*self)[r@[i].0] == r@[i].1,
            forall|i: int, j: int|
                0 <= i < j < r@.len() ==> #[trigger] r@[i].0 != #[trigger] r@[j].0,
            forall|i: int, j: int|
                0 <= i < j < r@.len() ==> principal_cmp(#[trigger] r@[i].0, #[trigger] r@[j].0)
                    == Ordering::Less,
            forall|b: Principal|
                #[trigger] ledger_entries(*self).contains_key(b) ==> r@.contains(
                    (b, ledger_entries(*self)[b]),
                ),
    {
        self.map.iter().collect()
    }
}

} // verus!

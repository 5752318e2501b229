//! The auction factory: it issues auction identifiers, describes the instance
//! to provision for each auction, and keeps a directory that mirrors every
//! auction's state as instances report it.
//!
//! The directory is a mirror, not the source of truth: it changes only when a
//! relay call (`update_auction_status`, `update_auction_bid`) reaches it.
use crate::auction::AuctionStatus;
use candid::{Nat, Principal};
use vstd::prelude::*;

verus! {

/// Nanoseconds in an hour.
pub const NANOS_PER_HOUR: u64 = 3_600_000_000_000;

/// A directory entry: a copy of an auction's record, with the address of its
/// instance and the time it was created.
#[derive(Clone, Copy, Debug)]
pub struct AuctionInfo {
    pub id: u64,
    pub canister_id: Principal,
    pub seller: Principal,
    pub nft_canister: Principal,
    pub token_id: u128,
    pub starting_price: u128,
    pub current_highest_bid: u128,
    pub highest_bidder: Option<Principal>,
    pub end_time: u64,
    pub status: AuctionStatus,
    pub created_at: u64,
}

/// What a seller asks for when listing an asset.
#[derive(Clone, Copy, Debug)]
pub struct CreateAuctionArgs {
    pub nft_canister: Principal,
    pub token_id: u128,
    pub starting_price: u128,
    pub duration_hours: u64,
}

/// An auction whose identifier is issued and whose instance is still to be
/// provisioned and initialized.
#[derive(Clone, Copy, Debug)]
pub struct PendingAuction {
    pub id: u64,
    pub seller: Principal,
    pub nft_canister: Principal,
    pub token_id: u128,
    pub starting_price: u128,
    pub end_time: u64,
    pub created_at: u64,
}

/// What the provisioning capability needs to start an auction's instance: the
/// code image and the encoded initialization argument.
pub struct InstallRequest {
    pub wasm_module: Vec<u8>,
    pub arg: Vec<u8>,
}

/// Why a factory operation was refused.
#[derive(Clone, Copy, Debug, PartialEq, Eq, Structural)]
pub enum FactoryError {
    NotFound,
    IdsExhausted,
    EndTimeOverflow,
}

/// The text reported to the caller for each error.
pub open spec fn factory_error_text(e: FactoryError) -> Seq<char> {
    match e {
        FactoryError::NotFound => "Auction not found"@,
        FactoryError::IdsExhausted => "No auction identifier is left"@,
        FactoryError::EndTimeOverflow => "Auction end time is out of range"@,
    }
}

impl FactoryError {
    /// The text reported to the caller.
    pub fn message(&self) -> (r: String)
        ensures
            r@ == factory_error_text(*self),
    {
        match self {
            FactoryError::NotFound => "Auction not found".to_string(),
            FactoryError::IdsExhausted => "No auction identifier is left".to_string(),
            FactoryError::EndTimeOverflow => "Auction end time is out of range".to_string(),
        }
    }
}

/// The unsigned LEB128 encoding of `n`: seven bits per byte, low bits first,
/// the high bit set on every byte but the last.
pub open spec fn uleb128(n: nat) -> Seq<u8>
    decreases n,
{
    if n < 128 {
        seq![n as u8]
    } else {
        seq![(n % 128 + 128) as u8] + uleb128(n / 128)
    }
}

/// The Candid encoding of the one-argument list `(id : nat)`: the magic
/// `DIDL`, an empty type table, one argument of type `nat` (opcode -3), and
/// the value.
pub open spec fn init_arg_bytes(id: u64) -> Seq<u8> {
    seq![0x44u8, 0x49u8, 0x44u8, 0x4cu8, 0x00u8, 0x01u8, 0x7du8] + uleb128(id as nat)
}

/// Relies on `candid::encode_args`: the argument list `(id,)` with `id` as a
/// Candid `nat`, encoded. Encoding a single `nat` into a `Vec` does not fail.
#[verifier::external_body]
fn encode_init_arg(id: u64) -> (r: Option<Vec<u8>>)
    ensures
        r is Some,
        r matches Some(b) ==> b@ == init_arg_bytes(id),
{
    candid::encode_args((Nat::from(id),)).ok()
}

/// The end time of an auction created at `now` that lasts `hours`.
pub open spec fn end_time_of(now: u64, hours: u64) -> int {
    now + hours * NANOS_PER_HOUR
}

/// The error of `create_auction`, if any.
pub open spec fn create_error(next_id: u64, args: CreateAuctionArgs, now: u64) -> Option<
    FactoryError,
> {
    if end_time_of(now, args.duration_hours) > u64::MAX {
        Some(FactoryError::EndTimeOverflow)
    } else if next_id == u64::MAX {
        Some(FactoryError::IdsExhausted)
    } else {
        None
    }
}

/// The pending auction that `create_auction` issues.
pub open spec fn pending_of(id: u64, seller: Principal, args: CreateAuctionArgs, now: u64) -> PendingAuction {
    PendingAuction {
        id,
        seller,
        nft_canister: args.nft_canister,
        token_id: args.token_id,
        starting_price: args.starting_price,
        end_time: end_time_of(now, args.duration_hours) as u64,
        created_at: now,
    }
}

/// The directory entry of a provisioned auction: active, with no bid yet.
pub open spec fn entry_of(p: PendingAuction, canister_id: Principal) -> AuctionInfo {
    AuctionInfo {
        id: p.id,
        canister_id,
        seller: p.seller,
        nft_canister: p.nft_canister,
        token_id: p.token_id,
        starting_price: p.starting_price,
        current_highest_bid: p.starting_price,
        highest_bidder: None,
        end_time: p.end_time,
        status: AuctionStatus::Active,
        created_at: p.created_at,
    }
}

/// Entries in strictly increasing order of identifier, so each identifier
/// appears at most once.
pub open spec fn sorted_by_id(s: Seq<AuctionInfo>) -> bool {
    forall|i: int, j: int| 0 <= i < j < s.len() ==> #[trigger] s[i].id < #[trigger] s[j].id
}

/// Whether some entry has identifier `id`.
pub open spec fn has_id(s: Seq<AuctionInfo>, id: u64) -> bool {
    exists|i: int| 0 <= i < s.len() && #[trigger] s[i].id == id
}

/// The directory after a status relay for `id`.
pub open spec fn status_relayed(s: Seq<AuctionInfo>, id: u64, status: AuctionStatus) -> Seq<
    AuctionInfo,
> {
    s.map_values(|e: AuctionInfo| if e.id == id { AuctionInfo { status, ..e } } else { e })
}

/// The directory after a bid relay for `id`.
pub open spec fn bid_relayed(s: Seq<AuctionInfo>, id: u64, bid: u128, bidder: Principal) -> Seq<
    AuctionInfo,
> {
    s.map_values(
        |e: AuctionInfo|
            if e.id == id {
                AuctionInfo { current_highest_bid: bid, highest_bidder: Some(bidder), ..e }
            } else {
                e
            },
    )
}

/// Whether an entry is active.
pub open spec fn is_active(e: AuctionInfo) -> bool {
    e.status == AuctionStatus::Active
}

/// The active entries, in directory order.
pub open spec fn active_entries(s: Seq<AuctionInfo>) -> Seq<AuctionInfo> {
    s.filter(|e: AuctionInfo| is_active(e))
}

/// The entries of `seller`, in directory order.
pub open spec fn entries_of_seller(s: Seq<AuctionInfo>, seller: Principal) -> Seq<AuctionInfo> {
    s.filter(|e: AuctionInfo| e.seller == seller)
}

/// The factory's state.
pub struct AuctionFactory {
    next_id: u64,
    entries: Vec<AuctionInfo>,
    template_wasm: Vec<u8>,
}

impl AuctionFactory {
    /// The identifier that the next `create_auction` issues.
    pub closed spec fn next_id(&self) -> u64 {
        self.next_id
    }

    /// The directory, in increasing order of identifier.
    pub closed spec fn directory(&self) -> Seq<AuctionInfo> {
        self.entries@
    }

    /// The code image that new instances run.
    pub closed spec fn template(&self) -> Seq<u8> {
        self.template_wasm@
    }

    /// The invariant that every operation keeps: identifiers are issued from
    /// 1 on, the directory is ordered by identifier, and it holds only
    /// identifiers already issued.
    pub open spec fn wf(&self) -> bool {
        &&& self.next_id() >= 1
        &&& sorted_by_id(self.directory())
        &&& forall|i: int|
            0 <= i < self.directory().len() ==> #[trigger] self.directory()[i].id < self.next_id()
    }

    /// A successful `create_auction` from `before` to `after`, issuing `id`.
    pub open spec fn issued(before: AuctionFactory, after: AuctionFactory, id: u64) -> bool {
        &&& id == before.next_id()
        &&& after.next_id() == before.next_id() + 1
        &&& after.directory() == before.directory()
        &&& after.template() == before.template()
    }

    /// A factory with an empty directory, whose first identifier is 1.
    pub fn new() -> (r: AuctionFactory)
        ensures
            r.wf(),
            r.next_id() == 1,
            r.directory() == Seq::<AuctionInfo>::empty(),
            r.template() == Seq::<u8>::empty(),
    {
        AuctionFactory { next_id: 1, entries: Vec::new(), template_wasm: Vec::new() }
    }

    /// Issues the next identifier for an auction that `caller` lists at time
    /// `now`. The directory entry is made by `record_auction` once the
    /// auction's instance is provisioned; if that never happens the
    /// identifier stays unused.
    pub fn create_auction(&mut self, caller: Principal, args: CreateAuctionArgs, now: u64) -> (r:
        Result<PendingAuction, FactoryError>)
        requires
            old(self).wf(),
        ensures
            final(self).wf(),
            r is Ok <==> create_error(old(self).next_id(), args, now) is None,
            r is Ok ==> r == Ok::<PendingAuction, FactoryError>(
                pending_of(old(self).next_id(), caller, args, now),
            ),
            r is Ok ==> AuctionFactory::issued(*old(self), *final(self), old(self).next_id()),
            r is Ok ==> !has_id(old(self).directory(), r.unwrap().id),
            r is Err ==> r == Err::<PendingAuction, FactoryError>(
                create_error(old(self).next_id(), args, now).unwrap(),
            ),
            r is Err ==> *final(self) == *old(self),
    {
        let end_time = match args.duration_hours.checked_mul(NANOS_PER_HOUR) {
            Some(span) => match now.checked_add(span) {
                Some(t) => t,
                None => return Err(FactoryError::EndTimeOverflow),
            },
            None => {
                assert(args.duration_hours * NANOS_PER_HOUR > u64::MAX);
                return Err(FactoryError::EndTimeOverflow);
            },
        };
        if self.next_id == u64::MAX {
            return Err(FactoryError::IdsExhausted);
        }
        let id = self.next_id;
        self.next_id = id + 1;
        Ok(PendingAuction {
            id,
            seller: caller,
            nft_canister: args.nft_canister,
            token_id: args.token_id,
            starting_price: args.starting_price,
            end_time,
            created_at: now,
        })
    }

    /// Enters the auction of `pending`, provisioned at `canister_id`, in the
    /// directory, replacing any entry with the same identifier. Returns its
    /// identifier.
    pub fn record_auction(&mut self, pending: PendingAuction, canister_id: Principal) -> (r: u64)
        requires
            old(self).wf(),
            pending.id < old(self).next_id(),
        ensures
            final(self).wf(),
            r == pending.id,
            final(self).next_id() == old(self).next_id(),
            final(self).template() == old(self).template(),
            final(self).directory().contains(entry_of(pending, canister_id)),
            forall|e: AuctionInfo| #[trigger]
                final(self).directory().contains(e) <==> (e == entry_of(pending, canister_id) || (
                old(self).directory().contains(e) && e.id != pending.id)),
    {
        let info = AuctionInfo {
            id: pending.id,
            canister_id,
            seller: pending.seller,
            nft_canister: pending.nft_canister,
            token_id: pending.token_id,
            starting_price: pending.starting_price,
            current_highest_bid: pending.starting_price,
            highest_bidder: None,
            end_time: pending.end_time,
            status: AuctionStatus::Active,
            created_at: pending.created_at,
        };
        let ghost before = self.entries@;
        let mut i: usize = 0;
        while i < self.entries.len() && self.entries[i].id < info.id
            invariant
                self.entries@ == before,
                sorted_by_id(before),
                0 <= i <= before.len(),
                forall|k: int| 0 <= k < i ==> #[trigger] before[k].id < info.id,
            decreases before.len() - i,
        {
            i = i + 1;
        }
        if i < self.entries.len() && self.entries[i].id == info.id {
            self.entries.set(i, info);
            proof {
                let after = self.entries@;
                assert forall|e: AuctionInfo| #[trigger]
                    after.contains(e) <==> (e == info || (before.contains(e) && e.id != info.id)) by {
                    if after.contains(e) && e != info {
                        let k = choose|k: int| 0 <= k < after.len() && after[k] == e;
                        assert(before[k] == e);
                    }
                    if before.contains(e) && e.id != info.id {
                        let k = choose|k: int| 0 <= k < before.len() && before[k] == e;
                        assert(after[k] == e);
                    }
                    if e == info {
                        assert(after[i as int] == e);
                    }
                }
            }
        } else {
            self.entries.insert(i, info);
            proof {
                let after = self.entries@;
                assert(forall|k: int| i <= k < before.len() ==> #[trigger] before[k].id > info.id);
                assert forall|e: AuctionInfo| #[trigger]
                    after.contains(e) <==> (e == info || (before.contains(e) && e.id != info.id)) by {
                    if after.contains(e) && e != info {
                        let k = choose|k: int| 0 <= k < after.len() && after[k] == e;
                        if k < i {
                            assert(before[k] == e);
                        } else {
                            assert(before[k - 1] == e);
                        }
                    }
                    if before.contains(e) && e.id != info.id {
                        let k = choose|k: int| 0 <= k < before.len() && before[k] == e;
                        if k < i {
                            assert(after[k] == e);
                        } else {
                            assert(after[k + 1] == e);
                        }
                    }
                    if e == info {
                        assert(after[i as int] == e);
                    }
                }
            }
        }
        pending.id
    }

    /// The index of the entry with identifier `id`, if any.
    fn find(&self, id: u64) -> (r: Option<usize>)
        requires
            self.wf(),
        ensures
            r is None <==> !has_id(self.directory(), id),
            r matches Some(i) ==> i < self.directory().len() && self.directory()[i as int].id == id,
    {
        let mut i: usize = 0;
        while i < self.entries.len()
            invariant
                0 <= i <= self.entries@.len(),
                forall|k: int| 0 <= k < i ==> #[trigger] self.entries@[k].id != id,
            decreases self.entries@.len() - i,
        {
            if self.entries[i].id == id {
                return Some(i);
            }
            i = i + 1;
        }
        None
    }

    /// The directory entry of auction `id`, if any.
    pub fn get_auction(&self, id: u64) -> (r: Option<AuctionInfo>)
        requires
            self.wf(),
        ensures
            r is Some <==> has_id(self.directory(), id),
            r matches Some(e) ==> self.directory().contains(e) && e.id == id,
            forall|e: AuctionInfo|
                #[trigger] self.directory().contains(e) && e.id == id ==> r == Some(e),
    {
        match self.find(id) {
            Some(i) => {
                proof {
                    let s = self.entries@;
                    assert forall|e: AuctionInfo| #[trigger] s.contains(e) && e.id == id implies e
                        == s[i as int] by {
                        let k = choose|k: int| 0 <= k < s.len() && s[k] == e;
                        if k < i {
                            assert(s[k].id < s[i as int].id);
                        } else if k > i {
                            assert(s[i as int].id < s[k].id);
                        }
                    }
                }
                Some(self.entries[i])
            },
            None => {
                proof {
                    let s = self.entries@;
                    assert forall|e: AuctionInfo| #[trigger] s.contains(e) && e.id == id implies false by {
                        let k = choose|k: int| 0 <= k < s.len() && s[k] == e;
                        assert(s[k].id == id);
                    }
                }
                None
            },
        }
    }

    /// Relays a new status of auction `id` into the directory.
    pub fn update_auction_status(&mut self, id: u64, status: AuctionStatus) -> (r: Result<
        (),
        FactoryError,
    >)
        requires
            old(self).wf(),
        ensures
            final(self).wf(),
            r is Ok <==> has_id(old(self).directory(), id),
            r is Err ==> r == Err::<(), FactoryError>(FactoryError::NotFound),
            final(self).directory() == status_relayed(old(self).directory(), id, status),
            final(self).next_id() == old(self).next_id(),
            final(self).template() == old(self).template(),
    {
        match self.find(id) {
            Some(i) => {
                let e = self.entries[i];
                self.entries.set(i, AuctionInfo { status, ..e });
                proof {
                    assert(self.entries@ =~= status_relayed(old(self).entries@, id, status));
                }
                Ok(())
            },
            None => {
                proof {
                    assert(self.entries@ =~= status_relayed(old(self).entries@, id, status));
                }
                Err(FactoryError::NotFound)
            },
        }
    }

    /// Relays a newly accepted bid of auction `id` into the directory.
    pub fn update_auction_bid(&mut self, id: u64, highest_bid: u128, highest_bidder: Principal) -> (r:
        Result<(), FactoryError>)
        requires
            old(self).wf(),
        ensures
            final(self).wf(),
            r is Ok <==> has_id(old(self).directory(), id),
            r is Err ==> r == Err::<(), FactoryError>(FactoryError::NotFound),
            final(self).directory() == bid_relayed(
                old(self).directory(),
                id,
                highest_bid,
                highest_bidder,
            ),
            final(self).next_id() == old(self).next_id(),
            final(self).template() == old(self).template(),
    {
        match self.find(id) {
            Some(i) => {
                let e = self.entries[i];
                self.entries.set(
                    i,
                    AuctionInfo {
                        current_highest_bid: highest_bid,
                        highest_bidder: Some(highest_bidder),
                        ..e
                    },
                );
                proof {
                    assert(self.entries@ =~= bid_relayed(old(self).entries@, id, highest_bid, highest_bidder));
                }
                Ok(())
            },
            None => {
                proof {
                    assert(self.entries@ =~= bid_relayed(old(self).entries@, id, highest_bid, highest_bidder));
                }
                Err(FactoryError::NotFound)
            },
        }
    }

    /// Every active entry, in increasing order of identifier.
    pub fn get_active_auctions(&self) -> (r: Vec<AuctionInfo>)
        ensures
            r@ == active_entries(self.directory()),
    {
        let mut out: Vec<AuctionInfo> = Vec::new();
        let mut i: usize = 0;
        while i < self.entries.len()
            invariant
                0 <= i <= self.entries@.len(),
                out@ == active_entries(self.entries@.subrange(0, i as int)),
            decreases self.entries@.len() - i,
        {
            let e = self.entries[i];
            proof {
                let s = self.entries@;
                assert(s.subrange(0, i + 1).drop_last() =~= s.subrange(0, i as int));
                reveal(Seq::filter);
            }
            if e.status == AuctionStatus::Active {
                out.push(e);
            }
            i = i + 1;
        }
        proof {
            assert(self.entries@.subrange(0, self.entries@.len() as int) =~= self.entries@);
        }
        out
    }

    /// Every entry listed by `seller`, in increasing order of identifier.
    pub fn get_auctions_by_seller(&self, seller: Principal) -> (r: Vec<AuctionInfo>)
        ensures
            r@ == entries_of_seller(self.directory(), seller),
    {
        let mut out: Vec<AuctionInfo> = Vec::new();
        let mut i: usize = 0;
        while i < self.entries.len()
            invariant
                0 <= i <= self.entries@.len(),
                out@ == entries_of_seller(self.entries@.subrange(0, i as int), seller),
            decreases self.entries@.len() - i,
        {
            let e = self.entries[i];
            proof {
                let s = self.entries@;
                assert(s.subrange(0, i + 1).drop_last() =~= s.subrange(0, i as int));
                reveal(Seq::filter);
            }
            if e.seller == seller {
                out.push(e);
            }
            i = i + 1;
        }
        proof {
            assert(self.entries@.subrange(0, self.entries@.len() as int) =~= self.entries@);
        }
        out
    }

    /// Registers the code image that instances provisioned from now on run.
    pub fn set_auction_template_wasm(&mut self, wasm: Vec<u8>)
        requires
            old(self).wf(),
        ensures
            final(self).wf(),
            final(self).template() == wasm@,
            final(self).next_id() == old(self).next_id(),
            final(self).directory() == old(self).directory(),
    {
        self.template_wasm = wasm;
    }

    /// The code image and initialization argument with which to provision
    /// the instance of `pending`: the current template, and the auction's
    /// identifier as its one argument.
    pub fn install_request(&self, pending: &PendingAuction) -> (r: InstallRequest)
        ensures
            r.wasm_module@ == self.template(),
            r.arg@ == init_arg_bytes(pending.id),
    {
        let arg = encode_init_arg(pending.id).unwrap();
        let wasm_module = self.template_wasm.clone();
        proof {
            assert(wasm_module@ =~= self.template_wasm@);
        }
        InstallRequest { wasm_module, arg }
    }

    /// The identifier that the next `create_auction` issues; every
    /// identifier below it has been issued.
    pub fn next_auction_id(&self) -> (r: u64)
        ensures
            r == self.next_id(),
    {
        self.next_id
    }
}

} // verus!

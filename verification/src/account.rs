use vstd::prelude::*;
use crate::constant::{BUY_MAX_NFT_COUNT, MAX_OFFER_COUNT};

verus! {

/// Identity of an on-ledger account, held as the four 64-bit words of its
/// 32-byte key. The ledger logic only ever compares keys and zero-fills
/// unpopulated slots, so the words themselves carry no further structure.
#[derive(Clone, Copy, Debug, PartialEq, Eq, Hash, Structural)]
pub struct AccountRef {
    pub w0: u64,
    pub w1: u64,
    pub w2: u64,
    pub w3: u64,
}

impl AccountRef {
    /// The all-zero key that marks an unpopulated record slot.
    pub open spec fn spec_zero() -> AccountRef {
        AccountRef { w0: 0, w1: 0, w2: 0, w3: 0 }
    }

    pub fn zero() -> (r: AccountRef)
        ensures
            r == AccountRef::spec_zero(),
    {
        AccountRef { w0: 0, w1: 0, w2: 0, w3: 0 }
    }
}

impl Default for AccountRef {
    fn default() -> (r: AccountRef)
        ensures
            r == AccountRef::spec_zero(),
    {
        AccountRef::zero()
    }
}

/// The custody authority record: a deterministically derived signing
/// identity, held as its owner and the derivation bump byte.
#[derive(Clone, Copy, Debug, PartialEq, Eq, Structural)]
pub struct Pool {
    pub owner: AccountRef,
    pub bump: u8,
}

impl Default for Pool {
    fn default() -> (r: Pool)
        ensures
            r.owner == AccountRef::spec_zero(),
            r.bump == 0,
    {
        Pool { owner: AccountRef::zero(), bump: 0 }
    }
}

/// One buyer's bundled offer: a fungible payment plus up to
/// `BUY_MAX_NFT_COUNT` assets, given as parallel mint / source-account
/// arrays of which only the first `offer_nft_count` slots are populated.
#[derive(Clone, Copy, Debug)]
pub struct OfferItem {
    pub offer_amount_sol: u64,
    pub offer_nft_price: u64,
    pub offer_nft_mint: [AccountRef; BUY_MAX_NFT_COUNT],
    pub offer_nft_account: [AccountRef; BUY_MAX_NFT_COUNT],
    pub offer_nft_count: u8,
}

impl OfferItem {
    /// The populated slot count never exceeds the bundle-size limit.
    pub open spec fn wf(self) -> bool {
        self.offer_nft_count as int <= BUY_MAX_NFT_COUNT as int
    }

    /// The source accounts of the offer's declared asset legs.
    pub open spec fn sources(self) -> Seq<AccountRef> {
        self.offer_nft_account@.take(self.offer_nft_count as int)
    }

    /// Whether `source` is the source account of one of the declared legs.
    pub open spec fn lists_source(self, source: AccountRef) -> bool {
        self.sources().contains(source)
    }
}

impl Default for OfferItem {
    fn default() -> (r: OfferItem)
        ensures
            r.offer_amount_sol == 0,
            r.offer_nft_price == 0,
            r.offer_nft_count == 0,
            forall|i: int|
                0 <= i < BUY_MAX_NFT_COUNT as int ==> r.offer_nft_mint@[i]
                    == AccountRef::spec_zero(),
            forall|i: int|
                0 <= i < BUY_MAX_NFT_COUNT as int ==> r.offer_nft_account@[i]
                    == AccountRef::spec_zero(),
            r.wf(),
    {
        OfferItem {
            offer_amount_sol: 0,
            offer_nft_price: 0,
            offer_nft_mint: [AccountRef::zero(); BUY_MAX_NFT_COUNT],
            offer_nft_account: [AccountRef::zero(); BUY_MAX_NFT_COUNT],
            offer_nft_count: 0,
        }
    }
}

/// The offer ledger attached to one listing: a bounded array of pending
/// offers, the listing context re-stamped by the latest accepted add, and
/// the occupancy count. Slots at index `offer_item_count` and beyond are
/// stale and carry no meaning.
#[derive(Clone, Copy, Debug)]
pub struct OfferData {
    pub collection_id: u32,
    pub nft_id: u32,
    pub offeror: AccountRef,
    pub offer_items: [OfferItem; MAX_OFFER_COUNT],
    pub offer_item_count: u8,
    pub pool: AccountRef,
    pub listed_price: u64,
    pub floor_price: u64,
}

impl OfferData {
    /// The occupancy count stays within capacity and every populated
    /// offer respects the bundle-size limit.
    pub open spec fn wf(self) -> bool {
        &&& self.offer_item_count as int <= MAX_OFFER_COUNT as int
        &&& forall|i: int|
            0 <= i < self.offer_item_count as int ==> (#[trigger] self.offer_items@[i]).wf()
    }

    /// The populated offers, in slot order.
    pub open spec fn pending(self) -> Seq<OfferItem> {
        self.offer_items@.take(self.offer_item_count as int)
    }

    /// Appends `item` in the first stale slot. The ledger must not be full.
    pub fn add_offer_item(&mut self, item: OfferItem)
        requires
            old(self).wf(),
            (old(self).offer_item_count as int) < MAX_OFFER_COUNT as int,
            item.wf(),
        ensures
            final(self).offer_item_count == old(self).offer_item_count + 1,
            final(self).offer_items@ == old(self).offer_items@.update(
                old(self).offer_item_count as int,
                item,
            ),
            final(self).pending() == old(self).pending().push(item),
            final(self).wf(),
            final(self).collection_id == old(self).collection_id,
            final(self).nft_id == old(self).nft_id,
            final(self).offeror == old(self).offeror,
            final(self).pool == old(self).pool,
            final(self).listed_price == old(self).listed_price,
            final(self).floor_price == old(self).floor_price,
    {
        let idx: usize = self.offer_item_count as usize;
        self.offer_items[idx] = item;
        self.offer_item_count = self.offer_item_count + 1;
        proof {
            assert(self.pending() =~= old(self).pending().push(item));
        }
    }

    /// Removes the offer at `item_index` by moving the last populated
    /// offer into its slot and shrinking the count: compaction does not
    /// preserve the order of the remaining offers.
    pub fn remove_offer_item(&mut self, item_index: u8)
        requires
            old(self).wf(),
            (item_index as int) < old(self).offer_item_count as int,
        ensures
            final(self).offer_item_count == old(self).offer_item_count - 1,
            final(self).offer_items@ == old(self).offer_items@.update(
                item_index as int,
                old(self).offer_items@[old(self).offer_item_count as int - 1],
            ),
            final(self).pending() == old(self).pending().update(
                item_index as int,
                old(self).pending().last(),
            ).drop_last(),
            final(self).wf(),
            final(self).collection_id == old(self).collection_id,
            final(self).nft_id == old(self).nft_id,
            final(self).offeror == old(self).offeror,
            final(self).pool == old(self).pool,
            final(self).listed_price == old(self).listed_price,
            final(self).floor_price == old(self).floor_price,
    {
        let last: OfferItem = self.offer_items[(self.offer_item_count - 1) as usize];
        self.offer_items[item_index as usize] = last;
        self.offer_item_count = self.offer_item_count - 1;
        proof {
            assert(self.pending() =~= old(self).pending().update(
                item_index as int,
                old(self).pending().last(),
            ).drop_last());
        }
    }

    /// Collapses the ledger to the single offer at `item_index`,
    /// discarding every other pending offer.
    pub fn accept_offer_item(&mut self, item_index: u8)
        requires
            old(self).wf(),
            (item_index as int) < old(self).offer_item_count as int,
        ensures
            final(self).offer_item_count == 1,
            final(self).offer_items@ == old(self).offer_items@.update(
                0,
                old(self).offer_items@[item_index as int],
            ),
            final(self).pending() == seq![old(self).offer_items@[item_index as int]],
            final(self).wf(),
            final(self).collection_id == old(self).collection_id,
            final(self).nft_id == old(self).nft_id,
            final(self).offeror == old(self).offeror,
            final(self).pool == old(self).pool,
            final(self).listed_price == old(self).listed_price,
            final(self).floor_price == old(self).floor_price,
    {
        let chosen: OfferItem = self.offer_items[item_index as usize];
        self.offer_items[0] = chosen;
        self.offer_item_count = 1;
        proof {
            assert(self.pending() =~= seq![old(self).offer_items@[item_index as int]]);
        }
    }
}

impl Default for OfferData {
    fn default() -> (r: OfferData)
        ensures
            r.collection_id == 0,
            r.nft_id == 0,
            r.offeror == AccountRef::spec_zero(),
            r.offer_item_count == 0,
            r.pool == AccountRef::spec_zero(),
            r.listed_price == 0,
            r.floor_price == 0,
            forall|j: int|
                0 <= j < MAX_OFFER_COUNT as int ==> (#[trigger] r.offer_items@[j]).offer_amount_sol
                    == 0 && r.offer_items@[j].offer_nft_price == 0
                    && r.offer_items@[j].offer_nft_count == 0 && (forall|k: int|
                    0 <= k < BUY_MAX_NFT_COUNT as int ==> (
                    #[trigger] r.offer_items@[j].offer_nft_mint@[k]) == AccountRef::spec_zero()
                        && r.offer_items@[j].offer_nft_account@[k] == AccountRef::spec_zero()),
            r.wf(),
            r.pending() == Seq::<OfferItem>::empty(),
    {
        let r = OfferData {
            collection_id: 0,
            nft_id: 0,
            offeror: AccountRef::zero(),
            offer_items: [OfferItem::default(); MAX_OFFER_COUNT],
            offer_item_count: 0,
            pool: AccountRef::zero(),
            listed_price: 0,
            floor_price: 0,
        };
        proof {
            assert(r.pending() =~= Seq::<OfferItem>::empty());
        }
        r
    }
}

/// The catalog record of one asset: its address, owner and the custody
/// authority of the listing it belongs to.
#[derive(Clone, Copy, Debug, PartialEq, Eq, Structural)]
pub struct NftData {
    pub nft_addr: AccountRef,
    pub owner: AccountRef,
    pub collection_id: u32,
    pub nft_id: u32,
    pub pool: AccountRef,
}

impl Default for NftData {
    fn default() -> (r: NftData)
        ensures
            r.nft_addr == AccountRef::spec_zero(),
            r.owner == AccountRef::spec_zero(),
            r.collection_id == 0,
            r.nft_id == 0,
            r.pool == AccountRef::spec_zero(),
    {
        NftData {
            nft_addr: AccountRef::zero(),
            owner: AccountRef::zero(),
            collection_id: 0,
            nft_id: 0,
            pool: AccountRef::zero(),
        }
    }
}

/// The settlement progress record of one in-flight purchase: whether the
/// payment leg has been executed, and the source accounts of the asset
/// legs already delivered, in delivery order. Entries at index
/// `paid_nft_count` and beyond are stale.
#[derive(Clone, Copy, Debug)]
pub struct BuyingState {
    pub paid_sol: bool,
    pub paid_nft_count: u8,
    pub paid_nft_account_list: [AccountRef; BUY_MAX_NFT_COUNT],
}

impl BuyingState {
    /// The source accounts of the legs already delivered.
    pub open spec fn delivered(self) -> Seq<AccountRef> {
        self.paid_nft_account_list@.take(self.paid_nft_count as int)
    }

    /// The delivered count stays within the bundle-size limit and no leg
    /// is recorded twice.
    pub open spec fn wf(self) -> bool {
        &&& self.paid_nft_count as int <= BUY_MAX_NFT_COUNT as int
        &&& self.delivered().no_duplicates()
    }

    /// This record tracks settlement of `item`: every delivered leg is one
    /// of the offer's declared legs, and no more legs are recorded than
    /// the offer declares.
    pub open spec fn settles(self, item: OfferItem) -> bool {
        &&& self.paid_nft_count as int <= item.offer_nft_count as int
        &&& forall|j: int|
            0 <= j < self.paid_nft_count as int ==> item.sources().contains(
                #[trigger] self.delivered()[j],
            )
    }

    /// Records one more delivered leg. The record must have a free slot.
    pub fn add_paid_nft(&mut self, paid_nft_account: AccountRef)
        requires
            (old(self).paid_nft_count as int) < BUY_MAX_NFT_COUNT as int,
        ensures
            final(self).paid_nft_count == old(self).paid_nft_count + 1,
            final(self).paid_nft_account_list@ == old(self).paid_nft_account_list@.update(
                old(self).paid_nft_count as int,
                paid_nft_account,
            ),
            final(self).delivered() == old(self).delivered().push(paid_nft_account),
            final(self).paid_sol == old(self).paid_sol,
    {
        let idx: usize = self.paid_nft_count as usize;
        self.paid_nft_account_list[idx] = paid_nft_account;
        self.paid_nft_count = self.paid_nft_count + 1;
        proof {
            assert(self.delivered() =~= old(self).delivered().push(paid_nft_account));
        }
    }
}

impl Default for BuyingState {
    fn default() -> (r: BuyingState)
        ensures
            r.paid_sol == false,
            r.paid_nft_count == 0,
            r.delivered() == Seq::<AccountRef>::empty(),
            r.wf(),
    {
        let r = BuyingState {
            paid_sol: false,
            paid_nft_count: 0,
            paid_nft_account_list: [AccountRef::zero(); BUY_MAX_NFT_COUNT],
        };
        proof {
            assert(r.delivered() =~= Seq::<AccountRef>::empty());
        }
        r
    }
}

/// The sale record of one listed asset: who holds it in custody, which
/// catalog entry it is, and its asking price.
#[derive(Clone, Copy, Debug, PartialEq, Eq, Structural)]
pub struct NftOnSale {
    pub owner: AccountRef,
    pub collection_id: u32,
    pub nft_id: u32,
    pub price: u64,
}

impl Default for NftOnSale {
    fn default() -> (r: NftOnSale)
        ensures
            r.owner == AccountRef::spec_zero(),
            r.collection_id == 0,
            r.nft_id == 0,
            r.price == 0,
    {
        NftOnSale { owner: AccountRef::zero(), collection_id: 0, nft_id: 0, price: 0 }
    }
}

} // verus!

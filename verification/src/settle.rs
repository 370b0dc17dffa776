use vstd::prelude::*;
use vstd::array::spec_array_update;

use crate::account::{AccountRef, BuyingState, NftOnSale, OfferData, OfferItem};
use crate::constant::BUY_MAX_NFT_COUNT;
use crate::error::NMError;

verus! {

broadcast use vstd::array::group_array_axioms;

/// The transfers the host must perform for one settlement step, in order:
/// the payment leg, then the asset leg, then the final custody release.
#[derive(Clone, Copy, Debug)]
pub struct BuyNftActions {
    /// `Some(amount)`: execute the payment transfer of `amount` from the
    /// buyer to the custody account. `None`: the payment was already made
    /// by an earlier step.
    pub pay_sol: Option<u64>,
    /// Move one unit of the supplied leg's asset from its source account
    /// into the escrow holding account.
    pub transfer_nft: bool,
    /// All legs are now delivered: release every escrowed asset to the
    /// buyer under the custody authority's deterministic signature.
    pub release: bool,
}

/// The check that guards a settlement step; `Some(e)` is the error the
/// step fails with, before any state change.
pub open spec fn advance_pre_error(
    offer_data: OfferData,
    nft_on_sale: NftOnSale,
    pool_key: AccountRef,
    offer_index: u8,
    source_account: AccountRef,
    leg_account_count: usize,
) -> Option<NMError> {
    if nft_on_sale.owner != pool_key {
        Some(NMError::NotPuttedOnSale)
    } else if offer_index as int >= offer_data.offer_item_count as int {
        Some(NMError::OverflowOfferCount)
    } else if leg_account_count as int != offer_data.offer_items@[offer_index as int].offer_nft_count as int
        * 2 {
        Some(NMError::OverflowTokenAccountCount)
    } else if !offer_data.offer_items@[offer_index as int].lists_source(source_account) {
        Some(NMError::InvalidSourceAccount)
    } else {
        None
    }
}

/// The settlement record after one successful step on leg `source`: the
/// payment is marked made, and the leg is recorded unless it already was.
pub open spec fn advance_state(s: BuyingState, item: OfferItem, source: AccountRef) -> BuyingState {
    if s.delivered().contains(source) {
        BuyingState {
            paid_sol: true,
            paid_nft_count: s.paid_nft_count,
            paid_nft_account_list: s.paid_nft_account_list,
        }
    } else {
        BuyingState {
            paid_sol: true,
            paid_nft_count: (s.paid_nft_count + 1) as u8,
            paid_nft_account_list: spec_array_update(
                s.paid_nft_account_list,
                s.paid_nft_count as int,
                source,
            ),
        }
    }
}

/// The transfers one successful step on leg `source` asks the host for.
pub open spec fn advance_actions(
    s: BuyingState,
    item: OfferItem,
    source: AccountRef,
) -> BuyNftActions {
    BuyNftActions {
        pay_sol: if s.paid_sol {
            None
        } else {
            Some(item.offer_amount_sol)
        },
        transfer_nft: !s.delivered().contains(source),
        release: !s.delivered().contains(source) && s.paid_nft_count as int + 1
            == item.offer_nft_count as int,
    }
}

/// Whether `target` is among the first `count` entries of `list`.
fn find_account(
    list: &[AccountRef; BUY_MAX_NFT_COUNT],
    count: u8,
    target: AccountRef,
) -> (found: bool)
    requires
        count as int <= BUY_MAX_NFT_COUNT as int,
    ensures
        found <==> list@.take(count as int).contains(target),
{
    let mut i: usize = 0;
    while i < count as usize
        invariant
            count as int <= BUY_MAX_NFT_COUNT as int,
            i <= count as int,
            forall|j: int| 0 <= j < i ==> list@[j] != target,
        decreases count as int - i,
    {
        if list[i] == target {
            proof {
                assert(list@.take(count as int)[i as int] == target);
            }
            return true;
        }
        i = i + 1;
    }
    proof {
        assert(forall|j: int|
            0 <= j < count as int ==> list@.take(count as int)[j] == list@[j]);
    }
    false
}

/// A settlement record that does not yet hold every declared leg of the
/// offer it settles has room for one more: its distinct recorded legs,
/// together with one declared leg not yet recorded, all fit among the
/// offer's declared legs.
proof fn lemma_delivery_count_bound(s: BuyingState, item: OfferItem, source: AccountRef)
    requires
        s.wf(),
        s.settles(item),
        item.lists_source(source),
        !s.delivered().contains(source),
    ensures
        (s.paid_nft_count as int) < item.offer_nft_count as int,
{
    broadcast use vstd::set::group_set_axioms;
    broadcast use vstd::seq_lib::group_seq_properties;

    let d = s.delivered();
    let srcs = item.sources();
    d.unique_seq_to_set();
    srcs.lemma_cardinality_of_set();
    vstd::seq_lib::seq_to_set_is_finite(d);
    vstd::seq_lib::seq_to_set_is_finite(srcs);
    let grown = d.to_set().insert(source);
    assert forall|x: AccountRef| grown.contains(x) implies srcs.to_set().contains(x) by {
        if x == source {
            assert(srcs.contains(x));
        } else {
            assert(d.contains(x));
            let j = choose|j: int| 0 <= j < d.len() && d[j] == x;
            assert(srcs.contains(d[j]));
        }
    }
    vstd::set_lib::lemma_len_subset(grown, srcs.to_set());
    assert(!d.to_set().contains(source));
    assert(grown.len() == d.to_set().len() + 1);
}

/// One successful settlement step preserves the settlement record's
/// invariants, never unmarks the payment, never drops a recorded leg, and
/// records exactly the given leg source on top of what was recorded.
pub proof fn lemma_advance_preserves(s: BuyingState, item: OfferItem, source: AccountRef)
    requires
        s.wf(),
        item.wf(),
        s.settles(item),
        item.lists_source(source),
    ensures
        advance_state(s, item, source).wf(),
        advance_state(s, item, source).settles(item),
        advance_state(s, item, source).paid_sol,
        advance_state(s, item, source).paid_nft_count >= s.paid_nft_count,
        advance_state(s, item, source).delivered().to_set() == s.delivered().to_set().insert(
            source,
        ),
        s.delivered().contains(source) ==> advance_state(s, item, source).delivered()
            == s.delivered(),
        !s.delivered().contains(source) ==> advance_state(s, item, source).delivered()
            == s.delivered().push(source),
{
    broadcast use vstd::set::group_set_axioms;

    let s1 = advance_state(s, item, source);
    if s.delivered().contains(source) {
        assert(s1.delivered() == s.delivered());
        assert(s1.delivered().to_set() =~= s.delivered().to_set().insert(source));
    } else {
        lemma_delivery_count_bound(s, item, source);
        assert(s1.delivered() =~= s.delivered().push(source));
        s.delivered().lemma_push_to_set_commute(source);
        assert(s1.delivered().to_set() =~= s.delivered().to_set().insert(source));
        assert forall|i: int, j: int|
            0 <= i < j < s1.delivered().len() implies s1.delivered()[i] != s1.delivered()[j] by {
            if j < s.delivered().len() {
            } else {
                assert(s.delivered().contains(s.delivered()[i]));
            }
        }
    }
}

/// One settlement step of an accepted offer: the multi-leg swap's
/// `advance` operation, safe to invoke repeatedly until every leg is done.
///
/// The step is guarded: the sale record must be held by the custody
/// authority `pool_key`, `offer_index` must address a populated offer,
/// `leg_account_count` must supply a source and destination account per
/// declared leg, and `source_account` must be one of the offer's declared
/// leg sources — otherwise the step fails with the matching error and the
/// record is untouched. On success the payment leg is executed at most
/// once over the settlement's lifetime, a leg already recorded is a no-op,
/// a new leg is recorded and its transfer requested, and the final
/// custody release is requested exactly when the last declared leg is
/// delivered.
pub fn buy_nft(
    offer_data: &OfferData,
    nft_on_sale: &NftOnSale,
    buying_state: &mut BuyingState,
    pool_key: AccountRef,
    offer_index: u8,
    source_account: AccountRef,
    leg_account_count: usize,
) -> (r: Result<BuyNftActions, NMError>)
    requires
        offer_data.wf(),
        old(buying_state).wf(),
        (offer_index as int) < offer_data.offer_item_count as int ==> old(buying_state).settles(
            offer_data.offer_items@[offer_index as int],
        ),
    ensures
        (r is Err) <==> (advance_pre_error(
            *offer_data,
            *nft_on_sale,
            pool_key,
            offer_index,
            source_account,
            leg_account_count,
        ) is Some),
        r matches Err(e) ==> Some(e) == advance_pre_error(
            *offer_data,
            *nft_on_sale,
            pool_key,
            offer_index,
            source_account,
            leg_account_count,
        ) && *final(buying_state) == *old(buying_state),
        r matches Ok(a) ==> ({
            let item = offer_data.offer_items@[offer_index as int];
            &&& a == advance_actions(*old(buying_state), item, source_account)
            &&& *final(buying_state) == advance_state(*old(buying_state), item, source_account)
        }),
        final(buying_state).wf(),
        (offer_index as int) < offer_data.offer_item_count as int ==> final(buying_state).settles(
            offer_data.offer_items@[offer_index as int],
        ),
{
    if nft_on_sale.owner != pool_key {
        return Err(NMError::NotPuttedOnSale);
    }
    if !(offer_index < offer_data.offer_item_count) {
        return Err(NMError::OverflowOfferCount);
    }
    let offer_item = offer_data.offer_items[offer_index as usize];
    if leg_account_count != (offer_item.offer_nft_count as usize) * 2 {
        return Err(NMError::OverflowTokenAccountCount);
    }
    if !find_account(&offer_item.offer_nft_account, offer_item.offer_nft_count, source_account) {
        return Err(NMError::InvalidSourceAccount);
    }

    let pay_sol = if !buying_state.paid_sol {
        Some(offer_item.offer_amount_sol)
    } else {
        None
    };
    buying_state.paid_sol = true;

    let already_delivered = find_account(
        &buying_state.paid_nft_account_list,
        buying_state.paid_nft_count,
        source_account,
    );
    if already_delivered {
        Ok(BuyNftActions { pay_sol, transfer_nft: false, release: false })
    } else {
        proof {
            lemma_delivery_count_bound(*buying_state, offer_item, source_account);
        }
        buying_state.add_paid_nft(source_account);
        let release = buying_state.paid_nft_count == offer_item.offer_nft_count;
        proof {
            assert(buying_state.paid_nft_account_list =~= spec_array_update(
                old(buying_state).paid_nft_account_list,
                old(buying_state).paid_nft_count as int,
                source_account,
            ));
            assert(buying_state.delivered().no_duplicates());
        }
        Ok(BuyNftActions { pay_sol, transfer_nft: true, release })
    }
}

/// Law: settlement steps are idempotent per leg. After a successful step
/// on leg `source`, a second step on the same leg changes nothing and
/// asks the host for no transfer at all: no second payment, no second
/// asset move, no release.
pub proof fn lemma_settlement_idempotent(s: BuyingState, item: OfferItem, source: AccountRef)
    requires
        s.wf(),
        item.wf(),
        s.settles(item),
        item.lists_source(source),
    ensures
        ({
            let s1 = advance_state(s, item, source);
            &&& advance_state(s1, item, source) == s1
            &&& advance_actions(s1, item, source).pay_sol is None
            &&& advance_actions(s1, item, source).transfer_nft == false
            &&& advance_actions(s1, item, source).release == false
        }),
{
    broadcast use vstd::set::group_set_axioms;

    lemma_advance_preserves(s, item, source);
    let s1 = advance_state(s, item, source);
    assert(s1.delivered().to_set().contains(source));
    assert(s1.delivered().contains(source));
}

/// Law: the terminal state is stable. Once the payment is made and every
/// declared leg is delivered, a further step on any declared leg changes
/// nothing and asks the host for no transfer: the final release cannot
/// recur.
pub proof fn lemma_settlement_terminal_noop(s: BuyingState, item: OfferItem, source: AccountRef)
    requires
        s.wf(),
        item.wf(),
        s.settles(item),
        item.lists_source(source),
        s.paid_sol,
        s.paid_nft_count == item.offer_nft_count,
    ensures
        advance_state(s, item, source) == s,
        advance_actions(s, item, source).pay_sol is None,
        advance_actions(s, item, source).transfer_nft == false,
        advance_actions(s, item, source).release == false,
{
    if !s.delivered().contains(source) {
        lemma_delivery_count_bound(s, item, source);
    }
}

/// The settlement record after successful steps on each of `legs`, in
/// order.
pub open spec fn run_settlement(
    s: BuyingState,
    item: OfferItem,
    legs: Seq<AccountRef>,
) -> BuyingState
    decreases legs.len(),
{
    if legs.len() == 0 {
        s
    } else {
        advance_state(run_settlement(s, item, legs.drop_last()), item, legs.last())
    }
}

/// How many of the successful steps on `legs`, in order, ask the host
/// for the final custody release.
pub open spec fn run_release_count(s: BuyingState, item: OfferItem, legs: Seq<AccountRef>) -> int
    decreases legs.len(),
{
    if legs.len() == 0 {
        0
    } else {
        run_release_count(s, item, legs.drop_last()) + (
        if advance_actions(run_settlement(s, item, legs.drop_last()), item, legs.last()).release {
            1int
        } else {
            0int
        })
    }
}

/// How many of the successful steps on `legs`, in order, ask the host
/// for the payment transfer.
pub open spec fn run_pay_count(s: BuyingState, item: OfferItem, legs: Seq<AccountRef>) -> int
    decreases legs.len(),
{
    if legs.len() == 0 {
        0
    } else {
        run_pay_count(s, item, legs.drop_last()) + (
        if advance_actions(run_settlement(s, item, legs.drop_last()), item, legs.last()).pay_sol
            is Some {
            1int
        } else {
            0int
        })
    }
}

/// Any sequence of successful steps on declared legs preserves the
/// record's invariants, marks the payment on the first step and keeps it
/// marked, never drops a recorded leg, and ends with exactly the legs
/// recorded before plus the stepped ones.
pub proof fn lemma_run_settlement_invariant(s: BuyingState, item: OfferItem, legs: Seq<AccountRef>)
    requires
        s.wf(),
        item.wf(),
        s.settles(item),
        forall|i: int| 0 <= i < legs.len() ==> item.lists_source(#[trigger] legs[i]),
    ensures
        run_settlement(s, item, legs).wf(),
        run_settlement(s, item, legs).settles(item),
        run_settlement(s, item, legs).paid_nft_count >= s.paid_nft_count,
        run_settlement(s, item, legs).delivered().to_set() == s.delivered().to_set().union(
            legs.to_set(),
        ),
        legs.len() > 0 ==> run_settlement(s, item, legs).paid_sol,
        s.paid_sol ==> run_settlement(s, item, legs).paid_sol,
    decreases legs.len(),
{
    broadcast use vstd::set::group_set_axioms;
    broadcast use vstd::seq_lib::group_seq_properties;

    if legs.len() == 0 {
        assert(legs.to_set() =~= Set::<AccountRef>::empty());
        assert(s.delivered().to_set().union(legs.to_set()) =~= s.delivered().to_set());
    } else {
        let prefix = legs.drop_last();
        let last = legs.last();
        lemma_run_settlement_invariant(s, item, prefix);
        let mid = run_settlement(s, item, prefix);
        lemma_advance_preserves(mid, item, last);
        assert(prefix.push(last) =~= legs);
        prefix.lemma_push_to_set_commute(last);
        assert(run_settlement(s, item, legs).delivered().to_set() =~= s.delivered().to_set().union(
            legs.to_set(),
        ));
    }
}

/// Law: settlement completes. Starting from a fresh record, stepping
/// through any sequence of declared legs that covers every leg of the
/// offer — retries and any order included — ends with the payment made
/// and all `offer_nft_count` legs delivered.
pub proof fn lemma_settlement_complete(s: BuyingState, item: OfferItem, legs: Seq<AccountRef>)
    requires
        item.wf(),
        s.paid_nft_count == 0,
        item.sources().no_duplicates(),
        forall|i: int| 0 <= i < legs.len() ==> item.lists_source(#[trigger] legs[i]),
        forall|j: int|
            0 <= j < item.sources().len() ==> legs.contains(#[trigger] item.sources()[j]),
        legs.len() > 0,
    ensures
        run_settlement(s, item, legs).paid_sol,
        run_settlement(s, item, legs).paid_nft_count == item.offer_nft_count,
{
    broadcast use vstd::set::group_set_axioms;
    broadcast use vstd::seq_lib::seq_to_set_is_finite;

    assert(s.delivered() =~= Seq::<AccountRef>::empty());
    lemma_run_settlement_invariant(s, item, legs);
    let run = run_settlement(s, item, legs);
    assert(run.delivered().to_set() =~= legs.to_set());
    assert(legs.to_set() =~= item.sources().to_set()) by {
        assert forall|x: AccountRef| legs.to_set().contains(x) implies item.sources().to_set().contains(
            x,
        ) by {
            let i = choose|i: int| 0 <= i < legs.len() && legs[i] == x;
            assert(item.lists_source(legs[i]));
        }
        assert forall|x: AccountRef| item.sources().to_set().contains(x) implies legs.to_set().contains(
            x,
        ) by {
            let j = choose|j: int| 0 <= j < item.sources().len() && item.sources()[j] == x;
            assert(legs.contains(item.sources()[j]));
        }
    }
    run.delivered().unique_seq_to_set();
    item.sources().unique_seq_to_set();
}

/// Law: the final release is asked for exactly once per settlement — on
/// the step that delivers the last missing leg — and never again; a run
/// that starts terminal, or ends short of terminal, asks for none.
pub proof fn lemma_release_count_value(s: BuyingState, item: OfferItem, legs: Seq<AccountRef>)
    requires
        s.wf(),
        item.wf(),
        s.settles(item),
        forall|i: int| 0 <= i < legs.len() ==> item.lists_source(#[trigger] legs[i]),
    ensures
        run_release_count(s, item, legs) == if (s.paid_nft_count as int)
            != item.offer_nft_count as int && run_settlement(s, item, legs).paid_nft_count as int
            == item.offer_nft_count as int {
            1int
        } else {
            0int
        },
    decreases legs.len(),
{
    if legs.len() == 0 {
    } else {
        let prefix = legs.drop_last();
        let last = legs.last();
        lemma_release_count_value(s, item, prefix);
        lemma_run_settlement_invariant(s, item, prefix);
        let mid = run_settlement(s, item, prefix);
        lemma_advance_preserves(mid, item, last);
        if mid.paid_nft_count == item.offer_nft_count {
            if !mid.delivered().contains(last) {
                lemma_delivery_count_bound(mid, item, last);
            }
        }
    }
}

/// Law: the payment leg is asked for exactly once per settlement — on
/// the first step after an unpaid start — and never again.
pub proof fn lemma_pay_count_value(s: BuyingState, item: OfferItem, legs: Seq<AccountRef>)
    requires
        s.wf(),
        item.wf(),
        s.settles(item),
        forall|i: int| 0 <= i < legs.len() ==> item.lists_source(#[trigger] legs[i]),
    ensures
        run_pay_count(s, item, legs) == if !s.paid_sol && legs.len() > 0 {
            1int
        } else {
            0int
        },
    decreases legs.len(),
{
    if legs.len() == 0 {
    } else {
        let prefix = legs.drop_last();
        lemma_pay_count_value(s, item, prefix);
        lemma_run_settlement_invariant(s, item, prefix);
    }
}

/// Law: a full settlement of a fresh record triggers exactly one final
/// release. The offer must declare at least one distinct leg and the run
/// must cover every declared leg.
pub proof fn lemma_settlement_release_once(s: BuyingState, item: OfferItem, legs: Seq<AccountRef>)
    requires
        item.wf(),
        s.wf(),
        s.paid_nft_count == 0,
        item.sources().no_duplicates(),
        1 <= item.offer_nft_count,
        forall|i: int| 0 <= i < legs.len() ==> item.lists_source(#[trigger] legs[i]),
        forall|j: int|
            0 <= j < item.sources().len() ==> legs.contains(#[trigger] item.sources()[j]),
        legs.len() > 0,
    ensures
        run_release_count(s, item, legs) == 1,
{
    lemma_settlement_complete(s, item, legs);
    lemma_release_count_value(s, item, legs);
}

} // verus!

//! The payment records: a sequence that only grows at its end.

use crate::payment::{Payment, PaymentView};
use vstd::prelude::*;

verus! {

/// Whether a record belongs to `owner`.
pub open spec fn is_owned_by(owner: i64) -> spec_fn(PaymentView) -> bool {
    |record: PaymentView| record.user_id == owner
}

/// The records of `owner` among `records`, in the order in which they stand.
pub open spec fn owned_by(records: Seq<PaymentView>, owner: i64) -> Seq<PaymentView> {
    records.filter(is_owned_by(owner))
}

/// What a list of borrowed records shows.
pub open spec fn views_of(records: Seq<&Payment>) -> Seq<PaymentView> {
    records.map_values(|record: &Payment| record@)
}

/// `merged` holds the records of `left` and of `right`, each in its own
/// order, and nothing else.
pub open spec fn interleaves(
    merged: Seq<PaymentView>,
    left: Seq<PaymentView>,
    right: Seq<PaymentView>,
) -> bool
    decreases merged.len(),
{
    if merged.len() == 0 {
        left.len() == 0 && right.len() == 0
    } else {
        ||| (left.len() > 0 && left.last() == merged.last() && interleaves(
            merged.drop_last(),
            left.drop_last(),
            right,
        ))
        ||| (right.len() > 0 && right.last() == merged.last() && interleaves(
            merged.drop_last(),
            left,
            right.drop_last(),
        ))
    }
}

/// The stored payments, oldest first.
pub struct PaymentStore {
    records: Vec<Payment>,
}

impl View for PaymentStore {
    type V = Seq<PaymentView>;

    closed spec fn view(&self) -> Seq<PaymentView> {
        self.records@.map_values(|record: Payment| record@)
    }
}

impl PaymentStore {
    pub fn new() -> (store: PaymentStore)
        ensures
            store@ == Seq::<PaymentView>::empty(),
    {
        let store = PaymentStore { records: Vec::new() };
        assert(store@ =~= Seq::<PaymentView>::empty());
        store
    }

    pub fn len(&self) -> (count: usize)
        ensures
            count == self@.len(),
    {
        self.records.len()
    }

    pub fn get(&self, index: usize) -> (record: &Payment)
        requires
            index < self@.len(),
        ensures
            record@ == self@[index as int],
    {
        &self.records[index]
    }

    /// Adds `record` after all the others.
    pub fn append(&mut self, record: Payment)
        ensures
            final(self)@ == old(self)@.push(record@),
    {
        self.records.push(record);
        assert(self@ =~= old(self)@.push(record@));
    }

    /// Every record of `owner`, oldest first.
    pub fn list_by_owner(&self, owner: i64) -> (found: Vec<&Payment>)
        ensures
            views_of(found@) == owned_by(self@, owner),
    {
        let mut found: Vec<&Payment> = Vec::new();
        let mut at: usize = 0;
        assert(self@.take(0) =~= Seq::<PaymentView>::empty());
        assert(views_of(found@) =~= Seq::<PaymentView>::empty());
        proof {
            reveal(Seq::filter);
        }
        while at < self.records.len()
            invariant
                at <= self.records.len(),
                self@.len() == self.records.len(),
                views_of(found@) == owned_by(self@.take(at as int), owner),
            decreases self.records.len() - at,
        {
            let record = &self.records[at];
            proof {
                assert(self@.take(at + 1) =~= self@.take(at as int).push(record@));
                self@.take(at as int).lemma_filter_push(record@, is_owned_by(owner));
            }
            if record.user_id == owner {
                found.push(record);
                assert(views_of(found@) =~= owned_by(self@.take(at as int), owner).push(record@));
            }
            at += 1;
        }
        assert(self@.take(at as int) =~= self@);
        found
    }
}

/// Appending a record of `owner` puts it at the end of what is listed for
/// `owner`; appending another owner's record leaves that list as it was.
pub proof fn law_append_then_list(records: Seq<PaymentView>, record: PaymentView, owner: i64)
    ensures
        owned_by(records.push(record), owner) == if record.user_id == owner {
            owned_by(records, owner).push(record)
        } else {
            owned_by(records, owner)
        },
{
    records.lemma_filter_push(record, is_owned_by(owner));
}

/// Nothing is listed for any owner of an empty store.
pub proof fn law_empty_store_lists_nothing(owner: i64)
    ensures
        owned_by(Seq::<PaymentView>::empty(), owner) == Seq::<PaymentView>::empty(),
{
    reveal(Seq::filter);
}

/// Where the store holds the payments that one owner made, `first`, among
/// those that another owner made, `second`, in whatever way the two were
/// interleaved, the list of the one owner is exactly `first`: as many
/// records, in the order of creation, and none of the other owner's.
pub proof fn law_listing_separates_owners(
    stored: Seq<PaymentView>,
    first: Seq<PaymentView>,
    second: Seq<PaymentView>,
    first_owner: i64,
    second_owner: i64,
)
    requires
        first_owner != second_owner,
        forall|i: int| 0 <= i < first.len() ==> (#[trigger] first[i]).user_id == first_owner,
        forall|i: int| 0 <= i < second.len() ==> (#[trigger] second[i]).user_id == second_owner,
        interleaves(stored, first, second),
    ensures
        owned_by(stored, first_owner) == first,
        owned_by(stored, second_owner) == second,
        stored.len() == first.len() + second.len(),
    decreases stored.len(),
{
    reveal(Seq::filter);
    if stored.len() == 0 {
        assert(first =~= Seq::<PaymentView>::empty());
        assert(second =~= Seq::<PaymentView>::empty());
    } else if first.len() > 0 && first.last() == stored.last() && interleaves(
        stored.drop_last(),
        first.drop_last(),
        second,
    ) {
        law_listing_separates_owners(
            stored.drop_last(),
            first.drop_last(),
            second,
            first_owner,
            second_owner,
        );
        assert(first =~= first.drop_last().push(first.last()));
    } else {
        law_listing_separates_owners(
            stored.drop_last(),
            first,
            second.drop_last(),
            first_owner,
            second_owner,
        );
        assert(second =~= second.drop_last().push(second.last()));
    }
}

} // verus!

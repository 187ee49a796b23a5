use vstd::prelude::*;
use crate::budget_item::{BudgetItem, ItemView, item_le, item_lt, lemma_item_order_transitive, lemma_item_trichotomy};

verus! {

/// The items are in non-decreasing order.
pub open spec fn is_sorted(s: Seq<ItemView>) -> bool {
    forall|i: int, j: int| 0 <= i < j < s.len() ==> item_le(#[trigger] s[i], #[trigger] s[j])
}

/// The values of a sequence of items.
pub open spec fn item_views(v: Seq<BudgetItem>) -> Seq<ItemView> {
    v.map_values(|item: BudgetItem| item@)
}

/// An ordered collection of budget items gathered under a common name.
///
/// The group does not require its entries to be unique: duplicates are kept.
pub struct BudgetGroup {
    name: String,
    items: Vec<BudgetItem>,
}

/// Error returned when the group is indexed with an invalid index.
#[derive(Debug, PartialEq, Eq, Structural)]
pub struct InvalidIndex {}

impl BudgetGroup {
    /// Well-formedness: the items are kept sorted.
    pub open spec fn wf(&self) -> bool {
        is_sorted(self.items())
    }

    /// The group's name.
    pub closed spec fn name_view(&self) -> Seq<char> {
        self.name@
    }

    /// The group's items, in order.
    pub closed spec fn items(&self) -> Seq<ItemView> {
        item_views(self.items@)
    }

    /// Create an empty group with a name.
    pub fn new(name: &str) -> (r: BudgetGroup)
        ensures
            r.name_view() == name@,
            r.items() == Seq::<ItemView>::empty(),
            r.wf(),
    {
        let g = BudgetGroup { name: name.to_owned(), items: Vec::new() };
        proof {
            assert(item_views(g.items@) =~= Seq::<ItemView>::empty());
        }
        g
    }

    /// The group's name.
    pub fn name(&self) -> (r: &String)
        ensures
            r@ == self.name_view(),
    {
        &self.name
    }

    /// The items of the group paired with their indices, in order.
    pub fn enumerate(&self) -> (r: Vec<(usize, &BudgetItem)>)
        requires
            self.wf(),
        ensures
            r@.len() == self.items().len(),
            forall|i: int| 0 <= i < r@.len() ==> (#[trigger] r@[i]).0 == i && r@[i].1@ == self.items()[i],
            is_sorted(self.items()),
    {
        let mut r: Vec<(usize, &BudgetItem)> = Vec::new();
        let n = self.items.len();
        let mut i: usize = 0;
        while i < n
            invariant
                i <= n,
                n == self.items@.len(),
                r@.len() == i,
                forall|k: int| 0 <= k < i ==> (#[trigger] r@[k]).0 == k && r@[k].1@ == self.items()[k],
            decreases n - i,
        {
            r.push((i, &self.items[i]));
            i = i + 1;
        }
        r
    }

    /// Add an item to the group at its place in the order; the other items keep their order.
    pub fn add(&mut self, item: BudgetItem)
        requires
            old(self).wf(),
        ensures
            final(self).wf(),
            final(self).name_view() == old(self).name_view(),
            exists|k: int|
                0 <= k <= old(self).items().len() && final(self).items() == old(
                    self,
                ).items().insert(k, item@),
            is_sorted(final(self).items()),
    {
        let ghost old_items = self.items();
        let ghost v = item@;
        let n = self.items.len();
        let mut k: usize = 0;
        loop
            invariant
                k <= n,
                n == self.items@.len(),
                old_items == item_views(self.items@),
                v == item@,
                forall|j: int| 0 <= j < k ==> item_le(#[trigger] old_items[j], v),
            ensures
                k <= n,
                forall|j: int| 0 <= j < k ==> item_le(#[trigger] old_items[j], v),
                k < n ==> item_lt(v, old_items[k as int]),
            decreases n - k,
        {
            if k == n {
                break;
            }
            proof {
                lemma_item_trichotomy(v, old_items[k as int]);
            }
            match item.compare(&self.items[k]) {
                core::cmp::Ordering::Less => {
                    break;
                },
                _ => {
                    k = k + 1;
                },
            }
        }
        let ghost new_items = old_items.insert(k as int, v);
        proof {
            assert forall|i: int, j: int| 0 <= i < j < new_items.len() implies item_le(
                #[trigger] new_items[i],
                #[trigger] new_items[j],
            ) by {
                if j < k {
                } else if i < k && j == k {
                } else if i < k {
                    lemma_item_trichotomy(v, old_items[k as int]);
                    lemma_item_order_transitive(new_items[i], v, new_items[j]);
                } else if i == k {
                    lemma_item_trichotomy(v, old_items[k as int]);
                    lemma_item_order_transitive(v, old_items[k as int], new_items[j]);
                }
            }
        }
        self.items.insert(k, item);
        proof {
            assert(item_views(self.items@) =~= new_items);
        }
    }

    /// Remove the item at `idx`, an index as given by [`enumerate`](Self::enumerate).
    ///
    /// An index that is not a position of the group is rejected and the group is left as it is.
    pub fn remove(&mut self, idx: usize) -> (r: Result<(), InvalidIndex>)
        requires
            old(self).wf(),
        ensures
            final(self).wf(),
            final(self).name_view() == old(self).name_view(),
            r is Ok <==> idx < old(self).items().len(),
            r is Ok ==> final(self).items() == old(self).items().remove(idx as int),
            r is Err ==> final(self).items() == old(self).items(),
    {
        if idx >= self.items.len() {
            return Err(InvalidIndex {});
        }
        let ghost old_items = self.items();
        self.items.remove(idx);
        proof {
            assert(item_views(self.items@) =~= old_items.remove(idx as int));
            assert forall|i: int, j: int| 0 <= i < j < self.items().len() implies item_le(
                #[trigger] self.items()[i],
                #[trigger] self.items()[j],
            ) by {
                if i >= idx {
                    assert(old_items[i + 1] == self.items()[i]);
                    assert(old_items[j + 1] == self.items()[j]);
                } else if j >= idx {
                    assert(old_items[j + 1] == self.items()[j]);
                }
            }
        }
        Ok(())
    }
}

} // verus!

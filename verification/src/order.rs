use vstd::prelude::*;
use crate::error_list::{unboxed, Error, Errors};
use crate::taxonomy::TypeError;

verus! {

/// The errors stand by rising offset.
pub open spec fn is_ordered(list: Seq<TypeError>) -> bool {
    forall|i: int, j: int| 0 <= i < j < list.len() ==> list[i]@.offset() <= list[j]@.offset()
}

/// Where an error at `offset` goes into `list`: behind the last error whose
/// offset is not greater, and at the front if there is none.
pub open spec fn place_of(list: Seq<TypeError>, offset: usize) -> int
    decreases list.len(),
{
    if list.len() == 0 {
        0
    } else if list.last()@.offset() <= offset {
        list.len() as int
    } else {
        place_of(list.drop_last(), offset)
    }
}

/// The errors of `list` by rising offset; errors at one offset keep the
/// order in which they stand in `list`.
pub open spec fn in_source_order(list: Seq<TypeError>) -> Seq<TypeError>
    decreases list.len(),
{
    if list.len() == 0 {
        Seq::empty()
    } else {
        let rest = in_source_order(list.drop_last());
        rest.insert(place_of(rest, list.last()@.offset()), list.last())
    }
}

/// The place of an offset lies in the list, every error from it on has a
/// greater offset, and the error before it has none.
pub proof fn lemma_place_of(list: Seq<TypeError>, offset: usize)
    ensures
        0 <= place_of(list, offset) <= list.len(),
        forall|k: int|
            place_of(list, offset) <= k < list.len() ==> (#[trigger] list[k])@.offset() > offset,
        place_of(list, offset) > 0 ==> list[place_of(list, offset) - 1]@.offset() <= offset,
    decreases list.len(),
{
    if list.len() > 0 && list.last()@.offset() > offset {
        let front = list.drop_last();
        lemma_place_of(front, offset);
        assert forall|k: int| place_of(list, offset) <= k < list.len() implies (#[trigger] list[k])@.offset()
            > offset by {
            if k < front.len() {
                assert(list[k] == front[k]);
            }
        }
        if place_of(list, offset) > 0 {
            assert(list[place_of(list, offset) - 1] == front[place_of(front, offset) - 1]);
        }
    }
}

/// The place of an offset is the only index with greater offsets from it
/// on and none just before it.
pub proof fn lemma_place_is_unique(list: Seq<TypeError>, offset: usize, place: int)
    requires
        0 <= place <= list.len(),
        forall|k: int| place <= k < list.len() ==> (#[trigger] list[k])@.offset() > offset,
        place > 0 ==> list[place - 1]@.offset() <= offset,
    ensures
        place == place_of(list, offset),
    decreases list.len(),
{
    if list.len() > 0 && place < list.len() {
        let front = list.drop_last();
        assert(list[list.len() - 1]@.offset() > offset);
        assert forall|k: int| place <= k < front.len() implies (#[trigger] front[k])@.offset()
            > offset by {
            assert(front[k] == list[k]);
        }
        lemma_place_is_unique(front, offset, place);
    }
}

/// Ordering a list gives an ordered list of the same errors, each as often
/// as before.
pub proof fn lemma_in_source_order(list: Seq<TypeError>)
    ensures
        is_ordered(in_source_order(list)),
        in_source_order(list).len() == list.len(),
        in_source_order(list).to_multiset() == list.to_multiset(),
    decreases list.len(),
{
    if list.len() == 0 {
        assert(in_source_order(list) =~= list);
    } else {
        let front = list.drop_last();
        let err = list.last();
        let rest = in_source_order(front);
        let place = place_of(rest, err@.offset());
        let all = rest.insert(place, err);
        lemma_in_source_order(front);
        lemma_place_of(rest, err@.offset());
        assert forall|i: int, j: int| 0 <= i < j < all.len() implies all[i]@.offset()
            <= all[j]@.offset() by {
            if j < place {
                assert(all[i] == rest[i] && all[j] == rest[j]);
            } else if j == place {
                assert(all[i] == rest[i]);
                if i < place - 1 {
                    assert(rest[i]@.offset() <= rest[place - 1]@.offset());
                }
            } else if i < place {
                assert(all[i] == rest[i] && all[j] == rest[j - 1]);
                if i < place - 1 {
                    assert(rest[i]@.offset() <= rest[place - 1]@.offset());
                }
            } else if i == place {
                assert(all[j] == rest[j - 1]);
            } else {
                assert(all[i] == rest[i - 1] && all[j] == rest[j - 1]);
            }
        }
        vstd::seq_lib::to_multiset_insert(rest, place, err);
        assert(list =~= front.push(err));
        vstd::seq_lib::to_multiset_build(front, err);
    }
}

impl Errors {
    /// Orders the errors by rising offset. Errors at one offset keep the
    /// order in which they were found, and none is lost or added.
    pub fn sort_by_offset(&mut self)
        ensures
            final(self)@ == in_source_order(old(self)@),
            is_ordered(final(self)@),
            final(self)@.to_multiset() == old(self)@.to_multiset(),
    {
        let ghost all = self@;
        let ghost mut done: int = 0;
        let mut sorted: Vec<Error> = Vec::new();
        assert(unboxed(sorted@) =~= in_source_order(all.take(0)));
        assert(self@ =~= all.skip(0));
        while self.items.len() > 0
            invariant
                0 <= done <= all.len(),
                self@ == all.skip(done),
                unboxed(sorted@) == in_source_order(all.take(done)),
            decreases self.items.len(),
        {
            let ghost before = self.items@;
            let ghost ordered = unboxed(sorted@);
            let item = self.items.remove(0);
            let offset = item.offset();
            let mut place: usize = sorted.len();
            while place > 0 && sorted[place - 1].offset() > offset
                invariant
                    place <= sorted.len(),
                    ordered == unboxed(sorted@),
                    forall|k: int|
                        place <= k < sorted.len() ==> (#[trigger] ordered[k])@.offset() > offset,
                decreases place,
            {
                assert(ordered[place - 1] == sorted@[place - 1]@);
                place = place - 1;
            }
            proof {
                assert(unboxed(before).len() == before.len());
                assert(done < all.len());
                assert(item@ == all.skip(done)[0]);
                assert(item@ == all[done]);
                if place > 0 {
                    assert(ordered[place - 1] == sorted@[place - 1]@);
                }
                lemma_place_is_unique(ordered, offset, place as int);
                assert(all.take(done + 1).drop_last() =~= all.take(done));
                assert(all.take(done + 1).last() == all[done]);
                assert forall|i: int| 0 <= i < before.len() - 1 implies unboxed(
                    before.remove(0),
                )[i] == all.skip(done + 1)[i] by {
                    assert(before.remove(0)[i] == before[i + 1]);
                    assert(unboxed(before)[i + 1] == all.skip(done)[i + 1]);
                }
                assert(unboxed(before.remove(0)) =~= all.skip(done + 1));
                assert(unboxed(sorted@.insert(place as int, item)) =~= ordered.insert(
                    place as int,
                    item@,
                ));
                done = done + 1;
            }
            sorted.insert(place, item);
        }
        proof {
            assert(all.skip(done).len() == 0);
            assert(all.take(done) =~= all);
            lemma_in_source_order(all);
        }
        self.items = sorted;
    }
}

} // verus!

//! Reading a list item by item, up to the first fault.

use crate::error::LoadError;
use vstd::prelude::*;

verus! {

/// What reading every item of a list gives: the readings in the order of the
/// items, or what the first item that cannot be read stops the reading with.
pub open spec fn traverse<A, B, E>(items: Seq<A>, read: spec_fn(A) -> Result<B, E>) -> Result<
    Seq<B>,
    E,
>
    decreases items.len(),
{
    if items.len() == 0 {
        Ok(Seq::empty())
    } else {
        match traverse(items.drop_last(), read) {
            Err(e) => Err(e),
            Ok(front) => match read(items.last()) {
                Err(e) => Err(e),
                Ok(value) => Ok(front.push(value)),
            },
        }
    }
}

/// What reading every item of a list gives where the reading of an item may
/// depend on the readings of the items before it: the readings in the order
/// of the items, or the fault of the first item that has one.
pub open spec fn accumulate<A, B>(
    items: Seq<A>,
    read: spec_fn(A, Seq<B>) -> Result<B, LoadError>,
) -> Result<Seq<B>, LoadError>
    decreases items.len(),
{
    if items.len() == 0 {
        Ok(Seq::empty())
    } else {
        match accumulate(items.drop_last(), read) {
            Err(e) => Err(e),
            Ok(front) => match read(items.last(), front) {
                Err(e) => Err(e),
                Ok(value) => Ok(front.push(value)),
            },
        }
    }
}

/// The result as it is stated of: the value by its view.
pub open spec fn viewed<T: View>(r: Result<T, LoadError>) -> Result<T::V, LoadError> {
    match r {
        Ok(value) => Ok(value@),
        Err(e) => Err(e),
    }
}

/// The result as it is stated of: the value, where there is one, by its view.
pub open spec fn viewed_option<T: View>(r: Result<Option<T>, LoadError>) -> Result<
    Option<T::V>,
    LoadError,
> {
    match r {
        Ok(Some(value)) => Ok(Some(value@)),
        Ok(None) => Ok(None),
        Err(e) => Err(e),
    }
}

/// Whether `k` is the place of the first item that cannot be read, and `stop`
/// what its reading stops with.
pub open spec fn first_stop<A, B, E>(
    items: Seq<A>,
    read: spec_fn(A) -> Result<B, E>,
    k: int,
    stop: E,
) -> bool {
    &&& 0 <= k < items.len()
    &&& read(items[k]) == Err::<B, E>(stop)
    &&& forall|j: int| 0 <= j < k ==> (#[trigger] read(items[j])) is Ok
}

/// Reading a list gives readings if and only if every item can be read, and
/// then it gives the reading of each item at the place of the item.
pub proof fn lemma_traverse_readings<A, B, E>(items: Seq<A>, read: spec_fn(A) -> Result<B, E>)
    ensures
        traverse(items, read) is Ok <==> forall|i: int|
            0 <= i < items.len() ==> (#[trigger] read(items[i])) is Ok,
        traverse(items, read) matches Ok(values) ==> {
            &&& values.len() == items.len()
            &&& forall|i: int|
                0 <= i < items.len() ==> read(items[i]) == Ok::<B, E>(#[trigger] values[i])
        },
    decreases items.len(),
{
    if items.len() > 0 {
        let front = items.drop_last();
        lemma_traverse_readings(front, read);
        assert(items.last() == items[items.len() - 1]);
        match traverse(front, read) {
            Err(stop) => {
                let k = choose|k: int| 0 <= k < front.len() && !(#[trigger] read(front[k]) is Ok);
                assert(front[k] == items[k]);
                assert(!(read(items[k]) is Ok));
            },
            Ok(values) => {
                assert forall|i: int| 0 <= i < front.len() implies (#[trigger] read(items[i])) is Ok by {
                    assert(front[i] == items[i]);
                    assert(read(front[i]) is Ok);
                }
                match read(items.last()) {
                    Err(stop) => {
                        assert(!(read(items[items.len() - 1]) is Ok));
                    },
                    Ok(value) => {
                        let all = values.push(value);
                        assert forall|i: int| 0 <= i < items.len() implies read(items[i]) == Ok::<
                            B,
                            E,
                        >(#[trigger] all[i]) by {
                            if i < front.len() {
                                assert(front[i] == items[i]);
                                assert(all[i] == values[i]);
                            }
                        }
                    },
                }
            },
        }
    }
}

/// Where a list cannot be read, reading it stops with what the first item
/// that cannot be read stops with.
pub proof fn lemma_traverse_stop<A, B, E>(items: Seq<A>, read: spec_fn(A) -> Result<B, E>)
    requires
        traverse(items, read) is Err,
    ensures
        exists|k: int| first_stop(items, read, k, traverse(items, read)->Err_0),
    decreases items.len(),
{
    let front = items.drop_last();
    let stop = traverse(items, read)->Err_0;
    assert(items.last() == items[items.len() - 1]);
    if traverse(front, read) is Err {
        lemma_traverse_stop(front, read);
        let k = choose|k: int| first_stop(front, read, k, stop);
        assert(front[k] == items[k]);
        assert forall|j: int| 0 <= j < k implies (#[trigger] read(items[j])) is Ok by {
            assert(front[j] == items[j]);
            assert(read(front[j]) is Ok);
        }
        assert(first_stop(items, read, k, stop));
    } else {
        lemma_traverse_readings(front, read);
        assert forall|j: int| 0 <= j < items.len() - 1 implies (#[trigger] read(items[j])) is Ok by {
            assert(front[j] == items[j]);
            assert(read(front[j]) is Ok);
        }
        assert(first_stop(items, read, items.len() - 1, stop));
    }
}

/// Reading one item more goes on from what the items before it gave.
pub proof fn lemma_traverse_step<A, B, E>(items: Seq<A>, read: spec_fn(A) -> Result<B, E>, i: int)
    requires
        0 <= i < items.len(),
    ensures
        traverse(items.take(i + 1), read) == match traverse(items.take(i), read) {
            Err(e) => Err(e),
            Ok(front) => match read(items[i]) {
                Err(e) => Err(e),
                Ok(value) => Ok(front.push(value)),
            },
        },
{
    assert(items.take(i + 1).drop_last() =~= items.take(i));
    assert(items.take(i + 1).last() == items[i]);
}

/// A fault among the first items is the fault of the whole list.
pub proof fn lemma_traverse_fault<A, B, E>(items: Seq<A>, read: spec_fn(A) -> Result<B, E>, k: int)
    requires
        0 <= k <= items.len(),
        traverse(items.take(k), read) is Err,
    ensures
        traverse(items, read) == traverse(items.take(k), read),
    decreases items.len() - k,
{
    if k == items.len() {
        assert(items.take(k) =~= items);
    } else {
        lemma_traverse_step(items, read, k);
        lemma_traverse_fault(items, read, k + 1);
    }
}

/// Where every item of a list can be read after those before it, reading
/// the list gives the reading of each item at the place of the item, read
/// after the readings before that place.
pub proof fn lemma_accumulate_readings<A, B>(
    items: Seq<A>,
    read: spec_fn(A, Seq<B>) -> Result<B, LoadError>,
)
    ensures
        accumulate(items, read) matches Ok(values) ==> {
            &&& values.len() == items.len()
            &&& forall|i: int|
                0 <= i < items.len() ==> read(items[i], values.take(i)) == Ok::<B, LoadError>(
                    #[trigger] values[i],
                )
        },
    decreases items.len(),
{
    if items.len() > 0 {
        let front = items.drop_last();
        lemma_accumulate_readings(front, read);
        assert(items.last() == items[items.len() - 1]);
        match accumulate(front, read) {
            Err(e) => {},
            Ok(values) => match read(items.last(), values) {
                Err(e) => {},
                Ok(value) => {
                    let all = values.push(value);
                    assert forall|i: int| 0 <= i < items.len() implies read(items[i], all.take(i))
                        == Ok::<B, LoadError>(#[trigger] all[i]) by {
                        if i < front.len() {
                            assert(front[i] == items[i]);
                            assert(all.take(i) =~= values.take(i));
                            assert(all[i] == values[i]);
                        } else {
                            assert(all.take(i) =~= values);
                        }
                    }
                },
            },
        }
    }
}

/// Where a list cannot be read, the fault is that of the first item that
/// cannot be read after the readings of the items before it: the item at the
/// place `k` that this gives.
pub proof fn lemma_accumulate_fault_place<A, B>(
    items: Seq<A>,
    read: spec_fn(A, Seq<B>) -> Result<B, LoadError>,
) -> (k: int)
    requires
        accumulate(items, read) is Err,
    ensures
        0 <= k < items.len(),
        accumulate(items.take(k), read) is Ok,
        accumulate(items.take(k), read)->Ok_0.len() == k,
        read(items[k], accumulate(items.take(k), read)->Ok_0) == Err::<B, LoadError>(
            accumulate(items, read)->Err_0,
        ),
    decreases items.len(),
{
    let front = items.drop_last();
    assert(items.last() == items[items.len() - 1]);
    if accumulate(front, read) is Err {
        let k = lemma_accumulate_fault_place(front, read);
        assert(front.take(k) =~= items.take(k));
        assert(front[k] == items[k]);
        k
    } else {
        lemma_accumulate_readings(front, read);
        assert(items.take(items.len() - 1) =~= front);
        items.len() - 1
    }
}

/// Reading one item more goes on from what the items before it gave.
pub proof fn lemma_accumulate_step<A, B>(
    items: Seq<A>,
    read: spec_fn(A, Seq<B>) -> Result<B, LoadError>,
    i: int,
)
    requires
        0 <= i < items.len(),
    ensures
        accumulate(items.take(i + 1), read) == match accumulate(items.take(i), read) {
            Err(e) => Err(e),
            Ok(front) => match read(items[i], front) {
                Err(e) => Err(e),
                Ok(value) => Ok(front.push(value)),
            },
        },
{
    assert(items.take(i + 1).drop_last() =~= items.take(i));
    assert(items.take(i + 1).last() == items[i]);
}

/// A fault among the first items is the fault of the whole list.
pub proof fn lemma_accumulate_fault<A, B>(
    items: Seq<A>,
    read: spec_fn(A, Seq<B>) -> Result<B, LoadError>,
    k: int,
)
    requires
        0 <= k <= items.len(),
        accumulate(items.take(k), read) is Err,
    ensures
        accumulate(items, read) == accumulate(items.take(k), read),
    decreases items.len() - k,
{
    if k == items.len() {
        assert(items.take(k) =~= items);
    } else {
        lemma_accumulate_step(items, read, k);
        lemma_accumulate_fault(items, read, k + 1);
    }
}

} // verus!

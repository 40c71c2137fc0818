//! Records and the items that store them.
//!
//! Whoever talks to the remote table hands over the items it got; the
//! functions here turn them into the outcomes that the repository reads. An
//! item that cannot be read as a record makes the whole answer a fault: a
//! listing is never silently short of a record.

use vstd::prelude::*;
use vstd::string::*;
use crate::item::{item_view, Attribute, AttributeView, ItemError};
use crate::record::Record;
use crate::store::{GetOutcome, ScanOutcome};

verus! {

/// A record that can be written as an item and read from one.
pub trait Stored: Record {
    /// The record that an item stands for, or what is wrong with the item.
    spec fn decoded(item: Seq<Attribute>) -> Result<Self, ItemError>;

    /// The item that stores the record, or why it cannot be written.
    spec fn encoded(&self) -> Result<Seq<AttributeView>, ItemError>;

    fn decode(item: &Vec<Attribute>) -> (r: Result<Self, ItemError>)
        ensures
            r == Self::decoded(item@),
    ;

    fn encode(&self) -> (r: Result<Vec<Attribute>, ItemError>)
        ensures
            match self.encoded() {
                Ok(expected) => r matches Ok(item) && item_view(item@) == expected,
                Err(e) => r == Err::<Vec<Attribute>, ItemError>(e),
            },
    ;
}

/// Every item up to position `n` reads as a record.
pub open spec fn all_decode<R: Stored>(items: Seq<Vec<Attribute>>, n: int) -> bool {
    forall|i: int| 0 <= i < n ==> (#[trigger] R::decoded(items[i]@)) is Ok
}

/// The records that the items stand for.
pub open spec fn decoded_all<R: Stored>(items: Seq<Vec<Attribute>>) -> Seq<R> {
    Seq::new(items.len(), |i: int| R::decoded(items[i]@)->Ok_0)
}

/// `i` is the position of the first item that does not read as a record.
pub open spec fn first_bad<R: Stored>(items: Seq<Vec<Attribute>>, i: int) -> bool {
    0 <= i < items.len() && all_decode::<R>(items, i) && R::decoded(items[i]@) is Err
}

/// Turns what a get returned into its outcome: no item is a miss, an item
/// that reads as a record is found, and one that does not is a fault that
/// says what is wrong with it.
pub fn read_item<R: Stored>(item: Option<&Vec<Attribute>>) -> (out: GetOutcome<R>)
    ensures
        match item {
            None => out == GetOutcome::<R>::Missing,
            Some(i) => match R::decoded(i@) {
                Ok(r) => out == GetOutcome::Found(r),
                Err(e) => out matches GetOutcome::Fault(m) && m@ == e.text(),
            },
        },
{
    match item {
        None => GetOutcome::Missing,
        Some(i) => match R::decode(i) {
            Ok(r) => GetOutcome::Found(r),
            Err(e) => GetOutcome::Fault(e.to_string()),
        },
    }
}

/// Turns what a scan returned into its outcome: the records in scan order,
/// or a fault that says what is wrong with the first item that does not
/// read as a record.
pub fn read_items<R: Stored>(items: &Vec<Vec<Attribute>>) -> (out: ScanOutcome<R>)
    ensures
        all_decode::<R>(items@, items@.len() as int) ==> (out matches ScanOutcome::Items(v) && v@
            == decoded_all::<R>(items@)),
        forall|i: int|
            first_bad::<R>(items@, i) ==> (out matches ScanOutcome::Fault(m) && m@ == (R::decoded(
                items@[i]@,
            )->Err_0).text()),
{
    let mut v: Vec<R> = Vec::new();
    let mut i: usize = 0;
    while i < items.len()
        invariant
            i <= items.len(),
            all_decode::<R>(items@, i as int),
            v@.len() == i,
            forall|j: int| 0 <= j < i ==> v@[j] == R::decoded(items@[j]@)->Ok_0,
        decreases items.len() - i,
    {
        match R::decode(&items[i]) {
            Ok(r) => {
                v.push(r);
            },
            Err(e) => {
                proof {
                    assert(first_bad::<R>(items@, i as int));
                    assert forall|k: int| first_bad::<R>(items@, k) implies k == i by {
                        if k < i {
                            assert(R::decoded(items@[k]@) is Ok);
                        } else if k > i {
                            assert(R::decoded(items@[i as int]@) is Ok);
                        }
                    }
                    assert(!all_decode::<R>(items@, items@.len() as int));
                }
                return ScanOutcome::Fault(e.to_string());
            },
        }
        i += 1;
    }
    proof {
        assert(v@ =~= decoded_all::<R>(items@));
        assert forall|k: int| !first_bad::<R>(items@, k) by {
            if 0 <= k < items@.len() {
                assert(R::decoded(items@[k]@) is Ok);
            }
        }
    }
    ScanOutcome::Items(v)
}

} // verus!

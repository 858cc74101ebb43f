use std::cell::Cell;
use std::mem::ManuallyDrop;
use std::rc::Rc;

use rwasm::wasync::waker::clone_raw;
use rwasm::wasync::waker::drop_raw;
use rwasm::wasync::waker::wake_raw;
use rwasm::wasync::waker::wake_by_ref_raw;
use rwasm::wasync::waker::waker;
use rwasm::wasync::waker::waker_ref;
use rwasm::wasync::waker::waker_vtable;
use rwasm::wasync::waker::RawWaker;
use rwasm::wasync::waker::WakeOp;
use rwasm::wasync::waker::WakeTable;
use rwasm::wasync::waker::Waker;
use rwasm::wasync::waker::WakerRef;

/// Stands in for a task: counts how often it is woken and how often freed.
struct Counting {
    wakes: Rc<Cell<u32>>,
    frees: Rc<Cell<u32>>,
}

impl Waker for Counting {
    fn wake_by_ref(&self) {
        self.wakes.set(self.wakes.get() + 1);
    }
}

impl Drop for Counting {
    fn drop(&mut self) {
        self.frees.set(self.frees.get() + 1);
    }
}

/// Counts consuming wakes apart from the others.
struct Telling {
    consumed: Rc<Cell<u32>>,
    kept: Rc<Cell<u32>>,
}

impl Waker for Telling {
    fn wake(&self) {
        self.consumed.set(self.consumed.get() + 1);
    }

    fn wake_by_ref(&self) {
        self.kept.set(self.kept.get() + 1);
    }
}

fn counting() -> (Counting, Rc<Cell<u32>>, Rc<Cell<u32>>) {
    let wakes = Rc::new(Cell::new(0));
    let frees = Rc::new(Cell::new(0));
    (Counting { wakes: wakes.clone(), frees: frees.clone() }, wakes, frees)
}

#[test]
fn vtable_lists_the_four_operations() {
    assert_eq!(
        waker_vtable(),
        [WakeOp::Clone, WakeOp::Wake, WakeOp::WakeByRef, WakeOp::Drop]
    );
}

#[test]
fn new_waker_owns_one_reference() {
    let mut table = WakeTable::new();
    let (double, _, frees) = counting();
    let owned = waker(&mut table, double);
    assert!(table.contains(owned.data));
    assert_eq!(table.count(owned.data), 1);
    assert_eq!(frees.get(), 0);
}

#[test]
fn clone_counts_and_keeps_the_address() {
    let mut table = WakeTable::new();
    let (double, _, _) = counting();
    let owned = waker(&mut table, double);
    let second = clone_raw(&mut table, owned.data).unwrap();
    assert_eq!(second, RawWaker { data: owned.data });
    assert_eq!(table.count(owned.data), 2);
    let third = clone_raw(&mut table, second.data).unwrap();
    assert_eq!(third.data, owned.data);
    assert_eq!(table.count(owned.data), 3);
}

#[test]
fn balanced_calls_free_exactly_once() {
    let mut table = WakeTable::new();
    let (double, wakes, frees) = counting();
    let owned = waker(&mut table, double);
    let data = owned.data;
    clone_raw(&mut table, data).unwrap();
    clone_raw(&mut table, data).unwrap();
    assert!(wake_raw(&mut table, data).is_none());
    assert_eq!((wakes.get(), frees.get()), (1, 0));
    clone_raw(&mut table, data).unwrap();
    assert!(drop_raw(&mut table, data).is_none());
    assert!(drop_raw(&mut table, data).is_none());
    assert_eq!(table.count(data), 1);
    assert_eq!(frees.get(), 0);
    let freed = wake_raw(&mut table, data);
    assert!(freed.is_some());
    assert_eq!(wakes.get(), 2);
    assert_eq!(frees.get(), 0);
    drop(freed);
    assert_eq!(frees.get(), 1);
    assert!(!table.contains(data));
    assert_eq!(table.count(data), 0);
}

#[test]
fn release_of_the_only_reference_frees() {
    let mut table = WakeTable::new();
    let (double, wakes, frees) = counting();
    let owned = waker(&mut table, double);
    drop(drop_raw(&mut table, owned.data));
    assert_eq!((wakes.get(), frees.get()), (0, 1));
}

#[test]
fn nothing_is_freed_twice() {
    let mut table = WakeTable::new();
    let (double, wakes, frees) = counting();
    let owned = waker(&mut table, double);
    let data = owned.data;
    drop(drop_raw(&mut table, data));
    assert!(drop_raw(&mut table, data).is_none());
    assert!(wake_raw(&mut table, data).is_none());
    wake_by_ref_raw(&table, data);
    assert!(clone_raw(&mut table, data).is_none());
    assert_eq!((wakes.get(), frees.get()), (0, 1));
    assert!(!table.contains(data));
}

#[test]
fn unbalanced_calls_leave_the_allocation() {
    let mut table = WakeTable::new();
    let (double, _, frees) = counting();
    let owned = waker(&mut table, double);
    clone_raw(&mut table, owned.data).unwrap();
    assert!(drop_raw(&mut table, owned.data).is_none());
    assert!(table.contains(owned.data));
    assert_eq!(frees.get(), 0);
}

#[test]
fn wake_by_ref_keeps_the_count() {
    let mut table = WakeTable::new();
    let (double, wakes, frees) = counting();
    let owned = waker(&mut table, double);
    wake_by_ref_raw(&table, owned.data);
    wake_by_ref_raw(&table, owned.data);
    assert_eq!((wakes.get(), frees.get()), (2, 0));
    assert_eq!(table.count(owned.data), 1);
}

#[test]
fn consuming_wake_calls_wake() {
    let mut table = WakeTable::new();
    let consumed = Rc::new(Cell::new(0));
    let kept = Rc::new(Cell::new(0));
    let owned = waker(&mut table, Telling { consumed: consumed.clone(), kept: kept.clone() });
    clone_raw(&mut table, owned.data).unwrap();
    wake_by_ref_raw(&table, owned.data);
    assert_eq!((consumed.get(), kept.get()), (0, 1));
    assert!(wake_raw(&mut table, owned.data).is_none());
    assert_eq!((consumed.get(), kept.get()), (1, 1));
}

#[test]
fn allocations_are_counted_apart() {
    let mut table = WakeTable::new();
    let (first, _, first_frees) = counting();
    let (second, _, second_frees) = counting();
    let a = waker(&mut table, first);
    let b = waker(&mut table, second);
    assert_ne!(a.data, b.data);
    clone_raw(&mut table, a.data).unwrap();
    drop(drop_raw(&mut table, b.data));
    assert_eq!((first_frees.get(), second_frees.get()), (0, 1));
    assert_eq!(table.count(a.data), 2);
}

#[test]
fn freed_address_is_used_again() {
    let mut table = WakeTable::new();
    let (first, _, _) = counting();
    let (second, _, second_frees) = counting();
    let (third, _, _) = counting();
    let a = waker(&mut table, first);
    let b = waker(&mut table, second);
    drop(drop_raw(&mut table, a.data));
    let c = waker(&mut table, third);
    assert_eq!(c.data, a.data);
    assert_ne!(c.data, b.data);
    assert_eq!(table.count(c.data), 1);
    assert_eq!(second_frees.get(), 0);
}

#[test]
fn table_hands_out_the_value() {
    let mut table: WakeTable<u8> = WakeTable::new();
    let data = table.insert(5);
    assert_eq!(table.get(data), Some(&5));
    *table.get_mut(data).unwrap() = 6;
    assert!(table.get_mut(data + 1).is_none());
    assert_eq!(table.get(data), Some(&6));
    assert!(table.acquire(data));
    assert_eq!(table.release(data), None);
    assert_eq!(table.release(data), Some(6));
    assert_eq!(table.get(data), None);
    assert!(!table.acquire(data));
}

#[test]
fn waker_ref_borrows_without_counting() {
    let mut table = WakeTable::new();
    let (double, _, _) = counting();
    let owned = waker(&mut table, double);
    let borrowed = waker_ref(owned.data);
    assert_eq!(borrowed.data, owned.data);
    let again = WakerRef::new(&owned);
    assert_eq!(again.data, owned.data);
    let unowned = WakerRef::new_unowned(ManuallyDrop::new(RawWaker { data: 17 }));
    assert_eq!(unowned.data, 17);
    assert_eq!(table.count(owned.data), 1);
}

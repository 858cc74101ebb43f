use std::mem::ManuallyDrop;
use vstd::prelude::*;

verus! {

/// What a wake capability resumes. The library calls `wake_by_ref` on the
/// value behind a capability whenever the capability is invoked.
pub trait Waker {
    /// Called when a capability is invoked and given up in one step.
    fn wake(&self) {
        self.wake_by_ref()
    }

    /// Called when a capability is invoked and kept.
    fn wake_by_ref(&self);
}

/// A value together with the number of capabilities that refer to it.
pub struct Counted<W> {
    pub value: W,
    pub refs: nat,
}

struct Shared<W> {
    value: W,
    strong: usize,
}

/// Reference-counted allocations, each found by its address.
pub struct WakeTable<W> {
    cells: Vec<Option<Shared<W>>>,
}

impl<W> View for WakeTable<W> {
    type V = Map<usize, Counted<W>>;

    closed spec fn view(&self) -> Map<usize, Counted<W>> {
        Map::new(
            |data: usize| data < self.cells@.len() && self.cells@[data as int] is Some,
            |data: usize|
                Counted {
                    value: self.cells@[data as int]->0.value,
                    refs: self.cells@[data as int]->0.strong as nat,
                },
        )
    }
}

/// The table after one more capability has been made for `data`. Nothing
/// changes where `data` is not live or its count cannot grow.
pub open spec fn acquired<W>(table: Map<usize, Counted<W>>, data: usize) -> Map<usize, Counted<W>> {
    if table.contains_key(data) && table[data].refs < usize::MAX {
        table.insert(data, Counted { value: table[data].value, refs: table[data].refs + 1 })
    } else {
        table
    }
}

/// The table after one capability for `data` has been given up: the count
/// drops by one, and the allocation leaves the table with its last capability.
pub open spec fn released<W>(table: Map<usize, Counted<W>>, data: usize) -> Map<usize, Counted<W>> {
    if !table.contains_key(data) {
        table
    } else if table[data].refs <= 1 {
        table.remove(data)
    } else {
        table.insert(data, Counted { value: table[data].value, refs: (table[data].refs - 1) as nat })
    }
}

/// `data` is the address that the next allocation gets: the lowest one that
/// is not in use.
pub open spec fn next_address<W>(table: Map<usize, Counted<W>>, data: usize) -> bool {
    &&& !table.contains_key(data)
    &&& forall|lower: usize| lower < data ==> #[trigger] table.contains_key(lower)
}

impl<W> WakeTable<W> {
    /// Every live allocation has at least one capability.
    pub closed spec fn wf(&self) -> bool {
        forall|i: int|
            0 <= i < self.cells@.len() ==> (#[trigger] self.cells@[i] matches Some(cell)
                ==> cell.strong >= 1)
    }

    /// A table without allocations.
    pub fn new() -> (table: WakeTable<W>)
        ensures
            table.wf(),
            table@ == Map::<usize, Counted<W>>::empty(),
    {
        let table = WakeTable { cells: Vec::new() };
        assert(table@ =~= Map::<usize, Counted<W>>::empty());
        table
    }

    /// Whether `data` is the address of a live allocation.
    pub fn contains(&self, data: usize) -> (live: bool)
        ensures
            live == self@.contains_key(data),
    {
        data < self.cells.len() && self.cells[data].is_some()
    }

    /// The number of capabilities that refer to `data`, 0 if it is not live.
    pub fn count(&self, data: usize) -> (refs: usize)
        ensures
            refs == if self@.contains_key(data) { self@[data].refs } else { 0 },
    {
        if data < self.cells.len() {
            match &self.cells[data] {
                Some(cell) => cell.strong,
                None => 0,
            }
        } else {
            0
        }
    }

    /// The lowest index that holds no allocation, the length if there is none.
    fn free_slot(&self) -> (slot: usize)
        ensures
            slot <= self.cells@.len(),
            slot < self.cells@.len() ==> self.cells@[slot as int] is None,
            forall|lower: int| 0 <= lower < slot ==> self.cells@[lower] is Some,
    {
        let mut slot: usize = 0;
        while slot < self.cells.len()
            invariant
                slot <= self.cells@.len(),
                forall|lower: int| 0 <= lower < slot ==> self.cells@[lower] is Some,
            decreases self.cells@.len() - slot,
        {
            if self.cells[slot].is_none() {
                return slot;
            }
            slot += 1;
        }
        slot
    }

    /// Allocates `value` with one capability and returns its address.
    pub fn insert(&mut self, value: W) -> (data: usize)
        requires
            old(self).wf(),
        ensures
            final(self).wf(),
            next_address(old(self)@, data),
            final(self)@ == old(self)@.insert(data, Counted { value, refs: 1 }),
    {
        let slot = self.free_slot();
        let cell = Shared { value, strong: 1 };
        if slot < self.cells.len() {
            self.cells[slot] = Some(cell);
        } else {
            self.cells.push(Some(cell));
        }
        assert(self@ =~= old(self)@.insert(slot, Counted { value, refs: 1 }));
        slot
    }

    /// Counts one more capability for `data`. Returns whether it did: it does
    /// not where `data` is not live or the count is at its limit.
    pub fn acquire(&mut self, data: usize) -> (done: bool)
        requires
            old(self).wf(),
        ensures
            final(self).wf(),
            done == (old(self)@.contains_key(data) && old(self)@[data].refs < usize::MAX),
            final(self)@ == acquired(old(self)@, data),
    {
        if data < self.cells.len() {
            match self.cells[data].take() {
                Some(cell) => {
                    if cell.strong < usize::MAX {
                        self.cells[data] = Some(Shared { value: cell.value, strong: cell.strong + 1 });
                        assert(self@ =~= acquired(old(self)@, data));
                        true
                    } else {
                        self.cells[data] = Some(cell);
                        assert(self@ =~= old(self)@);
                        false
                    }
                },
                None => {
                    assert(self@ =~= old(self)@);
                    false
                },
            }
        } else {
            false
        }
    }

    /// The value allocated at `data`.
    pub fn get(&self, data: usize) -> (value: Option<&W>)
        ensures
            match value {
                Some(v) => self@.contains_key(data) && *v == self@[data].value,
                None => !self@.contains_key(data),
            },
    {
        if data < self.cells.len() {
            match &self.cells[data] {
                Some(cell) => Some(&cell.value),
                None => None,
            }
        } else {
            None
        }
    }

    /// The value allocated at `data`, to be changed in place.
    pub fn get_mut(&mut self, data: usize) -> (value: Option<&mut W>)
        requires
            old(self).wf(),
        ensures
            final(self).wf(),
            match value {
                Some(v) => {
                    &&& old(self)@.contains_key(data)
                    &&& *v == old(self)@[data].value
                    &&& final(self)@ == old(self)@.insert(
                        data,
                        Counted { value: *final(v), refs: old(self)@[data].refs },
                    )
                },
                None => !old(self)@.contains_key(data) && final(self)@ == old(self)@,
            },
    {
        if data < self.cells.len() {
            match self.cells[data].as_mut() {
                Some(cell) => Some(&mut cell.value),
                None => None,
            }
        } else {
            None
        }
    }

    /// Gives up one capability for `data`. With the last one the allocation
    /// is freed and its value handed back.
    pub fn release(&mut self, data: usize) -> (freed: Option<W>)
        requires
            old(self).wf(),
        ensures
            final(self).wf(),
            final(self)@ == released(old(self)@, data),
            freed == if old(self)@.contains_key(data) && old(self)@[data].refs == 1 {
                Some(old(self)@[data].value)
            } else {
                None
            },
    {
        if data < self.cells.len() {
            match self.cells[data].take() {
                Some(cell) => {
                    if cell.strong > 1 {
                        self.cells[data] = Some(Shared { value: cell.value, strong: cell.strong - 1 });
                        assert(self@ =~= released(old(self)@, data));
                        None
                    } else {
                        assert(self@ =~= released(old(self)@, data));
                        Some(cell.value)
                    }
                },
                None => {
                    assert(self@ =~= old(self)@);
                    None
                },
            }
        } else {
            None
        }
    }
}

/// An owned wake capability: one counted reference to the allocation at
/// the address `data`.
#[derive(Debug, PartialEq, Eq)]
pub struct RawWaker {
    pub data: usize,
}

/// A borrowed wake capability: it names an allocation without being counted,
/// so it is never given up.
#[derive(Debug)]
pub struct WakerRef {
    waker: ManuallyDrop<RawWaker>,
}

impl View for WakerRef {
    type V = usize;

    closed spec fn view(&self) -> usize {
        self.waker@.data
    }
}

impl WakerRef {
    /// Borrows the capability `waker`.
    pub fn new(waker: &RawWaker) -> (borrowed: WakerRef)
        ensures
            borrowed@ == waker.data,
    {
        WakerRef { waker: ManuallyDrop::new(RawWaker { data: waker.data }) }
    }

    /// Wraps a capability that was made without being counted.
    pub fn new_unowned(waker: ManuallyDrop<RawWaker>) -> (borrowed: WakerRef)
        ensures
            borrowed@ == waker@.data,
    {
        WakerRef { waker }
    }
}

impl std::ops::Deref for WakerRef {
    type Target = RawWaker;

    fn deref(&self) -> (waker: &RawWaker)
        ensures
            waker.data == self@,
    {
        &self.waker
    }
}

/// Allocates `wake` and returns the capability that owns it.
pub fn waker<W>(table: &mut WakeTable<W>, wake: W) -> (owned: RawWaker) where W: Waker
    requires
        old(table).wf(),
    ensures
        final(table).wf(),
        next_address(old(table)@, owned.data),
        final(table)@ == old(table)@.insert(owned.data, Counted { value: wake, refs: 1 }),
{
    let data = table.insert(wake);
    RawWaker { data }
}

/// A borrowed capability for the allocation at `data`. The table's counts
/// stay as they are.
pub fn waker_ref(data: usize) -> (borrowed: WakerRef)
    ensures
        borrowed@ == data,
{
    let unowned = ManuallyDrop::new(RawWaker { data });
    WakerRef::new_unowned(unowned)
}

/// The four operations that can be asked of a capability by its address.
#[derive(Debug, Clone, Copy, PartialEq, Eq)]
pub enum WakeOp {
    /// Make one more capability for the same allocation.
    Clone,
    /// Wake, and give the capability up.
    Wake,
    /// Wake, and keep the capability.
    WakeByRef,
    /// Give the capability up.
    Drop,
}

/// The operations of a capability, in the order in which a callback table
/// lists them.
pub fn waker_vtable() -> (ops: [WakeOp; 4])
    ensures
        ops@ == seq![WakeOp::Clone, WakeOp::Wake, WakeOp::WakeByRef, WakeOp::Drop],
{
    let ops = [WakeOp::Clone, WakeOp::Wake, WakeOp::WakeByRef, WakeOp::Drop];
    assert(ops@ =~= seq![WakeOp::Clone, WakeOp::Wake, WakeOp::WakeByRef, WakeOp::Drop]);
    ops
}

/// What `op`, asked of the address `data`, does to the table.
pub open spec fn apply<W>(table: Map<usize, Counted<W>>, data: usize, op: WakeOp) -> Map<
    usize,
    Counted<W>,
> {
    match op {
        WakeOp::Clone => acquired(table, data),
        WakeOp::Wake => released(table, data),
        WakeOp::WakeByRef => table,
        WakeOp::Drop => released(table, data),
    }
}

/// The table after `ops` have been asked of `data` one after the other.
pub open spec fn apply_all<W>(table: Map<usize, Counted<W>>, data: usize, ops: Seq<WakeOp>) -> Map<
    usize,
    Counted<W>,
>
    decreases ops.len(),
{
    if ops.len() == 0 {
        table
    } else {
        apply(apply_all(table, data, ops.drop_last()), data, ops.last())
    }
}

/// How many of `ops`, asked of `data` one after the other, free the
/// allocation.
pub open spec fn frees<W>(table: Map<usize, Counted<W>>, data: usize, ops: Seq<WakeOp>) -> nat
    decreases ops.len(),
{
    if ops.len() == 0 {
        0
    } else {
        let before = apply_all(table, data, ops.drop_last());
        let freed: nat = if before.contains_key(data) && !apply(
            before,
            data,
            ops.last(),
        ).contains_key(data) {
            1
        } else {
            0
        };
        frees(table, data, ops.drop_last()) + freed
    }
}

/// By how much `op` changes the number of capabilities.
pub open spec fn delta(op: WakeOp) -> int {
    match op {
        WakeOp::Clone => 1,
        WakeOp::Wake => -1,
        WakeOp::WakeByRef => 0,
        WakeOp::Drop => -1,
    }
}

/// By how much `ops` together change the number of capabilities.
pub open spec fn balance(ops: Seq<WakeOp>) -> int
    decreases ops.len(),
{
    if ops.len() == 0 {
        0
    } else {
        balance(ops.drop_last()) + delta(ops.last())
    }
}

/// `ops` keeps an allocation that starts with `refs` capabilities alive:
/// after each of them at least one capability is left, and never more than
/// the count can hold.
pub open spec fn keeps_alive(refs: nat, ops: Seq<WakeOp>) -> bool {
    forall|n: int| 0 <= n <= ops.len() ==> 0 < refs + #[trigger] balance(ops.take(n)) <= usize::MAX
}

/// `ops` is reference-balanced for an allocation that starts with `refs`
/// capabilities: it gives up exactly the capabilities that exist, and asks
/// nothing of a capability that has already been given up.
pub open spec fn reference_balanced(refs: nat, ops: Seq<WakeOp>) -> bool {
    &&& ops.len() > 0
    &&& keeps_alive(refs, ops.drop_last())
    &&& refs + balance(ops) == 0
}

/// While `ops` keeps the allocation at `data` alive, its count follows the
/// balance of `ops`, its value stays, and it is not freed.
pub proof fn lemma_alive_follows_balance<W>(
    table: Map<usize, Counted<W>>,
    data: usize,
    ops: Seq<WakeOp>,
)
    requires
        table.contains_key(data),
        keeps_alive(table[data].refs, ops),
    ensures
        apply_all(table, data, ops).contains_key(data),
        apply_all(table, data, ops)[data].refs == table[data].refs + balance(ops),
        apply_all(table, data, ops)[data].value == table[data].value,
        frees(table, data, ops) == 0,
    decreases ops.len(),
{
    let refs = table[data].refs;
    if ops.len() > 0 {
        let init = ops.drop_last();
        assert forall|n: int| 0 <= n <= init.len() implies 0 < refs + #[trigger] balance(
            init.take(n),
        ) <= usize::MAX by {
            assert(init.take(n) =~= ops.take(n));
        }
        lemma_alive_follows_balance(table, data, init);
        assert(ops.take(ops.len() as int) =~= ops);
        assert(0 < refs + balance(ops.take(ops.len() as int)) <= usize::MAX);
    }
}

/// A reference-balanced sequence of clones, wakes and releases frees the
/// allocation exactly once, with its last call, and leaves nothing behind.
pub proof fn lemma_balanced_frees_once<W>(
    table: Map<usize, Counted<W>>,
    data: usize,
    ops: Seq<WakeOp>,
)
    requires
        table.contains_key(data),
        reference_balanced(table[data].refs, ops),
    ensures
        frees(table, data, ops) == 1,
        frees(table, data, ops.drop_last()) == 0,
        !apply_all(table, data, ops).contains_key(data),
{
    let init = ops.drop_last();
    lemma_alive_follows_balance(table, data, init);
    assert(init.take(init.len() as int) =~= init);
    assert(0 < table[data].refs + balance(init.take(init.len() as int)));
}

/// Whatever is asked of an address, and in whatever order, the allocation
/// behind it is freed at most once, and once freed it stays freed.
pub proof fn lemma_never_freed_twice<W>(
    table: Map<usize, Counted<W>>,
    data: usize,
    ops: Seq<WakeOp>,
)
    ensures
        frees(table, data, ops) <= 1,
        frees(table, data, ops) == 1 ==> !apply_all(table, data, ops).contains_key(data),
        !table.contains_key(data) ==> frees(table, data, ops) == 0 && apply_all(table, data, ops)
            == table,
    decreases ops.len(),
{
    if ops.len() > 0 {
        lemma_never_freed_twice(table, data, ops.drop_last());
    }
}

/// Counts one more capability for `data`; says whether it did.
fn increase_refcount<W: Waker>(table: &mut WakeTable<W>, data: usize) -> (done: bool)
    requires
        old(table).wf(),
    ensures
        final(table).wf(),
        done == (old(table)@.contains_key(data) && old(table)@[data].refs < usize::MAX),
        final(table)@ == acquired(old(table)@, data),
{
    table.acquire(data)
}

/// The clone operation: one more capability for the allocation at `data`,
/// with the same address. `None`, and nothing changed, where `data` is not
/// live or its count is at the limit.
pub fn clone_raw<W: Waker>(table: &mut WakeTable<W>, data: usize) -> (made: Option<RawWaker>)
    requires
        old(table).wf(),
    ensures
        final(table).wf(),
        final(table)@ == apply(old(table)@, data, WakeOp::Clone),
        match made {
            Some(waker) => waker.data == data && old(table)@.contains_key(data) && old(
                table,
            )@[data].refs < usize::MAX,
            None => !(old(table)@.contains_key(data) && old(table)@[data].refs < usize::MAX),
        },
{
    if increase_refcount(table, data) {
        Some(RawWaker { data })
    } else {
        None
    }
}

/// The wake operation: wakes the value at `data`, then gives one capability
/// up. Hands back the value if that was the last one.
pub fn wake_raw<W: Waker>(table: &mut WakeTable<W>, data: usize) -> (freed: Option<W>)
    requires
        old(table).wf(),
    ensures
        final(table).wf(),
        final(table)@ == apply(old(table)@, data, WakeOp::Wake),
        freed == if old(table)@.contains_key(data) && old(table)@[data].refs == 1 {
            Some(old(table)@[data].value)
        } else {
            None
        },
{
    match table.get(data) {
        Some(value) => value.wake(),
        None => {},
    }
    table.release(data)
}

/// The wake-by-reference operation: wakes the value at `data` and keeps the
/// capability.
pub fn wake_by_ref_raw<W: Waker>(table: &WakeTable<W>, data: usize) {
    match table.get(data) {
        Some(value) => value.wake_by_ref(),
        None => {},
    }
}

/// The release operation: gives one capability for `data` up. Hands back the
/// value if that was the last one.
pub fn drop_raw<W: Waker>(table: &mut WakeTable<W>, data: usize) -> (freed: Option<W>)
    requires
        old(table).wf(),
    ensures
        final(table).wf(),
        final(table)@ == apply(old(table)@, data, WakeOp::Drop),
        freed == if old(table)@.contains_key(data) && old(table)@[data].refs == 1 {
            Some(old(table)@[data].value)
        } else {
            None
        },
{
    table.release(data)
}

} // verus!

//! Single-slot broadcast cells: the latest published value wins, and every
//! reader keeps its own cursor so that it can tell a fresh publish from one
//! it has already observed.
//!
//! The slot itself is an `embassy_sync::watch::Watch`. What this module
//! assumes of it is written down in the contracts of the four private
//! functions at the top; everything else is proved from those contracts.
//!
//! A `BroadcastCell` has one owner, who publishes through `&mut`. Tasks
//! that share a watch between them hold the watch itself and await its
//! changes; each of their accesses is one of the steps described here, so
//! the laws at the end say what a reader of a shared watch can rely on too.

use embassy_sync::blocking_mutex::raw::NoopRawMutex;
use core::marker::PhantomData;
use embassy_sync::watch::Watch;
use vstd::prelude::*;

verus! {

/// How many readers one cell admits.
pub const MAX_READERS: usize = 4;

/// The slot of a cell: an `embassy_sync` watch of machine words. Proofs do
/// not look inside it; the functions below say what is assumed of it.
#[verifier::external_body]
pub struct WatchSlot {
    watch: Watch<NoopRawMutex, u32, MAX_READERS>,
}

/// The value that the watch holds, as a sequence of at most one word: empty
/// until the first send.
pub uninterp spec fn slot_words(s: WatchSlot) -> Seq<u32>;

/// The message id of the watch: how many values have been sent to it.
pub uninterp spec fn slot_msg_id(s: WatchSlot) -> nat;

/// `Watch::new`: a watch that holds no value and whose message id is 0.
#[verifier::external_body]
fn slot_new() -> (s: WatchSlot)
    ensures
        slot_words(s) == Seq::<u32>::empty(),
        slot_msg_id(s) == 0,
{
    WatchSlot { watch: Watch::new() }
}

/// `Watch::sender` and `Snd::send`: stores `word` as the held value and
/// raises the message id by one. The id is a `u64` that the watch
/// increments without a check, so the call is kept away from its last
/// value. Short of that the send cannot fail: the lock of the watch is
/// free, and no task waits on a slot.
#[verifier::external_body]
fn slot_send(s: &mut WatchSlot, word: u32)
    requires
        slot_msg_id(*old(s)) < u64::MAX,
    ensures
        slot_words(*final(s)) == seq![word],
        slot_msg_id(*final(s)) == slot_msg_id(*old(s)) + 1,
    no_unwind
{
    s.watch.sender().send(word)
}

/// `Watch::try_get`: a copy of the held value, `None` while there is none.
/// The watch is left as it was.
#[verifier::external_body]
fn slot_try_get(s: &WatchSlot) -> (r: Option<u32>)
    ensures
        r is None ==> slot_words(*s) == Seq::<u32>::empty(),
        r matches Some(word) ==> slot_words(*s) == seq![word],
{
    s.watch.try_get()
}

/// `Watch::get_msg_id`: the message id of the latest value sent.
#[verifier::external_body]
fn slot_get_msg_id(s: &WatchSlot) -> (id: u64)
    ensures
        id == slot_msg_id(*s),
{
    s.watch.get_msg_id()
}

/// A value that a cell can carry: it packs into one machine word and
/// unpacks to itself.
pub trait Payload: Sized {
    /// The word that stands for this value.
    spec fn pack_spec(&self) -> u32;

    /// The value that a word stands for.
    spec fn unpack_spec(word: u32) -> Self;

    fn pack(&self) -> (word: u32)
        ensures
            word == self.pack_spec(),
    ;

    fn unpack(word: u32) -> (value: Self)
        ensures
            value == Self::unpack_spec(word),
    ;

    /// Packing loses nothing.
    proof fn lemma_unpack_pack(value: Self)
        ensures
            Self::unpack_spec(value.pack_spec()) == value,
    ;
}

/// What a cell is, mathematically: the latest value, if any was published,
/// and the number of publishes so far.
pub struct CellView<T> {
    pub value: Option<T>,
    pub version: nat,
}

impl<T> CellView<T> {
    /// A cell to which nothing has been published.
    pub open spec fn empty() -> Self {
        CellView { value: None, version: 0 }
    }

    /// The cell after one publish: the new value replaces whatever was held.
    pub open spec fn publish(self, value: T) -> Self {
        CellView { value: Some(value), version: self.version + 1 }
    }

    /// The cell after publishing `values` one after the other.
    pub open spec fn publish_all(self, values: Seq<T>) -> Self
        decreases values.len(),
    {
        if values.len() == 0 {
            self
        } else {
            self.publish_all(values.drop_last()).publish(values.last())
        }
    }

    /// What a reader that has observed the cell up to version `seen` gets
    /// when it asks for a change: the latest value if a publish happened
    /// since, nothing otherwise.
    pub open spec fn changed(self, seen: nat) -> Option<T> {
        if self.version > seen {
            self.value
        } else {
            None
        }
    }

    /// The cursor of a reader after it asked for a change.
    pub open spec fn cursor_after(self, seen: nat) -> nat {
        if self.version > seen {
            self.version
        } else {
            seen
        }
    }

    /// A cell holds a value exactly when something was published to it.
    pub open spec fn wf(self) -> bool {
        self.value is None <==> self.version == 0
    }
}

/// The cursor of one reader: the version of the cell that it observed last.
pub struct Reader {
    seen: u64,
}

impl Reader {
    /// The version that this reader observed last; 0 before any observation.
    pub closed spec fn seen(&self) -> nat {
        self.seen as nat
    }

    /// The version that this reader observed last.
    pub fn seen_version(&self) -> (v: u64)
        ensures
            v == self.seen(),
    {
        self.seen
    }
}

/// A single-slot broadcast cell for values of type `T`. One writer
/// publishes; any reader polls the latest value or asks whether it changed
/// since that reader's last observation. Nothing is queued: a slow reader
/// skips intermediate values.
pub struct BroadcastCell<T: Payload> {
    slot: WatchSlot,
    readers: usize,
    marker: PhantomData<T>,
}

impl<T: Payload> View for BroadcastCell<T> {
    type V = CellView<T>;

    closed spec fn view(&self) -> CellView<T> {
        CellView {
            value: if slot_words(self.slot).len() == 0 {
                None
            } else {
                Some(T::unpack_spec(slot_words(self.slot)[0]))
            },
            version: slot_msg_id(self.slot),
        }
    }
}

impl<T: Payload> BroadcastCell<T> {
    #[verifier::type_invariant]
    spec fn inv(&self) -> bool {
        &&& self.readers <= MAX_READERS
        &&& slot_msg_id(self.slot) <= u64::MAX
        &&& slot_words(self.slot).len() == 0 <==> slot_msg_id(self.slot) == 0
    }

    /// How many readers have subscribed.
    pub closed spec fn readers(&self) -> nat {
        self.readers as nat
    }

    /// A cell that holds nothing yet and has no readers.
    pub fn new() -> (cell: Self)
        ensures
            cell@ == CellView::<T>::empty(),
            cell.readers() == 0,
    {
        BroadcastCell { slot: slot_new(), readers: 0, marker: PhantomData }
    }

    /// Publishes `value`, overwriting what the cell held. The version is a
    /// 64-bit counter: a cell that has seen `u64::MAX` publishes takes no
    /// more (see `try_publish`).
    pub fn publish(&mut self, value: T)
        requires
            old(self)@.version < u64::MAX,
        ensures
            final(self)@ == old(self)@.publish(value),
            final(self).readers() == old(self).readers(),
    {
        proof {
            use_type_invariant(&*self);
            T::lemma_unpack_pack(value);
        }
        let word = value.pack();
        slot_send(&mut self.slot, word);
    }

    /// Publishes `value` unless the version counter is exhausted; says
    /// whether it did. A cell that refuses is left as it was.
    pub fn try_publish(&mut self, value: T) -> (published: bool)
        ensures
            published == (old(self)@.version < u64::MAX),
            published ==> final(self)@ == old(self)@.publish(value),
            !published ==> final(self)@ == old(self)@,
            final(self).readers() == old(self).readers(),
    {
        if slot_get_msg_id(&self.slot) < u64::MAX {
            self.publish(value);
            true
        } else {
            false
        }
    }

    /// The number of publishes so far.
    pub fn version(&self) -> (v: u64)
        ensures
            v == self@.version,
    {
        slot_get_msg_id(&self.slot)
    }

    /// The most recent value, or `None` if nothing was published yet. Never
    /// suspends and moves no cursor.
    pub fn poll(&self) -> (latest: Option<T>)
        ensures
            latest == self@.value,
            self@.wf(),
    {
        proof {
            use_type_invariant(self);
        }
        match slot_try_get(&self.slot) {
            Some(word) => Some(T::unpack(word)),
            None => None,
        }
    }

    /// Admits one more reader, whose cursor starts before the first
    /// publish; `None` once `MAX_READERS` have subscribed.
    pub fn subscribe(&mut self) -> (reader: Option<Reader>)
        ensures
            final(self)@ == old(self)@,
            old(self).readers() < MAX_READERS ==> (reader matches Some(r) && r.seen() == 0),
            old(self).readers() < MAX_READERS ==> final(self).readers() == old(self).readers() + 1,
            old(self).readers() >= MAX_READERS ==> reader is None,
            old(self).readers() >= MAX_READERS ==> final(self).readers() == old(self).readers(),
    {
        proof {
            use_type_invariant(&*self);
        }
        if self.readers < MAX_READERS {
            self.readers = self.readers + 1;
            Some(Reader { seen: 0 })
        } else {
            None
        }
    }

    /// The most recent value, marked as seen by `reader`.
    pub fn observe(&self, reader: &mut Reader) -> (latest: Option<T>)
        ensures
            latest == self@.value,
            final(reader).seen() == self@.version,
            self@.wf(),
    {
        reader.seen = slot_get_msg_id(&self.slot);
        self.poll()
    }

    /// The step on which waiting for a change rests: the latest value if
    /// it was published after `reader`'s last observation, and then marked
    /// as seen; `None`, with the cursor untouched, if there was no publish
    /// since.
    pub fn poll_change(&self, reader: &mut Reader) -> (fresh: Option<T>)
        ensures
            fresh == self@.changed(old(reader).seen()),
            final(reader).seen() == self@.cursor_after(old(reader).seen()),
            self@.wf(),
    {
        let id = slot_get_msg_id(&self.slot);
        if id > reader.seen {
            reader.seen = id;
            self.poll()
        } else {
            proof {
                use_type_invariant(self);
            }
            None
        }
    }
}

/// Publishing in a row adds one version per value and leaves a cell that
/// holds a value exactly when its version is not 0.
pub proof fn lemma_publish_all_version<T>(cell: CellView<T>, values: Seq<T>)
    requires
        cell.wf(),
    ensures
        cell.publish_all(values).version == cell.version + values.len(),
        cell.publish_all(values).wf(),
    decreases values.len(),
{
    if values.len() > 0 {
        lemma_publish_all_version(cell, values.drop_last());
    }
}

/// Latest wins: after any run of publishes, however long, the cell holds
/// the value of the most recent one, which is what `poll` returns. No
/// earlier value can be read again.
pub proof fn lemma_latest_wins<T>(cell: CellView<T>, values: Seq<T>)
    requires
        values.len() > 0,
    ensures
        cell.publish_all(values).value == Some(values.last()),
{
}

/// No spurious wake-up: a reader is handed a value exactly when a publish
/// happened after its last observation, the value handed over is the
/// latest, and once it has been handed over the reader gets nothing more
/// until the next publish.
pub proof fn lemma_change_needs_publish<T>(cell: CellView<T>, seen: nat)
    requires
        cell.wf(),
    ensures
        cell.changed(seen) is Some <==> cell.version > seen,
        cell.changed(seen) is Some ==> cell.changed(seen) == cell.value,
        cell.changed(cell.cursor_after(seen)) is None,
        cell.changed(cell.version) is None,
{
}

/// No publish is missed: a reader whose cursor is at or behind the cell is
/// handed the last value of any run of publishes that follows, whatever
/// came before it in the run.
pub proof fn lemma_change_after_publish<T>(cell: CellView<T>, seen: nat, values: Seq<T>)
    requires
        cell.wf(),
        seen <= cell.version,
        values.len() > 0,
    ensures
        cell.publish_all(values).changed(seen) == Some(values.last()),
        cell.publish_all(values).cursor_after(seen) == cell.version + values.len(),
{
    lemma_publish_all_version(cell, values);
}

} // verus!

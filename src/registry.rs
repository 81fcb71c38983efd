//! The slot that holds the one supervised server process.
use vstd::prelude::*;

verus! {

/// An operation on the slot, by process identifier.
pub enum SlotOp {
    /// A process is put in the slot, and whatever was there is handed back.
    Register(u32),
    /// The slot is emptied, and whatever was there is handed back.
    Take,
}

/// The slot's identifier after one operation.
pub open spec fn apply(slot: Option<u32>, op: SlotOp) -> Option<u32> {
    match op {
        SlotOp::Register(p) => Some(p),
        SlotOp::Take => None,
    }
}

/// The slot's identifier after a sequence of operations on an empty slot.
pub open spec fn slot_after(ops: Seq<SlotOp>) -> Option<u32>
    decreases ops.len(),
{
    if ops.len() == 0 {
        None
    } else {
        apply(slot_after(ops.drop_last()), ops.last())
    }
}

/// How many processes a sequence of operations on an empty slot handed back.
pub open spec fn handed_back(ops: Seq<SlotOp>) -> nat
    decreases ops.len(),
{
    if ops.len() == 0 {
        0
    } else {
        handed_back(ops.drop_last()) + if slot_after(ops.drop_last()) is Some {
            1nat
        } else {
            0nat
        }
    }
}

/// How many registrations a sequence of operations holds.
pub open spec fn registrations(ops: Seq<SlotOp>) -> nat
    decreases ops.len(),
{
    if ops.len() == 0 {
        0
    } else {
        registrations(ops.drop_last()) + if ops.last() is Register {
            1nat
        } else {
            0nat
        }
    }
}

/// The identifier in a slot's contents.
pub open spec fn pid_of<H>(slot: Option<(u32, H)>) -> Option<u32> {
    match slot {
        Some(e) => Some(e.0),
        None => None,
    }
}

/// The single slot for the supervised server: its process identifier and
/// the handle the caller uses to reach the process.
pub struct Registry<H> {
    slot: Option<(u32, H)>,
}

impl<H> View for Registry<H> {
    type V = Option<(u32, H)>;

    closed spec fn view(&self) -> Option<(u32, H)> {
        self.slot
    }
}

impl<H> Registry<H> {
    /// An empty slot.
    pub fn new() -> (r: Registry<H>)
        ensures
            r@ is None,
    {
        Registry { slot: None }
    }

    /// Puts a process in the slot and hands back the one it replaces, which
    /// the caller is to terminate.
    pub fn register(&mut self, pid: u32, handle: H) -> (evicted: Option<(u32, H)>)
        ensures
            final(self)@ == Some((pid, handle)),
            evicted == old(self)@,
            pid_of(final(self)@) == apply(pid_of(old(self)@), SlotOp::Register(pid)),
    {
        let evicted = self.slot.take();
        self.slot = Some((pid, handle));
        evicted
    }

    /// Empties the slot and hands back what it held.
    pub fn take(&mut self) -> (r: Option<(u32, H)>)
        ensures
            final(self)@ is None,
            r == old(self)@,
            pid_of(final(self)@) == apply(pid_of(old(self)@), SlotOp::Take),
    {
        self.slot.take()
    }

    /// The identifier of the registered process, if any.
    pub fn peek_id(&self) -> (r: Option<u32>)
        ensures
            r == pid_of(self@),
    {
        match &self.slot {
            Some(e) => Some(e.0),
            None => None,
        }
    }
}

/// A call of the supervisor, as it acts on the slot: a start with the
/// spawned process and whether it ended registered (ready, or alive at the
/// deadline), or a stop.
pub enum Call {
    Start(u32, bool),
    Stop,
}

/// The slot operations of one call: a start first evicts whatever was
/// registered, then registers its own process if it ended registered; a
/// stop takes the registered process out.
pub open spec fn call_ops(c: Call) -> Seq<SlotOp> {
    match c {
        Call::Start(p, true) => seq![SlotOp::Take, SlotOp::Register(p)],
        Call::Start(_, false) => seq![SlotOp::Take],
        Call::Stop => seq![SlotOp::Take],
    }
}

/// The slot operations of a sequence of calls, in order.
pub open spec fn calls_ops(cs: Seq<Call>) -> Seq<SlotOp>
    decreases cs.len(),
{
    if cs.len() == 0 {
        Seq::<SlotOp>::empty()
    } else {
        calls_ops(cs.drop_last()) + call_ops(cs.last())
    }
}

/// After any sequence of start and stop calls, the slot holds at most one
/// process, and it holds one exactly when the most recent call was a start
/// that ended registered: then it is the process that start spawned.
pub proof fn lemma_single_writer(cs: Seq<Call>)
    ensures
        slot_after(calls_ops(cs)) == if cs.len() > 0 && cs.last() matches Call::Start(p, true) {
            Some(cs.last()->Start_0)
        } else {
            None::<u32>
        },
{
    if cs.len() > 0 {
        let ops = calls_ops(cs);
        let tail = call_ops(cs.last());
        assert(ops.len() > 0);
        assert(ops.last() == tail.last());
    }
}

/// After any sequence of registrations and removals on an empty slot, the
/// slot holds at most one process; when it holds one, the last operation
/// registered it, so no removal and no other registration came since.
pub proof fn lemma_single_occupant(ops: Seq<SlotOp>)
    ensures
        match slot_after(ops) {
            Some(p) => ops.len() > 0 && ops.last() == SlotOp::Register(p),
            None => ops.len() == 0 || ops.last() is Take,
        },
{
}

/// No process is lost: every registered process is either the one in the
/// slot or has been handed back to a caller, exactly once.
pub proof fn lemma_no_process_lost(ops: Seq<SlotOp>)
    ensures
        registrations(ops) == handed_back(ops) + if slot_after(ops) is Some {
            1nat
        } else {
            0nat
        },
    decreases ops.len(),
{
    if ops.len() > 0 {
        lemma_no_process_lost(ops.drop_last());
    }
}

} // verus!

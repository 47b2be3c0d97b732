use vstd::prelude::*;
use embassy_sync::blocking_mutex::Mutex;
use embassy_sync::blocking_mutex::raw::NoopRawMutex;

verus! {

#[verifier::external_type_specification]
#[verifier::external_body]
#[verifier::reject_recursive_types(R)]
#[verifier::reject_recursive_types(T)]
pub struct ExBlockingMutex<R, T: ?Sized>(Mutex<R, T>);

#[verifier::external_type_specification]
#[verifier::external_body]
pub struct ExNoopRawMutex(NoopRawMutex);

/// The sample held by a mutex-protected slot.
pub uninterp spec fn slot_value(m: Mutex<NoopRawMutex, i16>) -> i16;

/// Relies on `embassy_sync::blocking_mutex::Mutex::new`: the mutex holds `v`.
#[verifier::external_body]
fn slot_new(v: i16) -> (r: Mutex<NoopRawMutex, i16>)
    ensures
        slot_value(r) == v,
{
    Mutex::new(v)
}

/// Relies on `embassy_sync::blocking_mutex::Mutex::lock`: the closure sees the
/// held value, and `lock` hands back what the closure returns.
#[verifier::external_body]
fn slot_load(m: &Mutex<NoopRawMutex, i16>) -> (r: i16)
    ensures
        r == slot_value(*m),
{
    m.lock(|v| *v)
}

/// Relies on `embassy_sync::blocking_mutex::Mutex::get_mut`: it borrows the
/// held value exclusively, so the assignment replaces it.
#[verifier::external_body]
fn slot_store(m: &mut Mutex<NoopRawMutex, i16>, v: i16)
    ensures
        slot_value(*final(m)) == v,
{
    *m.get_mut() = v;
}

/// The value a cell holds before its first write.
pub const INITIAL_SAMPLE: i16 = 0;

/// Single-slot container of the latest sensor sample.
///
/// Every access goes through the mutex, and a write needs exclusive access to
/// the cell, so a read never sees a value that is only partly written. All
/// tasks run on one cooperative executor and none holds the lock across a
/// suspension point, so the no-op raw mutex is enough. The ghost history
/// records every sample written so far, oldest first.
pub struct SensorCell {
    slot: Mutex<NoopRawMutex, i16>,
    history: Ghost<Seq<i16>>,
}

/// What a cell holds after the writes in `h`: the last one, or the default.
pub open spec fn latest(h: Seq<i16>) -> i16 {
    if h.len() == 0 {
        INITIAL_SAMPLE
    } else {
        h.last()
    }
}

impl SensorCell {
    /// The current sample.
    pub closed spec fn view(&self) -> i16 {
        slot_value(self.slot)
    }

    /// The samples written so far, oldest first.
    pub closed spec fn writes(&self) -> Seq<i16> {
        self.history@
    }

    /// The held sample is always the last one written, or the default.
    pub closed spec fn wf(&self) -> bool {
        slot_value(self.slot) == latest(self.history@)
    }

    /// A cell that has seen no write and holds the default sample.
    pub fn new() -> (r: SensorCell)
        ensures
            r.wf(),
            r.writes() == Seq::<i16>::empty(),
            r@ == INITIAL_SAMPLE,
    {
        SensorCell { slot: slot_new(INITIAL_SAMPLE), history: Ghost(Seq::empty()) }
    }

    /// Replaces the held sample with `v`.
    pub fn write(&mut self, v: i16)
        requires
            old(self).wf(),
        ensures
            final(self).wf(),
            final(self)@ == v,
            final(self).writes() == old(self).writes().push(v),
    {
        slot_store(&mut self.slot, v);
        self.history = Ghost(self.history@.push(v));
    }

    /// A copy of the held sample.
    pub fn read(&self) -> (r: i16)
        requires
            self.wf(),
        ensures
            r == self@,
            r == latest(self.writes()),
    {
        slot_load(&self.slot)
    }
}

/// A read returns exactly the last value written: for any well-formed cell
/// whose latest write was `v`, the held sample is `v`.
pub proof fn lemma_read_returns_last_write(c: SensorCell, v: i16)
    requires
        c.wf(),
        c.writes().len() > 0,
        c.writes().last() == v,
    ensures
        c@ == v,
{
}

/// Before the first write a cell holds the documented default.
pub proof fn lemma_default_before_first_write(c: SensorCell)
    requires
        c.wf(),
        c.writes().len() == 0,
    ensures
        c@ == INITIAL_SAMPLE,
{
}

/// A reader never sees a value that no write produced whole: the held
/// sample is the default or one of the samples written.
pub proof fn lemma_value_was_written(c: SensorCell)
    requires
        c.wf(),
    ensures
        c@ == INITIAL_SAMPLE || c.writes().contains(c@),
{
    if c.writes().len() > 0 {
        assert(c.writes()[c.writes().len() - 1] == c@);
    }
}

} // verus!

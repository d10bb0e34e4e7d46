//! Lock-guarded lazy singleton: every access to the shared record — the
//! first, initializing one included — happens under an exclusive guard, so no
//! two holders can ever interleave.
//!
//! The cell wraps vstd's verified reader-writer lock. `get_instance` blocks
//! until it acquires exclusive access, creates the record if this is the
//! first acquisition, and hands back the record together with the guard. The
//! guard must be given back through [`Singleton2::release`] before any other
//! caller's `get_instance` can proceed; a holder that never releases it
//! blocks every other caller for good — the accepted cost of the idiom.

use vstd::prelude::*;
use vstd::rwlock::RwLock;
use vstd::rwlock::WriteHandle;
use vstd::string::StringExecFns;

verus! {

/// The shared record: one string `data` field, read and written only while
/// its holder has exclusive access.
pub struct Singleton2 {
    data: String,
}

impl View for Singleton2 {
    type V = Seq<char>;

    closed spec fn view(&self) -> Seq<char> {
        self.data@
    }
}

/// The exclusive guard for the shared record: while it exists, the lock is
/// held and no other caller can acquire the record.
pub type Singleton2Guard<'a> = WriteHandle<'a, Option<Singleton2>, spec_fn(Option<Singleton2>) -> bool>;

/// The lock-guarded singleton cell: a verified exclusive lock around the
/// record's storage, empty until the first acquisition.
pub struct Singleton2Cell {
    lock: RwLock<Option<Singleton2>, spec_fn(Option<Singleton2>) -> bool>,
}

/// The initialize-if-absent decision, taken on the value an acquisition found
/// in the cell's storage: occupied storage hands back exactly the record it
/// held; empty storage yields a fresh record with the default data.
pub open spec fn init_step(stored: Option<Singleton2>, r: Singleton2) -> bool {
    &&& stored is Some ==> r == stored->0
    &&& stored is None ==> r@ == "Singleton2 instance"@
}

impl Singleton2Cell {
    /// The verified lock this cell guards its storage with.
    pub closed spec fn spec_lock(&self) -> RwLock<
        Option<Singleton2>,
        spec_fn(Option<Singleton2>) -> bool,
    > {
        self.lock
    }

    /// Cell well-formedness: the lock takes every record back, so a holder
    /// can always release its guard.
    pub closed spec fn wf(&self) -> bool {
        forall|v: Option<Singleton2>| #[trigger] self.lock.inv(v)
    }

    /// A fresh cell: the storage behind the lock is still empty; the first
    /// acquisition will fill it.
    pub fn new() -> (c: Self)
        ensures
            c.wf(),
    {
        let lock = RwLock::<
            Option<Singleton2>,
            spec_fn(Option<Singleton2>) -> bool,
        >::new(None, Ghost(|v: Option<Singleton2>| true));
        Singleton2Cell { lock }
    }
}

impl Singleton2 {
    /// The record work of an acquisition: keeps whatever record the storage
    /// held, and only an empty storage — the first acquisition — yields a
    /// record created with the default data.
    pub fn init_if_absent(stored: Option<Singleton2>) -> (r: Singleton2)
        ensures
            init_step(stored, r),
    {
        match stored {
            Some(existing) => existing,
            None => Singleton2 { data: String::from_str("Singleton2 instance") },
        }
    }

    /// Blocks until it holds exclusive access to the cell's storage, creates
    /// the record with the default data if no acquisition has created it yet,
    /// and returns the record together with the guard. Until the guard goes
    /// back through [`Singleton2::release`], every other caller blocks.
    ///
    /// The lock's contents are not spec-visible here, so what this contract
    /// cannot say of `r.0` is pinned one call down: the record is exactly
    /// [`Singleton2::init_if_absent`] of the value the acquisition found.
    pub fn get_instance<'a>(cell: &'a Singleton2Cell) -> (r: (Singleton2, Singleton2Guard<'a>))
        requires
            cell.wf(),
        ensures
            r.1.rwlock() == cell.spec_lock(),
            forall|v: Option<Singleton2>| #[trigger] r.1.rwlock().inv(v),
    {
        let (stored, guard) = cell.lock.acquire_write();
        (Singleton2::init_if_absent(stored), guard)
    }

    /// Puts the record back into the cell's storage and releases the guard,
    /// letting the next blocked caller proceed.
    pub fn release(self, guard: Singleton2Guard<'_>)
        requires
            forall|v: Option<Singleton2>| #[trigger] guard.rwlock().inv(v),
    {
        guard.release_write(Some(self));
    }

    /// Replaces the record's `data` field.
    pub fn set_data(&mut self, data: &str)
        ensures
            final(self)@ == data@,
    {
        self.data = String::from_str(data);
    }

    /// Reads the record's `data` field.
    pub fn get_data(&self) -> (r: String)
        ensures
            r@ == self@,
    {
        self.data.clone()
    }
}

/// Identity: an acquisition that finds the storage occupied hands back the
/// very record it held, so a record released under a prior guard is the one a
/// reacquisition reads — one logical instance per cell.
pub proof fn lemma_reacquisition_identity(prior: Singleton2, reread: Singleton2)
    requires
        init_step(Some(prior), reread),
    ensures
        reread == prior,
{
}

/// Mutation visibility: a record whose data a holder set to `d` and released
/// still reads as `d` when the next acquisition finds it in the storage —
/// never a torn or interleaved value, since the guard shut everyone else out
/// in between.
pub proof fn lemma_mutation_visibility(written: Singleton2, reread: Singleton2, d: Seq<char>)
    requires
        written@ == d,
        init_step(Some(written), reread),
    ensures
        reread@ == d,
{
}

} // verus!

//! Eager singleton: the record exists, fully formed, from the moment the cell
//! is constructed — there is no first-access initialization window at all,
//! and `get_instance` is a pure read.
//!
//! The idiom's known limitation is kept deliberately: the field is fixed at
//! construction to the empty default, and `init` is a no-op placeholder that
//! returns the existing instance unchanged (see [`lemma_init_is_noop`]). An
//! eager-immutable singleton cannot take data after load time.

use vstd::prelude::*;

verus! {

/// An eagerly initialized singleton: the record itself, built complete at
/// construction time and immutable afterwards.
pub struct Singleton4 {
    data: String,
}

impl Singleton4 {
    /// The record's `data` field.
    pub closed spec fn data(&self) -> Seq<char> {
        self.data@
    }

    /// Eager-cell well-formedness: the data was fixed at construction to the
    /// empty default and nothing can have changed it since.
    pub open spec fn wf(&self) -> bool {
        self.data() == Seq::<char>::empty()
    }

    /// Builds the record, complete, before any accessor can run; the field
    /// holds the empty default for good.
    pub fn new() -> (s: Self)
        ensures
            s.wf(),
    {
        Singleton4 { data: String::new() }
    }

    /// Obtains the shared record: a pure read with no initialization check,
    /// because the record already exists.
    pub fn get_instance(&self) -> (r: &Singleton4)
        ensures
            r == self,
    {
        self
    }

    /// Does not initialize anything, despite the name: the record was fixed
    /// at construction, so this returns the existing instance unchanged. The
    /// no-op is the idiom's documented limitation, kept on purpose.
    pub fn init(&self, data: &str) -> (r: &Singleton4)
        ensures
            r == self,
    {
        let _ = data;
        self
    }

    /// Reads the record's `data` field.
    pub fn get_data(&self) -> (r: String)
        ensures
            r@ == self.data(),
            self.wf() ==> r@ == Seq::<char>::empty(),
    {
        self.data.clone()
    }
}

/// Immutability of the eager record: `init` hands back the very instance it
/// was given, and a well-formed instance still reads as the empty default
/// afterwards — `init("anything")` changes nothing.
pub proof fn lemma_init_is_noop(s: Singleton4, r: Singleton4)
    requires
        s.wf(),
        r == s,
    ensures
        r.wf(),
        r.data() == Seq::<char>::empty(),
{
}

} // verus!

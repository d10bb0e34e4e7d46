//! One-time-initialization-cell singleton: the initializer runs at most once,
//! and the record is immutable after construction — there is no setter.
//!
//! The cell carries a count of initializer executions, so that the
//! exactly-once guarantee is both proved (see
//! [`lemma_exactly_once_initialization`]) and observable at run time through
//! [`Singleton3::init_count`].

use vstd::prelude::*;
use vstd::string::StringExecFns;

verus! {

/// A one-time-initialization singleton cell: the first `get_instance` call
/// runs the initializer; every later call finds the finished record and runs
/// nothing.
pub struct Singleton3 {
    inst: Option<String>,
    inits: u64,
}

/// What one `get_instance` call does to the cell: afterwards the record
/// exists and the initializer has run exactly once in the cell's whole
/// history; an occupied cell is left untouched; a record created by this very
/// call carries the default data.
pub open spec fn get_instance_step(pre: Singleton3, post: Singleton3) -> bool {
    &&& post.wf()
    &&& post.is_init()
    &&& post.spec_init_count() == 1
    &&& pre.is_init() ==> post == pre
    &&& !pre.is_init() ==> post.data() == "Singleton3 instance"@
}

impl Singleton3 {
    /// Whether the record has been created yet.
    pub closed spec fn spec_is_init(&self) -> bool {
        self.inst is Some
    }

    /// Reports whether the record has been created yet.
    #[verifier::when_used_as_spec(spec_is_init)]
    pub fn is_init(&self) -> (r: bool)
        ensures
            r == self.spec_is_init(),
    {
        self.inst.is_some()
    }

    /// The record's `data` field, once the record exists.
    pub closed spec fn data(&self) -> Seq<char> {
        self.inst->0@
    }

    /// How many times the initializer has executed.
    pub closed spec fn spec_init_count(&self) -> int {
        self.inits as int
    }

    /// Cell well-formedness: the initializer has run at most once, and it has
    /// run exactly once just when the record exists.
    pub open spec fn wf(&self) -> bool {
        &&& self.spec_init_count() <= 1
        &&& self.is_init() <==> self.spec_init_count() == 1
    }

    /// A fresh cell: no record yet, the initializer has never run.
    pub fn new() -> (s: Self)
        ensures
            s.wf(),
            !s.is_init(),
            s.spec_init_count() == 0,
    {
        Singleton3 { inst: None, inits: 0 }
    }

    /// Obtains the shared record, running the initializer if — and only if —
    /// no call has run it before.
    pub fn get_instance(&mut self)
        requires
            old(self).wf(),
        ensures
            get_instance_step(*old(self), *final(self)),
    {
        if self.inst.is_none() {
            self.inst = Some(String::from_str("Singleton3 instance"));
            self.inits = 1;
        }
    }

    /// Reads the record's `data` field.
    pub fn get_data(&self) -> (r: String)
        requires
            self.is_init(),
        ensures
            r@ == self.data(),
    {
        self.inst.as_ref().unwrap().clone()
    }

    /// Reports how many times the initializer has executed: the observable
    /// counting side effect of construction.
    pub fn init_count(&self) -> (r: u64)
        ensures
            r == self.spec_init_count(),
    {
        self.inits
    }
}

/// Exactly-once initialization: along any chain of `get_instance` calls that
/// starts from an empty cell, every state from the first call on is the very
/// state the first call produced, and the initializer has executed exactly
/// once. `states[0]` is the cell before the first call, `states[i]` the cell
/// after the `i`-th.
pub proof fn lemma_exactly_once_initialization(states: Seq<Singleton3>, i: int)
    requires
        !states[0].is_init(),
        forall|j: int|
            0 <= j < states.len() - 1 ==> get_instance_step(#[trigger] states[j], states[j + 1]),
        1 <= i < states.len(),
    ensures
        states[i] == states[1],
        states[i].spec_init_count() == 1,
    decreases i,
{
    if i > 1 {
        lemma_exactly_once_initialization(states, i - 1);
        assert(get_instance_step(states[i - 1], states[i]));
    } else {
        assert(get_instance_step(states[0], states[1]));
    }
}

/// Identity: consecutive `get_instance` calls yield the very same cell
/// contents; only the first call can create anything.
pub proof fn lemma_get_instance_identity(s0: Singleton3, s1: Singleton3, s2: Singleton3)
    requires
        get_instance_step(s0, s1),
        get_instance_step(s1, s2),
    ensures
        s2 == s1,
{
}

/// Immutability: the cell exposes no setter, `get_data` borrows the record
/// immutably, and the one mutating operation, `get_instance`, leaves an
/// occupied cell untouched — so nothing can change the data after first
/// construction.
pub proof fn lemma_immutable_after_init(pre: Singleton3, post: Singleton3)
    requires
        pre.is_init(),
        get_instance_step(pre, post),
    ensures
        post.data() == pre.data(),
{
}

} // verus!

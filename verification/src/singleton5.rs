//! Once-flag singleton with manually managed storage: construction runs
//! exactly once behind a one-time-execution flag, the record is mutable in
//! place afterwards, and an explicit teardown entry point releases the
//! storage with an observable side effect.
//!
//! Only the construction step is protected by the flag; `set_data` and
//! `get_data` are as unsynchronized as in the deferred baseline. The flag
//! never re-arms: after an explicit teardown the storage is gone and the
//! record cannot be rebuilt, so `get_instance` demands that no teardown has
//! happened — exactly the dangling-storage hazard the idiom carries.

use vstd::prelude::*;
use vstd::string::StringExecFns;

verus! {

/// A once-flag singleton cell: the first `get_instance` call allocates and
/// constructs the record; later calls find it built; `destroy` releases it
/// for good.
pub struct Singleton5 {
    inst: Option<String>,
    inits: u64,
}

/// What one `get_instance` call does to the cell: afterwards the record
/// exists and the once-flag has fired exactly once in the cell's whole
/// history; an occupied cell is left untouched; a record constructed by this
/// very call carries the default data.
pub open spec fn get_instance_step(pre: Singleton5, post: Singleton5) -> bool {
    &&& post.wf()
    &&& post.is_init()
    &&& post.spec_init_count() == 1
    &&& pre.is_init() ==> post == pre
    &&& !pre.is_init() ==> post.data() == "Singleton5 instance"@
}

/// What one `set_data` call with argument `d` does to the cell: the record
/// stays, only its `data` field changes, and the once-flag is untouched.
pub open spec fn set_data_step(pre: Singleton5, post: Singleton5, d: Seq<char>) -> bool {
    &&& post.wf()
    &&& post.is_init()
    &&& post.data() == d
    &&& post.spec_init_count() == pre.spec_init_count()
}

impl Singleton5 {
    /// Whether the record currently exists.
    pub closed spec fn spec_is_init(&self) -> bool {
        self.inst is Some
    }

    /// Reports whether the record currently exists.
    #[verifier::when_used_as_spec(spec_is_init)]
    pub fn is_init(&self) -> (r: bool)
        ensures
            r == self.spec_is_init(),
    {
        self.inst.is_some()
    }

    /// The record's `data` field, while the record exists.
    pub closed spec fn data(&self) -> Seq<char> {
        self.inst->0@
    }

    /// How many times the once-flagged constructor has executed.
    pub closed spec fn spec_init_count(&self) -> int {
        self.inits as int
    }

    /// Whether the storage was explicitly torn down: the constructor has
    /// fired, yet the record is gone — and the flag will never fire again.
    pub open spec fn destroyed(&self) -> bool {
        self.spec_init_count() == 1 && !self.is_init()
    }

    /// Cell well-formedness: the once-flag has fired at most once, and the
    /// record can only exist once it has fired.
    pub open spec fn wf(&self) -> bool {
        &&& self.spec_init_count() <= 1
        &&& self.is_init() ==> self.spec_init_count() == 1
    }

    /// A fresh cell: no record yet, the once-flag has never fired.
    pub fn new() -> (s: Self)
        ensures
            s.wf(),
            !s.is_init(),
            s.spec_init_count() == 0,
    {
        Singleton5 { inst: None, inits: 0 }
    }

    /// Obtains the shared record, allocating and constructing it if — and
    /// only if — the once-flag has never fired. After a teardown the storage
    /// would dangle, so a destroyed cell may not be asked again.
    pub fn get_instance(&mut self)
        requires
            old(self).wf(),
            !old(self).destroyed(),
        ensures
            get_instance_step(*old(self), *final(self)),
    {
        if self.inst.is_none() {
            self.inst = Some(String::from_str("Singleton5 instance"));
            self.inits = 1;
        }
    }

    /// Replaces the record's `data` field.
    pub fn set_data(&mut self, data: &str)
        requires
            old(self).wf(),
            old(self).is_init(),
        ensures
            set_data_step(*old(self), *final(self), data@),
    {
        self.inst = Some(String::from_str(data));
    }

    /// Reads the record's `data` field.
    pub fn get_data(&self) -> (r: String)
        requires
            self.is_init(),
        ensures
            r@ == self.data(),
    {
        self.inst.as_ref().unwrap().clone()
    }

    /// Reports how many times the once-flagged constructor has executed: the
    /// observable counting side effect of construction.
    pub fn init_count(&self) -> (r: u64)
        ensures
            r as int == self.spec_init_count(),
    {
        self.inits
    }

    /// Explicitly releases the storage. The teardown hook fires exactly when
    /// a record was actually destroyed, handing back its notice for the owner
    /// to report; the once-flag stays fired, so the cell ends up destroyed.
    pub fn destroy(&mut self) -> (notice: Option<String>)
        requires
            old(self).wf(),
        ensures
            final(self).wf(),
            !final(self).is_init(),
            final(self).spec_init_count() == old(self).spec_init_count(),
            notice is Some <==> old(self).is_init(),
            old(self).is_init() ==> final(self).destroyed() && notice->0@
                == "Singleton5 is being dropped"@,
    {
        match self.inst.take() {
            Some(_) => Some(String::from_str("Singleton5 is being dropped")),
            None => None,
        }
    }
}

/// Exactly-once initialization: along any chain of `get_instance` calls that
/// starts from an empty, never-fired cell, every state from the first call on
/// is the very state the first call produced, and the once-flagged constructor
/// has executed exactly once. `states[0]` is the cell before the first call,
/// `states[i]` the cell after the `i`-th.
pub proof fn lemma_exactly_once_initialization(states: Seq<Singleton5>, i: int)
    requires
        !states[0].is_init(),
        forall|j: int|
            0 <= j < states.len() - 1 ==> get_instance_step(#[trigger] states[j], states[j + 1]),
        1 <= i < states.len(),
    ensures
        states[i] == states[1],
        states[i].spec_init_count() == 1,
    decreases i,
{
    if i > 1 {
        lemma_exactly_once_initialization(states, i - 1);
        assert(get_instance_step(states[i - 1], states[i]));
    } else {
        assert(get_instance_step(states[0], states[1]));
    }
}

/// Identity: consecutive `get_instance` calls with no teardown in between
/// yield the very same cell contents; only the first call can construct
/// anything.
pub proof fn lemma_get_instance_identity(s0: Singleton5, s1: Singleton5, s2: Singleton5)
    requires
        get_instance_step(s0, s1),
        get_instance_step(s1, s2),
    ensures
        s2 == s1,
{
}

/// Mutation visibility: after `set_data` stores `d`, a further `get_instance`
/// hands back the record still holding `d`.
pub proof fn lemma_mutation_visibility(
    s0: Singleton5,
    s1: Singleton5,
    s2: Singleton5,
    d: Seq<char>,
)
    requires
        set_data_step(s0, s1, d),
        get_instance_step(s1, s2),
    ensures
        s2.is_init(),
        s2.data() == d,
{
}

} // verus!

//! Unsynchronized lazy singleton: the record is created on the first
//! `get_instance` call and is mutable in place afterwards.
//!
//! Nothing here synchronizes anything: a process that shares one cell between
//! threads without a lock races on the first initialization exactly as the
//! idiom it demonstrates does. The contracts below describe what a single
//! caller observes.

use vstd::prelude::*;
use vstd::string::StringExecFns;

verus! {

/// A deferred, unsynchronized singleton cell: empty until the first
/// `get_instance` call, then holding the one record for good.
pub struct Singleton1 {
    inst: Option<String>,
}

/// What one `get_instance` call does to the cell: afterwards the record
/// exists; an already existing record is left untouched; a record created by
/// this very call carries the default data.
pub open spec fn get_instance_step(pre: Singleton1, post: Singleton1) -> bool {
    &&& post.is_init()
    &&& pre.is_init() ==> post == pre
    &&& !pre.is_init() ==> post.data() == "Singleton1 instance"@
}

/// What one `set_data` call with argument `d` does to the cell.
pub open spec fn set_data_step(pre: Singleton1, post: Singleton1, d: Seq<char>) -> bool {
    &&& post.is_init()
    &&& post.data() == d
}

impl Singleton1 {
    /// Whether the record has been created yet.
    pub closed spec fn spec_is_init(&self) -> bool {
        self.inst is Some
    }

    /// Reports whether the record has been created yet.
    #[verifier::when_used_as_spec(spec_is_init)]
    pub fn is_init(&self) -> (r: bool)
        ensures
            r == self.spec_is_init(),
    {
        self.inst.is_some()
    }

    /// The record's `data` field, once the record exists.
    pub closed spec fn data(&self) -> Seq<char> {
        self.inst->0@
    }

    /// A fresh cell: no record yet; the first `get_instance` will create it.
    pub fn new() -> (s: Self)
        ensures
            !s.is_init(),
    {
        Singleton1 { inst: None }
    }

    /// Obtains the shared record, creating it with the default data on the
    /// first call; later calls find the cell already occupied and change
    /// nothing.
    pub fn get_instance(&mut self)
        ensures
            get_instance_step(*old(self), *final(self)),
    {
        if self.inst.is_none() {
            self.inst = Some(String::from_str("Singleton1 instance"));
        }
    }

    /// Replaces the record's `data` field.
    pub fn set_data(&mut self, data: &str)
        requires
            old(self).is_init(),
        ensures
            set_data_step(*old(self), *final(self), data@),
    {
        self.inst = Some(String::from_str(data));
    }

    /// Reads the record's `data` field.
    pub fn get_data(&self) -> (r: String)
        requires
            self.is_init(),
        ensures
            r@ == self.data(),
    {
        self.inst.as_ref().unwrap().clone()
    }
}

/// Identity: consecutive `get_instance` calls yield the very same cell
/// contents; only the first call can create anything.
pub proof fn lemma_get_instance_identity(s0: Singleton1, s1: Singleton1, s2: Singleton1)
    requires
        get_instance_step(s0, s1),
        get_instance_step(s1, s2),
    ensures
        s2 == s1,
{
}

/// Mutation visibility: after `set_data` stores `d`, a further `get_instance`
/// hands back the record still holding `d`.
pub proof fn lemma_mutation_visibility(
    s0: Singleton1,
    s1: Singleton1,
    s2: Singleton1,
    d: Seq<char>,
)
    requires
        set_data_step(s0, s1, d),
        get_instance_step(s1, s2),
    ensures
        s2.is_init(),
        s2.data() == d,
{
}

} // verus!

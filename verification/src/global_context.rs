//! The state that all modules of a script world share: the context
//! variables and the registry of host functions.

use crate::fault::Fault;
use vstd::prelude::*;

verus! {

/// The mathematical content of a global context.
#[verifier::ext_equal]
pub struct ContextView {
    /// The context variables, by slot.
    pub vars: Seq<u32>,
    /// The names of the registered host functions, by index.
    pub functions: Seq<Seq<char>>,
}

impl ContextView {
    pub open spec fn with_var(self, index: int, value: u32) -> ContextView {
        ContextView { vars: self.vars.update(index, value), functions: self.functions }
    }

    pub open spec fn with_function(self, name: Seq<char>) -> ContextView {
        ContextView { vars: self.vars, functions: self.functions.push(name) }
    }
}

/// The global context. A host function is registered under the next free
/// index; the host keeps the native code for each index and runs it when the
/// interpreter reports a call of that index.
pub struct ScriptGlobalContext {
    vars: Vec<u32>,
    functions: Vec<String>,
}

impl View for ScriptGlobalContext {
    type V = ContextView;

    closed spec fn view(&self) -> ContextView {
        ContextView {
            vars: self.vars@,
            functions: self.functions@.map_values(|name: String| name@),
        }
    }
}

impl ScriptGlobalContext {
    /// A context of `var_count` variables, all zero, and no host function.
    pub fn new(var_count: usize) -> (c: ScriptGlobalContext)
        ensures
            c@.vars == Seq::new(var_count as nat, |i: int| 0u32),
            c@.functions == Seq::<Seq<char>>::empty(),
    {
        let vars: Vec<u32> = vec![0u32; var_count];
        let functions: Vec<String> = Vec::new();
        let c = ScriptGlobalContext { vars, functions };
        assert(c@.vars =~= Seq::new(var_count as nat, |i: int| 0u32));
        assert(c@.functions =~= Seq::<Seq<char>>::empty());
        c
    }

    /// Registers a host function under the next free index and gives that
    /// index back.
    pub fn register_function(&mut self, name: String) -> (index: usize)
        ensures
            index == old(self)@.functions.len(),
            final(self)@ == old(self)@.with_function(name@),
    {
        let index: usize = self.functions.len();
        self.functions.push(name);
        assert(self@.functions =~= old(self)@.functions.push(name@));
        index
    }

    pub fn function_count(&self) -> (n: usize)
        ensures
            n == self@.functions.len(),
    {
        self.functions.len()
    }

    /// The name that the host function at `index` was registered with.
    pub fn function_name(&self, index: usize) -> (r: Result<&String, Fault>)
        ensures
            index < self@.functions.len() ==> r is Ok && r->Ok_0@ == self@.functions[index as int],
            index >= self@.functions.len() ==> r is Err && r->Err_0 == Fault::UnknownHostFunction,
    {
        if index < self.functions.len() {
            Ok(&self.functions[index])
        } else {
            Err(Fault::UnknownHostFunction)
        }
    }

    pub fn var_count(&self) -> (n: usize)
        ensures
            n == self@.vars.len(),
    {
        self.vars.len()
    }

    /// The value of the context variable at `index`.
    pub fn var(&self, index: usize) -> (r: Result<u32, Fault>)
        ensures
            r == (if index < self@.vars.len() {
                Ok::<u32, Fault>(self@.vars[index as int])
            } else {
                Err(Fault::GlobalBoundsViolation)
            }),
    {
        if index < self.vars.len() {
            Ok(self.vars[index])
        } else {
            Err(Fault::GlobalBoundsViolation)
        }
    }

    /// Stores `value` in the context variable at `index`; no other variable
    /// and no registration changes. Outside the table nothing changes.
    pub fn set_var(&mut self, index: usize, value: u32) -> (r: Result<(), Fault>)
        ensures
            index < old(self)@.vars.len() ==> r is Ok && final(self)@ == old(self)@.with_var(
                index as int,
                value,
            ),
            index >= old(self)@.vars.len() ==> r == Err::<(), Fault>(Fault::GlobalBoundsViolation)
                && final(self)@ == old(self)@,
    {
        if index < self.vars.len() {
            self.vars[index] = value;
            Ok(())
        } else {
            Err(Fault::GlobalBoundsViolation)
        }
    }
}

} // verus!

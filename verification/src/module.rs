//! A compiled script module: its functions, its private global slots and
//! its pool of string constants.

use crate::fault::Fault;
use vstd::prelude::*;

verus! {

/// One compiled function: a buffer of instruction bytes.
pub struct ScriptFunction {
    pub inst: Vec<u8>,
}

impl View for ScriptFunction {
    type V = Seq<u8>;

    open spec fn view(&self) -> Seq<u8> {
        self.inst@
    }
}

impl ScriptFunction {
    pub fn new(inst: Vec<u8>) -> (f: ScriptFunction)
        ensures
            f@ == inst@,
    {
        ScriptFunction { inst }
    }
}

/// The mathematical content of a module.
#[verifier::ext_equal]
pub struct ModuleView {
    /// The code of each function, by index.
    pub functions: Seq<Seq<u8>>,
    /// The module's global slots, by index.
    pub globals: Seq<u32>,
    /// The bytes of each string constant, by index.
    pub strings: Seq<Seq<u8>>,
}

impl ModuleView {
    pub open spec fn with_global(self, index: int, value: u32) -> ModuleView {
        ModuleView {
            functions: self.functions,
            globals: self.globals.update(index, value),
            strings: self.strings,
        }
    }
}

/// A compiled module. Functions and strings never change once the module is
/// made; the global slots are read and written by the scripts that run.
pub struct ScriptModule {
    functions: Vec<ScriptFunction>,
    globals: Vec<u32>,
    strings: Vec<Vec<u8>>,
}

impl View for ScriptModule {
    type V = ModuleView;

    closed spec fn view(&self) -> ModuleView {
        ModuleView {
            functions: self.functions@.map_values(|f: ScriptFunction| f@),
            globals: self.globals@,
            strings: self.strings@.map_values(|s: Vec<u8>| s@),
        }
    }
}

impl ScriptModule {
    /// A module of the given functions, initial global slots and strings.
    pub fn new(functions: Vec<ScriptFunction>, globals: Vec<u32>, strings: Vec<Vec<u8>>) -> (m:
        ScriptModule)
        ensures
            m@.functions == functions@.map_values(|f: ScriptFunction| f@),
            m@.globals == globals@,
            m@.strings == strings@.map_values(|s: Vec<u8>| s@),
    {
        ScriptModule { functions, globals, strings }
    }

    pub fn function_count(&self) -> (n: usize)
        ensures
            n == self@.functions.len(),
    {
        self.functions.len()
    }

    /// The code of every function is no longer than the machine can address.
    pub proof fn lemma_code_fits(&self)
        ensures
            forall|i: int|
                0 <= i < self@.functions.len() ==> (#[trigger] self@.functions[i]).len()
                    <= usize::MAX,
    {
        assert forall|i: int| 0 <= i < self@.functions.len() implies (#[trigger] self@.functions[i]).len()
            <= usize::MAX by {
            let f = self.functions@[i];
            assert(self@.functions[i] == f.inst@);
            assert(f.inst.len() == f.inst@.len());
        }
    }

    /// The function at `index`, which the loader has validated.
    pub fn function(&self, index: usize) -> (f: &ScriptFunction)
        requires
            index < self@.functions.len(),
        ensures
            f@ == self@.functions[index as int],
    {
        &self.functions[index]
    }

    pub fn global_count(&self) -> (n: usize)
        ensures
            n == self@.globals.len(),
    {
        self.globals.len()
    }

    /// The value of the global slot at `index`.
    pub fn global_slot(&self, index: usize) -> (r: Result<u32, Fault>)
        ensures
            r == (if index < self@.globals.len() {
                Ok::<u32, Fault>(self@.globals[index as int])
            } else {
                Err(Fault::GlobalBoundsViolation)
            }),
    {
        if index < self.globals.len() {
            Ok(self.globals[index])
        } else {
            Err(Fault::GlobalBoundsViolation)
        }
    }

    /// Stores `value` in the global slot at `index`; no other slot, no
    /// function and no string changes. Outside the table nothing changes.
    pub fn set_global_slot(&mut self, index: usize, value: u32) -> (r: Result<(), Fault>)
        ensures
            index < old(self)@.globals.len() ==> r is Ok && final(self)@ == old(self)@.with_global(
                index as int,
                value,
            ),
            index >= old(self)@.globals.len() ==> r == Err::<(), Fault>(
                Fault::GlobalBoundsViolation,
            ) && final(self)@ == old(self)@,
    {
        if index < self.globals.len() {
            self.globals[index] = value;
            Ok(())
        } else {
            Err(Fault::GlobalBoundsViolation)
        }
    }

    pub fn string_count(&self) -> (n: usize)
        ensures
            n == self@.strings.len(),
    {
        self.strings.len()
    }

    /// The string constant at `index`, borrowed from the pool.
    pub fn string(&self, index: usize) -> (r: Result<&Vec<u8>, Fault>)
        ensures
            index < self@.strings.len() ==> r is Ok && r->Ok_0@ == self@.strings[index as int],
            index >= self@.strings.len() ==> r is Err && r->Err_0 == Fault::UnknownString,
    {
        if index < self.strings.len() {
            Ok(&self.strings[index])
        } else {
            Err(Fault::UnknownString)
        }
    }
}

} // verus!

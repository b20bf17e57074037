//! The callables a host supplies to a VM.
//!
//! Script output and module loading are delegated entirely to the host: the
//! VM's print callback forwards text to a [`Printer`], and its load-module
//! callback asks a [`ModuleScriptLoader`] for source text. Both traits are
//! implemented by the embedding application; nothing is promised of them
//! here beyond their shape.

use vstd::prelude::*;

verus! {

/// A sink for script output.
pub trait Printer {
    fn print(&mut self, s: String);
}

/// A source of module text: the name of a module, or nothing if the host
/// knows no module of that name (which the VM reports as module-not-found).
pub trait ModuleScriptLoader {
    fn load_script(&mut self, name: String) -> Option<String>;
}

/// The default loader: it knows no modules at all.
pub struct NullLoader;

impl ModuleScriptLoader for NullLoader {
    fn load_script(&mut self, _name: String) -> (r: Option<String>)
        ensures
            r is None,
    {
        None
    }
}

} // verus!

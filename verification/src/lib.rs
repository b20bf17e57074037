//! A safety layer around an embedded Wren scripting virtual machine.
//!
//! The embedded VM is reachable only through a C function-pointer ABI, so the
//! unsafe calls themselves live in a thin unverified shell around this crate.
//! This library holds everything that can be stated and proved about the
//! embedding: the canonical method-signature strings used for dynamic
//! resolution, the foreign-class registry and its binding lookups, the typed
//! view of the VM's numbered transfer slots, runtime-checked downcasting of
//! foreign objects, the error channel that carries compile/runtime/stack-trace
//! events from callback context to the call boundary, module-name resolution
//! for relative imports, and handle lifetimes.

pub mod errors;
pub mod fmtnum;
pub mod host;
pub mod outcome;
pub mod registry;
pub mod resolve;
pub mod signature;
pub mod vm;

pub use errors::{ForeignSendError, VMError, VMStackFrameError, WrenError};
pub use registry::{ClassObjectPointers, MethodPointer, Module, ModuleLibrary, RuntimeClass};
pub use host::{ModuleScriptLoader, NullLoader, Printer};
pub use signature::FunctionSignature;
pub use vm::{
    ForeignObject, FunctionHandle, Handle, SlotId, SlotType, SlotValue, VM, VMConfig,
};

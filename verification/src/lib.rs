//! Pieces of a single-pass native-code generator and of the emission of its
//! output as a loadable object: where the values of a function are while it
//! is compiled, which constructs are open, the address map, the trampolines
//! through which compiled code calls the runtime, and the handles and the
//! command line around them.

pub mod address_map;
pub mod addressing;
pub mod cli;
pub mod control;
pub mod function_state;
pub mod libcall;
pub mod machine_state;
pub mod memory;
pub mod object_file;
pub mod target;
pub mod trampoline;

//! The runtime routines that compiled code may call, as the `wasmer_vm`
//! crate lists them. Each has a position in that list and a function name.
//! The position is what the emitter and the loader agree on: stub and table
//! slot number `i` belong to the routine at position `i`.

use vstd::prelude::*;
use wasmer_vm::libcalls::LibCall;

verus! {

#[verifier::external_type_specification]
#[verifier::external_body]
pub struct ExLibCall(LibCall);

/// The number of runtime routines.
pub const LIBCALL_COUNT: usize = 31;

/// `LibCall::into_enum_iter`: every routine once, in the order of their
/// declaration. There are `LIBCALL_COUNT` of them.
#[verifier::external_body]
fn all_libcalls() -> (libcalls: Vec<LibCall>)
    ensures
        libcalls@.len() == LIBCALL_COUNT,
{
    <LibCall as enum_iterator::IntoEnumIterator>::into_enum_iter().collect()
}

/// `LibCall::to_function_name`, as bytes: the name under which the runtime
/// defines the routine. One routine is named differently on one vendor's
/// systems, so nothing is said of the bytes.
#[verifier::external_body]
fn function_name(libcall: &LibCall) -> Vec<u8> {
    libcall.to_function_name().as_bytes().to_vec()
}

/// The function names of all runtime routines, in the order of the
/// routines: the name at position `i` is that of the routine at position
/// `i`.
pub fn libcall_names() -> (names: Vec<Vec<u8>>)
    ensures
        names@.len() == LIBCALL_COUNT,
{
    let libcalls = all_libcalls();
    let mut names: Vec<Vec<u8>> = Vec::new();
    let mut i: usize = 0;
    while i < libcalls.len()
        invariant
            i <= libcalls@.len(),
            names@.len() == i,
        decreases libcalls@.len() - i,
    {
        names.push(function_name(&libcalls[i]));
        i += 1;
    }
    names
}

} // verus!

//! Linear memories behind an owning handle: creation from page limits,
//! growth, and the lengths that are read off a memory.

use vstd::prelude::*;
use wasmer_runtime_core::error::CreationError;
use wasmer_runtime_core::error::GrowError;
use wasmer_runtime_core::memory::Memory;
use wasmer_runtime_core::types::MemoryDescriptor;
use wasmer_runtime_core::units::Pages;

verus! {

#[verifier::external_type_specification]
#[verifier::external_body]
pub struct ExMemory(Memory);

#[verifier::external_type_specification]
#[verifier::external_body]
pub struct ExMemoryDescriptor(MemoryDescriptor);

#[verifier::external_type_specification]
#[verifier::external_body]
pub struct ExCreationError(CreationError);

#[verifier::external_type_specification]
#[verifier::external_body]
pub struct ExGrowError(GrowError);

/// The number of bytes in one page of a linear memory.
pub const PAGE_SIZE: u64 = 65536;

/// The greatest number of pages that a memory can grow to.
pub const MAX_PAGES: u32 = 65536;

/// The greatest number of pages that a memory with a greatest size can
/// start with: the pages of the six gibibytes of address space that are
/// set aside for such a memory.
pub const MAX_BOUNDED_PAGES: u32 = 98304;

/// An optional page count.
#[allow(non_camel_case_types)]
#[derive(Clone, Copy, Debug)]
pub struct wasmer_limit_option_t {
    /// Whether `some` counts.
    pub has_some: bool,
    /// The page count, where `has_some` is set.
    pub some: u32,
}

/// The page limits of a linear memory.
#[allow(non_camel_case_types)]
#[derive(Clone, Copy, Debug)]
pub struct wasmer_limits_t {
    /// The least number of pages.
    pub min: u32,
    /// The greatest number of pages, if there is one.
    pub max: wasmer_limit_option_t,
}

/// How a call ended.
#[allow(non_camel_case_types)]
#[derive(Clone, Copy, Debug, PartialEq, Eq, Structural)]
pub enum wasmer_result_t {
    /// The call did its work.
    WASMER_OK,
    /// The call failed and left a message.
    WASMER_ERROR,
}

/// A linear memory, owned by this handle. The memory is reached through
/// the functions of this module only.
#[allow(non_camel_case_types)]
pub struct wasmer_memory_t {
    memory: Memory,
}

impl wasmer_memory_t {
    /// The memory that the handle owns.
    pub closed spec fn memory(&self) -> Memory {
        self.memory
    }

    /// The memory that the handle owns, for who reads or writes its bytes.
    /// The handle keeps owning it.
    pub fn as_memory(&self) -> (memory: &Memory)
        ensures
            *memory == self.memory(),
    {
        &self.memory
    }
}

/// The least and the greatest number of pages that a descriptor allows.
pub uninterp spec fn descriptor_limits(descriptor: MemoryDescriptor) -> (u32, Option<u32>);

/// The least and the greatest number of pages that a memory was made with.
/// They stay as they are while the memory grows.
pub uninterp spec fn memory_limits(memory: Memory) -> (u32, Option<u32>);

/// Whether a memory with these limits can have this many pages. A memory
/// starts with its least number of pages and never shrinks; it grows neither
/// beyond its greatest number, if it has one, nor beyond `MAX_PAGES`.
pub open spec fn within_limits(limits: (u32, Option<u32>), pages: u32) -> bool {
    &&& limits.0 <= pages
    &&& pages <= limits.0 || pages <= MAX_PAGES
    &&& match limits.1 {
        Some(most) => pages <= most,
        None => true,
    }
}

/// Whether a memory with these limits cannot grow by `delta` pages, however
/// many pages it has: even from its least number of pages the growth would
/// lead beyond `MAX_PAGES` or beyond its greatest number.
pub open spec fn growth_is_refused(limits: (u32, Option<u32>), delta: u32) -> bool {
    &&& delta > 0
    &&& {
        ||| limits.0 + delta > MAX_PAGES
        ||| match limits.1 {
            Some(most) => limits.0 + delta > most,
            None => false,
        }
    }
}

/// Whether a least number of pages lies above the greatest.
pub open spec fn exceeds(min: u32, max: Option<u32>) -> bool {
    match max {
        Some(most) => most < min,
        None => false,
    }
}

/// `MemoryDescriptor::new`, for a memory that is not shared: a descriptor
/// with the given least and greatest number of pages, or a message.
#[verifier::external_body]
fn new_descriptor(min: u32, max: Option<u32>) -> (made: Result<MemoryDescriptor, String>)
    ensures
        match made {
            Ok(descriptor) => descriptor_limits(descriptor) == (min, max),
            Err(_) => true,
        },
{
    MemoryDescriptor::new(Pages(min), max.map(Pages), false)
}

/// Whether a memory with these limits can be asked for. One with a
/// greatest size gets a fixed part of the address space, which its least
/// size has to fit in.
pub open spec fn can_be_made(min: u32, max: Option<u32>) -> bool {
    max.is_some() ==> min <= MAX_BOUNDED_PAGES || exceeds(min, max)
}

/// `Memory::new`: a memory of the least number of pages that the descriptor
/// allows, which keeps the descriptor's limits. It fails where the greatest
/// number is below the least, and may fail where the system gives no memory.
/// Where the descriptor names a greatest number, and the least is above what
/// the address space set aside for the memory holds, the crate would stop
/// the program.
#[verifier::external_body]
fn new_memory(descriptor: MemoryDescriptor) -> (made: Result<Memory, CreationError>)
    requires
        can_be_made(descriptor_limits(descriptor).0, descriptor_limits(descriptor).1),
    ensures
        exceeds(descriptor_limits(descriptor).0, descriptor_limits(descriptor).1)
            ==> made.is_err(),
        match made {
            Ok(memory) => memory_limits(memory) == descriptor_limits(descriptor),
            Err(_) => true,
        },
{
    Memory::new(descriptor)
}

/// The message of a `CreationError`.
#[verifier::external_body]
fn creation_message(error: &CreationError) -> String {
    error.to_string()
}

/// `Memory::grow`: the memory grows by `delta` pages and the number of
/// pages that it had is returned, or it stays as it is and an error is
/// returned. Growth by no page is always granted. Growth that would lead
/// beyond `MAX_PAGES` or beyond the memory's greatest number of pages is
/// refused, and so is any that would do so even from the memory's least
/// number of pages; other growth is granted if the system gives the pages.
#[verifier::external_body]
fn grow_memory(memory: &Memory, delta: u32) -> (grown: Result<u32, GrowError>)
    ensures
        delta == 0 ==> grown.is_ok(),
        growth_is_refused(memory_limits(*memory), delta) ==> grown.is_err(),
{
    memory.grow(Pages(delta)).map(|pages| pages.0)
}

/// The message of a `GrowError`.
#[verifier::external_body]
fn grow_message(error: &GrowError) -> String {
    error.to_string()
}

/// `Memory::size`: the number of pages that the memory has now. It lies
/// within the memory's limits; where within them, the memory's growth so
/// far decides.
#[verifier::external_body]
fn memory_pages(memory: &Memory) -> (pages: u32)
    ensures
        within_limits(memory_limits(*memory), pages),
{
    memory.size().0
}

/// The greatest number of pages that limits allow, if they name one.
pub open spec fn maximum_of(limits: wasmer_limits_t) -> Option<u32> {
    if limits.max.has_some {
        Some(limits.max.some)
    } else {
        None
    }
}

/// Takes a created memory into a handle, or records why there is none.
///
/// With a memory, `memory` holds the new handle, the message stays as it
/// was and the call succeeds. With a message, `memory` stays as it was, the
/// message is recorded and the call fails.
pub fn memory_created(
    outcome: Result<Memory, String>,
    memory: &mut Option<wasmer_memory_t>,
    last_error: &mut Option<String>,
) -> (result: wasmer_result_t)
    ensures
        match outcome {
            Ok(made) => {
                &&& result == wasmer_result_t::WASMER_OK
                &&& final(memory).is_some()
                &&& final(memory).unwrap().memory() == made
                &&& *final(last_error) == *old(last_error)
            },
            Err(message) => {
                &&& result == wasmer_result_t::WASMER_ERROR
                &&& *final(memory) == *old(memory)
                &&& *final(last_error) == Some(message)
            },
        },
{
    match outcome {
        Ok(made) => {
            *memory = Some(wasmer_memory_t { memory: made });
            wasmer_result_t::WASMER_OK
        },
        Err(message) => {
            *last_error = Some(message);
            wasmer_result_t::WASMER_ERROR
        },
    }
}

/// Creates a new memory of `limits.min` pages that may grow up to
/// `limits.max`.
///
/// On success the handle is stored in `memory`, which then owns the memory
/// until it is handed to `wasmer_memory_destroy`. On failure `memory` stays
/// as it was and the reason is recorded in `last_error`. The call fails
/// where the greatest number of pages is below the least; else it succeeds
/// unless the system refuses the memory. With a greatest number of pages,
/// the least must not be above `MAX_BOUNDED_PAGES`, unless it is above the
/// greatest too.
pub fn wasmer_memory_new(
    memory: &mut Option<wasmer_memory_t>,
    limits: wasmer_limits_t,
    last_error: &mut Option<String>,
) -> (result: wasmer_result_t)
    requires
        can_be_made(limits.min, maximum_of(limits)),
    ensures
        exceeds(limits.min, maximum_of(limits)) ==> result == wasmer_result_t::WASMER_ERROR,
        result == wasmer_result_t::WASMER_OK ==> {
            &&& final(memory).is_some()
            &&& memory_limits(final(memory).unwrap().memory()) == (limits.min, maximum_of(limits))
            &&& *final(last_error) == *old(last_error)
        },
        result == wasmer_result_t::WASMER_ERROR ==> {
            &&& *final(memory) == *old(memory)
            &&& final(last_error).is_some()
        },
{
    let max = if limits.max.has_some {
        Some(limits.max.some)
    } else {
        None
    };
    let outcome = match new_descriptor(limits.min, max) {
        Ok(descriptor) => match new_memory(descriptor) {
            Ok(made) => Ok(made),
            Err(error) => Err(creation_message(&error)),
        },
        Err(message) => Err(message),
    };
    memory_created(outcome, memory, last_error)
}

/// Records how an attempt to grow a memory ended: with the number of pages
/// that the memory had, the call succeeds and the message stays as it was;
/// with a message, the message is recorded and the call fails.
pub fn memory_grown(outcome: Result<u32, String>, last_error: &mut Option<String>) -> (result:
    wasmer_result_t)
    ensures
        match outcome {
            Ok(_) => {
                &&& result == wasmer_result_t::WASMER_OK
                &&& *final(last_error) == *old(last_error)
            },
            Err(message) => {
                &&& result == wasmer_result_t::WASMER_ERROR
                &&& *final(last_error) == Some(message)
            },
        },
{
    match outcome {
        Ok(_) => wasmer_result_t::WASMER_OK,
        Err(message) => {
            *last_error = Some(message);
            wasmer_result_t::WASMER_ERROR
        },
    }
}

/// Grows a memory by `delta` pages.
///
/// Growth by no page succeeds. Growth fails where it would lead beyond
/// `MAX_PAGES` or beyond the memory's greatest number of pages even from
/// its least number; other growth succeeds if the pages that the memory has
/// by now leave room for it and the system gives the pages. On failure the
/// memory stays as it was and the reason is recorded in `last_error`; on
/// success `last_error` stays as it was.
pub fn wasmer_memory_grow(
    memory: &wasmer_memory_t,
    delta: u32,
    last_error: &mut Option<String>,
) -> (result: wasmer_result_t)
    ensures
        delta == 0 ==> result == wasmer_result_t::WASMER_OK,
        growth_is_refused(memory_limits(memory.memory()), delta) ==> result
            == wasmer_result_t::WASMER_ERROR,
        result == wasmer_result_t::WASMER_OK ==> *final(last_error) == *old(last_error),
        result == wasmer_result_t::WASMER_ERROR ==> final(last_error).is_some(),
{
    let outcome = match grow_memory(&memory.memory, delta) {
        Ok(pages) => Ok(pages),
        Err(error) => Err(grow_message(&error)),
    };
    memory_grown(outcome, last_error)
}

/// The length in pages of a memory; zero where there is no memory. The
/// length of a memory lies within its limits: it is no less than the least
/// number of pages that the memory was made with, and no more than growth
/// allows.
pub fn wasmer_memory_length(memory: Option<&wasmer_memory_t>) -> (pages: u32)
    ensures
        match memory {
            None => pages == 0,
            Some(handle) => within_limits(memory_limits(handle.memory()), pages),
        },
{
    match memory {
        None => 0,
        Some(handle) => memory_pages(&handle.memory),
    }
}

/// The length in bytes of `pages` pages, as far as 32 bits hold it.
pub open spec fn byte_length(pages: u32) -> int {
    (pages * PAGE_SIZE) % 0x1_0000_0000
}

/// The length in bytes of `pages` pages, cut to its low 32 bits.
pub fn pages_to_bytes(pages: u32) -> (bytes: u32)
    ensures
        bytes == byte_length(pages),
{
    let low: u32 = pages % 65536;
    assert(low * 65536 == (pages * 65536) % 0x1_0000_0000) by (nonlinear_arith)
        requires
            low == pages % 65536,
            0 <= pages,
    ;
    low * 65536
}

/// The length in bytes of a memory, cut to its low 32 bits: the bytes of
/// the pages that the memory has, whose number lies within its limits.
pub fn wasmer_memory_data_length(memory: &wasmer_memory_t) -> (bytes: u32)
    ensures
        exists|pages: u32|
            within_limits(memory_limits(memory.memory()), pages) && bytes == byte_length(pages),
{
    let pages = memory_pages(&memory.memory);
    pages_to_bytes(pages)
}

/// Gives up a memory: the handle is taken and the memory that it owns, if
/// any, is freed.
pub fn wasmer_memory_destroy(memory: Option<wasmer_memory_t>) {
}

} // verus!

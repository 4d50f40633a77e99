//! The targets that native code is emitted for: an instruction set and an
//! object-file convention.

use vstd::prelude::*;

verus! {

#[verifier::external_type_specification]
#[verifier::external_body]
pub struct ExTarget(wasmer_compiler::Target);

/// An instruction set, as far as emission tells them apart.
#[derive(Clone, Copy, Debug, PartialEq, Eq, Structural)]
pub enum Architecture {
    /// 64-bit ARM.
    Aarch64,
    /// 64-bit x86.
    X86_64,
    /// Any other instruction set: nothing is emitted for it.
    Other,
}

/// An object-file convention, as far as emission tells them apart.
#[derive(Clone, Copy, Debug, PartialEq, Eq, Structural)]
pub enum BinaryFormat {
    /// ELF.
    Elf,
    /// Mach-O.
    Macho,
    /// Any other convention: nothing is emitted for it.
    Other,
}

/// Whether code can be emitted for this pair: both instruction sets, each in
/// both conventions.
pub open spec fn is_supported(architecture: Architecture, format: BinaryFormat) -> bool {
    architecture != Architecture::Other && format != BinaryFormat::Other
}

/// Tells whether code can be emitted for this pair.
pub fn supported(architecture: Architecture, format: BinaryFormat) -> (yes: bool)
    ensures
        yes == is_supported(architecture, format),
{
    let known_architecture = match architecture {
        Architecture::Aarch64 => true,
        Architecture::X86_64 => true,
        Architecture::Other => false,
    };
    let known_format = match format {
        BinaryFormat::Elf => true,
        BinaryFormat::Macho => true,
        BinaryFormat::Other => false,
    };
    known_architecture && known_format
}

/// The instruction set that a target names.
pub uninterp spec fn target_architecture(target: wasmer_compiler::Target) -> Architecture;

/// The object-file convention that a target names.
pub uninterp spec fn target_binary_format(target: wasmer_compiler::Target) -> BinaryFormat;

/// Reads the instruction set off `Target::triple`: its `architecture` field,
/// with every variant but the two 64-bit ones taken together.
#[verifier::external_body]
pub(crate) fn architecture_of(target: &wasmer_compiler::Target) -> (architecture: Architecture)
    ensures
        architecture == target_architecture(*target),
{
    match target.triple().architecture {
        wasmer_compiler::Architecture::Aarch64(_) => Architecture::Aarch64,
        wasmer_compiler::Architecture::X86_64 => Architecture::X86_64,
        _ => Architecture::Other,
    }
}

/// Reads the object-file convention off `Target::triple`: its
/// `binary_format` field, with every variant but ELF and Mach-O taken
/// together.
#[verifier::external_body]
pub(crate) fn binary_format_of(target: &wasmer_compiler::Target) -> (format: BinaryFormat)
    ensures
        format == target_binary_format(*target),
{
    match target.triple().binary_format {
        wasmer_compiler::BinaryFormat::Elf => BinaryFormat::Elf,
        wasmer_compiler::BinaryFormat::Macho => BinaryFormat::Macho,
        _ => BinaryFormat::Other,
    }
}

} // verus!

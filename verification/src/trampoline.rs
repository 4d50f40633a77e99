//! Trampolines for runtime routines.
//!
//! Compiled code cannot reach a runtime routine with an ordinary branch, and
//! a dynamic library cannot import the routine from the program that loads
//! it. So the object gets a table of function pointers in its zero-filled
//! data, one slot for each routine, and for each routine a stub of fixed
//! size in its code that jumps through the routine's slot. The loader fills
//! the table before any stub runs.

use crate::object_file::add_relocation;
use crate::object_file::add_symbol;
use crate::object_file::add_symbol_bss;
use crate::object_file::add_symbol_data;
use crate::object_file::align_up;
use crate::object_file::mangled;
use crate::object_file::object_sections;
use crate::object_file::object_target;
use crate::object_file::standard_section;
use crate::object_file::StandardSection;
use crate::object_file::object_settings;
use crate::object_file::object_symbols;
use crate::object_file::object_view;
use crate::object_file::overwritten;
use crate::object_file::section_index;
use crate::object_file::set_symbol_data;
use crate::object_file::symbol_extent;
use crate::object_file::symbol_index;
use crate::object_file::word_bytes;
use crate::object_file::zeros;
use crate::object_file::ObjectModel;
use crate::object_file::Relocation;
use crate::object_file::RelocationKind;
use crate::object_file::RelocationModel;
use crate::object_file::SectionModel;
use crate::object_file::SymbolKind;
use crate::object_file::SymbolModel;
use crate::object_file::SymbolScope;
use crate::libcall::libcall_names;
use crate::libcall::LIBCALL_COUNT;
use crate::target::architecture_of;
use crate::target::binary_format_of;
use crate::target::is_supported;
use crate::target::supported;
use crate::target::target_architecture;
use crate::target::target_binary_format;
use crate::target::Architecture;
use crate::target::BinaryFormat;
use object::write::Object;
use object::write::SectionId;
use object::write::SymbolId;
use vstd::prelude::*;

verus! {

/// The width in bytes of one slot of the table.
pub const SLOT_SIZE: u64 = 8;

/// The ELF relocation type for the page of an address, relative to the
/// place, in an `ADRP` instruction.
pub const R_AARCH64_ADR_PREL_PG_HI21: u32 = 275;

/// The ELF relocation type for the offset of an address within its page, in
/// a 64-bit load.
pub const R_AARCH64_LDST64_ABS_LO12_NC: u32 = 286;

/// The Mach-O relocation type for the page of an address.
pub const ARM64_RELOC_PAGE21: u8 = 3;

/// The Mach-O relocation type for the offset of an address within its page.
pub const ARM64_RELOC_PAGEOFF12: u8 = 4;

/// The name of the symbol that the dynamic library exports and that points
/// to the table: `WASMER_TRAMPOLINES`.
pub const WASMER_TRAMPOLINES_SYMBOL: [u8; 18] = [
    0x57, 0x41, 0x53, 0x4d, 0x45, 0x52, 0x5f, 0x54, 0x52, 0x41, 0x4d, 0x50, 0x4f, 0x4c, 0x49, 0x4e,
    0x45, 0x53,
];

/// The name of the local symbol that points to the table and that no symbol
/// from outside can take the place of: `WASMER_TRAMPOLINES_INTERNAL`.
pub const WASMER_TRAMPOLINES_SYMBOL_INTERNAL: [u8; 27] = [
    0x57, 0x41, 0x53, 0x4d, 0x45, 0x52, 0x5f, 0x54, 0x52, 0x41, 0x4d, 0x50, 0x4f, 0x4c, 0x49, 0x4e,
    0x45, 0x53, 0x5f, 0x49, 0x4e, 0x54, 0x45, 0x52, 0x4e, 0x41, 0x4c,
];

/// The stub for 64-bit ARM, three instructions of which the first two are
/// relocated:
/// `ADRP x17, page of the slot`, `LDR x17, [x17, offset within the page]`,
/// `BR x17`. Of the two scratch registers that the procedure call standard
/// offers, only `x17` is free on every system.
pub const AARCH64_TRAMPOLINE: [u8; 12] = [
    0x11, 0x00, 0x00, 0x90, 0x31, 0x02, 0x40, 0xf9, 0x20, 0x02, 0x1f, 0xd6,
];

/// The stub for 64-bit x86, one instruction whose last four bytes are
/// relocated: `JMP [RIP + distance to the slot]`.
pub const X86_64_TRAMPOLINE: [u8; 6] = [0xff, 0x25, 0x00, 0x00, 0x00, 0x00];

/// The stub of an instruction set, before relocation.
pub open spec fn stub_code(architecture: Architecture) -> Seq<u8> {
    match architecture {
        Architecture::Aarch64 => AARCH64_TRAMPOLINE@,
        Architecture::X86_64 => X86_64_TRAMPOLINE@,
        Architecture::Other => Seq::empty(),
    }
}

/// The size in bytes of every stub of an instruction set.
pub open spec fn stub_size(architecture: Architecture) -> int {
    match architecture {
        Architecture::Aarch64 => 12,
        Architecture::X86_64 => 6,
        Architecture::Other => 0,
    }
}

/// The alignment of the stubs of an instruction set.
pub open spec fn stub_align(architecture: Architecture) -> u64 {
    match architecture {
        Architecture::Aarch64 => 4,
        _ => 1,
    }
}

/// The number of relocations in a stub.
pub open spec fn relocations_per_stub(architecture: Architecture) -> int {
    match architecture {
        Architecture::Aarch64 => 2,
        Architecture::X86_64 => 1,
        Architecture::Other => 0,
    }
}

/// The offset, from the start of the table, of the slot of the routine at
/// position `index`.
pub open spec fn slot_offset(index: int) -> int {
    index * 8
}

/// How far behind the relocated place the processor starts to count a
/// distance: the four bytes of the place itself on 64-bit x86, where the
/// distance is counted from the end of the instruction; nothing on 64-bit
/// ARM, whose relocations are not distances from the place.
pub open spec fn displacement_bias(architecture: Architecture) -> int {
    match architecture {
        Architecture::X86_64 => 4,
        _ => 0,
    }
}

/// The addend of the relocations of the stub at position `index`: the
/// offset of its slot, less the bias of the instruction set.
pub open spec fn stub_addend(architecture: Architecture, index: int) -> int {
    slot_offset(index) - displacement_bias(architecture)
}

/// The relocation type, on 64-bit ARM, for the instruction that computes
/// the page of the slot.
pub open spec fn page_kind(format: BinaryFormat) -> RelocationKind {
    match format {
        BinaryFormat::Elf => RelocationKind::Elf(R_AARCH64_ADR_PREL_PG_HI21),
        BinaryFormat::Macho => RelocationKind::MachO { value: ARM64_RELOC_PAGE21, relative: true },
        BinaryFormat::Other => RelocationKind::Other,
    }
}

/// The relocation type, on 64-bit ARM, for the instruction that loads from
/// the slot's offset within its page.
pub open spec fn page_offset_kind(format: BinaryFormat) -> RelocationKind {
    match format {
        BinaryFormat::Elf => RelocationKind::Elf(R_AARCH64_LDST64_ABS_LO12_NC),
        BinaryFormat::Macho => RelocationKind::MachO {
            value: ARM64_RELOC_PAGEOFF12,
            relative: false,
        },
        BinaryFormat::Other => RelocationKind::Other,
    }
}

/// The relocation number `which` of the stub at position `index`, whose
/// first byte is at `offset` in the code: both refer to the table's symbol
/// and carry `stub_addend`. On 64-bit ARM the first two instructions are
/// relocated; on 64-bit x86 the four bytes behind the two bytes of opcode.
pub open spec fn stub_relocation(
    architecture: Architecture,
    format: BinaryFormat,
    table: nat,
    offset: int,
    index: int,
    which: int,
) -> RelocationModel {
    RelocationModel {
        offset: match architecture {
            Architecture::Aarch64 => (offset + 4 * which) as u64,
            _ => (offset + 2) as u64,
        },
        size: 32,
        kind: match architecture {
            Architecture::Aarch64 => if which == 0 {
                page_kind(format)
            } else {
                page_offset_kind(format)
            },
            _ => RelocationKind::Relative,
        },
        generic: true,
        symbol: table,
        addend: stub_addend(architecture, index) as i64,
    }
}

/// A stub's relocation as the object keeps it. An ELF object keeps it as it
/// is. A Mach-O object keeps the slot's offset in the bytes at the place,
/// and in the record only what is left: the bias, negated.
pub open spec fn kept_relocation(format: BinaryFormat, relocation: RelocationModel) -> RelocationModel {
    match format {
        BinaryFormat::Macho => RelocationModel {
            addend: (relocation.addend - crate::object_file::macho_implicit_addend(
                relocation.kind,
                relocation.addend,
            )) as i64,
            ..relocation
        },
        _ => relocation,
    }
}

/// The relocations of the stub at position `index` as the object keeps
/// them, in the order of their places.
pub open spec fn stub_relocations(
    architecture: Architecture,
    format: BinaryFormat,
    table: nat,
    offset: int,
    index: int,
) -> Seq<RelocationModel> {
    Seq::new(
        relocations_per_stub(architecture) as nat,
        |which: int|
            kept_relocation(
                format,
                stub_relocation(architecture, format, table, offset, index, which),
            ),
    )
}

/// The bytes of the stub at position `index` as the object holds them once
/// its relocations are added. In an ELF object they are the stub's code. In
/// a Mach-O object every relocated place holds the offset of the slot, as
/// four bytes in the object's byte order, unless that offset is zero.
pub open spec fn stub_image(
    architecture: Architecture,
    format: BinaryFormat,
    big_endian: bool,
    index: int,
) -> Seq<u8> {
    let code = stub_code(architecture);
    let word = word_bytes(slot_offset(index) as u32, big_endian);
    if format == BinaryFormat::Macho && index != 0 {
        match architecture {
            Architecture::Aarch64 => overwritten(overwritten(code, 0, word), 4, word),
            Architecture::X86_64 => overwritten(code, 2, word),
            Architecture::Other => code,
        }
    } else {
        code
    }
}

/// The symbol of a stub: local code under the routine's name, `size` bytes
/// at `offset` in the code section.
pub open spec fn stub_symbol(
    prefix: Option<u8>,
    name: Seq<u8>,
    text: nat,
    offset: int,
    size: int,
) -> SymbolModel {
    SymbolModel {
        name: mangled(prefix, name),
        value: offset as u64,
        size: size as u64,
        kind: SymbolKind::Text,
        scope: SymbolScope::Compilation,
        weak: false,
        section: Some(text),
    }
}

/// A code section after one stub was emitted behind its bytes: the stub
/// starts at the next multiple of its alignment.
pub open spec fn section_with_stub(
    before: SectionModel,
    architecture: Architecture,
    format: BinaryFormat,
    big_endian: bool,
    table: nat,
    index: int,
) -> SectionModel {
    let offset = align_up(before.data.len() as int, stub_align(architecture) as int);
    let data = before.data + zeros(offset - before.data.len()) + stub_image(
        architecture,
        format,
        big_endian,
        index,
    );
    SectionModel {
        is_bss: before.is_bss,
        size: data.len() as u64,
        align: if before.align < stub_align(architecture) {
            stub_align(architecture)
        } else {
            before.align
        },
        data,
        relocations: before.relocations + stub_relocations(
            architecture,
            format,
            table,
            offset,
            index,
        ),
    }
}

/// An object after the stub at position `index` was emitted into its code
/// section `text`: one symbol more, which names the stub, and the section as
/// `section_with_stub` says.
pub open spec fn with_trampoline(
    before: ObjectModel,
    text: nat,
    table: nat,
    index: int,
    name: Seq<u8>,
    architecture: Architecture,
) -> ObjectModel {
    let section = before.sections[text as int];
    let offset = align_up(section.data.len() as int, stub_align(architecture) as int);
    ObjectModel {
        symbols: before.symbols.push(
            stub_symbol(
                before.settings.global_prefix,
                name,
                text,
                offset,
                stub_size(architecture),
            ),
        ),
        sections: before.sections.update(
            text as int,
            section_with_stub(
                section,
                architecture,
                before.settings.format,
                before.settings.big_endian,
                table,
                index,
            ),
        ),
        standard: before.standard,
        settings: before.settings,
    }
}

/// What an object must be for stubs to be emitted into it: made for a
/// supported pair of instruction set and convention, with `text` a section
/// of it that holds bytes and `table` a symbol of it that is not visible to
/// dynamically linked objects.
pub open spec fn takes_trampolines(
    object: ObjectModel,
    text: nat,
    table: nat,
    architecture: Architecture,
) -> bool {
    &&& object.settings.architecture == architecture
    &&& is_supported(architecture, object.settings.format)
    &&& text < object.sections.len()
    &&& !object.sections[text as int].is_bss
    &&& table < object.symbols.len()
    &&& object.symbols[table as int].scope != SymbolScope::Dynamic
}

/// The bytes of an array, as a vector.
fn bytes_of<const N: usize>(bytes: &[u8; N]) -> (copy: Vec<u8>)
    ensures
        copy@ == bytes@,
{
    let mut copy: Vec<u8> = Vec::new();
    let mut i: usize = 0;
    while i < N
        invariant
            i <= N,
            copy@ == bytes@.take(i as int),
        decreases N - i,
    {
        copy.push(bytes[i]);
        assert(copy@ =~= bytes@.take(i as int + 1));
        i += 1;
    }
    assert(copy@ =~= bytes@);
    copy
}

/// The code of a stub.
fn stub_bytes(architecture: Architecture) -> (code: Vec<u8>)
    ensures
        code@ == stub_code(architecture),
        code@.len() == stub_size(architecture),
{
    match architecture {
        Architecture::Aarch64 => bytes_of(&AARCH64_TRAMPOLINE),
        Architecture::X86_64 => bytes_of(&X86_64_TRAMPOLINE),
        Architecture::Other => Vec::new(),
    }
}

/// The relocation type for the first instruction of a 64-bit ARM stub.
fn page_relocation(format: BinaryFormat) -> (kind: RelocationKind)
    ensures
        kind == page_kind(format),
{
    match format {
        BinaryFormat::Elf => RelocationKind::Elf(R_AARCH64_ADR_PREL_PG_HI21),
        BinaryFormat::Macho => RelocationKind::MachO { value: ARM64_RELOC_PAGE21, relative: true },
        BinaryFormat::Other => RelocationKind::Other,
    }
}

/// The relocation type for the second instruction of a 64-bit ARM stub.
fn page_offset_relocation(format: BinaryFormat) -> (kind: RelocationKind)
    ensures
        kind == page_offset_kind(format),
{
    match format {
        BinaryFormat::Elf => RelocationKind::Elf(R_AARCH64_LDST64_ABS_LO12_NC),
        BinaryFormat::Macho => RelocationKind::MachO {
            value: ARM64_RELOC_PAGEOFF12,
            relative: false,
        },
        BinaryFormat::Other => RelocationKind::Other,
    }
}

/// Emits the stub of the routine at position `index` into the code section
/// `text`: a local symbol under the routine's name, the stub's code behind
/// the bytes that the section holds, and the relocations that make the stub
/// jump through slot `index` of the table that `trampoline_table` names.
pub fn emit_trampoline(
    obj: &mut Object,
    text: SectionId,
    trampoline_table: SymbolId,
    index: u64,
    name: &Vec<u8>,
    architecture: Architecture,
    format: BinaryFormat,
)
    requires
        takes_trampolines(
            object_view(*old(obj)),
            section_index(text),
            symbol_index(trampoline_table),
            architecture,
        ),
        object_settings(*old(obj)).format == format,
        slot_offset(index as int) <= u32::MAX,
    ensures
        object_view(*final(obj)) == with_trampoline(
            object_view(*old(obj)),
            section_index(text),
            symbol_index(trampoline_table),
            index as int,
            name@,
            architecture,
        ),
{
    let ghost before = object_view(*obj);
    let ghost expected = with_trampoline(
        before,
        section_index(text),
        symbol_index(trampoline_table),
        index as int,
        name@,
        architecture,
    );
    let symbol = add_symbol(obj, name, SymbolKind::Text, SymbolScope::Compilation, text);
    let code = stub_bytes(architecture);
    let slot: i64 = (index * SLOT_SIZE) as i64;
    // Every relocation below is taken: its place lies in the stub, which is
    // in the section by then.
    match architecture {
        Architecture::Aarch64 => {
            assert(4u64 & 3u64 == 0) by (bit_vector);
            let offset = add_symbol_data(obj, symbol, text, &code, 4);
            let first = Relocation {
                offset,
                size: 32,
                kind: page_relocation(format),
                symbol: trampoline_table,
                addend: slot,
            };
            let taken = add_relocation(obj, text, first);
            assert(taken.is_ok());
            let second = Relocation {
                offset: offset + 4,
                size: 32,
                kind: page_offset_relocation(format),
                symbol: trampoline_table,
                addend: slot,
            };
            let taken = add_relocation(obj, text, second);
            assert(taken.is_ok());
            proof {
                let after = object_view(*obj);
                let got = after.sections[section_index(text) as int];
                let want = expected.sections[section_index(text) as int];
                assert(got.data =~= want.data);
                assert(got.relocations =~= want.relocations);
                assert(after.sections =~= expected.sections);
                assert(after.symbols =~= expected.symbols);
            }
        },
        Architecture::X86_64 => {
            assert(1u64 & 0u64 == 0) by (bit_vector);
            let offset = add_symbol_data(obj, symbol, text, &code, 1);
            let only = Relocation {
                offset: offset + 2,
                size: 32,
                kind: RelocationKind::Relative,
                symbol: trampoline_table,
                addend: slot - 4,
            };
            let taken = add_relocation(obj, text, only);
            assert(taken.is_ok());
            proof {
                let after = object_view(*obj);
                let got = after.sections[section_index(text) as int];
                let want = expected.sections[section_index(text) as int];
                assert(got.data =~= want.data);
                assert(got.relocations =~= want.relocations);
                assert(after.sections =~= expected.sections);
                assert(after.symbols =~= expected.symbols);
            }
        },
        Architecture::Other => {},
    }
}

/// Why no trampolines were emitted.
#[derive(Clone, Copy, Debug, PartialEq, Eq, Structural)]
pub enum TrampolineError {
    /// There are no emission rules for the target's instruction set in the
    /// target's convention.
    UnsupportedTarget,
    /// The object was made for another instruction set or convention than
    /// the target names.
    TargetMismatch,
}

/// Where the trampolines of an object are: the two sections that hold them,
/// and the two symbols that point to the table.
#[derive(Clone, Copy, Debug)]
pub struct TrampolineLayout {
    /// The code section, which holds the stubs.
    pub text: SectionId,
    /// The zero-filled data section, which holds the table.
    pub bss: SectionId,
    /// The exported symbol of the table.
    pub table: SymbolId,
    /// The local symbol of the table, which the stubs refer to.
    pub table_internal: SymbolId,
}

/// The greatest number of routines that stubs can be emitted for: the
/// offset of every slot fits the 32 bits of a relocated place.
pub const MAX_TRAMPOLINES: usize = 0x1000_0000;

/// The bytes of each name.
pub open spec fn name_bytes(names: Seq<Vec<u8>>) -> Seq<Seq<u8>> {
    Seq::new(names.len(), |i: int| names[i]@)
}

/// A symbol of the table: data, `size` bytes at `offset` in the section at
/// position `bss`.
pub open spec fn table_symbol(
    prefix: Option<u8>,
    name: Seq<u8>,
    scope: SymbolScope,
    bss: nat,
    offset: int,
    size: int,
) -> SymbolModel {
    SymbolModel {
        name: mangled(prefix, name),
        value: offset as u64,
        size: size as u64,
        kind: SymbolKind::Data,
        scope,
        weak: false,
        section: Some(bss),
    }
}

/// The offset in the code section of the stub at position `index`, where
/// the first stub is at `base`: the stubs follow each other without a gap.
pub open spec fn stub_offset(architecture: Architecture, base: int, index: int) -> int {
    base + index * stub_size(architecture)
}

/// The bytes of the first `count` stubs, one behind the other.
pub open spec fn stubs_image(
    architecture: Architecture,
    format: BinaryFormat,
    big_endian: bool,
    count: nat,
) -> Seq<u8>
    decreases count,
{
    if count == 0 {
        Seq::empty()
    } else {
        stubs_image(architecture, format, big_endian, (count - 1) as nat) + stub_image(
            architecture,
            format,
            big_endian,
            count - 1,
        )
    }
}

/// The relocations of the first `count` stubs, in the order of their
/// places, where the first stub is at `base`.
pub open spec fn stubs_relocations(
    architecture: Architecture,
    format: BinaryFormat,
    table: nat,
    base: int,
    count: nat,
) -> Seq<RelocationModel>
    decreases count,
{
    if count == 0 {
        Seq::empty()
    } else {
        stubs_relocations(architecture, format, table, base, (count - 1) as nat)
            + stub_relocations(
            architecture,
            format,
            table,
            stub_offset(architecture, base, count - 1),
            count - 1,
        )
    }
}

/// The symbols of the first `count` stubs: stub `i` under the name of
/// routine `i`.
pub open spec fn stub_symbols(
    prefix: Option<u8>,
    names: Seq<Seq<u8>>,
    text: nat,
    architecture: Architecture,
    base: int,
    count: nat,
) -> Seq<SymbolModel> {
    Seq::new(
        count,
        |i: int|
            stub_symbol(
                prefix,
                names[i],
                text,
                stub_offset(architecture, base, i),
                stub_size(architecture),
            ),
    )
}

/// A code section after the first `count` stubs were emitted behind its
/// bytes. The first stub starts at the next multiple of the stubs'
/// alignment. With no stub the section is as before.
pub open spec fn code_with_stubs(
    before: SectionModel,
    architecture: Architecture,
    format: BinaryFormat,
    big_endian: bool,
    table: nat,
    count: nat,
) -> SectionModel {
    let base = align_up(before.data.len() as int, stub_align(architecture) as int);
    let data = before.data + zeros(base - before.data.len()) + stubs_image(
        architecture,
        format,
        big_endian,
        count,
    );
    if count == 0 {
        before
    } else {
        SectionModel {
            is_bss: before.is_bss,
            size: data.len() as u64,
            align: if before.align < stub_align(architecture) {
                stub_align(architecture)
            } else {
                before.align
            },
            data,
            relocations: before.relocations + stubs_relocations(
                architecture,
                format,
                table,
                base,
                count,
            ),
        }
    }
}

/// An object after the table for `names.len()` routines and the stubs of the
/// first `count` of them were emitted, into its zero-filled data section
/// `bss` and its code section `text`.
///
/// Two symbols are added for the table and stand for the same bytes: the
/// exported one, and behind it the local one, which the stubs refer to.
/// Behind them comes one symbol for each stub. The data section grows by
/// one slot for each routine, aligned to a slot. The code section grows as
/// `code_with_stubs` says.
pub open spec fn with_trampolines_upto(
    before: ObjectModel,
    text: nat,
    bss: nat,
    names: Seq<Seq<u8>>,
    architecture: Architecture,
    count: nat,
) -> ObjectModel {
    let table = before.symbols.len();
    let data = before.sections[bss as int];
    let code = before.sections[text as int];
    let prefix = before.settings.global_prefix;
    let table_offset = align_up(data.size as int, SLOT_SIZE as int);
    let table_size = names.len() * SLOT_SIZE;
    let base = align_up(code.data.len() as int, stub_align(architecture) as int);
    ObjectModel {
        symbols: before.symbols + seq![
            table_symbol(
                prefix,
                WASMER_TRAMPOLINES_SYMBOL@,
                SymbolScope::Dynamic,
                bss,
                table_offset,
                table_size,
            ),
            table_symbol(
                prefix,
                WASMER_TRAMPOLINES_SYMBOL_INTERNAL@,
                SymbolScope::Compilation,
                bss,
                table_offset,
                table_size,
            ),
        ] + stub_symbols(prefix, names, text, architecture, base, count),
        sections: before.sections.update(
            bss as int,
            data.with_bss(table_size as u64, SLOT_SIZE),
        ).update(
            text as int,
            code_with_stubs(
                code,
                architecture,
                before.settings.format,
                before.settings.big_endian,
                table + 1,
                count,
            ),
        ),
        standard: before.standard,
        settings: before.settings,
    }
}

/// An object after the table and the stubs of all the routines that `names`
/// names were emitted.
pub open spec fn with_trampolines(
    before: ObjectModel,
    text: nat,
    bss: nat,
    names: Seq<Seq<u8>>,
    architecture: Architecture,
) -> ObjectModel {
    with_trampolines_upto(before, text, bss, names, architecture, names.len())
}

/// An object once it has its two standard sections: a section that the
/// object did not have yet is added behind the others, empty, the code
/// section first.
pub open spec fn with_standard_sections(before: ObjectModel) -> ObjectModel {
    before.with_standard_section(StandardSection::Text).with_standard_section(
        StandardSection::UninitializedData,
    )
}

/// The position of the code section in an object once it has its standard
/// sections.
pub open spec fn text_index(before: ObjectModel) -> nat {
    before.standard_index(StandardSection::Text)
}

/// The position of the zero-filled data section in an object once it has
/// its standard sections.
pub open spec fn bss_index(before: ObjectModel) -> nat {
    before.with_standard_section(StandardSection::Text).standard_index(
        StandardSection::UninitializedData,
    )
}

/// Whether the table for `count` routines can be appended to every
/// zero-filled section of an object without its size leaving 64 bits.
pub open spec fn table_fits(object: ObjectModel, count: nat) -> bool {
    forall|i: int|
        0 <= i < object.sections.len() && (#[trigger] object.sections[i]).is_bss ==> align_up(
            object.sections[i].size as int,
            SLOT_SIZE as int,
        ) + count * SLOT_SIZE <= u64::MAX
}

/// What an object must be for a table and stubs to be emitted into its
/// sections `text` and `bss`.
pub open spec fn takes_table(
    object: ObjectModel,
    text: nat,
    bss: nat,
    architecture: Architecture,
) -> bool {
    &&& object.settings.architecture == architecture
    &&& is_supported(architecture, object.settings.format)
    &&& text < object.sections.len()
    &&& !object.sections[text as int].is_bss
    &&& bss < object.sections.len()
    &&& object.sections[bss as int].is_bss
}

/// The stubs are all of one size: `count` of them take `count` times the
/// size of one.
pub proof fn stubs_image_len(
    architecture: Architecture,
    format: BinaryFormat,
    big_endian: bool,
    count: nat,
)
    ensures
        stubs_image(architecture, format, big_endian, count).len() == count * stub_size(
            architecture,
        ),
    decreases count,
{
    if count > 0 {
        stubs_image_len(architecture, format, big_endian, (count - 1) as nat);
        assert(stub_image(architecture, format, big_endian, count - 1).len() == stub_size(
            architecture,
        ));
        assert(count * stub_size(architecture) == (count - 1) * stub_size(architecture)
            + stub_size(architecture)) by (nonlinear_arith);
    }
}

/// In a code section, emitting the stub at position `count` behind the
/// first `count` stubs gives the first `count + 1` stubs, and the stub
/// starts where the stubs before it end.
proof fn stub_follows_in_section(
    code: SectionModel,
    architecture: Architecture,
    format: BinaryFormat,
    big_endian: bool,
    table: nat,
    count: nat,
)
    requires
        architecture != Architecture::Other,
    ensures
        section_with_stub(
            code_with_stubs(code, architecture, format, big_endian, table, count),
            architecture,
            format,
            big_endian,
            table,
            count as int,
        ) == code_with_stubs(code, architecture, format, big_endian, table, count + 1),
        align_up(
            code_with_stubs(code, architecture, format, big_endian, table, count).data.len() as int,
            stub_align(architecture) as int,
        ) == stub_offset(
            architecture,
            align_up(code.data.len() as int, stub_align(architecture) as int),
            count as int,
        ),
{
    let align = stub_align(architecture) as int;
    let size = stub_size(architecture);
    let base = align_up(code.data.len() as int, align);
    let held = code_with_stubs(code, architecture, format, big_endian, table, count);
    let next = code_with_stubs(code, architecture, format, big_endian, table, count + 1);
    let images = stubs_image(architecture, format, big_endian, count);
    let image = stub_image(architecture, format, big_endian, count as int);
    let gap = zeros(base - code.data.len());
    stubs_image_len(architecture, format, big_endian, count);
    crate::object_file::align_up_is_aligned(code.data.len() as int, align);
    assert(base % align == 0 && code.data.len() <= base);
    assert(count * size % align == 0) by {
        if architecture == Architecture::Aarch64 {
            assert(count * 12 == 4 * (count * 3));
        }
    }
    let start = align_up(held.data.len() as int, align);
    if count == 0 {
        assert(held == code);
        assert(start == base);
        assert(images =~= Seq::<u8>::empty());
    } else {
        assert(held.data == code.data + gap + images);
        assert(held.data.len() == base + count * size);
        assert((base + count * size) % align == 0);
        assert(start == base + count * size);
        assert(zeros(start - held.data.len()) =~= Seq::<u8>::empty());
    }
    assert(start == stub_offset(architecture, base, count as int));
    let stepped = section_with_stub(held, architecture, format, big_endian, table, count as int);
    assert(stubs_image(architecture, format, big_endian, count + 1) == images + image);
    assert(stepped.data =~= code.data + gap + (images + image));
    assert(stepped.data =~= next.data);
    assert(stubs_relocations(architecture, format, table, base, count + 1) == stubs_relocations(
        architecture,
        format,
        table,
        base,
        count,
    ) + stub_relocations(architecture, format, table, start, count as int));
    assert(stepped.relocations =~= next.relocations);
}

/// Emitting the stub at position `count` behind the first `count` stubs
/// gives the first `count + 1` stubs.
proof fn stub_follows_stubs(
    before: ObjectModel,
    text: nat,
    bss: nat,
    names: Seq<Seq<u8>>,
    architecture: Architecture,
    count: nat,
)
    requires
        takes_table(before, text, bss, architecture),
        count < names.len(),
    ensures
        with_trampoline(
            with_trampolines_upto(before, text, bss, names, architecture, count),
            text,
            before.symbols.len() + 1,
            count as int,
            names[count as int],
            architecture,
        ) == with_trampolines_upto(before, text, bss, names, architecture, count + 1),
{
    let format = before.settings.format;
    let big_endian = before.settings.big_endian;
    let table = before.symbols.len() + 1;
    let code = before.sections[text as int];
    let current = with_trampolines_upto(before, text, bss, names, architecture, count);
    let next = with_trampolines_upto(before, text, bss, names, architecture, count + 1);
    let stepped = with_trampoline(
        current,
        text,
        table,
        count as int,
        names[count as int],
        architecture,
    );
    stub_follows_in_section(code, architecture, format, big_endian, table, count);
    assert(current.sections[text as int] == code_with_stubs(
        code,
        architecture,
        format,
        big_endian,
        table,
        count,
    ));
    assert(next.sections[text as int] == code_with_stubs(
        code,
        architecture,
        format,
        big_endian,
        table,
        count + 1,
    ));
    assert(stepped.sections[text as int] == next.sections[text as int]);
    assert(stepped.sections =~= next.sections);
    assert(stepped.symbols =~= next.symbols);
}

/// Emits the table and the stubs for the routines that `names` names, in
/// their order, into the zero-filled data section `bss` and the code section
/// `text` of an object made for the target. Returns the exported symbol of
/// the table and the local one.
pub fn emit_trampolines_in(
    obj: &mut Object,
    text: SectionId,
    bss: SectionId,
    names: &Vec<Vec<u8>>,
    architecture: Architecture,
    format: BinaryFormat,
) -> (symbols: (SymbolId, SymbolId))
    requires
        takes_table(
            object_view(*old(obj)),
            section_index(text),
            section_index(bss),
            architecture,
        ),
        object_settings(*old(obj)).format == format,
        names@.len() <= MAX_TRAMPOLINES,
        align_up(
            object_sections(*old(obj))[section_index(bss) as int].size as int,
            SLOT_SIZE as int,
        ) + names@.len() * SLOT_SIZE <= u64::MAX,
    ensures
        object_view(*final(obj)) == with_trampolines(
            object_view(*old(obj)),
            section_index(text),
            section_index(bss),
            name_bytes(names@),
            architecture,
        ),
        symbol_index(symbols.0) == object_symbols(*old(obj)).len(),
        symbol_index(symbols.1) == object_symbols(*old(obj)).len() + 1,
{
    let ghost before = object_view(*obj);
    let ghost all = name_bytes(names@);
    let count = names.len();
    assert(8u64 & 7u64 == 0) by (bit_vector);
    // Two symbols point to the table: relocations that do not go through a
    // table of addresses cannot refer to an exported symbol, so the stubs
    // refer to a local one.
    let exported = bytes_of(&WASMER_TRAMPOLINES_SYMBOL);
    let trampoline_table = add_symbol(obj, &exported, SymbolKind::Data, SymbolScope::Dynamic, bss);
    add_symbol_bss(obj, trampoline_table, bss, count as u64 * SLOT_SIZE, SLOT_SIZE);
    let local = bytes_of(&WASMER_TRAMPOLINES_SYMBOL_INTERNAL);
    let trampoline_table_internal = add_symbol(
        obj,
        &local,
        SymbolKind::Data,
        SymbolScope::Compilation,
        bss,
    );
    let (value, size) = symbol_extent(obj, trampoline_table);
    set_symbol_data(obj, trampoline_table_internal, bss, value, size);
    proof {
        let after = object_view(*obj);
        let want = with_trampolines_upto(
            before,
            section_index(text),
            section_index(bss),
            all,
            architecture,
            0,
        );
        assert(after.symbols =~= want.symbols);
        assert(after.sections =~= want.sections);
    }
    let mut i: usize = 0;
    while i < count
        invariant
            i <= count,
            count == names@.len(),
            count <= MAX_TRAMPOLINES,
            all == name_bytes(names@),
            takes_table(before, section_index(text), section_index(bss), architecture),
            before.settings.format == format,
            symbol_index(trampoline_table_internal) == before.symbols.len() + 1,
            object_view(*obj) == with_trampolines_upto(
                before,
                section_index(text),
                section_index(bss),
                all,
                architecture,
                i as nat,
            ),
        decreases count - i,
    {
        proof {
            stub_follows_stubs(
                before,
                section_index(text),
                section_index(bss),
                all,
                architecture,
                i as nat,
            );
        }
        emit_trampoline(
            obj,
            text,
            trampoline_table_internal,
            i as u64,
            &names[i],
            architecture,
            format,
        );
        i += 1;
    }
    (trampoline_table, trampoline_table_internal)
}

/// Whether `after` is `before` with the table and the stubs for `names`
/// emitted for a target, and `layout` tells where: the object has its two
/// standard sections, the table's symbols are the first two that were
/// added, and the rest is as `with_trampolines` says.
pub open spec fn trampolines_emitted(
    before: ObjectModel,
    after: ObjectModel,
    layout: TrampolineLayout,
    names: Seq<Seq<u8>>,
    architecture: Architecture,
) -> bool {
    let text = text_index(before);
    let bss = bss_index(before);
    let staged = with_standard_sections(before);
    &&& section_index(layout.text) == text
    &&& section_index(layout.bss) == bss
    &&& takes_table(staged, text, bss, architecture)
    &&& symbol_index(layout.table) == before.symbols.len()
    &&& symbol_index(layout.table_internal) == before.symbols.len() + 1
    &&& after == with_trampolines(staged, text, bss, names, architecture)
}

/// Emission is a function of what it is given. From one content of an
/// object, for one target and one list of names, it leads to one content,
/// with the trampolines in the same places, however often it is done.
pub proof fn emission_is_repeatable(
    before: ObjectModel,
    first: ObjectModel,
    first_layout: TrampolineLayout,
    second: ObjectModel,
    second_layout: TrampolineLayout,
    names: Seq<Seq<u8>>,
    architecture: Architecture,
)
    requires
        trampolines_emitted(before, first, first_layout, names, architecture),
        trampolines_emitted(before, second, second_layout, names, architecture),
    ensures
        first == second,
        section_index(first_layout.text) == section_index(second_layout.text),
        section_index(first_layout.bss) == section_index(second_layout.bss),
        symbol_index(first_layout.table) == symbol_index(second_layout.table),
        symbol_index(first_layout.table_internal) == symbol_index(second_layout.table_internal),
{
}

/// Whether an object was made for this instruction set and convention.
pub open spec fn made_for(
    object: ObjectModel,
    architecture: Architecture,
    format: BinaryFormat,
) -> bool {
    object.settings.architecture == architecture && object.settings.format == format
}

/// Emits the table and the stubs for the routines that `names` names, in
/// their order, to an object file.
///
/// Nothing is emitted, and the object stays as it is, where there are no
/// emission rules for the target or the object was made for another target.
/// Else the object gets its code section and its zero-filled data section,
/// if it did not have them, and the table and the stubs in them.
pub fn emit_trampolines_for(
    obj: &mut Object,
    architecture: Architecture,
    format: BinaryFormat,
    names: &Vec<Vec<u8>>,
) -> (done: Result<TrampolineLayout, TrampolineError>)
    requires
        names@.len() <= MAX_TRAMPOLINES,
        table_fits(object_view(*old(obj)), names@.len()),
    ensures
        !is_supported(architecture, format) <==> done == Err::<TrampolineLayout, TrampolineError>(
            TrampolineError::UnsupportedTarget,
        ),
        is_supported(architecture, format) && !made_for(
            object_view(*old(obj)),
            architecture,
            format,
        ) <==> done == Err::<TrampolineLayout, TrampolineError>(TrampolineError::TargetMismatch),
        done.is_err() ==> *final(obj) == *old(obj),
        match done {
            Ok(layout) => trampolines_emitted(
                object_view(*old(obj)),
                object_view(*final(obj)),
                layout,
                name_bytes(names@),
                architecture,
            ),
            Err(_) => true,
        },
{
    if !supported(architecture, format) {
        return Err(TrampolineError::UnsupportedTarget);
    }
    let (object_architecture, object_format) = object_target(obj);
    if object_architecture != architecture || object_format != format {
        return Err(TrampolineError::TargetMismatch);
    }
    let ghost before = object_view(*obj);
    let text = standard_section(obj, StandardSection::Text);
    let bss = standard_section(obj, StandardSection::UninitializedData);
    proof {
        assert(object_view(*obj) == with_standard_sections(before));
    }
    let (table, table_internal) = emit_trampolines_in(obj, text, bss, names, architecture, format);
    Ok(TrampolineLayout { text, bss, table, table_internal })
}

/// Emits the trampolines of all runtime routines and their table to an
/// object file, for a target.
///
/// Nothing is emitted, and the object stays as it is, where there are no
/// emission rules for the target or the object was made for another target.
/// Else the object is as `emit_trampolines_for` leaves it, with one name for
/// each runtime routine, in the order of the routines.
pub fn emit_trampolines(obj: &mut Object, target: &wasmer_compiler::Target) -> (done: Result<
    (),
    TrampolineError,
>)
    requires
        table_fits(object_view(*old(obj)), LIBCALL_COUNT as nat),
    ensures
        !is_supported(target_architecture(*target), target_binary_format(*target)) <==> done
            == Err::<(), TrampolineError>(TrampolineError::UnsupportedTarget),
        is_supported(target_architecture(*target), target_binary_format(*target)) && !made_for(
            object_view(*old(obj)),
            target_architecture(*target),
            target_binary_format(*target),
        ) <==> done == Err::<(), TrampolineError>(TrampolineError::TargetMismatch),
        done.is_err() ==> *final(obj) == *old(obj),
        done.is_ok() ==> exists|layout: TrampolineLayout, names: Seq<Seq<u8>>|
            names.len() == LIBCALL_COUNT && trampolines_emitted(
                object_view(*old(obj)),
                object_view(*final(obj)),
                layout,
                names,
                target_architecture(*target),
            ),
{
    let architecture = architecture_of(target);
    let format = binary_format_of(target);
    if !supported(architecture, format) {
        return Err(TrampolineError::UnsupportedTarget);
    }
    let names = libcall_names();
    match emit_trampolines_for(obj, architecture, format, &names) {
        Ok(layout) => {
            assert(name_bytes(names@).len() == LIBCALL_COUNT);
            Ok(())
        },
        Err(error) => Err(error),
    }
}

/// Fills the table of a loaded library: slot `i` gets the address of the
/// runtime routine at position `i`, as `addresses` lists them. Slots behind
/// the last routine stay as they are.
pub fn fill_trampoline_table(table: &mut Vec<usize>, addresses: &Vec<usize>)
    requires
        addresses@.len() <= old(table)@.len(),
    ensures
        final(table)@.len() == old(table)@.len(),
        forall|i: int| 0 <= i < addresses@.len() ==> final(table)@[i] == addresses@[i],
        forall|i: int|
            addresses@.len() <= i < old(table)@.len() ==> final(table)@[i] == old(table)@[i],
{
    let mut i: usize = 0;
    while i < addresses.len()
        invariant
            i <= addresses@.len(),
            addresses@.len() <= table@.len(),
            table@.len() == old(table)@.len(),
            forall|k: int| 0 <= k < i ==> table@[k] == addresses@[k],
            forall|k: int| i <= k < table@.len() ==> table@[k] == old(table)@[k],
        decreases addresses@.len() - i,
    {
        table.set(i, addresses[i]);
        i += 1;
    }
}

} // verus!

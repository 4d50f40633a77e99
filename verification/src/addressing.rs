//! How the stubs and the table address each other: which slot a stub jumps
//! through, and where the stub, its symbol and its relocations are in an
//! object that the trampolines were emitted into.

use crate::object_file::align_up;
use crate::object_file::ObjectModel;
use crate::object_file::SectionModel;
use crate::object_file::SymbolScope;
use crate::target::is_supported;
use crate::target::Architecture;
use crate::target::BinaryFormat;
use crate::trampoline::code_with_stubs;
use crate::trampoline::displacement_bias;
use crate::trampoline::kept_relocation;
use crate::trampoline::relocations_per_stub;
use crate::trampoline::slot_offset;
use crate::trampoline::stub_align;
use crate::trampoline::stub_image;
use crate::trampoline::stub_offset;
use crate::trampoline::stub_relocation;
use crate::trampoline::stub_relocations;
use crate::trampoline::stub_size;
use crate::trampoline::stub_symbol;
use crate::trampoline::stubs_image;
use crate::trampoline::stubs_image_len;
use crate::trampoline::stubs_relocations;
use crate::trampoline::table_symbol;
use crate::trampoline::takes_table;
use crate::trampoline::with_trampolines;
use crate::trampoline::SLOT_SIZE;
use crate::trampoline::WASMER_TRAMPOLINES_SYMBOL;
use crate::trampoline::WASMER_TRAMPOLINES_SYMBOL_INTERNAL;
use vstd::prelude::*;

verus! {

/// Every relocation of the stub at position `index` refers to the table's
/// symbol and addresses slot `index`: its addend, with the bias of the
/// instruction set added back, is `index` times the width of a slot. On
/// 64-bit ARM, which has no bias, the addend is that product itself; on
/// 64-bit x86 it is four less.
pub proof fn stub_addresses_its_slot(
    architecture: Architecture,
    format: BinaryFormat,
    table: nat,
    offset: int,
    index: int,
    which: int,
)
    requires
        is_supported(architecture, format),
        0 <= index,
        slot_offset(index) <= u32::MAX,
        0 <= which < relocations_per_stub(architecture),
    ensures
        stub_relocation(architecture, format, table, offset, index, which).symbol == table,
        stub_relocation(architecture, format, table, offset, index, which).addend
            + displacement_bias(architecture) == index * SLOT_SIZE,
        architecture == Architecture::Aarch64 ==> stub_relocation(
            architecture,
            format,
            table,
            offset,
            index,
            which,
        ).addend == index * SLOT_SIZE,
        architecture == Architecture::X86_64 ==> stub_relocation(
            architecture,
            format,
            table,
            offset,
            index,
            which,
        ).addend == index * SLOT_SIZE - 4,
{
}

/// What an object keeps of a stub's relocation still addresses slot
/// `index`. An ELF object keeps the addend in the record. A Mach-O object
/// keeps the offset of the slot in the bytes at the place and the negated
/// bias in the record: together they are the addend again.
pub proof fn kept_relocation_addresses_its_slot(
    architecture: Architecture,
    format: BinaryFormat,
    table: nat,
    offset: int,
    index: int,
    which: int,
)
    requires
        is_supported(architecture, format),
        0 <= index,
        slot_offset(index) <= u32::MAX,
        0 <= which < relocations_per_stub(architecture),
    ensures
        ({
            let asked = stub_relocation(architecture, format, table, offset, index, which);
            let kept = kept_relocation(format, asked);
            &&& kept.symbol == table
            &&& kept.offset == asked.offset
            &&& kept.kind == asked.kind
            &&& format == BinaryFormat::Elf ==> kept.addend + displacement_bias(architecture)
                == index * SLOT_SIZE
            &&& format == BinaryFormat::Macho ==> kept.addend == -displacement_bias(architecture)
        }),
{
}

/// The slots of two different routines do not overlap, so no two stubs jump
/// through the same slot.
pub proof fn slots_are_disjoint(first: int, second: int)
    requires
        first != second,
    ensures
        slot_offset(first) + SLOT_SIZE <= slot_offset(second) || slot_offset(second) + SLOT_SIZE
            <= slot_offset(first),
{
}

/// The stubs of a supported instruction set have their size, and that size
/// is a multiple of their alignment: stubs that follow each other need no
/// gap.
pub proof fn stubs_have_one_size(architecture: Architecture, format: BinaryFormat)
    requires
        is_supported(architecture, format),
    ensures
        crate::trampoline::stub_code(architecture).len() == stub_size(architecture),
        stub_size(architecture) > 0,
        stub_size(architecture) % (stub_align(architecture) as int) == 0,
        architecture == Architecture::Aarch64 ==> stub_size(architecture) == 12,
        architecture == Architecture::X86_64 ==> stub_size(architecture) == 6,
{
}

/// Among the relocations of the first `count` stubs, those of the stub at
/// position `index` stand at `index` times the number of relocations in a
/// stub.
pub proof fn relocations_of_stub(
    architecture: Architecture,
    format: BinaryFormat,
    table: nat,
    base: int,
    count: nat,
    index: int,
    which: int,
)
    requires
        0 <= index < count,
        0 <= which < relocations_per_stub(architecture),
    ensures
        stubs_relocations(architecture, format, table, base, count).len() == count
            * relocations_per_stub(architecture),
        stubs_relocations(architecture, format, table, base, count)[index * relocations_per_stub(
            architecture,
        ) + which] == kept_relocation(
            format,
            stub_relocation(
                architecture,
                format,
                table,
                stub_offset(architecture, base, index),
                index,
                which,
            ),
        ),
    decreases count,
{
    let per = relocations_per_stub(architecture);
    relocations_len(architecture, format, table, base, count);
    relocations_len(architecture, format, table, base, (count - 1) as nat);
    assert(count * per == (count - 1) * per + per) by (nonlinear_arith);
    if index == count - 1 {
        let last = stub_relocations(
            architecture,
            format,
            table,
            stub_offset(architecture, base, index),
            index,
        );
        assert(last[which] == kept_relocation(
            format,
            stub_relocation(
                architecture,
                format,
                table,
                stub_offset(architecture, base, index),
                index,
                which,
            ),
        ));
    } else {
        relocations_of_stub(
            architecture,
            format,
            table,
            base,
            (count - 1) as nat,
            index,
            which,
        );
        assert(index * per + which < (count - 1) * per) by (nonlinear_arith)
            requires
                0 <= index < count - 1,
                0 <= which < per,
        ;
    }
}

/// The first `count` stubs have `count` times the relocations of one.
proof fn relocations_len(
    architecture: Architecture,
    format: BinaryFormat,
    table: nat,
    base: int,
    count: nat,
)
    ensures
        stubs_relocations(architecture, format, table, base, count).len() == count
            * relocations_per_stub(architecture),
    decreases count,
{
    if count > 0 {
        relocations_len(architecture, format, table, base, (count - 1) as nat);
        assert(count * relocations_per_stub(architecture) == (count - 1) * relocations_per_stub(
            architecture,
        ) + relocations_per_stub(architecture)) by (nonlinear_arith);
    }
}

/// Among the bytes of the first `count` stubs, those of the stub at position
/// `index` stand at `index` times the size of a stub.
pub proof fn image_of_stub(
    architecture: Architecture,
    format: BinaryFormat,
    big_endian: bool,
    count: nat,
    index: int,
)
    requires
        0 <= index < count,
    ensures
        stubs_image(architecture, format, big_endian, count).len() == count * stub_size(
            architecture,
        ),
        0 <= index * stub_size(architecture),
        (index + 1) * stub_size(architecture) <= count * stub_size(architecture),
        stubs_image(architecture, format, big_endian, count).subrange(
            index * stub_size(architecture),
            (index + 1) * stub_size(architecture),
        ) == stub_image(architecture, format, big_endian, index),
    decreases count,
{
    let size = stub_size(architecture);
    let all = stubs_image(architecture, format, big_endian, count);
    let front = stubs_image(architecture, format, big_endian, (count - 1) as nat);
    let last = stub_image(architecture, format, big_endian, count - 1);
    stubs_image_len(architecture, format, big_endian, count);
    stubs_image_len(architecture, format, big_endian, (count - 1) as nat);
    assert(last.len() == size);
    assert(count * size == (count - 1) * size + size) by (nonlinear_arith);
    assert(0 <= index * size && (index + 1) * size <= count * size) by (nonlinear_arith)
        requires
            0 <= index < count,
            0 <= size,
    ;
    assert((index + 1) * size == index * size + size) by (nonlinear_arith);
    if index == count - 1 {
        assert(all.subrange(index * size, (index + 1) * size) =~= last);
    } else {
        image_of_stub(architecture, format, big_endian, (count - 1) as nat, index);
        assert((index + 1) * size <= (count - 1) * size) by (nonlinear_arith)
            requires
                0 <= index < count - 1,
                0 <= size,
        ;
        assert(all.subrange(index * size, (index + 1) * size) =~= front.subrange(
            index * size,
            (index + 1) * size,
        ));
    }
}

/// Once the trampolines for `names` were emitted into an object, the
/// symbols that the object had are followed by the exported symbol of the
/// table and the local one, and then by one symbol for each stub. The two
/// symbols of the table stand for the same bytes of the zero-filled data
/// section: one slot for each routine, so that the slot of every routine
/// lies within them.
pub proof fn table_symbols_are_paired(
    before: ObjectModel,
    text: nat,
    bss: nat,
    names: Seq<Seq<u8>>,
    architecture: Architecture,
    index: int,
)
    requires
        takes_table(before, text, bss, architecture),
        0 <= index < names.len(),
    ensures
        ({
            let after = with_trampolines(before, text, bss, names, architecture);
            let symbols = before.symbols.len() as int;
            let table_offset = align_up(
                before.sections[bss as int].size as int,
                SLOT_SIZE as int,
            );
            &&& after.symbols.len() == symbols + 2 + names.len()
            &&& after.symbols.subrange(0, symbols) == before.symbols
            &&& after.symbols[symbols] == table_symbol(
                before.settings.global_prefix,
                WASMER_TRAMPOLINES_SYMBOL@,
                SymbolScope::Dynamic,
                bss,
                table_offset,
                names.len() * SLOT_SIZE,
            )
            &&& after.symbols[symbols + 1] == table_symbol(
                before.settings.global_prefix,
                WASMER_TRAMPOLINES_SYMBOL_INTERNAL@,
                SymbolScope::Compilation,
                bss,
                table_offset,
                names.len() * SLOT_SIZE,
            )
            &&& after.symbols[symbols].value == after.symbols[symbols + 1].value
            &&& after.symbols[symbols].size == after.symbols[symbols + 1].size
            &&& after.symbols[symbols].section == after.symbols[symbols + 1].section
            &&& slot_offset(index) + SLOT_SIZE <= names.len() * SLOT_SIZE
        }),
{
    let after = with_trampolines(before, text, bss, names, architecture);
    let symbols = before.symbols.len() as int;
    assert(after.symbols.subrange(0, symbols) =~= before.symbols);
    assert(slot_offset(index) + SLOT_SIZE <= names.len() * SLOT_SIZE) by (nonlinear_arith)
        requires
            0 <= index < names.len(),
            slot_offset(index) == index * 8,
            SLOT_SIZE == 8,
    ;
}

/// Once the trampolines for `names` were emitted into an object, the stub
/// at position `index` has its own symbol, under the name of routine
/// `index`, and lies `index` stub sizes behind the first stub, which lies at
/// the first multiple of the stubs' alignment behind the code that the
/// section held.
pub proof fn stub_symbol_is_placed(
    before: ObjectModel,
    text: nat,
    bss: nat,
    names: Seq<Seq<u8>>,
    architecture: Architecture,
    index: int,
)
    requires
        takes_table(before, text, bss, architecture),
        0 <= index < names.len(),
    ensures
        ({
            let after = with_trampolines(before, text, bss, names, architecture);
            let base = align_up(
                before.sections[text as int].data.len() as int,
                stub_align(architecture) as int,
            );
            after.symbols[before.symbols.len() + 2 + index] == stub_symbol(
                before.settings.global_prefix,
                names[index],
                text,
                base + index * stub_size(architecture),
                stub_size(architecture),
            )
        }),
{
}

/// A part of bytes that follow others is the same part of the whole, behind
/// the others.
proof fn part_of_what_follows(front: Seq<u8>, rest: Seq<u8>, from: int, to: int)
    requires
        0 <= from <= to <= rest.len(),
    ensures
        (front + rest).subrange(front.len() + from, front.len() + to) == rest.subrange(from, to),
{
    assert((front + rest).subrange(front.len() + from, front.len() + to) =~= rest.subrange(
        from,
        to,
    ));
}

/// A code section that stubs were emitted into holds what it held, zero
/// bytes up to the stubs' alignment, and the stubs.
proof fn stubs_follow_code(
    code: SectionModel,
    architecture: Architecture,
    format: BinaryFormat,
    big_endian: bool,
    table: nat,
    count: nat,
)
    requires
        count > 0,
    ensures
        ({
            let held = code_with_stubs(code, architecture, format, big_endian, table, count);
            let base = align_up(code.data.len() as int, stub_align(architecture) as int);
            let front = code.data + crate::object_file::zeros(base - code.data.len());
            &&& code.data.len() <= base
            &&& front.len() == base
            &&& held.data == front + stubs_image(architecture, format, big_endian, count)
            &&& held.data.len() == base + count * stub_size(architecture)
        }),
{
    crate::object_file::align_up_is_aligned(
        code.data.len() as int,
        stub_align(architecture) as int,
    );
    stubs_image_len(architecture, format, big_endian, count);
}

/// What more bytes were appended to twice still starts with the same bytes.
proof fn start_stays(first: Seq<u8>, second: Seq<u8>, third: Seq<u8>)
    ensures
        (first + second + third).subrange(0, first.len() as int) == first,
{
    assert((first + second + third).subrange(0, first.len() as int) =~= first);
}

/// In a code section that stubs were emitted into, the code that the
/// section held is still there, and the bytes of the stub at position
/// `index` are its image.
proof fn stub_bytes_in_section(
    code: SectionModel,
    architecture: Architecture,
    format: BinaryFormat,
    big_endian: bool,
    table: nat,
    count: nat,
    index: int,
)
    requires
        0 <= index < count,
    ensures
        ({
            let held = code_with_stubs(code, architecture, format, big_endian, table, count);
            let base = align_up(code.data.len() as int, stub_align(architecture) as int);
            let offset = stub_offset(architecture, base, index);
            &&& held.data.len() == base + count * stub_size(architecture)
            &&& code.data.len() <= base <= offset
            &&& offset + stub_size(architecture) <= held.data.len()
            &&& held.data.subrange(0, code.data.len() as int) == code.data
            &&& held.data.subrange(offset, offset + stub_size(architecture)) == stub_image(
                architecture,
                format,
                big_endian,
                index,
            )
        }),
{
    let held = code_with_stubs(code, architecture, format, big_endian, table, count);
    let base = align_up(code.data.len() as int, stub_align(architecture) as int);
    let size = stub_size(architecture);
    let images = stubs_image(architecture, format, big_endian, count);
    let gap = crate::object_file::zeros(base - code.data.len());
    let from = index * size;
    let to = (index + 1) * size;
    stubs_follow_code(code, architecture, format, big_endian, table, count);
    image_of_stub(architecture, format, big_endian, count, index);
    assert(to == from + size) by (nonlinear_arith)
        requires
            from == index * size,
            to == (index + 1) * size,
    ;
    assert(0 <= from) by (nonlinear_arith)
        requires
            from == index * size,
            0 <= index,
            0 <= size,
    ;
    part_of_what_follows(code.data + gap, images, from, to);
    start_stays(code.data, gap, images);
}

/// Once the trampolines for `names` were emitted into an object, the code
/// that its code section held is still there, and the bytes of the stub at
/// position `index` are its image.
pub proof fn stub_bytes_are_placed(
    before: ObjectModel,
    text: nat,
    bss: nat,
    names: Seq<Seq<u8>>,
    architecture: Architecture,
    index: int,
)
    requires
        takes_table(before, text, bss, architecture),
        0 <= index < names.len(),
    ensures
        ({
            let after = with_trampolines(before, text, bss, names, architecture);
            let code = before.sections[text as int];
            let held = after.sections[text as int];
            let base = align_up(code.data.len() as int, stub_align(architecture) as int);
            let offset = stub_offset(architecture, base, index);
            &&& held.data.len() == base + names.len() * stub_size(architecture)
            &&& code.data.len() <= base <= offset
            &&& offset + stub_size(architecture) <= held.data.len()
            &&& held.data.subrange(0, code.data.len() as int) == code.data
            &&& held.data.subrange(offset, offset + stub_size(architecture)) == stub_image(
                architecture,
                before.settings.format,
                before.settings.big_endian,
                index,
            )
        }),
{
    let after = with_trampolines(before, text, bss, names, architecture);
    assert(after.sections[text as int] == code_with_stubs(
        before.sections[text as int],
        architecture,
        before.settings.format,
        before.settings.big_endian,
        before.symbols.len() + 1,
        names.len(),
    ));
    stub_bytes_in_section(
        before.sections[text as int],
        architecture,
        before.settings.format,
        before.settings.big_endian,
        before.symbols.len() + 1,
        names.len(),
        index,
    );
}

/// Once the trampolines for `names` were emitted into an object, the
/// relocations that its code section held are followed by those of each
/// stub in turn, and those of the stub at position `index` are what the
/// object keeps of `stub_relocation`: they lie in that stub and refer to the
/// local symbol of the table.
pub proof fn stub_relocations_are_placed(
    before: ObjectModel,
    text: nat,
    bss: nat,
    names: Seq<Seq<u8>>,
    architecture: Architecture,
    index: int,
    which: int,
)
    requires
        takes_table(before, text, bss, architecture),
        0 <= index < names.len(),
        0 <= which < relocations_per_stub(architecture),
    ensures
        ({
            let after = with_trampolines(before, text, bss, names, architecture);
            let code = before.sections[text as int];
            let held = after.sections[text as int];
            let base = align_up(code.data.len() as int, stub_align(architecture) as int);
            let per = relocations_per_stub(architecture);
            &&& held.relocations.len() == code.relocations.len() + names.len() * per
            &&& held.relocations.subrange(0, code.relocations.len() as int) == code.relocations
            &&& held.relocations[code.relocations.len() + index * per + which] == kept_relocation(
                before.settings.format,
                stub_relocation(
                    architecture,
                    before.settings.format,
                    before.symbols.len() + 1,
                    stub_offset(architecture, base, index),
                    index,
                    which,
                ),
            )
        }),
{
    let after = with_trampolines(before, text, bss, names, architecture);
    let format = before.settings.format;
    let code = before.sections[text as int];
    let held = after.sections[text as int];
    let base = align_up(code.data.len() as int, stub_align(architecture) as int);
    let per = relocations_per_stub(architecture);
    let table = before.symbols.len() + 1;
    let added = stubs_relocations(architecture, format, table, base, names.len());
    relocations_of_stub(architecture, format, table, base, names.len(), index, which);
    assert(0 <= index * per + which < names.len() * per) by (nonlinear_arith)
        requires
            0 <= index < names.len(),
            0 <= which < per,
    ;
    assert(held.relocations =~= code.relocations + added);
    assert(held.relocations.subrange(0, code.relocations.len() as int) =~= code.relocations);
}

} // verus!

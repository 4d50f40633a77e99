use object::write::Object;
use object::write::Symbol;
use object::write::SymbolSection;
use object::Object as ReadObject;
use object::ObjectSection;
use object::ObjectSymbol;
use wasmer_dylib::target::Architecture;
use wasmer_dylib::target::BinaryFormat;
use wasmer_dylib::trampoline::emit_trampoline;
use wasmer_dylib::trampoline::emit_trampolines;
use wasmer_dylib::trampoline::emit_trampolines_for;
use wasmer_dylib::trampoline::emit_trampolines_in;
use wasmer_dylib::trampoline::fill_trampoline_table;
use wasmer_dylib::trampoline::TrampolineError;
use wasmer_dylib::trampoline::AARCH64_TRAMPOLINE;
use wasmer_dylib::trampoline::ARM64_RELOC_PAGE21;
use wasmer_dylib::trampoline::ARM64_RELOC_PAGEOFF12;
use wasmer_dylib::trampoline::R_AARCH64_ADR_PREL_PG_HI21;
use wasmer_dylib::trampoline::R_AARCH64_LDST64_ABS_LO12_NC;
use wasmer_dylib::trampoline::SLOT_SIZE;
use wasmer_dylib::trampoline::WASMER_TRAMPOLINES_SYMBOL;
use wasmer_dylib::trampoline::WASMER_TRAMPOLINES_SYMBOL_INTERNAL;
use wasmer_dylib::trampoline::X86_64_TRAMPOLINE;

fn new_object(format: object::BinaryFormat, architecture: object::Architecture) -> Object<'static> {
    Object::new(format, architecture, object::Endianness::Little)
}

fn three_names() -> Vec<Vec<u8>> {
    vec![b"first".to_vec(), b"second".to_vec(), b"third".to_vec()]
}

fn all_libcalls() -> Vec<wasmer_vm::libcalls::LibCall> {
    <wasmer_vm::libcalls::LibCall as enum_iterator::IntoEnumIterator>::into_enum_iter().collect()
}

#[test]
fn names_and_numbers_are_those_of_the_conventions() {
    assert_eq!(&WASMER_TRAMPOLINES_SYMBOL[..], &b"WASMER_TRAMPOLINES"[..]);
    assert_eq!(&WASMER_TRAMPOLINES_SYMBOL_INTERNAL[..], &b"WASMER_TRAMPOLINES_INTERNAL"[..]);
    assert_eq!(R_AARCH64_ADR_PREL_PG_HI21, object::elf::R_AARCH64_ADR_PREL_PG_HI21);
    assert_eq!(R_AARCH64_LDST64_ABS_LO12_NC, object::elf::R_AARCH64_LDST64_ABS_LO12_NC);
    assert_eq!(ARM64_RELOC_PAGE21, object::macho::ARM64_RELOC_PAGE21);
    assert_eq!(ARM64_RELOC_PAGEOFF12, object::macho::ARM64_RELOC_PAGEOFF12);
    assert_eq!(SLOT_SIZE, 8);
    assert_eq!(AARCH64_TRAMPOLINE.len(), 12);
    assert_eq!(X86_64_TRAMPOLINE.len(), 6);
    assert_eq!(
        AARCH64_TRAMPOLINE,
        [0x11, 0x00, 0x00, 0x90, 0x31, 0x02, 0x40, 0xf9, 0x20, 0x02, 0x1f, 0xd6]
    );
    assert_eq!(X86_64_TRAMPOLINE, [0xff, 0x25, 0x00, 0x00, 0x00, 0x00]);
    assert_eq!(wasmer_dylib::libcall::LIBCALL_COUNT, all_libcalls().len());
    assert_eq!(
        wasmer_dylib::libcall::LIBCALL_COUNT,
        <wasmer_vm::libcalls::LibCall as enum_iterator::IntoEnumIterator>::VARIANT_COUNT
    );
}

#[test]
fn elf_x86_64_table_and_stubs() {
    let mut obj = new_object(object::BinaryFormat::Elf, object::Architecture::X86_64);
    let names = three_names();
    let layout =
        emit_trampolines_for(&mut obj, Architecture::X86_64, BinaryFormat::Elf, &names).unwrap();

    let table = obj.symbol(layout.table);
    assert_eq!(table.name, b"WASMER_TRAMPOLINES".to_vec());
    assert_eq!(table.value, 0);
    assert_eq!(table.size, 24);
    assert_eq!(table.kind, object::SymbolKind::Data);
    assert_eq!(table.scope, object::SymbolScope::Dynamic);
    assert!(!table.weak);
    assert_eq!(table.section, SymbolSection::Section(layout.bss));

    let internal = obj.symbol(layout.table_internal);
    assert_eq!(internal.name, b"WASMER_TRAMPOLINES_INTERNAL".to_vec());
    assert_eq!(internal.value, 0);
    assert_eq!(internal.size, 24);
    assert_eq!(internal.kind, object::SymbolKind::Data);
    assert_eq!(internal.scope, object::SymbolScope::Compilation);
    assert_eq!(internal.section, SymbolSection::Section(layout.bss));

    let code = obj.section(layout.text).data().to_vec();
    assert_eq!(code.len(), 18);
    for i in 0..3 {
        assert_eq!(&code[6 * i..6 * i + 6], &X86_64_TRAMPOLINE[..]);
        let id = obj.symbol_id(&names[i]).unwrap();
        let stub = obj.symbol(id);
        assert_eq!(stub.value, 6 * i as u64);
        assert_eq!(stub.size, 6);
        assert_eq!(stub.kind, object::SymbolKind::Text);
        assert_eq!(stub.scope, object::SymbolScope::Compilation);
        assert_eq!(stub.section, SymbolSection::Section(layout.text));
    }

    let bytes = obj.write().unwrap();
    let file = object::File::parse(&*bytes).unwrap();
    let text = file.section_by_name(".text").unwrap();
    let relocations: Vec<(u64, object::Relocation)> = text.relocations().collect();
    assert_eq!(relocations.len(), 3);
    for (i, (offset, relocation)) in relocations.iter().enumerate() {
        assert_eq!(*offset, 6 * i as u64 + 2);
        assert_eq!(relocation.kind(), object::RelocationKind::Relative);
        assert_eq!(relocation.size(), 32);
        assert_eq!(relocation.addend(), 8 * i as i64 - 4);
        match relocation.target() {
            object::RelocationTarget::Symbol(index) => {
                let symbol = file.symbol_by_index(index).unwrap();
                assert_eq!(symbol.name().unwrap(), "WASMER_TRAMPOLINES_INTERNAL");
            }
            _ => panic!("the relocation refers to no symbol"),
        }
    }
    let bss = file.section_by_name(".bss").unwrap();
    assert_eq!(bss.size(), 24);
}

#[test]
fn elf_aarch64_table_and_stubs() {
    let mut obj = new_object(object::BinaryFormat::Elf, object::Architecture::Aarch64);
    let names = three_names();
    let layout =
        emit_trampolines_for(&mut obj, Architecture::Aarch64, BinaryFormat::Elf, &names).unwrap();

    let code = obj.section(layout.text).data().to_vec();
    assert_eq!(code.len(), 36);
    for i in 0..3 {
        assert_eq!(&code[12 * i..12 * i + 12], &AARCH64_TRAMPOLINE[..]);
        let stub = obj.symbol(obj.symbol_id(&names[i]).unwrap());
        assert_eq!(stub.value, 12 * i as u64);
        assert_eq!(stub.size, 12);
    }

    let bytes = obj.write().unwrap();
    let file = object::File::parse(&*bytes).unwrap();
    let text = file.section_by_name(".text").unwrap();
    let relocations: Vec<(u64, object::Relocation)> = text.relocations().collect();
    assert_eq!(relocations.len(), 6);
    for i in 0..3 {
        let (first_offset, first) = &relocations[2 * i];
        let (second_offset, second) = &relocations[2 * i + 1];
        assert_eq!(*first_offset, 12 * i as u64);
        assert_eq!(*second_offset, 12 * i as u64 + 4);
        assert_eq!(first.kind(), object::RelocationKind::Elf(275));
        assert_eq!(second.kind(), object::RelocationKind::Elf(286));
        assert_eq!(first.addend(), 8 * i as i64);
        assert_eq!(second.addend(), 8 * i as i64);
    }
}

#[test]
fn macho_x86_64_keeps_the_slot_at_the_place() {
    let mut obj = new_object(object::BinaryFormat::MachO, object::Architecture::X86_64);
    let names = three_names();
    let layout =
        emit_trampolines_for(&mut obj, Architecture::X86_64, BinaryFormat::Macho, &names).unwrap();

    let table = obj.symbol(layout.table);
    assert_eq!(table.name, b"_WASMER_TRAMPOLINES".to_vec());
    let code = obj.section(layout.text).data().to_vec();
    assert_eq!(code.len(), 18);
    assert_eq!(&code[0..6], &[0xff, 0x25, 0, 0, 0, 0]);
    assert_eq!(&code[6..12], &[0xff, 0x25, 8, 0, 0, 0]);
    assert_eq!(&code[12..18], &[0xff, 0x25, 16, 0, 0, 0]);
    let stub = obj.symbol(obj.symbol_id(b"second").unwrap());
    assert_eq!(stub.name, b"_second".to_vec());
    assert_eq!(stub.value, 6);
    assert!(obj.write().is_ok());
}

#[test]
fn macho_aarch64_keeps_the_slot_at_the_places() {
    let mut obj = new_object(object::BinaryFormat::MachO, object::Architecture::Aarch64);
    let names = three_names();
    let layout = emit_trampolines_for(&mut obj, Architecture::Aarch64, BinaryFormat::Macho, &names)
        .unwrap();
    let code = obj.section(layout.text).data().to_vec();
    assert_eq!(code.len(), 36);
    assert_eq!(&code[0..12], &AARCH64_TRAMPOLINE[..]);
    assert_eq!(&code[12..24], &[8, 0, 0, 0, 8, 0, 0, 0, 0x20, 0x02, 0x1f, 0xd6]);
    assert_eq!(&code[24..36], &[16, 0, 0, 0, 16, 0, 0, 0, 0x20, 0x02, 0x1f, 0xd6]);
    assert!(obj.write().is_ok());
}

#[test]
fn stubs_follow_code_at_their_alignment() {
    let mut obj = new_object(object::BinaryFormat::Elf, object::Architecture::Aarch64);
    let text = obj.section_id(object::write::StandardSection::Text);
    obj.append_section_data(text, &[1, 2, 3], 1);
    let names = three_names();
    let layout =
        emit_trampolines_for(&mut obj, Architecture::Aarch64, BinaryFormat::Elf, &names).unwrap();
    assert_eq!(layout.text, text);
    let code = obj.section(text).data().to_vec();
    assert_eq!(code.len(), 4 + 36);
    assert_eq!(&code[0..4], &[1, 2, 3, 0]);
    assert_eq!(obj.symbol(obj.symbol_id(b"first").unwrap()).value, 4);
    assert_eq!(obj.symbol(obj.symbol_id(b"third").unwrap()).value, 28);

    let mut obj = new_object(object::BinaryFormat::Elf, object::Architecture::X86_64);
    let text = obj.section_id(object::write::StandardSection::Text);
    obj.append_section_data(text, &[1, 2, 3], 1);
    let layout =
        emit_trampolines_for(&mut obj, Architecture::X86_64, BinaryFormat::Elf, &names).unwrap();
    let code = obj.section(layout.text).data().to_vec();
    assert_eq!(code.len(), 3 + 18);
    assert_eq!(obj.symbol(obj.symbol_id(b"first").unwrap()).value, 3);
    assert_eq!(obj.symbol(obj.symbol_id(b"third").unwrap()).value, 15);
}

#[test]
fn table_follows_data_at_a_slot_boundary() {
    let mut obj = new_object(object::BinaryFormat::Elf, object::Architecture::X86_64);
    let bss = obj.section_id(object::write::StandardSection::UninitializedData);
    obj.append_section_bss(bss, 3, 1);
    let names = three_names();
    let layout =
        emit_trampolines_for(&mut obj, Architecture::X86_64, BinaryFormat::Elf, &names).unwrap();
    assert_eq!(layout.bss, bss);
    assert_eq!(obj.symbol(layout.table).value, 8);
    assert_eq!(obj.symbol(layout.table).size, 24);
    assert_eq!(obj.symbol(layout.table_internal).value, 8);
    assert_eq!(obj.symbol(layout.table_internal).size, 24);
}

#[test]
fn no_names_no_stubs() {
    let mut obj = new_object(object::BinaryFormat::Elf, object::Architecture::X86_64);
    let text = obj.section_id(object::write::StandardSection::Text);
    obj.append_section_data(text, &[1, 2, 3], 1);
    let names: Vec<Vec<u8>> = Vec::new();
    let layout =
        emit_trampolines_for(&mut obj, Architecture::X86_64, BinaryFormat::Elf, &names).unwrap();
    assert_eq!(obj.section(layout.text).data(), &[1, 2, 3]);
    assert_eq!(obj.symbol(layout.table).size, 0);
}

#[test]
fn unsupported_target_is_rejected_and_nothing_is_emitted() {
    let mut obj = new_object(object::BinaryFormat::Elf, object::Architecture::X86_64);
    let names = three_names();
    let done = emit_trampolines_for(&mut obj, Architecture::Other, BinaryFormat::Elf, &names);
    assert_eq!(done.err(), Some(TrampolineError::UnsupportedTarget));
    let done = emit_trampolines_for(&mut obj, Architecture::X86_64, BinaryFormat::Other, &names);
    assert_eq!(done.err(), Some(TrampolineError::UnsupportedTarget));
    let done = emit_trampolines_for(&mut obj, Architecture::Other, BinaryFormat::Other, &names);
    assert_eq!(done.err(), Some(TrampolineError::UnsupportedTarget));
    assert!(obj.symbol_id(b"WASMER_TRAMPOLINES").is_none());
    assert!(obj.symbol_id(b"first").is_none());
    let bytes = obj.write().unwrap();
    let file = object::File::parse(&*bytes).unwrap();
    assert!(file.section_by_name(".text").is_none());
    assert!(file.section_by_name(".bss").is_none());
}

#[test]
fn object_for_another_target_is_rejected_and_nothing_is_emitted() {
    let mut obj = new_object(object::BinaryFormat::Elf, object::Architecture::X86_64);
    let names = three_names();
    let done = emit_trampolines_for(&mut obj, Architecture::Aarch64, BinaryFormat::Elf, &names);
    assert_eq!(done.err(), Some(TrampolineError::TargetMismatch));
    let done = emit_trampolines_for(&mut obj, Architecture::X86_64, BinaryFormat::Macho, &names);
    assert_eq!(done.err(), Some(TrampolineError::TargetMismatch));
    assert!(obj.symbol_id(b"WASMER_TRAMPOLINES").is_none());

    let mut obj = new_object(object::BinaryFormat::Coff, object::Architecture::X86_64);
    let done = emit_trampolines_for(&mut obj, Architecture::X86_64, BinaryFormat::Elf, &names);
    assert_eq!(done.err(), Some(TrampolineError::TargetMismatch));
    assert!(obj.symbol_id(b"WASMER_TRAMPOLINES").is_none());
}

fn target(triple: &str) -> wasmer_compiler::Target {
    let triple: wasmer_compiler::Triple = triple.parse().unwrap();
    wasmer_compiler::Target::new(triple, wasmer_compiler::CpuFeature::set())
}

#[test]
fn every_runtime_routine_gets_its_stub_and_slot() {
    let mut obj = new_object(object::BinaryFormat::Elf, object::Architecture::X86_64);
    emit_trampolines(&mut obj, &target("x86_64-unknown-linux-gnu")).unwrap();
    let libcalls = all_libcalls();
    assert_eq!(libcalls.len(), 31);
    let table = obj.symbol(obj.symbol_id(b"WASMER_TRAMPOLINES").unwrap());
    assert_eq!(table.size, 31 * 8);
    for (i, libcall) in libcalls.iter().enumerate() {
        assert_eq!(*libcall as usize, i);
        let id = obj.symbol_id(libcall.to_function_name().as_bytes()).unwrap();
        assert_eq!(obj.symbol(id).value, 6 * i as u64);
        assert_eq!(obj.symbol(id).size, 6);
    }
    let bytes = obj.write().unwrap();
    let file = object::File::parse(&*bytes).unwrap();
    let text = file.section_by_name(".text").unwrap();
    assert_eq!(text.size(), 31 * 6);
    let relocations: Vec<(u64, object::Relocation)> = text.relocations().collect();
    assert_eq!(relocations.len(), 31);
    for (i, (offset, relocation)) in relocations.iter().enumerate() {
        assert_eq!(*offset, 6 * i as u64 + 2);
        assert_eq!(relocation.addend(), 8 * i as i64 - 4);
    }
}

#[test]
fn every_runtime_routine_on_aarch64() {
    let mut obj = new_object(object::BinaryFormat::Elf, object::Architecture::Aarch64);
    emit_trampolines(&mut obj, &target("aarch64-unknown-linux-gnu")).unwrap();
    let libcalls = all_libcalls();
    for (i, libcall) in libcalls.iter().enumerate() {
        let id = obj.symbol_id(libcall.to_function_name().as_bytes()).unwrap();
        assert_eq!(obj.symbol(id).value, 12 * i as u64);
        assert_eq!(obj.symbol(id).size, 12);
    }
    let bytes = obj.write().unwrap();
    let file = object::File::parse(&*bytes).unwrap();
    let text = file.section_by_name(".text").unwrap();
    let relocations: Vec<(u64, object::Relocation)> = text.relocations().collect();
    assert_eq!(relocations.len(), 62);
    for (i, (_, relocation)) in relocations.iter().enumerate() {
        assert_eq!(relocation.addend(), 8 * (i / 2) as i64);
    }
}

#[test]
fn target_without_rules_is_rejected() {
    let mut obj = new_object(object::BinaryFormat::Elf, object::Architecture::X86_64);
    let done = emit_trampolines(&mut obj, &target("riscv64gc-unknown-linux-gnu"));
    assert_eq!(done, Err(TrampolineError::UnsupportedTarget));
    let done = emit_trampolines(&mut obj, &target("x86_64-pc-windows-msvc"));
    assert_eq!(done, Err(TrampolineError::UnsupportedTarget));
    let done = emit_trampolines(&mut obj, &target("aarch64-apple-darwin"));
    assert_eq!(done, Err(TrampolineError::TargetMismatch));
    assert!(obj.symbol_id(b"WASMER_TRAMPOLINES").is_none());
}

#[test]
fn same_input_same_object() {
    let names = three_names();
    let mut first = new_object(object::BinaryFormat::Elf, object::Architecture::Aarch64);
    let mut second = new_object(object::BinaryFormat::Elf, object::Architecture::Aarch64);
    emit_trampolines_for(&mut first, Architecture::Aarch64, BinaryFormat::Elf, &names).unwrap();
    emit_trampolines_for(&mut second, Architecture::Aarch64, BinaryFormat::Elf, &names).unwrap();
    assert_eq!(first.write().unwrap(), second.write().unwrap());
}

#[test]
fn one_stub_into_given_sections() {
    let mut obj = new_object(object::BinaryFormat::Elf, object::Architecture::X86_64);
    let text = obj.section_id(object::write::StandardSection::Text);
    let bss = obj.section_id(object::write::StandardSection::UninitializedData);
    let table = obj.add_symbol(Symbol {
        name: b"table".to_vec(),
        value: 0,
        size: 64,
        kind: object::SymbolKind::Data,
        scope: object::SymbolScope::Compilation,
        weak: false,
        section: SymbolSection::Section(bss),
        flags: object::SymbolFlags::None,
    });
    let name = b"routine".to_vec();
    emit_trampoline(&mut obj, text, table, 5, &name, Architecture::X86_64, BinaryFormat::Elf);
    assert_eq!(obj.section(text).data(), &X86_64_TRAMPOLINE[..]);
    let stub = obj.symbol(obj.symbol_id(b"routine").unwrap());
    assert_eq!(stub.value, 0);
    assert_eq!(stub.size, 6);
    let bytes = obj.write().unwrap();
    let file = object::File::parse(&*bytes).unwrap();
    let section = file.section_by_name(".text").unwrap();
    let relocations: Vec<(u64, object::Relocation)> = section.relocations().collect();
    assert_eq!(relocations.len(), 1);
    assert_eq!(relocations[0].0, 2);
    assert_eq!(relocations[0].1.addend(), 36);
}

#[test]
fn table_and_stubs_into_given_sections() {
    let mut obj = new_object(object::BinaryFormat::Elf, object::Architecture::Aarch64);
    let text = obj.section_id(object::write::StandardSection::Text);
    let bss = obj.section_id(object::write::StandardSection::UninitializedData);
    let names = three_names();
    let (table, internal) =
        emit_trampolines_in(&mut obj, text, bss, &names, Architecture::Aarch64, BinaryFormat::Elf);
    assert_eq!(obj.symbol(table).size, 24);
    assert_eq!(obj.symbol(internal).size, 24);
    assert_eq!(obj.symbol(table).value, obj.symbol(internal).value);
    assert_eq!(obj.section(text).data().len(), 36);
}

#[test]
fn filled_table_holds_each_address_in_its_slot() {
    let mut table: Vec<usize> = vec![7; 5];
    fill_trampoline_table(&mut table, &vec![10, 20, 30]);
    assert_eq!(table, vec![10, 20, 30, 7, 7]);
    let mut table: Vec<usize> = vec![7; 2];
    fill_trampoline_table(&mut table, &Vec::new());
    assert_eq!(table, vec![7, 7]);
    let mut table: Vec<usize> = vec![0; 3];
    fill_trampoline_table(&mut table, &vec![1, 2, 3]);
    assert_eq!(table, vec![1, 2, 3]);
}

#[test]
fn names_are_those_of_the_routines() {
    let names = wasmer_dylib::libcall::libcall_names();
    let libcalls = all_libcalls();
    assert_eq!(names.len(), libcalls.len());
    for (name, libcall) in names.iter().zip(libcalls.iter()) {
        assert_eq!(&name[..], libcall.to_function_name().as_bytes());
    }
    assert_eq!(&names[0][..], &b"wasmer_vm_f32_ceil"[..]);
    assert_eq!(&names[29][..], &b"wasmer_vm_raise_trap"[..]);
}

//! A relocatable object file under construction, as the emitter sees it: its
//! symbols, its sections with their bytes and relocation records, and the
//! settings it was made with. The object itself is kept by the `object`
//! crate; this module says what its operations do to that content.

use crate::target::Architecture;
use crate::target::BinaryFormat;
use object::write::Object;
use object::write::SectionId;
use object::write::SymbolId;
use vstd::prelude::*;

verus! {

#[verifier::external_type_specification]
#[verifier::external_body]
pub struct ExObject<'a>(Object<'a>);

#[verifier::external_type_specification]
#[verifier::external_body]
pub struct ExSectionId(SectionId);

#[verifier::external_type_specification]
#[verifier::external_body]
pub struct ExSymbolId(SymbolId);

#[verifier::external_type_specification]
#[verifier::external_body]
pub struct ExWriteError(object::write::Error);

/// What a symbol stands for.
#[derive(Clone, Copy, Debug, PartialEq, Eq, Structural)]
pub enum SymbolKind {
    /// Executable code.
    Text,
    /// A data object.
    Data,
    /// Anything else: a section, a file, a label, thread-local storage.
    Other,
}

/// How far a symbol is visible.
#[derive(Clone, Copy, Debug, PartialEq, Eq, Structural)]
pub enum SymbolScope {
    /// Not known.
    Unknown,
    /// Within the compilation unit.
    Compilation,
    /// Within the static linkage unit.
    Linkage,
    /// To dynamically linked objects.
    Dynamic,
}

/// The standard sections that the emitter writes to.
#[derive(Clone, Copy, Debug, PartialEq, Eq, Structural)]
pub enum StandardSection {
    /// Executable code.
    Text,
    /// Zero-initialized data.
    UninitializedData,
}

/// How the value of a relocation is computed.
#[derive(Clone, Copy, Debug, PartialEq, Eq, Structural)]
pub enum RelocationKind {
    /// Symbol plus addend minus place.
    Relative,
    /// An ELF relocation type, by its number.
    Elf(u32),
    /// A Mach-O relocation type, by its number and whether it is relative
    /// to the place.
    MachO { value: u8, relative: bool },
    /// Any other computation.
    Other,
}

/// A relocation to be added to a section: the place, the width of the place
/// in bits, the computation, the symbol and the addend. Its encoding is the
/// generic one.
#[derive(Clone, Copy, Debug)]
pub struct Relocation {
    pub offset: u64,
    pub size: u8,
    pub kind: RelocationKind,
    pub symbol: SymbolId,
    pub addend: i64,
}

/// A symbol as the object holds it. `section` is the position of the section
/// that defines the symbol, if a section does.
pub ghost struct SymbolModel {
    pub name: Seq<u8>,
    pub value: u64,
    pub size: u64,
    pub kind: SymbolKind,
    pub scope: SymbolScope,
    pub weak: bool,
    pub section: Option<nat>,
}

/// A relocation record as a section holds it. `symbol` is the position of
/// the symbol referred to; `generic` tells whether the encoding is the
/// generic one.
pub ghost struct RelocationModel {
    pub offset: u64,
    pub size: u8,
    pub kind: RelocationKind,
    pub generic: bool,
    pub symbol: nat,
    pub addend: i64,
}

/// A section as the object holds it. A zero-fill section has a size and no
/// bytes.
pub ghost struct SectionModel {
    pub is_bss: bool,
    pub size: u64,
    pub align: u64,
    pub data: Seq<u8>,
    pub relocations: Seq<RelocationModel>,
}

/// What an object was made with: the convention and the instruction set
/// (each `Other` where the emitter has no rules for it), the byte order, and
/// the byte that its name mangling puts before a global name, if any.
pub ghost struct ObjectSettings {
    pub format: BinaryFormat,
    pub architecture: Architecture,
    pub big_endian: bool,
    pub global_prefix: Option<u8>,
}

/// The content of an object file under construction: its symbols and its
/// sections in the order in which they were added, the positions of the
/// standard sections among them that it has, and its settings.
pub ghost struct ObjectModel {
    pub symbols: Seq<SymbolModel>,
    pub sections: Seq<SectionModel>,
    pub standard: Map<StandardSection, nat>,
    pub settings: ObjectSettings,
}

/// The symbols of an object, in the order in which they were added.
pub uninterp spec fn object_symbols(obj: Object) -> Seq<SymbolModel>;

/// The sections of an object, in the order in which they were added.
pub uninterp spec fn object_sections(obj: Object) -> Seq<SectionModel>;

/// The standard sections that an object has, each with the position of the
/// section.
pub uninterp spec fn object_standard_sections(obj: Object) -> Map<StandardSection, nat>;

/// The settings that an object was made with.
pub uninterp spec fn object_settings(obj: Object) -> ObjectSettings;

/// The position, among the symbols of its object, of the symbol that an
/// identifier names.
pub uninterp spec fn symbol_index(id: SymbolId) -> nat;

/// The position, among the sections of its object, of the section that an
/// identifier names.
pub uninterp spec fn section_index(id: SectionId) -> nat;

/// The content of an object.
pub open spec fn object_view(obj: Object) -> ObjectModel {
    ObjectModel {
        symbols: object_symbols(obj),
        sections: object_sections(obj),
        standard: object_standard_sections(obj),
        settings: object_settings(obj),
    }
}

/// Whether `align` is a power of two.
pub open spec fn is_alignment(align: u64) -> bool {
    align > 0 && align & ((align - 1) as u64) == 0
}

/// The least multiple of `align` that is not below `len`.
pub open spec fn align_up(len: int, align: int) -> int
    recommends
        len >= 0,
        align > 0,
{
    if len % align == 0 {
        len
    } else {
        len + align - len % align
    }
}

/// `align_up` gives a multiple of `align` that is not below `len` and less
/// than `align` above it.
pub proof fn align_up_is_aligned(len: int, align: int)
    requires
        len >= 0,
        align > 0,
    ensures
        len <= align_up(len, align) < len + align,
        align_up(len, align) % align == 0,
{
    let rest = len % align;
    assert(0 <= rest < align) by (nonlinear_arith)
        requires
            rest == len % align,
            align > 0,
    ;
    if rest != 0 {
        assert((len + align - rest) % align == 0) by (nonlinear_arith)
            requires
                rest == len % align,
                align > 0,
        ;
    }
}

/// `count` zero bytes.
pub open spec fn zeros(count: int) -> Seq<u8> {
    Seq::new(count as nat, |i: int| 0u8)
}

/// A name as the object stores it: behind the prefix of its mangling, where
/// it has one and the name is not empty.
pub open spec fn mangled(prefix: Option<u8>, name: Seq<u8>) -> Seq<u8> {
    match prefix {
        Some(p) if name.len() > 0 => seq![p] + name,
        _ => name,
    }
}

/// The four bytes of `value` in the given byte order.
#[verifier::opaque]
pub open spec fn word_bytes(value: u32, big_endian: bool) -> Seq<u8> {
    let b0 = (value % 256) as u8;
    let b1 = (value / 256 % 256) as u8;
    let b2 = (value / 65536 % 256) as u8;
    let b3 = (value / 16777216) as u8;
    if big_endian {
        seq![b3, b2, b1, b0]
    } else {
        seq![b0, b1, b2, b3]
    }
}

/// `data` with `bytes` written over it from position `at` on.
pub open spec fn overwritten(data: Seq<u8>, at: int, bytes: Seq<u8>) -> Seq<u8>
    recommends
        0 <= at,
        at + bytes.len() <= data.len(),
{
    Seq::new(
        data.len(),
        |i: int|
            if at <= i < at + bytes.len() {
                bytes[i - at]
            } else {
                data[i]
            },
    )
}

/// A section that was just made: empty, aligned to one byte.
pub open spec fn fresh_section(is_bss: bool) -> SectionModel {
    SectionModel { is_bss, size: 0, align: 1, data: Seq::empty(), relocations: Seq::empty() }
}

/// The part of an addend that a Mach-O object keeps in the bytes at the
/// place: the whole addend, and four more where the computation is relative
/// to the place.
pub open spec fn macho_implicit_addend(kind: RelocationKind, addend: i64) -> int {
    if kind == RelocationKind::Relative {
        addend + 4
    } else {
        addend as int
    }
}

impl SectionModel {
    /// The section after `size` zero-fill bytes were appended at `align`.
    pub open spec fn with_bss(self, size: u64, align: u64) -> SectionModel {
        SectionModel {
            size: (align_up(self.size as int, align as int) + size) as u64,
            align: if self.align < align {
                align
            } else {
                self.align
            },
            ..self
        }
    }

    /// The section after `bytes` were appended at `align`: zero bytes fill
    /// the gap up to the alignment.
    pub open spec fn with_data(self, bytes: Seq<u8>, align: u64) -> SectionModel {
        let start = align_up(self.data.len() as int, align as int);
        let data = self.data + zeros(start - self.data.len()) + bytes;
        SectionModel {
            size: data.len() as u64,
            align: if self.align < align {
                align
            } else {
                self.align
            },
            data,
            ..self
        }
    }
}

impl ObjectModel {
    /// The position of a standard section: where the object has it, or
    /// behind all sections, where the section would be added.
    pub open spec fn standard_index(self, which: StandardSection) -> nat {
        if self.standard.contains_key(which) {
            self.standard[which]
        } else {
            self.sections.len()
        }
    }

    /// The object once it has a standard section: where it did not have it,
    /// the section is added behind the others, empty.
    pub open spec fn with_standard_section(self, which: StandardSection) -> ObjectModel {
        if self.standard.contains_key(which) {
            self
        } else {
            ObjectModel {
                sections: self.sections.push(
                    fresh_section(which == StandardSection::UninitializedData),
                ),
                standard: self.standard.insert(which, self.sections.len()),
                ..self
            }
        }
    }

    /// The object after a symbol was added behind the others.
    pub open spec fn with_symbol(self, symbol: SymbolModel) -> ObjectModel {
        ObjectModel { symbols: self.symbols.push(symbol), ..self }
    }

    /// The object after a section was put in the place of another.
    pub open spec fn with_section(self, section: nat, content: SectionModel) -> ObjectModel {
        ObjectModel { sections: self.sections.update(section as int, content), ..self }
    }

    /// The object after a symbol was made to refer to `size` bytes at
    /// `value` within a section.
    pub open spec fn with_symbol_at(
        self,
        symbol: nat,
        section: nat,
        value: u64,
        size: u64,
    ) -> ObjectModel {
        ObjectModel {
            symbols: self.symbols.update(
                symbol as int,
                SymbolModel { value, size, section: Some(section), ..self.symbols[symbol as int] },
            ),
            ..self
        }
    }

    /// The object after a relocation was added to a section. An ELF object
    /// for either of the two instruction sets keeps the record as it was
    /// given. A Mach-O object keeps `macho_implicit_addend` of it in the four
    /// bytes at the place, unless that is zero, and the rest in the record.
    pub open spec fn with_relocation(self, section: nat, relocation: RelocationModel) -> ObjectModel
        recommends
            section < self.sections.len(),
    {
        let before = self.sections[section as int];
        if self.settings.format == BinaryFormat::Macho {
            let implicit = macho_implicit_addend(relocation.kind, relocation.addend);
            let kept = RelocationModel {
                addend: (relocation.addend - implicit) as i64,
                ..relocation
            };
            let data = if implicit == 0 {
                before.data
            } else {
                overwritten(
                    before.data,
                    relocation.offset as int,
                    word_bytes(implicit as u32, self.settings.big_endian),
                )
            };
            self.with_section(
                section,
                SectionModel { data, relocations: before.relocations.push(kept), ..before },
            )
        } else {
            self.with_section(
                section,
                SectionModel { relocations: before.relocations.push(relocation), ..before },
            )
        }
    }

    /// Whether a relocation can be added to a section: always in an ELF
    /// object; in a Mach-O object, where nothing is kept at the place or the
    /// place lies within the section's bytes.
    pub open spec fn takes_relocation(self, section: nat, relocation: RelocationModel) -> bool
        recommends
            section < self.sections.len(),
    {
        self.settings.format == BinaryFormat::Macho ==> {
            ||| macho_implicit_addend(relocation.kind, relocation.addend) == 0
            ||| relocation.offset + 4 <= self.sections[section as int].data.len()
        }
    }
}

/// The record that a relocation stands for, with its symbol by position.
pub open spec fn relocation_model(relocation: Relocation) -> RelocationModel {
    RelocationModel {
        offset: relocation.offset,
        size: relocation.size,
        kind: relocation.kind,
        generic: true,
        symbol: symbol_index(relocation.symbol),
        addend: relocation.addend,
    }
}

/// `Object::format` and `Object::architecture`: the convention and the
/// instruction set that the object was made for, each `Other` where it is
/// none of those the emitter has rules for.
#[verifier::external_body]
pub(crate) fn object_target(obj: &Object) -> (target: (Architecture, BinaryFormat))
    ensures
        target.0 == object_settings(*obj).architecture,
        target.1 == object_settings(*obj).format,
{
    let architecture = match obj.architecture() {
        object::Architecture::Aarch64 => Architecture::Aarch64,
        object::Architecture::X86_64 => Architecture::X86_64,
        _ => Architecture::Other,
    };
    let format = match obj.format() {
        object::BinaryFormat::Elf => BinaryFormat::Elf,
        object::BinaryFormat::MachO => BinaryFormat::Macho,
        _ => BinaryFormat::Other,
    };
    (architecture, format)
}

/// `Object::section_id`: the identifier of a standard section, which is
/// added behind the other sections, empty, if the object does not have it
/// yet. Nothing else changes. The section for zero-initialized data is a
/// zero-fill section, the one for code is not.
#[verifier::external_body]
pub(crate) fn standard_section(obj: &mut Object, which: StandardSection) -> (id: SectionId)
    requires
        object_settings(*old(obj)).format != BinaryFormat::Other,
    ensures
        section_index(id) == object_view(*old(obj)).standard_index(which),
        object_view(*final(obj)) == object_view(*old(obj)).with_standard_section(which),
        object_standard_sections(*final(obj)).contains_key(which),
        section_index(id) < object_sections(*final(obj)).len(),
        object_sections(*final(obj))[section_index(id) as int].is_bss == (which
            == StandardSection::UninitializedData),
{
    obj.section_id(
        match which {
            StandardSection::Text => object::write::StandardSection::Text,
            StandardSection::UninitializedData => object::write::StandardSection::UninitializedData,
        },
    )
}

/// `Object::add_symbol`, for a code or data symbol of known scope that a
/// section defines: the symbol is added behind the others, with value and
/// size zero, not weak, under its mangled name. The identifier names it.
#[verifier::external_body]
pub(crate) fn add_symbol(
    obj: &mut Object,
    name: &Vec<u8>,
    kind: SymbolKind,
    scope: SymbolScope,
    section: SectionId,
) -> (id: SymbolId)
    requires
        kind != SymbolKind::Other,
        scope != SymbolScope::Unknown,
    ensures
        symbol_index(id) == object_symbols(*old(obj)).len(),
        object_view(*final(obj)) == object_view(*old(obj)).with_symbol(
            SymbolModel {
                name: mangled(object_settings(*old(obj)).global_prefix, name@),
                value: 0,
                size: 0,
                kind,
                scope,
                weak: false,
                section: Some(section_index(section)),
            },
        ),
{
    let kind = match kind {
        SymbolKind::Text => object::SymbolKind::Text,
        SymbolKind::Data => object::SymbolKind::Data,
        SymbolKind::Other => object::SymbolKind::Unknown,
    };
    let scope = match scope {
        SymbolScope::Unknown => object::SymbolScope::Unknown,
        SymbolScope::Compilation => object::SymbolScope::Compilation,
        SymbolScope::Linkage => object::SymbolScope::Linkage,
        SymbolScope::Dynamic => object::SymbolScope::Dynamic,
    };
    let (name, section) = (name.clone(), object::write::SymbolSection::Section(section));
    let flags = object::SymbolFlags::None;
    obj.add_symbol(object::write::Symbol { name, value: 0, size: 0, kind, scope, weak: false, section, flags })
}

/// `Object::symbol`: the value and the size of a symbol.
#[verifier::external_body]
pub(crate) fn symbol_extent(obj: &Object, symbol: SymbolId) -> (extent: (u64, u64))
    requires
        symbol_index(symbol) < object_symbols(*obj).len(),
    ensures
        extent.0 == object_symbols(*obj)[symbol_index(symbol) as int].value,
        extent.1 == object_symbols(*obj)[symbol_index(symbol) as int].size,
{
    let found = obj.symbol(symbol);
    (found.value, found.size)
}

/// `Object::set_symbol_data`, for a code or data symbol of known scope: the
/// symbol then refers to `size` bytes at `value` within the section.
#[verifier::external_body]
pub(crate) fn set_symbol_data(
    obj: &mut Object,
    symbol: SymbolId,
    section: SectionId,
    value: u64,
    size: u64,
)
    requires
        symbol_index(symbol) < object_symbols(*old(obj)).len(),
        object_symbols(*old(obj))[symbol_index(symbol) as int].kind != SymbolKind::Other,
        object_symbols(*old(obj))[symbol_index(symbol) as int].scope != SymbolScope::Unknown,
    ensures
        object_view(*final(obj)) == object_view(*old(obj)).with_symbol_at(
            symbol_index(symbol),
            section_index(section),
            value,
            size,
        ),
{
    obj.set_symbol_data(symbol, section, value, size)
}

/// `Object::add_symbol_bss`, for a code or data symbol of known scope and a
/// zero-fill section: the section grows by `size` bytes from the next
/// multiple of `align` on, the symbol then refers to them, and their offset
/// is returned.
#[verifier::external_body]
pub(crate) fn add_symbol_bss(
    obj: &mut Object,
    symbol: SymbolId,
    section: SectionId,
    size: u64,
    align: u64,
) -> (offset: u64)
    requires
        symbol_index(symbol) < object_symbols(*old(obj)).len(),
        object_symbols(*old(obj))[symbol_index(symbol) as int].kind != SymbolKind::Other,
        object_symbols(*old(obj))[symbol_index(symbol) as int].scope != SymbolScope::Unknown,
        section_index(section) < object_sections(*old(obj)).len(),
        object_sections(*old(obj))[section_index(section) as int].is_bss,
        is_alignment(align),
        align_up(object_sections(*old(obj))[section_index(section) as int].size as int, align as int)
            + size <= u64::MAX,
    ensures
        offset == align_up(
            object_sections(*old(obj))[section_index(section) as int].size as int,
            align as int,
        ),
        object_view(*final(obj)) == object_view(*old(obj)).with_section(
            section_index(section),
            object_sections(*old(obj))[section_index(section) as int].with_bss(size, align),
        ).with_symbol_at(symbol_index(symbol), section_index(section), offset, size),
{
    obj.add_symbol_bss(symbol, section, size, align)
}

/// `Object::add_symbol_data`, for a code or data symbol of known scope and a
/// section that holds bytes: `data` is appended to the section from the
/// next multiple of `align` on, behind zero bytes that fill the gap, the
/// symbol then refers to it, and its offset is returned. The section's
/// bytes are held in memory, so their number fits a `usize`.
#[verifier::external_body]
pub(crate) fn add_symbol_data(
    obj: &mut Object,
    symbol: SymbolId,
    section: SectionId,
    data: &Vec<u8>,
    align: u64,
) -> (offset: u64)
    requires
        symbol_index(symbol) < object_symbols(*old(obj)).len(),
        object_symbols(*old(obj))[symbol_index(symbol) as int].kind != SymbolKind::Other,
        object_symbols(*old(obj))[symbol_index(symbol) as int].scope != SymbolScope::Unknown,
        section_index(section) < object_sections(*old(obj)).len(),
        !object_sections(*old(obj))[section_index(section) as int].is_bss,
        is_alignment(align),
    ensures
        offset == align_up(
            object_sections(*old(obj))[section_index(section) as int].data.len() as int,
            align as int,
        ),
        offset + data@.len() <= usize::MAX,
        object_view(*final(obj)) == object_view(*old(obj)).with_section(
            section_index(section),
            object_sections(*old(obj))[section_index(section) as int].with_data(data@, align),
        ).with_symbol_at(symbol_index(symbol), section_index(section), offset, data@.len() as u64),
{
    obj.add_symbol_data(symbol, section, data, align)
}

/// `Object::add_relocation`, for a place of 32 bits in a section that holds
/// bytes, in an ELF object for either of the two instruction sets or in a
/// Mach-O object. It succeeds exactly where `takes_relocation` says, and
/// then the object is as `with_relocation` says; where it fails the object
/// is as before. In an ELF object the symbol must not be visible to
/// dynamically linked objects: the crate would put the section's symbol in
/// its place.
#[verifier::external_body]
pub(crate) fn add_relocation(obj: &mut Object, section: SectionId, relocation: Relocation) -> (done:
    Result<(), object::write::Error>)
    requires
        section_index(section) < object_sections(*old(obj)).len(),
        !object_sections(*old(obj))[section_index(section) as int].is_bss,
        symbol_index(relocation.symbol) < object_symbols(*old(obj)).len(),
        relocation.size == 32,
        relocation.kind != RelocationKind::Other,
        object_settings(*old(obj)).format != BinaryFormat::Other,
        object_settings(*old(obj)).format == BinaryFormat::Elf ==> {
            &&& object_settings(*old(obj)).architecture != Architecture::Other
            &&& object_symbols(*old(obj))[symbol_index(relocation.symbol) as int].scope
                != SymbolScope::Dynamic
        },
        object_settings(*old(obj)).format == BinaryFormat::Macho ==> 0 <= macho_implicit_addend(
            relocation.kind,
            relocation.addend,
        ) <= u32::MAX,
    ensures
        done.is_ok() == object_view(*old(obj)).takes_relocation(
            section_index(section),
            relocation_model(relocation),
        ),
        object_view(*final(obj)) == if done.is_ok() {
            object_view(*old(obj)).with_relocation(
                section_index(section),
                relocation_model(relocation),
            )
        } else {
            object_view(*old(obj))
        },
{
    let Relocation { offset, size, kind, symbol, addend } = relocation;
    let kind = match kind {
        RelocationKind::Relative => object::RelocationKind::Relative,
        RelocationKind::Elf(value) => object::RelocationKind::Elf(value),
        RelocationKind::MachO { value, relative } => object::RelocationKind::MachO { value, relative },
        RelocationKind::Other => object::RelocationKind::Absolute,
    };
    let encoding = object::RelocationEncoding::Generic;
    obj.add_relocation(section, object::write::Relocation { offset, size, kind, encoding, symbol, addend })
}

} // verus!

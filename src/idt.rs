use vstd::prelude::*;
use crate::gdt::SegmentSelector;

verus! {

/// Number of entries in the interrupt descriptor table.
pub const IDT_GATES: usize = 256;

/// Options of an entry that is not present: a 64-bit interrupt gate type
/// (bits 9 to 11 set) and nothing else.
pub const MINIMAL_OPTIONS: u16 = 0x0e00;
/// Options bit: the entry is present.
pub const OPTION_PRESENT: u16 = 0x8000;
/// Options bit: interrupts stay enabled on entry (clear for an interrupt gate
/// that disables them).
pub const OPTION_INTERRUPTS_ENABLED: u16 = 0x0100;

/// Whether the processor pushes an error code for exceptions of `vector`.
pub open spec fn spec_pushes_error_code(vector: u8) -> bool {
    vector == 8 || vector == 10 || vector == 11 || vector == 12 || vector == 13 || vector == 14
        || vector == 17 || vector == 21 || vector == 29 || vector == 30
}

/// Whether the processor pushes an error code for exceptions of `vector`.
#[verifier::when_used_as_spec(spec_pushes_error_code)]
pub fn pushes_error_code(vector: u8) -> (r: bool)
    ensures
        r == spec_pushes_error_code(vector),
{
    vector == 8 || vector == 10 || vector == 11 || vector == 12 || vector == 13 || vector == 14
        || vector == 17 || vector == 21 || vector == 29 || vector == 30
}

/// The stack-switch field of entry options: 0 for none, else the interrupt
/// stack table slot plus one.
pub open spec fn stack_field(options: u16) -> u16 {
    options & 0x7u16
}

/// One 16-byte entry of the interrupt descriptor table, field by field in the
/// order the processor reads them.
#[derive(Clone, Copy, Debug, PartialEq, Eq, Structural)]
pub struct Entry {
    pub pointer_low: u16,
    pub gdt_selector: SegmentSelector,
    pub options: u16,
    pub pointer_middle: u16,
    pub pointer_high: u32,
    pub reserved: u32,
}

/// The handler address that the three pointer fields of an entry encode.
pub open spec fn handler_address(e: Entry) -> u64 {
    (e.pointer_low as u64) | ((e.pointer_middle as u64) << 16u64) | ((e.pointer_high as u64)
        << 32u64)
}

/// The first of the two little-endian 64-bit words of an entry.
pub open spec fn low_word(e: Entry) -> u64 {
    (e.pointer_low as u64) | ((e.gdt_selector.bits as u64) << 16u64) | ((e.options as u64)
        << 32u64) | ((e.pointer_middle as u64) << 48u64)
}

/// The second of the two little-endian 64-bit words of an entry.
pub open spec fn high_word(e: Entry) -> u64 {
    (e.pointer_high as u64) | ((e.reserved as u64) << 32u64)
}

/// The entry that sends control to `handler` through the code segment
/// `selector`: present, interrupts disabled, no stack switch.
pub open spec fn gate(selector: SegmentSelector, handler: u64) -> Entry {
    Entry {
        pointer_low: handler as u16,
        gdt_selector: selector,
        options: (MINIMAL_OPTIONS | OPTION_PRESENT) as u16,
        pointer_middle: (handler >> 16u64) as u16,
        pointer_high: (handler >> 32u64) as u32,
        reserved: 0,
    }
}

/// The entry `e` with its stack-switch field set to interrupt stack table
/// slot `slot`.
pub open spec fn with_stack_slot(e: Entry, slot: u16) -> Entry {
    Entry { options: ((e.options & 0xfff8u16) | ((slot + 1) as u16)) as u16, ..e }
}

impl Entry {
    pub open spec fn is_present(self) -> bool {
        self.options & OPTION_PRESENT == OPTION_PRESENT
    }

    /// The interrupt stack table slot the processor switches to on entry.
    pub open spec fn stack_slot(self) -> Option<nat> {
        if stack_field(self.options) == 0 {
            None
        } else {
            Some((stack_field(self.options) - 1) as nat)
        }
    }

    /// An entry that is not present.
    pub fn missing() -> (r: Entry)
        ensures
            r == missing_gate(),
            !r.is_present(),
            r.stack_slot() is None,
            handler_address(r) == 0,
    {
        let r = Entry {
            pointer_low: 0,
            gdt_selector: SegmentSelector::empty(),
            options: MINIMAL_OPTIONS,
            pointer_middle: 0,
            pointer_high: 0,
            reserved: 0,
        };
        assert(0x0e00u16 & 0x8000u16 != 0x8000u16 && 0x0e00u16 & 0x7u16 == 0) by (bit_vector);
        assert((0u16 as u64) | ((0u16 as u64) << 16u64) | ((0u32 as u64) << 32u64) == 0)
            by (bit_vector);
        r
    }

    /// The present entry for `handler` through the code segment `selector`.
    pub fn new(selector: SegmentSelector, handler: u64) -> (r: Entry)
        ensures
            r == gate(selector, handler),
            r.is_present(),
            r.stack_slot() is None,
            handler_address(r) == handler,
    {
        let options: u16 = MINIMAL_OPTIONS | OPTION_PRESENT;
        let r = Entry {
            pointer_low: handler as u16,
            gdt_selector: selector,
            options,
            pointer_middle: (handler >> 16u64) as u16,
            pointer_high: (handler >> 32u64) as u32,
            reserved: 0,
        };
        assert(options & 0x8000u16 == 0x8000u16 && options & 0x7u16 == 0) by (bit_vector)
            requires
                options == 0x0e00u16 | 0x8000u16,
        ;
        assert(((handler as u16) as u64) | ((((handler >> 16u64) as u16) as u64) << 16u64) | ((((
            handler >> 32u64) as u32) as u64) << 32u64) == handler) by (bit_vector);
        r
    }

    /// Makes the processor switch to interrupt stack table slot `slot` on
    /// entry through this entry; the other fields stay.
    pub fn set_stack_index(&mut self, slot: u16)
        requires
            slot < 7,
        ensures
            *final(self) == with_stack_slot(*old(self), slot),
            final(self).stack_slot() == Some(slot as nat),
            final(self).is_present() == old(self).is_present(),
            handler_address(*final(self)) == handler_address(*old(self)),
            final(self).gdt_selector == old(self).gdt_selector,
            final(self).options & 0xfff8u16 == old(self).options & 0xfff8u16,
    {
        let old_options = self.options;
        let field: u16 = slot + 1;
        let options: u16 = (old_options & 0xfff8u16) | field;
        assert(options & 0x7u16 == field && options & 0xfff8u16 == old_options & 0xfff8u16
            && (options & 0x8000u16 == 0x8000u16) == (old_options & 0x8000u16 == 0x8000u16))
            by (bit_vector)
            requires
                field < 8,
                options == (old_options & 0xfff8u16) | field,
        ;
        self.options = options;
    }

    /// The two little-endian 64-bit words of the entry, as the processor reads
    /// them.
    pub fn to_words(&self) -> (r: (u64, u64))
        ensures
            r.0 == low_word(*self),
            r.1 == high_word(*self),
    {
        let low: u64 = (self.pointer_low as u64) | ((self.gdt_selector.bits as u64) << 16u64) | ((
        self.options as u64) << 32u64) | ((self.pointer_middle as u64) << 48u64);
        let high: u64 = (self.pointer_high as u64) | ((self.reserved as u64) << 32u64);
        (low, high)
    }

    /// The handler address that the entry encodes.
    pub fn handler_address(&self) -> (r: u64)
        ensures
            r == handler_address(*self),
    {
        (self.pointer_low as u64) | ((self.pointer_middle as u64) << 16u64) | ((
        self.pointer_high as u64) << 32u64)
    }

    /// Whether the entry is present.
    pub fn present(&self) -> (r: bool)
        ensures
            r == self.is_present(),
    {
        self.options & OPTION_PRESENT == OPTION_PRESENT
    }

    /// The interrupt stack table slot of the entry, if it switches stacks.
    pub fn stack_index(&self) -> (r: Option<u16>)
        ensures
            r matches Some(s) ==> self.stack_slot() == Some(s as nat),
            r is None ==> self.stack_slot() is None,
    {
        let field = self.options & 0x7u16;
        if field == 0 {
            None
        } else {
            Some(field - 1)
        }
    }
}

/// The interrupt descriptor table: one entry per vector.
pub struct Idt {
    entries: Vec<Entry>,
}

impl Idt {
    pub open spec fn wf(self) -> bool {
        self.gates().len() == IDT_GATES
    }

    /// The entries, indexed by vector.
    pub closed spec fn gates(self) -> Seq<Entry> {
        self.entries@
    }

    /// A table in which no entry is present.
    pub fn new() -> (r: Idt)
        ensures
            r.wf(),
            forall|v: int| 0 <= v < IDT_GATES ==> #[trigger] r.gates()[v] == missing_gate(),
            forall|v: int| 0 <= v < IDT_GATES ==> !(#[trigger] r.gates()[v]).is_present(),
    {
        let mut entries: Vec<Entry> = Vec::new();
        let mut i: usize = 0;
        while i < IDT_GATES
            invariant
                i <= IDT_GATES,
                entries@.len() == i,
                forall|v: int| 0 <= v < i ==> #[trigger] entries@[v] == missing_gate(),
            decreases IDT_GATES - i,
        {
            entries.push(Entry::missing());
            i = i + 1;
        }
        let r = Idt { entries };
        assert(!missing_gate().is_present()) by {
            assert(0x0e00u16 & 0x8000u16 != 0x8000u16) by (bit_vector);
        }
        r
    }

    /// Installs `handler` for `vector`, whose exceptions push no error code.
    pub fn set_handler(&mut self, vector: u8, selector: SegmentSelector, handler: u64)
        requires
            old(self).wf(),
            !pushes_error_code(vector),
        ensures
            final(self).wf(),
            final(self).gates() == old(self).gates().update(vector as int, gate(selector, handler)),
    {
        self.entries[vector as usize] = Entry::new(selector, handler);
    }

    /// Installs `handler` for `vector`, whose exceptions push an error code.
    pub fn set_handler_with_error_code(&mut self, vector: u8, selector: SegmentSelector, handler: u64)
        requires
            old(self).wf(),
            pushes_error_code(vector),
        ensures
            final(self).wf(),
            final(self).gates() == old(self).gates().update(vector as int, gate(selector, handler)),
    {
        self.entries[vector as usize] = Entry::new(selector, handler);
    }

    /// Makes the entry of `vector` switch to interrupt stack table slot `slot`.
    pub fn set_stack_index(&mut self, vector: u8, slot: u16)
        requires
            old(self).wf(),
            slot < 7,
        ensures
            final(self).wf(),
            final(self).gates() == old(self).gates().update(
                vector as int,
                with_stack_slot(old(self).gates()[vector as int], slot),
            ),
            final(self).gates()[vector as int].stack_slot() == Some(slot as nat),
            final(self).gates()[vector as int].is_present() == old(self).gates()[vector as int].is_present(),
            handler_address(final(self).gates()[vector as int]) == handler_address(old(self).gates()[vector as int]),
            final(self).gates()[vector as int].gdt_selector == old(self).gates()[vector as int].gdt_selector,
    {
        let mut e = self.entries[vector as usize];
        e.set_stack_index(slot);
        self.entries[vector as usize] = e;
    }

    /// The entry of `vector`.
    pub fn entry(&self, vector: u8) -> (r: Entry)
        requires
            self.wf(),
        ensures
            r == self.gates()[vector as int],
    {
        self.entries[vector as usize]
    }

    /// The value of the table register's limit field: the table's size in
    /// bytes, less one.
    pub fn limit(&self) -> (r: u16)
        ensures
            r == IDT_GATES * 16 - 1,
    {
        (IDT_GATES * 16 - 1) as u16
    }
}

/// An entry built for a handler encodes that handler's address exactly in its
/// low, middle and high pointer fields, and a stack switch leaves them as
/// they are.
pub proof fn lemma_gate_encodes_handler(selector: SegmentSelector, handler: u64, slot: u16)
    ensures
        handler_address(gate(selector, handler)) == handler,
        handler_address(with_stack_slot(gate(selector, handler), slot)) == handler,
{
    assert(((handler as u16) as u64) | ((((handler >> 16u64) as u16) as u64) << 16u64) | (((
    (handler >> 32u64) as u32) as u64) << 32u64) == handler) by (bit_vector);
}

/// An entry built for a handler is present and switches no stack; with a stack
/// switch to a slot below seven it switches to that slot, a nonzero field.
pub proof fn lemma_gate_stack_field(selector: SegmentSelector, handler: u64, slot: u16)
    requires
        slot < 7,
    ensures
        gate(selector, handler).is_present(),
        gate(selector, handler).stack_slot() is None,
        with_stack_slot(gate(selector, handler), slot).is_present(),
        stack_field(with_stack_slot(gate(selector, handler), slot).options) != 0,
        with_stack_slot(gate(selector, handler), slot).stack_slot() == Some(slot as nat),
        !missing_gate().is_present(),
        missing_gate().stack_slot() is None,
{
    let o: u16 = 0x0e00u16 | 0x8000u16;
    let f: u16 = (slot + 1) as u16;
    assert(o & 0x8000u16 == 0x8000u16 && o & 0x7u16 == 0) by (bit_vector)
        requires
            o == 0x0e00u16 | 0x8000u16,
    ;
    assert(((o & 0xfff8u16) | f) & 0x8000u16 == 0x8000u16 && ((o & 0xfff8u16) | f) & 0x7u16 == f)
        by (bit_vector)
        requires
            o == 0x0e00u16 | 0x8000u16,
            1 <= f < 8,
    ;
    assert(0x0e00u16 & 0x8000u16 != 0x8000u16 && 0x0e00u16 & 0x7u16 == 0) by (bit_vector);
}

/// The entry that `Idt::new` puts at every vector.
pub open spec fn missing_gate() -> Entry {
    Entry {
        pointer_low: 0,
        gdt_selector: SegmentSelector { bits: 0 },
        options: MINIMAL_OPTIONS,
        pointer_middle: 0,
        pointer_high: 0,
        reserved: 0,
    }
}

} // verus!

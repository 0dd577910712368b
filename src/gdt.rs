use vstd::prelude::*;

verus! {

/// Number of 8-byte slots in the global descriptor table.
pub const GDT_SLOTS: usize = 8;

/// Descriptor bit: the segment holds code.
pub const EXECUTABLE: u64 = 0x0000_0800_0000_0000;
/// Descriptor bit: a code or data segment rather than a system segment.
pub const USER_SEGMENT: u64 = 0x0000_1000_0000_0000;
/// Descriptor bit: the segment is present.
pub const PRESENT: u64 = 0x0000_8000_0000_0000;
/// Descriptor bit: a 64-bit code segment.
pub const LONG_MODE: u64 = 0x0020_0000_0000_0000;

/// System-segment type of an available 64-bit task state segment.
pub const TSS_AVAILABLE_TYPE: u64 = 0b1001;

/// A selector: a table index shifted left by three, with the requested
/// privilege level in the two low bits.
#[derive(Clone, Copy, Debug, PartialEq, Eq, Structural)]
pub struct SegmentSelector {
    pub bits: u16,
}

impl SegmentSelector {
    /// The slot of the table that the selector names.
    pub open spec fn index(self) -> nat {
        (self.bits / 8) as nat
    }

    /// The requested privilege level.
    pub open spec fn rpl(self) -> nat {
        (self.bits % 4) as nat
    }

    /// The selector of `index` at requested privilege level `rpl`.
    pub fn new(index: u16, rpl: u16) -> (r: SegmentSelector)
        requires
            index < 8192,
            rpl < 4,
        ensures
            r.bits == index * 8 + rpl,
            r.index() == index,
            r.rpl() == rpl,
    {
        SegmentSelector { bits: index * 8 + rpl }
    }

    /// The selector that names no slot.
    pub fn empty() -> (r: SegmentSelector)
        ensures
            r.bits == 0,
    {
        SegmentSelector { bits: 0 }
    }
}

/// Low word of the descriptor of an available 64-bit task state segment at
/// `base` whose last byte is at offset `limit`.
pub open spec fn tss_low_word(base: u64, limit: u64) -> u64 {
    PRESENT | ((base & 0xff_ffffu64) << 16u64) | (((base >> 24u64) & 0xffu64) << 56u64) | limit | (
    TSS_AVAILABLE_TYPE << 40u64)
}

/// High word of the descriptor of a task state segment at `base`.
pub open spec fn tss_high_word(base: u64) -> u64 {
    base >> 32u64
}

/// Base address held by the low and high words of a system-segment descriptor.
pub open spec fn system_base(low: u64, high: u64) -> u64 {
    ((low >> 16u64) & 0xff_ffffu64) | (((low >> 56u64) & 0xffu64) << 24u64) | (high << 32u64)
}

/// Limit field of a descriptor.
pub open spec fn descriptor_limit(low: u64) -> u64 {
    low & 0xffffu64
}

/// Type field of a system-segment descriptor.
pub open spec fn descriptor_type(low: u64) -> u64 {
    (low >> 40u64) & 0xfu64
}

/// A descriptor to append to the table: one slot for a code or data segment,
/// two for a system segment such as a task state segment.
#[derive(Clone, Copy, Debug)]
pub enum Descriptor {
    UserSegment(u64),
    SystemSegment(u64, u64),
}

impl Descriptor {
    /// The slots the descriptor occupies, in order.
    pub open spec fn slots(self) -> Seq<u64> {
        match self {
            Descriptor::UserSegment(v) => seq![v],
            Descriptor::SystemSegment(low, high) => seq![low, high],
        }
    }

    /// The flat 64-bit kernel code segment: present, executable, long mode.
    pub fn kernel_code_segment() -> (r: Descriptor)
        ensures
            r == Descriptor::UserSegment(USER_SEGMENT | PRESENT | EXECUTABLE | LONG_MODE),
    {
        Descriptor::UserSegment(USER_SEGMENT | PRESENT | EXECUTABLE | LONG_MODE)
    }

    /// The descriptor of an available 64-bit task state segment of `size`
    /// bytes that starts at `base`.
    pub fn tss_segment(base: u64, size: u64) -> (r: Descriptor)
        requires
            1 <= size <= 0x1_0000,
        ensures
            r == Descriptor::SystemSegment(tss_low_word(base, (size - 1) as u64), tss_high_word(base)),
            r matches Descriptor::SystemSegment(low, high) && {
                &&& system_base(low, high) == base
                &&& descriptor_limit(low) == size - 1
                &&& descriptor_type(low) == TSS_AVAILABLE_TYPE
                &&& low & PRESENT == PRESENT
                &&& low & USER_SEGMENT == 0
                &&& high >> 32u64 == 0
            },
    {
        let limit: u64 = size - 1;
        let low: u64 = PRESENT | ((base & 0xff_ffff) << 16u64) | (((base >> 24u64) & 0xff) << 56u64)
            | limit | (TSS_AVAILABLE_TYPE << 40u64);
        let high: u64 = base >> 32u64;
        assert(system_base(low, high) == base && descriptor_limit(low) == limit
            && descriptor_type(low) == 0b1001u64 && low & 0x0000_8000_0000_0000u64
            == 0x0000_8000_0000_0000u64 && low & 0x0000_1000_0000_0000u64 == 0 && high >> 32u64
            == 0) by (bit_vector)
            requires
                limit < 0x1_0000,
                low == 0x0000_8000_0000_0000u64 | ((base & 0xff_ffffu64) << 16u64) | (((base
                    >> 24u64) & 0xffu64) << 56u64) | limit | (0b1001u64 << 40u64),
                high == base >> 32u64,
        ;
        Descriptor::SystemSegment(low, high)
    }
}

/// The global descriptor table: a fixed array of slots of which a prefix is
/// in use; slot 0 holds the null descriptor.
pub struct Gdt {
    table: Vec<u64>,
    next_free: usize,
    descriptors: usize,
}

impl Gdt {
    pub closed spec fn wf(self) -> bool {
        &&& self.table@.len() == GDT_SLOTS
        &&& 1 <= self.next_free <= GDT_SLOTS
        &&& 1 <= self.descriptors <= self.next_free
        &&& self.table@[0] == 0
        &&& forall|i: int| self.next_free <= i < GDT_SLOTS ==> self.table@[i] == 0
    }

    /// The slots in use, the null descriptor first.
    pub closed spec fn entries(self) -> Seq<u64> {
        self.table@.take(self.next_free as int)
    }

    /// The number of descriptors in the table, the null descriptor included;
    /// a system segment counts once though it fills two slots.
    pub closed spec fn descriptor_count(self) -> nat {
        self.descriptors as nat
    }

    /// All slots of the table as the processor reads them.
    pub closed spec fn slots(self) -> Seq<u64> {
        self.table@
    }

    /// A table that holds only the null descriptor.
    pub fn new() -> (r: Gdt)
        ensures
            r.wf(),
            r.entries() == seq![0u64],
            r.descriptor_count() == 1,
    {
        let r = Gdt { table: vec![0u64; GDT_SLOTS], next_free: 1, descriptors: 1 };
        assert(r.entries() =~= seq![0u64]);
        r
    }

    /// Appends `entry` and returns the selector, at privilege level 0, of
    /// its first slot.
    pub fn add_entry(&mut self, entry: Descriptor) -> (r: SegmentSelector)
        requires
            old(self).wf(),
            old(self).entries().len() + entry.slots().len() <= GDT_SLOTS,
        ensures
            final(self).wf(),
            final(self).entries() == old(self).entries() + entry.slots(),
            final(self).descriptor_count() == old(self).descriptor_count() + 1,
            r.bits == old(self).entries().len() * 8,
            r.index() == old(self).entries().len(),
            r.rpl() == 0,
    {
        let index = self.next_free;
        match entry {
            Descriptor::UserSegment(value) => {
                self.push(value);
            },
            Descriptor::SystemSegment(low, high) => {
                self.push(low);
                self.push(high);
            },
        }
        self.descriptors = self.descriptors + 1;
        assert(self.entries() =~= old(self).entries() + entry.slots());
        SegmentSelector::new(index as u16, 0)
    }

    fn push(&mut self, value: u64)
        requires
            old(self).wf(),
            old(self).next_free < GDT_SLOTS,
        ensures
            final(self).wf(),
            final(self).next_free == old(self).next_free + 1,
            final(self).descriptors == old(self).descriptors,
            final(self).entries() == old(self).entries().push(value),
    {
        let index = self.next_free;
        self.table[index] = value;
        self.next_free = index + 1;
        assert(self.entries() =~= old(self).entries().push(value));
    }

    /// The value of the table register's limit field: the table's size in
    /// bytes, less one.
    pub fn limit(&self) -> (r: u16)
        ensures
            r == GDT_SLOTS * 8 - 1,
    {
        (GDT_SLOTS * 8 - 1) as u16
    }

    /// The number of descriptors in the table, the null descriptor included.
    pub fn len(&self) -> (r: usize)
        ensures
            r == self.descriptor_count(),
    {
        self.descriptors
    }

    /// The slots of the table in order, to be placed where the processor
    /// reads them.
    pub fn table(&self) -> (r: &Vec<u64>)
        requires
            self.wf(),
        ensures
            r@ == self.slots(),
            r@.len() == GDT_SLOTS,
            r@.take(self.entries().len() as int) == self.entries(),
            forall|i: int| self.entries().len() <= i < GDT_SLOTS ==> #[trigger] r@[i] == 0,
    {
        &self.table
    }

    /// Slot 0 holds the null descriptor, however many descriptors were
    /// appended; so does every slot past those in use.
    pub proof fn lemma_null_slot(self)
        requires
            self.wf(),
        ensures
            self.entries().len() >= 1,
            self.entries()[0] == 0,
            self.slots().len() == GDT_SLOTS,
            self.slots()[0] == 0,
            forall|i: int| self.entries().len() <= i < GDT_SLOTS ==> #[trigger] self.slots()[i] == 0,
    {
    }
}

} // verus!

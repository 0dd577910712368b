use vstd::prelude::*;

verus! {

/// Slot of the interrupt stack table that holds the double-fault stack.
pub const DOUBLE_FAULT_IST_INDEX: usize = 0;

/// The fields of a 64-bit task state segment that the kernel sets: the
/// privilege-level stack pointers, the interrupt stack table and the offset
/// of the I/O permission map. The reserved fields are always zero.
#[derive(Clone, Copy, Debug)]
pub struct TaskStateSegment {
    pub rsp: [u64; 3],
    pub ist: [u64; 7],
    pub iomap_base: u16,
}

impl TaskStateSegment {
    /// A segment with every field zero.
    pub fn new() -> (r: TaskStateSegment)
        ensures
            forall|i: int| 0 <= i < 3 ==> r.rsp@[i] == 0,
            forall|i: int| 0 <= i < 7 ==> r.ist@[i] == 0,
            r.iomap_base == 0,
    {
        let r = TaskStateSegment { rsp: [0, 0, 0], ist: [0, 0, 0, 0, 0, 0, 0], iomap_base: 0 };
        assert(r.rsp@ =~= seq![0u64, 0, 0]);
        assert(r.ist@ =~= seq![0u64, 0, 0, 0, 0, 0, 0]);
        r
    }

    /// A zeroed segment whose interrupt stack table holds `stack_top` in the
    /// double-fault slot and nothing elsewhere.
    pub fn for_double_fault_stack(stack_top: u64) -> (r: TaskStateSegment)
        ensures
            r.ist@[DOUBLE_FAULT_IST_INDEX as int] == stack_top,
            forall|i: int| 0 <= i < 7 && i != DOUBLE_FAULT_IST_INDEX ==> r.ist@[i] == 0,
            forall|i: int| 0 <= i < 3 ==> r.rsp@[i] == 0,
            r.iomap_base == 0,
    {
        let r = TaskStateSegment {
            rsp: [0, 0, 0],
            ist: [stack_top, 0, 0, 0, 0, 0, 0],
            iomap_base: 0,
        };
        assert(r.rsp@ =~= seq![0u64, 0, 0]);
        assert(r.ist@ =~= seq![stack_top, 0, 0, 0, 0, 0, 0]);
        r
    }

    /// The size in bytes of the segment as the processor reads it.
    pub fn size() -> (r: u64)
        ensures
            r == 104,
    {
        hardware_tss_size() as u64
    }
}

/// Relies on the layout of `x86::bits64::task::TaskStateSegment`: a packed
/// struct of a u32, three u64, a u64, seven u64, a u64 and two u16, that is
/// 104 bytes.
#[verifier::external_body]
fn hardware_tss_size() -> (r: usize)
    ensures
        r == 104,
{
    core::mem::size_of::<x86::bits64::task::TaskStateSegment>()
}

} // verus!

use vstd::prelude::*;
use crate::exceptions::{
    is_handled_vector, BREAKPOINT_VECTOR, DIVIDE_BY_ZERO_VECTOR, DOUBLE_FAULT_VECTOR,
    INVALID_OPCODE_VECTOR, PAGE_FAULT_VECTOR,
};
use crate::gdt::{
    tss_high_word, tss_low_word, Descriptor, Gdt, SegmentSelector, EXECUTABLE, GDT_SLOTS, LONG_MODE,
    PRESENT, USER_SEGMENT,
};
use crate::gdt::system_base;
use crate::idt::{
    gate, handler_address, lemma_gate_encodes_handler, lemma_gate_stack_field, missing_gate,
    stack_field, with_stack_slot, Idt, IDT_GATES,
};
use crate::tss::{TaskStateSegment, DOUBLE_FAULT_IST_INDEX};

verus! {

/// A stack handed out by the memory manager, growing down from `top`.
#[derive(Clone, Copy, Debug, PartialEq, Eq, Structural)]
pub struct Stack {
    pub top: u64,
    pub bottom: u64,
}

/// Why the exception tables could not be set up.
#[derive(Clone, Copy, Debug, PartialEq, Eq, Structural)]
pub enum InitError {
    /// No stack could be allocated for the double-fault handler.
    StackAllocationFailed,
}

/// Entry addresses of the five exception handlers.
#[derive(Clone, Copy, Debug, PartialEq, Eq, Structural)]
pub struct HandlerAddresses {
    pub divide_by_zero: u64,
    pub breakpoint: u64,
    pub invalid_opcode: u64,
    pub double_fault: u64,
    pub page_fault: u64,
}

/// One privileged step that points the processor at the tables.
#[derive(Clone, Copy, Debug, PartialEq, Eq, Structural)]
pub enum RegisterLoad {
    /// Load the descriptor-table register with the global descriptor table.
    LoadGdt,
    /// Reload the code-segment register with a selector.
    SetCodeSegment(SegmentSelector),
    /// Load the task register with a selector.
    LoadTaskRegister(SegmentSelector),
    /// Load the interrupt-descriptor-table register.
    LoadIdt,
}

/// The task state segment, global and interrupt descriptor tables, and the
/// selectors of the code segment and of the task state segment.
pub struct DescriptorTables {
    pub tss: TaskStateSegment,
    pub gdt: Gdt,
    pub code_selector: SegmentSelector,
    pub tss_selector: SegmentSelector,
    pub idt: Idt,
}

/// The kernel code segment descriptor.
pub open spec fn kernel_code_word() -> u64 {
    USER_SEGMENT | PRESENT | EXECUTABLE | LONG_MODE
}

/// The tables that `init` builds for a double-fault stack whose top is
/// `stack_top`, a task state segment resident at `tss_address` and the
/// handlers `h`.
pub open spec fn built_from(
    t: DescriptorTables,
    stack_top: u64,
    tss_address: u64,
    h: HandlerAddresses,
) -> bool {
    let code = t.code_selector;
    &&& t.tss.ist@[DOUBLE_FAULT_IST_INDEX as int] == stack_top
    &&& forall|i: int| 0 <= i < 7 && i != DOUBLE_FAULT_IST_INDEX ==> t.tss.ist@[i] == 0
    &&& forall|i: int| 0 <= i < 3 ==> t.tss.rsp@[i] == 0
    &&& t.tss.iomap_base == 0
    &&& t.gdt.wf()
    &&& t.gdt.entries() == seq![
        0u64,
        kernel_code_word(),
        tss_low_word(tss_address, 103),
        tss_high_word(tss_address),
    ]
    &&& t.gdt.descriptor_count() == 3
    &&& t.gdt.slots().len() == GDT_SLOTS
    &&& forall|i: int| 4 <= i < GDT_SLOTS ==> #[trigger] t.gdt.slots()[i] == 0
    &&& code.bits == 8
    &&& t.tss_selector.bits == 16
    &&& t.idt.wf()
    &&& t.idt.gates()[DIVIDE_BY_ZERO_VECTOR as int] == gate(code, h.divide_by_zero)
    &&& t.idt.gates()[BREAKPOINT_VECTOR as int] == gate(code, h.breakpoint)
    &&& t.idt.gates()[INVALID_OPCODE_VECTOR as int] == gate(code, h.invalid_opcode)
    &&& t.idt.gates()[DOUBLE_FAULT_VECTOR as int] == with_stack_slot(
        gate(code, h.double_fault),
        DOUBLE_FAULT_IST_INDEX as u16,
    )
    &&& t.idt.gates()[PAGE_FAULT_VECTOR as int] == gate(code, h.page_fault)
    &&& forall|v: int|
        0 <= v < IDT_GATES && !is_handled_vector(v) ==> #[trigger] t.idt.gates()[v]
            == missing_gate()
}

/// The order in which the processor is pointed at `t`: the global table
/// first, since the two selectors index into it, the interrupt table last.
pub open spec fn activation_order(t: DescriptorTables) -> Seq<RegisterLoad> {
    seq![
        RegisterLoad::LoadGdt,
        RegisterLoad::SetCodeSegment(t.code_selector),
        RegisterLoad::LoadTaskRegister(t.tss_selector),
        RegisterLoad::LoadIdt,
    ]
}

/// The tables of the kernel, built at most once.
pub struct ExceptionSetup {
    tables: Option<DescriptorTables>,
}

/// What one call of `init` does, from the state `before` to `after` with
/// result `r`.
pub open spec fn init_step(
    before: Option<DescriptorTables>,
    stack: Option<Stack>,
    tss_address: u64,
    h: HandlerAddresses,
    after: Option<DescriptorTables>,
    r: Result<Seq<RegisterLoad>, InitError>,
) -> bool {
    match stack {
        None => after == before && r == Err::<Seq<RegisterLoad>, InitError>(
            InitError::StackAllocationFailed,
        ),
        Some(s) => match before {
            Some(t) => after == before && r == Ok::<Seq<RegisterLoad>, InitError>(seq![]),
            None => after is Some && built_from(after->Some_0, s.top, tss_address, h) && r == Ok::<
                Seq<RegisterLoad>,
                InitError,
            >(activation_order(after->Some_0)),
        },
    }
}

/// The result of `init` with its plan of register loads as a sequence.
pub open spec fn plan_view(r: Result<Vec<RegisterLoad>, InitError>) -> Result<
    Seq<RegisterLoad>,
    InitError,
> {
    match r {
        Ok(v) => Ok(v@),
        Err(e) => Err(e),
    }
}

impl ExceptionSetup {
    /// The tables, once built.
    pub closed spec fn state(self) -> Option<DescriptorTables> {
        self.tables
    }

    /// Nothing built yet.
    pub fn new() -> (r: ExceptionSetup)
        ensures
            r.state() is None,
    {
        ExceptionSetup { tables: None }
    }

    /// The tables, once built.
    pub fn tables(&self) -> (r: Option<&DescriptorTables>)
        ensures
            r matches Some(t) ==> self.state() == Some(*t),
            r is None ==> self.state() is None,
    {
        match &self.tables {
            Some(t) => Some(t),
            None => None,
        }
    }
}

/// Builds the exception tables once, and returns the register loads that
/// make them live, in order. A later call finds them built and live, and
/// returns no register load: the task register cannot be loaded twice with
/// the same task state segment, which the first load marked busy.
///
/// `stack` is what the memory manager gave for the double-fault stack;
/// `tss_address` is where the task state segment will be resident for as
/// long as the processor uses it. Without a stack nothing is built and no
/// register is to be loaded.
pub fn init(
    setup: &mut ExceptionSetup,
    stack: Option<Stack>,
    tss_address: u64,
    handlers: HandlerAddresses,
) -> (r: Result<Vec<RegisterLoad>, InitError>)
    ensures
        init_step(old(setup).state(), stack, tss_address, handlers, final(setup).state(), plan_view(r)),
{
    let stack = match stack {
        Some(s) => s,
        None => {
            return Err(InitError::StackAllocationFailed);
        },
    };
    if setup.tables.is_some() {
        let r: Vec<RegisterLoad> = Vec::new();
        assert(r@ =~= seq![]);
        return Ok(r);
    }
    let tables = build_tables(stack.top, tss_address, handlers);
    let plan = activation_plan(&tables);
    setup.tables = Some(tables);
    Ok(plan)
}

/// The register loads that make `t` live, in order.
pub fn activation_plan(t: &DescriptorTables) -> (r: Vec<RegisterLoad>)
    ensures
        r@ == activation_order(*t),
{
    let r = vec![
        RegisterLoad::LoadGdt,
        RegisterLoad::SetCodeSegment(t.code_selector),
        RegisterLoad::LoadTaskRegister(t.tss_selector),
        RegisterLoad::LoadIdt,
    ];
    assert(r@ =~= activation_order(*t));
    r
}

/// Builds the task state segment, the global descriptor table with the
/// kernel code segment and the task state segment, and the interrupt
/// descriptor table with the five handlers.
pub fn build_tables(stack_top: u64, tss_address: u64, handlers: HandlerAddresses) -> (r:
    DescriptorTables)
    ensures
        built_from(r, stack_top, tss_address, handlers),
{
    let tss = TaskStateSegment::for_double_fault_stack(stack_top);
    let mut gdt = Gdt::new();
    let code_selector = gdt.add_entry(Descriptor::kernel_code_segment());
    let tss_selector = gdt.add_entry(Descriptor::tss_segment(tss_address, TaskStateSegment::size()));
    assert(gdt.entries() =~= seq![
        0u64,
        kernel_code_word(),
        tss_low_word(tss_address, 103),
        tss_high_word(tss_address),
    ]);
    assert(code_selector.bits == 8 && tss_selector.bits == 16);
    proof {
        gdt.lemma_null_slot();
    }
    let idt = build_idt(code_selector, handlers);
    DescriptorTables { tss, gdt, code_selector, tss_selector, idt }
}

/// The interrupt descriptor table with the five handlers reached through the
/// code segment `code`, the double-fault entry switching to its own stack.
pub fn build_idt(code: SegmentSelector, h: HandlerAddresses) -> (r: Idt)
    ensures
        r.wf(),
        r.gates()[DIVIDE_BY_ZERO_VECTOR as int] == gate(code, h.divide_by_zero),
        r.gates()[BREAKPOINT_VECTOR as int] == gate(code, h.breakpoint),
        r.gates()[INVALID_OPCODE_VECTOR as int] == gate(code, h.invalid_opcode),
        r.gates()[DOUBLE_FAULT_VECTOR as int] == with_stack_slot(
            gate(code, h.double_fault),
            DOUBLE_FAULT_IST_INDEX as u16,
        ),
        r.gates()[PAGE_FAULT_VECTOR as int] == gate(code, h.page_fault),
        forall|v: int|
            0 <= v < IDT_GATES && !is_handled_vector(v) ==> #[trigger] r.gates()[v]
                == missing_gate(),
{
    let mut idt = Idt::new();
    idt.set_handler(DIVIDE_BY_ZERO_VECTOR, code, h.divide_by_zero);
    idt.set_handler(BREAKPOINT_VECTOR, code, h.breakpoint);
    idt.set_handler(INVALID_OPCODE_VECTOR, code, h.invalid_opcode);
    idt.set_handler_with_error_code(DOUBLE_FAULT_VECTOR, code, h.double_fault);
    idt.set_stack_index(DOUBLE_FAULT_VECTOR, DOUBLE_FAULT_IST_INDEX as u16);
    idt.set_handler_with_error_code(PAGE_FAULT_VECTOR, code, h.page_fault);
    idt
}

/// The handler installed for `vector`, for the five vectors handled.
pub open spec fn handler_for(h: HandlerAddresses, vector: int) -> u64 {
    if vector == DIVIDE_BY_ZERO_VECTOR {
        h.divide_by_zero
    } else if vector == BREAKPOINT_VECTOR {
        h.breakpoint
    } else if vector == INVALID_OPCODE_VECTOR {
        h.invalid_opcode
    } else if vector == DOUBLE_FAULT_VECTOR {
        h.double_fault
    } else {
        h.page_fault
    }
}

/// Exactly the five handled vectors have a present entry, and the pointer
/// fields of each present entry put together give its handler's address.
pub proof fn lemma_installed_gates(
    t: DescriptorTables,
    stack_top: u64,
    tss_address: u64,
    h: HandlerAddresses,
)
    requires
        built_from(t, stack_top, tss_address, h),
    ensures
        forall|v: int|
            0 <= v < IDT_GATES ==> ((#[trigger] t.idt.gates()[v]).is_present()
                <==> is_handled_vector(v)),
        forall|v: int|
            0 <= v < IDT_GATES && is_handled_vector(v) ==> handler_address(#[trigger] t.idt.gates()[v])
                == handler_for(h, v),
{
    let code = t.code_selector;
    let slot = DOUBLE_FAULT_IST_INDEX as u16;
    lemma_gate_stack_field(code, h.divide_by_zero, slot);
    lemma_gate_stack_field(code, h.breakpoint, slot);
    lemma_gate_stack_field(code, h.invalid_opcode, slot);
    lemma_gate_stack_field(code, h.double_fault, slot);
    lemma_gate_stack_field(code, h.page_fault, slot);
    lemma_gate_encodes_handler(code, h.divide_by_zero, slot);
    lemma_gate_encodes_handler(code, h.breakpoint, slot);
    lemma_gate_encodes_handler(code, h.invalid_opcode, slot);
    lemma_gate_encodes_handler(code, h.double_fault, slot);
    lemma_gate_encodes_handler(code, h.page_fault, slot);
}

/// The double-fault entry switches stacks, with a nonzero stack field, to the
/// interrupt stack table slot that holds the double-fault stack's top; no
/// other entry switches stacks.
pub proof fn lemma_double_fault_stack(
    t: DescriptorTables,
    stack_top: u64,
    tss_address: u64,
    h: HandlerAddresses,
)
    requires
        built_from(t, stack_top, tss_address, h),
    ensures
        stack_field(t.idt.gates()[DOUBLE_FAULT_VECTOR as int].options) != 0,
        t.idt.gates()[DOUBLE_FAULT_VECTOR as int].stack_slot() == Some(
            DOUBLE_FAULT_IST_INDEX as nat,
        ),
        t.tss.ist@[DOUBLE_FAULT_IST_INDEX as int] == stack_top,
        forall|v: int|
            0 <= v < IDT_GATES && v != DOUBLE_FAULT_VECTOR ==> (#[trigger] t.idt.gates()[v]).stack_slot() is None,
{
    let code = t.code_selector;
    let slot = DOUBLE_FAULT_IST_INDEX as u16;
    lemma_gate_stack_field(code, h.divide_by_zero, slot);
    lemma_gate_stack_field(code, h.breakpoint, slot);
    lemma_gate_stack_field(code, h.invalid_opcode, slot);
    lemma_gate_stack_field(code, h.double_fault, slot);
    lemma_gate_stack_field(code, h.page_fault, slot);
}

/// The global table holds the null descriptor in slot 0, then the code
/// segment, then the task state segment in the two consecutive slots 2 and
/// 3; the task state segment's selector names slot 2, and the two slots
/// give back its address and size.
pub proof fn lemma_global_table_layout(
    t: DescriptorTables,
    stack_top: u64,
    tss_address: u64,
    h: HandlerAddresses,
)
    requires
        built_from(t, stack_top, tss_address, h),
    ensures
        t.gdt.entries().len() == 4,
        t.gdt.entries()[0] == 0,
        t.gdt.descriptor_count() == 3,
        t.code_selector.index() == 1,
        t.tss_selector.index() == 2,
        t.gdt.entries()[t.tss_selector.index() as int] == tss_low_word(tss_address, 103),
        t.gdt.entries()[t.tss_selector.index() + 1int] == tss_high_word(tss_address),
        system_base(
            t.gdt.entries()[t.tss_selector.index() as int],
            t.gdt.entries()[t.tss_selector.index() + 1int],
        ) == tss_address,
{
    let low = tss_low_word(tss_address, 103);
    let high = tss_high_word(tss_address);
    assert(system_base(low, high) == tss_address) by (bit_vector)
        requires
            low == 0x0000_8000_0000_0000u64 | ((tss_address & 0xff_ffffu64) << 16u64) | (((
            tss_address >> 24u64) & 0xffu64) << 56u64) | 103u64 | (0b1001u64 << 40u64),
            high == tss_address >> 32u64,
    ;
}

/// Once `init` has succeeded, a later call with a stack leaves the tables as
/// they are, succeeds, and loads no register again.
pub proof fn lemma_init_twice(
    s0: Option<DescriptorTables>,
    stack1: Option<Stack>,
    address1: u64,
    h1: HandlerAddresses,
    s1: Option<DescriptorTables>,
    r1: Result<Seq<RegisterLoad>, InitError>,
    stack2: Option<Stack>,
    address2: u64,
    h2: HandlerAddresses,
    s2: Option<DescriptorTables>,
    r2: Result<Seq<RegisterLoad>, InitError>,
)
    requires
        init_step(s0, stack1, address1, h1, s1, r1),
        init_step(s1, stack2, address2, h2, s2, r2),
        r1 is Ok,
        stack2 is Some,
    ensures
        s2 == s1,
        r2 == Ok::<Seq<RegisterLoad>, InitError>(seq![]),
{
}

} // verus!

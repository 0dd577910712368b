use vstd::prelude::*;

verus! {

/// Vector of the divide-error exception.
pub const DIVIDE_BY_ZERO_VECTOR: u8 = 0;
/// Vector of the breakpoint exception.
pub const BREAKPOINT_VECTOR: u8 = 3;
/// Vector of the invalid-opcode exception.
pub const INVALID_OPCODE_VECTOR: u8 = 6;
/// Vector of the double-fault exception.
pub const DOUBLE_FAULT_VECTOR: u8 = 8;
/// Vector of the page-fault exception.
pub const PAGE_FAULT_VECTOR: u8 = 14;

/// Whether the kernel installs a handler for `vector`.
pub open spec fn is_handled_vector(vector: int) -> bool {
    vector == DIVIDE_BY_ZERO_VECTOR || vector == BREAKPOINT_VECTOR || vector
        == INVALID_OPCODE_VECTOR || vector == DOUBLE_FAULT_VECTOR || vector == PAGE_FAULT_VECTOR
}

/// What a handler does once it has reported an exception.
#[derive(Clone, Copy, Debug, PartialEq, Eq, Structural)]
pub enum ExceptionAction {
    /// Return to the interrupted code.
    Resume,
    /// Stop the faulting context for good.
    Halt,
}

/// The action taken for exceptions of `vector`: a breakpoint resumes, every
/// other exception halts.
pub open spec fn spec_action_for(vector: u8) -> ExceptionAction {
    if vector == BREAKPOINT_VECTOR {
        ExceptionAction::Resume
    } else {
        ExceptionAction::Halt
    }
}

/// The action taken for exceptions of `vector`.
#[verifier::when_used_as_spec(spec_action_for)]
pub fn action_for(vector: u8) -> (r: ExceptionAction)
    ensures
        r == spec_action_for(vector),
{
    if vector == BREAKPOINT_VECTOR {
        ExceptionAction::Resume
    } else {
        ExceptionAction::Halt
    }
}

/// The state of a processor context with respect to exceptions.
#[derive(Clone, Copy, Debug, PartialEq, Eq, Structural)]
pub enum ContextState {
    Running,
    Handling(u8),
    Halted,
}

impl ContextState {
    /// The state after the processor delivers an exception of `vector`: a
    /// running context enters its handler; a halted one stays halted.
    pub fn deliver(self, vector: u8) -> (r: ContextState)
        requires
            !(self is Handling),
        ensures
            self == ContextState::Running ==> r == ContextState::Handling(vector),
            self == ContextState::Halted ==> r == ContextState::Halted,
    {
        match self {
            ContextState::Running => ContextState::Handling(vector),
            _ => ContextState::Halted,
        }
    }

    /// The state once the handler of the exception being handled is done.
    pub fn complete(self) -> (r: ContextState)
        requires
            self is Handling,
        ensures
            r == (match spec_action_for(self->Handling_0) {
                ExceptionAction::Resume => ContextState::Running,
                ExceptionAction::Halt => ContextState::Halted,
            }),
    {
        match self {
            ContextState::Handling(vector) => match action_for(vector) {
                ExceptionAction::Resume => ContextState::Running,
                ExceptionAction::Halt => ContextState::Halted,
            },
            _ => self,
        }
    }

}

/// One condition that the error code of a page fault reports.
#[derive(Clone, Copy, Debug, PartialEq, Eq, Structural)]
pub enum PageFaultFlag {
    ProtectionViolation,
    CausedByWrite,
    UserMode,
    MalformedTable,
    InstructionFetch,
}

impl PageFaultFlag {
    /// The bit of the error code that reports the flag.
    pub open spec fn spec_bit(self) -> u64 {
        match self {
            PageFaultFlag::ProtectionViolation => 1,
            PageFaultFlag::CausedByWrite => 2,
            PageFaultFlag::UserMode => 4,
            PageFaultFlag::MalformedTable => 8,
            PageFaultFlag::InstructionFetch => 16,
        }
    }

    /// The bit of the error code that reports the flag.
    #[verifier::when_used_as_spec(spec_bit)]
    pub fn bit(self) -> (r: u64)
        ensures
            r == self.spec_bit(),
    {
        match self {
            PageFaultFlag::ProtectionViolation => 1,
            PageFaultFlag::CausedByWrite => 2,
            PageFaultFlag::UserMode => 4,
            PageFaultFlag::MalformedTable => 8,
            PageFaultFlag::InstructionFetch => 16,
        }
    }

    /// The flag's name in a diagnostic.
    pub fn name(self) -> (r: &'static str)
        ensures
            self == PageFaultFlag::ProtectionViolation ==> r@ == "protection violation"@,
            self == PageFaultFlag::CausedByWrite ==> r@ == "caused by write"@,
            self == PageFaultFlag::UserMode ==> r@ == "user mode"@,
            self == PageFaultFlag::MalformedTable ==> r@ == "malformed table"@,
            self == PageFaultFlag::InstructionFetch ==> r@ == "instruction fetch"@,
    {
        match self {
            PageFaultFlag::ProtectionViolation => "protection violation",
            PageFaultFlag::CausedByWrite => "caused by write",
            PageFaultFlag::UserMode => "user mode",
            PageFaultFlag::MalformedTable => "malformed table",
            PageFaultFlag::InstructionFetch => "instruction fetch",
        }
    }
}

/// `flag` if the error code `code` has its bit set, else nothing.
pub open spec fn flag_if_set(code: u64, flag: PageFaultFlag) -> Seq<PageFaultFlag> {
    if code & flag.spec_bit() != 0 {
        seq![flag]
    } else {
        seq![]
    }
}

/// Every flag whose bit is set in the error code `code`, in bit order.
pub open spec fn page_fault_flags(code: u64) -> Seq<PageFaultFlag> {
    flag_if_set(code, PageFaultFlag::ProtectionViolation) + flag_if_set(
        code,
        PageFaultFlag::CausedByWrite,
    ) + flag_if_set(code, PageFaultFlag::UserMode) + flag_if_set(
        code,
        PageFaultFlag::MalformedTable,
    ) + flag_if_set(code, PageFaultFlag::InstructionFetch)
}

/// Reads the error code of a page fault as a set of independent flags and
/// reports each one that is set, in bit order. Bits above the fifth are
/// not interpreted.
pub fn decode_page_fault_error(code: u64) -> (r: Vec<PageFaultFlag>)
    ensures
        r@ == page_fault_flags(code),
{
    let mut r: Vec<PageFaultFlag> = Vec::new();
    let flags = [
        PageFaultFlag::ProtectionViolation,
        PageFaultFlag::CausedByWrite,
        PageFaultFlag::UserMode,
        PageFaultFlag::MalformedTable,
        PageFaultFlag::InstructionFetch,
    ];
    let ghost all = seq![
        PageFaultFlag::ProtectionViolation,
        PageFaultFlag::CausedByWrite,
        PageFaultFlag::UserMode,
        PageFaultFlag::MalformedTable,
        PageFaultFlag::InstructionFetch,
    ];
    assert(flags@ =~= all);
    let mut i: usize = 0;
    while i < 5
        invariant
            i <= 5,
            flags@ == all,
            r@ == flags_upto(code, all, i as int),
        decreases 5 - i,
    {
        let flag = flags[i];
        if code & flag.bit() != 0 {
            r.push(flag);
        }
        proof {
            assert(flags_upto(code, all, i + 1) == flags_upto(code, all, i as int) + flag_if_set(
                code,
                all[i as int],
            ));
            assert(r@ =~= flags_upto(code, all, i + 1));
        }
        i = i + 1;
    }
    assert(flags_upto(code, all, 5) =~= page_fault_flags(code)) by {
        reveal_with_fuel(flags_upto, 6);
    }
    r
}

/// The flags among the first `n` of `all` whose bits are set in `code`.
pub open spec fn flags_upto(code: u64, all: Seq<PageFaultFlag>, n: int) -> Seq<PageFaultFlag>
    decreases n,
{
    if n <= 0 {
        seq![]
    } else {
        flags_upto(code, all, n - 1) + flag_if_set(code, all[n - 1])
    }
}

/// What `flag_if_set` holds: `flag` alone, and only when its bit is set.
proof fn lemma_flag_if_set(code: u64, flag: PageFaultFlag, other: PageFaultFlag)
    ensures
        flag_if_set(code, flag).contains(other) <==> (other == flag && code & flag.spec_bit()
            != 0),
        flag_if_set(code, flag).no_duplicates(),
        forall|i: int| 0 <= i < flag_if_set(code, flag).len() ==> flag_if_set(code, flag)[i] == flag,
{
    if code & flag.spec_bit() != 0 {
        assert(flag_if_set(code, flag)[0] == flag);
    }
}

/// A flag is reported exactly when its bit is set, and at most once: every
/// set flag is reported, never only the first.
pub proof fn lemma_page_fault_flags_exact(code: u64, flag: PageFaultFlag)
    ensures
        page_fault_flags(code).contains(flag) <==> code & flag.spec_bit() != 0,
        page_fault_flags(code).no_duplicates(),
{
    broadcast use vstd::seq_lib::lemma_seq_concat_contains_all_elements;

    let a = flag_if_set(code, PageFaultFlag::ProtectionViolation);
    let b = flag_if_set(code, PageFaultFlag::CausedByWrite);
    let c = flag_if_set(code, PageFaultFlag::UserMode);
    let d = flag_if_set(code, PageFaultFlag::MalformedTable);
    let e = flag_if_set(code, PageFaultFlag::InstructionFetch);
    lemma_flag_if_set(code, PageFaultFlag::ProtectionViolation, flag);
    lemma_flag_if_set(code, PageFaultFlag::CausedByWrite, flag);
    lemma_flag_if_set(code, PageFaultFlag::UserMode, flag);
    lemma_flag_if_set(code, PageFaultFlag::MalformedTable, flag);
    lemma_flag_if_set(code, PageFaultFlag::InstructionFetch, flag);
    vstd::seq_lib::lemma_no_dup_in_concat(a, b);
    assert(forall|i: int| 0 <= i < (a + b).len() ==> (a + b)[i] != PageFaultFlag::UserMode);
    vstd::seq_lib::lemma_no_dup_in_concat(a + b, c);
    assert(forall|i: int| 0 <= i < (a + b + c).len() ==> (a + b + c)[i]
        != PageFaultFlag::MalformedTable);
    vstd::seq_lib::lemma_no_dup_in_concat(a + b + c, d);
    assert(forall|i: int| 0 <= i < (a + b + c + d).len() ==> (a + b + c + d)[i]
        != PageFaultFlag::InstructionFetch);
    vstd::seq_lib::lemma_no_dup_in_concat(a + b + c + d, e);
}

} // verus!

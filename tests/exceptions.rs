use exception_setup::{
    action_for, decode_page_fault_error, ContextState, ExceptionAction, PageFaultFlag,
};

#[test]
fn protection_violation_alone() {
    assert_eq!(decode_page_fault_error(0b00001), vec![PageFaultFlag::ProtectionViolation]);
    assert_eq!(PageFaultFlag::ProtectionViolation.name(), "protection violation");
}

#[test]
fn protection_violation_and_write() {
    let flags = decode_page_fault_error(0b00011);
    assert_eq!(flags, vec![PageFaultFlag::ProtectionViolation, PageFaultFlag::CausedByWrite]);
    let names: Vec<&str> = flags.iter().map(|f| f.name()).collect();
    assert_eq!(names, vec!["protection violation", "caused by write"]);
}

#[test]
fn every_flag_reported() {
    assert_eq!(
        decode_page_fault_error(0b11111),
        vec![
            PageFaultFlag::ProtectionViolation,
            PageFaultFlag::CausedByWrite,
            PageFaultFlag::UserMode,
            PageFaultFlag::MalformedTable,
            PageFaultFlag::InstructionFetch,
        ]
    );
    assert_eq!(decode_page_fault_error(0b10100), vec![PageFaultFlag::UserMode, PageFaultFlag::InstructionFetch]);
    assert!(decode_page_fault_error(0).is_empty());
    assert!(decode_page_fault_error(0b1_00000).is_empty());
    assert_eq!(PageFaultFlag::MalformedTable.bit(), 8);
}

#[test]
fn breakpoint_resumes_others_halt() {
    assert_eq!(action_for(3), ExceptionAction::Resume);
    for v in [0u8, 6, 8, 14] {
        assert_eq!(action_for(v), ExceptionAction::Halt);
    }
    let s = ContextState::Running.deliver(3);
    assert_eq!(s, ContextState::Handling(3));
    assert_eq!(s.complete(), ContextState::Running);
    let h = ContextState::Running.deliver(14).complete();
    assert_eq!(h, ContextState::Halted);
    assert_eq!(h.deliver(3), ContextState::Halted);
}

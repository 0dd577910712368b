use exception_setup::{
    init, pushes_error_code, Descriptor, Entry, ExceptionSetup, Gdt, HandlerAddresses, Idt,
    InitError, RegisterLoad, SegmentSelector, Stack, TaskStateSegment, DOUBLE_FAULT_IST_INDEX,
    GDT_SLOTS, IDT_GATES,
};

const TSS_ADDRESS: u64 = 0x1234_5678_9abc_def0;

fn handlers() -> HandlerAddresses {
    HandlerAddresses {
        divide_by_zero: 0xffff_8000_0000_1000,
        breakpoint: 0xffff_8000_0000_2000,
        invalid_opcode: 0xffff_8000_0000_3000,
        double_fault: 0xffff_8000_0000_4000,
        page_fault: 0xffff_8000_0000_5000,
    }
}

fn one_page_stack() -> Stack {
    Stack { top: 0x5000_2000, bottom: 0x5000_1000 }
}

#[test]
fn init_with_one_page_stack_builds_expected_tables() {
    let mut setup = ExceptionSetup::new();
    let plan = init(&mut setup, Some(one_page_stack()), TSS_ADDRESS, handlers()).unwrap();
    let t = setup.tables().unwrap();
    let present: Vec<usize> = (0..IDT_GATES).filter(|v| t.idt.entry(*v as u8).present()).collect();
    assert_eq!(present, vec![0, 3, 6, 8, 14]);
    assert_eq!(t.gdt.len(), 3);
    assert_eq!(t.gdt.table()[0], 0);
    assert_eq!(t.gdt.table()[1], 0x0020_9800_0000_0000);
    assert_eq!(&t.gdt.table()[4..], &[0u64; 4]);
    let df = t.idt.entry(8);
    let slot = df.stack_index().unwrap();
    assert_eq!(slot as usize, DOUBLE_FAULT_IST_INDEX);
    assert_eq!(t.tss.ist[slot as usize], 0x5000_2000);
    assert_eq!(
        plan,
        vec![
            RegisterLoad::LoadGdt,
            RegisterLoad::SetCodeSegment(SegmentSelector { bits: 8 }),
            RegisterLoad::LoadTaskRegister(SegmentSelector { bits: 16 }),
            RegisterLoad::LoadIdt,
        ]
    );
}

#[test]
fn init_without_stack_loads_nothing() {
    let mut setup = ExceptionSetup::new();
    let r = init(&mut setup, None, TSS_ADDRESS, handlers());
    assert_eq!(r, Err(InitError::StackAllocationFailed));
    assert!(setup.tables().is_none());
}

#[test]
fn init_twice_keeps_first_tables() {
    let mut setup = ExceptionSetup::new();
    let first = init(&mut setup, Some(one_page_stack()), TSS_ADDRESS, handlers()).unwrap();
    let gdt_before = setup.tables().unwrap().gdt.table().clone();
    let other = HandlerAddresses { divide_by_zero: 0x42, ..handlers() };
    let stack = Stack { top: 0x9000_2000, bottom: 0x9000_1000 };
    let second = init(&mut setup, Some(stack), 0x7777_0000, other).unwrap();
    assert_eq!(first.len(), 4);
    assert!(second.is_empty());
    let t = setup.tables().unwrap();
    assert_eq!(t.gdt.table(), &gdt_before);
    assert_eq!(t.tss.ist[0], 0x5000_2000);
    assert_eq!(t.idt.entry(0).handler_address(), 0xffff_8000_0000_1000);
    assert_eq!(t.gdt.len(), 3);
}

#[test]
fn installed_gates_encode_their_handlers() {
    let mut setup = ExceptionSetup::new();
    init(&mut setup, Some(one_page_stack()), TSS_ADDRESS, handlers()).unwrap();
    let t = setup.tables().unwrap();
    let h = handlers();
    let expected = [
        (0u8, h.divide_by_zero),
        (3, h.breakpoint),
        (6, h.invalid_opcode),
        (8, h.double_fault),
        (14, h.page_fault),
    ];
    for (v, addr) in expected {
        let e = t.idt.entry(v);
        assert_eq!(e.handler_address(), addr);
        assert_eq!(e.gdt_selector, SegmentSelector { bits: 8 });
        if v == 8 {
            assert_eq!(e.stack_index(), Some(0));
            assert_eq!(e.options & 0x7, 1);
        } else {
            assert_eq!(e.stack_index(), None);
        }
    }
}

#[test]
fn gate_words_are_bit_exact() {
    let mut e = Entry::new(SegmentSelector::new(1, 0), 0xffff_8000_1234_5678);
    assert_eq!(e.to_words(), (0x1234_8e00_0008_5678, 0xffff_8000));
    e.set_stack_index(0);
    assert_eq!(e.to_words(), (0x1234_8e01_0008_5678, 0xffff_8000));
    assert_eq!(e.handler_address(), 0xffff_8000_1234_5678);
    let m = Entry::missing();
    assert!(!m.present());
    assert_eq!(m.to_words(), (0x0000_0e00_0000_0000, 0));
}

#[test]
fn idt_starts_empty_and_binds_by_vector() {
    let mut idt = Idt::new();
    assert!((0..IDT_GATES).all(|v| !idt.entry(v as u8).present()));
    idt.set_handler(3, SegmentSelector::new(1, 0), 0xabc);
    idt.set_handler_with_error_code(13, SegmentSelector::new(1, 0), 0xdef);
    idt.set_stack_index(13, 2);
    assert_eq!(idt.entry(3).handler_address(), 0xabc);
    assert_eq!(idt.entry(13).stack_index(), Some(2));
    assert!(!idt.entry(4).present());
    assert_eq!(idt.limit(), 4095);
}

#[test]
fn error_code_vectors() {
    let with: Vec<u8> = (0..=255u8).filter(|v| pushes_error_code(*v)).collect();
    assert_eq!(with, vec![8, 10, 11, 12, 13, 14, 17, 21, 29, 30]);
}

#[test]
fn null_descriptor_stays_in_slot_zero() {
    let mut gdt = Gdt::new();
    assert_eq!(gdt.table()[0], 0);
    assert_eq!(gdt.len(), 1);
    for _ in 0..3 {
        gdt.add_entry(Descriptor::kernel_code_segment());
        assert_eq!(gdt.table()[0], 0);
    }
    gdt.add_entry(Descriptor::tss_segment(TSS_ADDRESS, 104));
    assert_eq!(gdt.table()[0], 0);
    assert_eq!(gdt.table().len(), GDT_SLOTS);
    assert_eq!(gdt.limit(), 63);
}

#[test]
fn tss_descriptor_takes_two_slots() {
    let mut gdt = Gdt::new();
    let code = gdt.add_entry(Descriptor::kernel_code_segment());
    let tss = gdt.add_entry(Descriptor::tss_segment(TSS_ADDRESS, 104));
    let next = gdt.add_entry(Descriptor::kernel_code_segment());
    assert_eq!(code, SegmentSelector { bits: 8 });
    assert_eq!(tss, SegmentSelector { bits: 16 });
    assert_eq!(next, SegmentSelector { bits: 32 });
    assert_eq!(gdt.table()[2], 0x9a00_89bc_def0_0067);
    assert_eq!(gdt.table()[3], 0x1234_5678);
    assert_eq!(gdt.table()[1], 0x0020_9800_0000_0000);
    assert_eq!(gdt.len(), 4);
}

#[test]
fn tss_descriptor_encoding() {
    match Descriptor::tss_segment(TSS_ADDRESS, 104) {
        Descriptor::SystemSegment(low, high) => {
            assert_eq!(low, 0x9a00_89bc_def0_0067);
            assert_eq!(high, 0x1234_5678);
        }
        Descriptor::UserSegment(_) => panic!("expected a system segment"),
    }
}

#[test]
fn selector_encoding() {
    let s = SegmentSelector::new(5, 3);
    assert_eq!(s.bits, 43);
    assert_eq!(SegmentSelector::empty().bits, 0);
}

#[test]
fn task_state_segment_layout() {
    assert_eq!(TaskStateSegment::size(), 104);
    let t = TaskStateSegment::for_double_fault_stack(0xdead_b000);
    assert_eq!(t.ist, [0xdead_b000, 0, 0, 0, 0, 0, 0]);
    assert_eq!(t.rsp, [0, 0, 0]);
    let z = TaskStateSegment::new();
    assert_eq!(z.ist, [0; 7]);
    assert_eq!(z.iomap_base, 0);
}

//! Descriptor tables and exception dispatch for an x86-64 kernel.
//!
//! The tables are built here as plain values with their architectural bit
//! layout proved; placing them at their final addresses and pointing the
//! processor's registers at them is left to the caller.
mod exceptions;
mod gdt;
mod idt;
mod setup;
mod tss;

pub use exceptions::{
    action_for, decode_page_fault_error, ContextState, ExceptionAction, PageFaultFlag,
    BREAKPOINT_VECTOR, DIVIDE_BY_ZERO_VECTOR, DOUBLE_FAULT_VECTOR, INVALID_OPCODE_VECTOR,
    PAGE_FAULT_VECTOR,
};
pub use gdt::{Descriptor, Gdt, SegmentSelector, GDT_SLOTS};
pub use idt::{pushes_error_code, Entry, Idt, IDT_GATES};
pub use setup::{
    activation_plan, build_idt, build_tables, init, DescriptorTables, ExceptionSetup,
    HandlerAddresses, InitError, RegisterLoad, Stack,
};
pub use tss::{TaskStateSegment, DOUBLE_FAULT_IST_INDEX};

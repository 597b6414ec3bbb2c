use hyperlight_core::CoreError;
use hyperlight_core::arch::X86_64Regs;
use hyperlight_core::dispatch::{ExitReason, outb_action_of_exit, render_guest_log};
use hyperlight_core::guest_log::build_log_event;
use hyperlight_core::outb::{EventKeyValue, GuestEvent, OutBAction};
use hyperlight_core::trace_frames::{
    TraceFrameType, encode_mem_frame_payload, encode_stack, encode_trace_frame,
};

#[test]
fn io_port_writes_decode_to_actions_and_other_exits_do_not() {
    let r = outb_action_of_exit(&ExitReason::IoPortWrite { port: 0x3F8, data: 99 });
    assert!(matches!(r, Ok(OutBAction::Log)));

    let r = outb_action_of_exit(&ExitReason::IoPortWrite { port: 0x3F8, data: 1000 });
    assert_eq!(r.err().unwrap(), CoreError::InvalidOutBActionCode(1000));

    assert_eq!(
        outb_action_of_exit(&ExitReason::Halt).err().unwrap(),
        CoreError::UnexpectedVmExit
    );
    assert_eq!(
        outb_action_of_exit(&ExitReason::MemoryFault).err().unwrap(),
        CoreError::UnexpectedVmExit
    );
    assert_eq!(
        outb_action_of_exit(&ExitReason::BackendError).err().unwrap(),
        CoreError::UnexpectedVmExit
    );
}

#[test]
fn log_action_emits_a_record_with_exactly_the_guest_fields() {
    // A Log action (code 99) whose payload labels level, module and
    // message must produce a host record containing exactly those
    // fields.
    let action =
        outb_action_of_exit(&ExitReason::IoPortWrite { port: 0x3F8, data: 99 }).unwrap();
    assert!(matches!(action, OutBAction::Log));

    let payload = GuestEvent::LogEvent {
        parent_id: 0,
        name: "guest says hi".to_string(),
        tsc: 0,
        fields: vec![
            EventKeyValue { key: "level".to_string(), value: "INFO".to_string() },
            EventKeyValue { key: "module".to_string(), value: "guest::main".to_string() },
            EventKeyValue { key: "message".to_string(), value: "guest says hi".to_string() },
        ],
    };
    let record = render_guest_log(&payload).unwrap();
    assert_eq!(
        record,
        "\"guest says hi\" level=INFO module=guest::main message=guest says hi"
    );
}

#[test]
fn only_log_entries_can_be_rendered() {
    let r = render_guest_log(&GuestEvent::GuestStart { tsc: 1 });
    assert_eq!(r.err().unwrap(), CoreError::UnexpectedTraceEvent);
}

#[test]
fn guest_log_events_carry_the_six_labeled_fields() {
    let ev = build_log_event("boom", "ERROR", "guest::x", "tgt", "x.rs", 37);
    match ev {
        GuestEvent::LogEvent { parent_id, name, tsc, fields } => {
            assert_eq!(parent_id, 0);
            assert_eq!(name, "boom");
            assert_eq!(tsc, 0);
            let pairs: Vec<(&str, &str)> =
                fields.iter().map(|f| (f.key.as_str(), f.value.as_str())).collect();
            assert_eq!(
                pairs,
                vec![
                    ("level", "ERROR"),
                    ("module", "guest::x"),
                    ("target", "tgt"),
                    ("file", "x.rs"),
                    ("line", "37"),
                    ("message", "boom"),
                ]
            );
        }
        other => panic!("expected LogEvent, got {:?}", other),
    }
}

#[test]
fn kvm_registers_convert_field_for_field() {
    let kvm = kvm_bindings::kvm_regs {
        rax: 1,
        rbx: 2,
        rcx: 3,
        rdx: 4,
        rsi: 5,
        rdi: 6,
        rsp: 7,
        rbp: 8,
        r8: 9,
        r9: 10,
        r10: 11,
        r11: 12,
        r12: 13,
        r13: 14,
        r14: 15,
        r15: 16,
        rip: 17,
        rflags: 18,
    };
    let regs = X86_64Regs::from_kvm(&kvm);
    assert_eq!(regs.rax, 1);
    assert_eq!(regs.rbx, 2);
    assert_eq!(regs.rsp, 7);
    assert_eq!(regs.r15, 16);
    assert_eq!(regs.rip, 17);
    assert_eq!(regs.rflags, 18);
    assert!(regs.xmm.iter().all(|x| *x == 0));
    assert_eq!(regs.mxcsr, 0);
}

#[test]
fn mshv_registers_convert_field_for_field() {
    let mshv = mshv_bindings::StandardRegisters {
        rax: 21,
        rip: 99,
        rflags: 2,
        ..Default::default()
    };
    let regs = X86_64Regs::from_mshv(&mshv);
    assert_eq!(regs.rax, 21);
    assert_eq!(regs.rbx, 0);
    assert_eq!(regs.rip, 99);
    assert_eq!(regs.rflags, 2);
    assert!(regs.xmm.iter().all(|x| *x == 0));
    assert_eq!(regs.mxcsr, 0);
}

#[test]
fn trace_frames_have_the_documented_layout() {
    assert_eq!(TraceFrameType::MemAlloc.frame_id(), 2);
    assert_eq!(TraceFrameType::MemFree.frame_id(), 3);

    let stack = vec![0x0102030405060708u64, 0x1122334455667788u64];
    let stack_bytes = encode_stack(&stack);
    let mut expected = 2u64.to_le_bytes().to_vec();
    expected.extend_from_slice(&0x0102030405060708u64.to_le_bytes());
    expected.extend_from_slice(&0x1122334455667788u64.to_le_bytes());
    assert_eq!(stack_bytes, expected);

    let payload = encode_mem_frame_payload(0xdead, 64, &stack);
    let mut expected_payload = 0xdeadu64.to_le_bytes().to_vec();
    expected_payload.extend_from_slice(&64u64.to_le_bytes());
    expected_payload.extend_from_slice(&expected);
    assert_eq!(payload, expected_payload);

    let frame = encode_trace_frame(7, TraceFrameType::MemAlloc.frame_id(), &payload);
    let mut expected_frame = 7u128.to_le_bytes().to_vec();
    expected_frame.extend_from_slice(&2u64.to_le_bytes());
    expected_frame.extend_from_slice(&expected_payload);
    assert_eq!(frame, expected_frame);
}

use portfolios::apic::{
    calibrated_initial_count, calibration_setup, calibration_stop, io_apic_base, io_apic_routing,
    local_apic_base, local_apic_config, pit_count, pit_countdown_done, reload_bytes,
    HardwareWrite, InterruptModel, IoApicInfo, IoApicRouting, TimerMode, IO_APIC_FALLBACK_BASE,
    LOCAL_APIC_FALLBACK_BASE, PIT_RELOAD_10MS,
};
use portfolios::boot::{BootAction, BootSequence, BootStep, StepResult};
use portfolios::gdt::{double_fault_stack_top, DOUBLE_FAULT_STACK_SIZE};
use portfolios::idt::{init_idt, outcome_of, Handler, Outcome, DOUBLE_FAULT_IST_INDEX};
use portfolios::power::{acpi_shutdown, FadtPowerInfo, KernelAcpiHandler, PortWrite};
use portfolios::qemu::QemuExitCode;

#[test]
fn breakpoint_resumes_execution() {
    let idt = init_idt();
    assert_eq!(idt.dispatch(3), Outcome::Resume);
    assert_eq!(idt.entry(3).unwrap().handler, Handler::Breakpoint);
}

#[test]
fn double_fault_runs_on_its_own_stack_and_halts() {
    let idt = init_idt();
    let df = idt.entry(8).unwrap();
    assert_eq!(df.handler, Handler::DoubleFault);
    assert_eq!(df.stack_index, Some(DOUBLE_FAULT_IST_INDEX));
    assert_eq!(idt.dispatch(8), Outcome::Halt);
    for v in 0..=255u8 {
        if v != 8 {
            assert!(idt.entry(v).map_or(true, |g| g.stack_index.is_none()));
        }
    }
}

#[test]
fn dispatch_table_bindings() {
    let idt = init_idt();
    assert_eq!(idt.entry(2).unwrap().handler, Handler::NonMaskable);
    assert_eq!(idt.dispatch(2), Outcome::Resume);
    assert_eq!(idt.dispatch(13), Outcome::Halt);
    assert_eq!(idt.dispatch(14), Outcome::Halt);
    for (v, h) in [(0x20, Handler::Timer), (0x21, Handler::Spurious), (0x22, Handler::ApicError), (0x24, Handler::Keyboard)] {
        assert_eq!(idt.entry(v).unwrap().handler, h);
        assert_eq!(idt.dispatch(v), Outcome::AcknowledgeAndResume);
    }
    assert_eq!(idt.entry(0x23), None);
    assert_eq!(idt.dispatch(0x30), Outcome::Halt);
    assert_eq!(outcome_of(Handler::PageFault), Outcome::Halt);
}

#[test]
fn double_fault_stack_top_is_aligned_end() {
    assert_eq!(double_fault_stack_top(0x1000), Some(0x1000 + DOUBLE_FAULT_STACK_SIZE));
    assert_eq!(double_fault_stack_top(0x1003), Some(0x1000 + DOUBLE_FAULT_STACK_SIZE));
    assert_eq!(double_fault_stack_top(u64::MAX - 10), None);
}

#[test]
fn calibration_count_is_proportional_to_the_rate() {
    for ticks_per_ms in [1u32, 625, 6250, 100_000] {
        let remaining = u32::MAX - 10 * ticks_per_ms;
        let count = calibrated_initial_count(remaining);
        assert_eq!(count, 10 * ticks_per_ms);
        assert!(count > 0 && count < u32::MAX);
    }
    assert_eq!(calibrated_initial_count(u32::MAX), 0);
    assert_eq!(calibrated_initial_count(0), u32::MAX);
}

#[test]
fn calibration_sequence() {
    assert_eq!(reload_bytes(PIT_RELOAD_10MS), (0x9B, 0x2E));
    let setup = calibration_setup();
    assert_eq!(
        setup,
        vec![
            HardwareWrite::Port { port: 0xA1, byte: 0xFF },
            HardwareWrite::Port { port: 0x21, byte: 0xFF },
            HardwareWrite::Register { offset: 0x3E0, value: 0x3 },
            HardwareWrite::Port { port: 0x43, byte: 0x30 },
            HardwareWrite::Port { port: 0x40, byte: 0x9B },
            HardwareWrite::Port { port: 0x40, byte: 0x2E },
            HardwareWrite::Register { offset: 0x380, value: 0xFFFF_FFFF },
        ]
    );
    assert_eq!(calibration_stop(), HardwareWrite::Register { offset: 0x320, value: 0x10000 });
    assert_eq!(pit_count(0x34, 0x12), 0x1234);
    assert!(!pit_countdown_done(1, 0));
    assert!(!pit_countdown_done(0, 1));
    assert!(pit_countdown_done(0, 0));
}

#[test]
fn local_apic_configuration() {
    let c = local_apic_config(0xFEE0_0000, 62_500);
    assert_eq!(c.timer_vector, 0x20);
    assert_eq!(c.spurious_vector, 0x21);
    assert_eq!(c.error_vector, 0x22);
    assert_eq!(c.timer_mode, TimerMode::Periodic);
    assert_eq!(c.timer_divide, 0x3);
    assert_eq!(c.timer_initial, 62_500);
    assert_eq!(c.xapic_base, 0xFEE0_0000);
}

#[test]
fn controller_bases_from_the_interrupt_model() {
    let apic = InterruptModel::Apic {
        local_apic_address: 0xFEE0_1000,
        io_apics: vec![
            IoApicInfo { id: 0, address: 0xFEC0_2000, global_system_interrupt_base: 0 },
            IoApicInfo { id: 1, address: 0xFEC1_0000, global_system_interrupt_base: 24 },
        ],
    };
    assert_eq!(local_apic_base(&apic), 0xFEE0_1000);
    assert_eq!(io_apic_base(&apic), Some(0xFEC0_2000));
    assert_eq!(local_apic_base(&InterruptModel::Unknown), LOCAL_APIC_FALLBACK_BASE);
    assert_eq!(io_apic_base(&InterruptModel::Unknown), Some(IO_APIC_FALLBACK_BASE));
    let no_io = InterruptModel::Apic { local_apic_address: 0xFEE0_0000, io_apics: Vec::new() };
    assert_eq!(io_apic_base(&no_io), None);
}

#[test]
fn keyboard_line_is_routed_to_the_keyboard_vector() {
    let routing = io_apic_routing();
    assert_eq!(routing.vector_base(), 0x23);
    assert!(routing.is_enabled(1));
    assert!(!routing.is_enabled(0));
    assert_eq!(routing.vector_of(1), Some(0x24));
    assert_eq!(init_idt().entry(0x24).unwrap().handler, Handler::Keyboard);
}

#[test]
fn unmasking_is_one_way() {
    let mut r = IoApicRouting::new(0xF0);
    assert!(r.enable_irq(3));
    assert!(!r.enable_irq(3));
    assert!(r.enable_irq(4));
    assert!(r.is_enabled(3) && r.is_enabled(4));
    assert_eq!(r.vector_of(15), Some(0xFF));
    assert_eq!(r.vector_of(16), None);
}

#[test]
fn boot_runs_every_step_in_order_then_idles() {
    let mut seq = BootSequence::new();
    let order = [
        BootStep::InitMemory,
        BootStep::InitHeap,
        BootStep::LoadDescriptorTables,
        BootStep::LoadDispatchTable,
        BootStep::ParseAcpi,
        BootStep::BringUpLocalApic,
        BootStep::BringUpIoApic,
        BootStep::EnableInterrupts,
    ];
    assert_eq!(seq.next_action(), BootAction::Run(order[0]));
    for k in 1..order.len() {
        assert_eq!(seq.report(StepResult::Succeeded), BootAction::Run(order[k]));
    }
    assert_eq!(seq.report(StepResult::Succeeded), BootAction::Idle);
    assert_eq!(seq.report(StepResult::Failed), BootAction::Idle);
}

#[test]
fn boot_aborts_for_good_on_a_failure() {
    let mut seq = BootSequence::new();
    assert_eq!(seq.report(StepResult::Succeeded), BootAction::Run(BootStep::InitHeap));
    assert_eq!(seq.report(StepResult::Succeeded), BootAction::Run(BootStep::LoadDescriptorTables));
    assert_eq!(seq.report(StepResult::Failed), BootAction::Abort);
    assert_eq!(seq.report(StepResult::Succeeded), BootAction::Abort);
    assert_eq!(seq.next_action(), BootAction::Abort);
}

#[test]
fn acpi_addresses_are_offset_and_canonical() {
    let h = KernelAcpiHandler::new(0xFFFF_8000_0000_0000);
    assert_eq!(h.virtual_address(0xE0000), Some(0xFFFF_8000_000E_0000));
    let low = KernelAcpiHandler::new(0x1000_0000_0000);
    assert_eq!(low.virtual_address(0x7000_0000_0000), None);
    assert_eq!(low.virtual_address(0x10), Some(0x1000_0000_0010));
    assert_eq!(h.virtual_address(0x8000_0000_0000), None);
}

#[test]
fn shutdown_writes_s5_to_the_control_blocks() {
    let f = FadtPowerInfo { smi_cmd_port: 0xB2, acpi_enable: 0xF0, pm1a_control_block: 0x604, pm1b_control_block: None };
    assert_eq!(
        acpi_shutdown(&f),
        vec![PortWrite::Byte { port: 0xB2, byte: 0xF0 }, PortWrite::Word { port: 0x604, word: 0x3400 }]
    );
    let g = FadtPowerInfo { smi_cmd_port: 0, acpi_enable: 0xF0, pm1a_control_block: 0x604, pm1b_control_block: Some(0x608) };
    assert_eq!(
        acpi_shutdown(&g),
        vec![PortWrite::Word { port: 0x604, word: 0x3400 }, PortWrite::Word { port: 0x608, word: 0x3400 }]
    );
}

#[test]
fn qemu_exit_codes() {
    assert_eq!(QemuExitCode::Success.code(), 0x10);
    assert_eq!(QemuExitCode::Failed.code(), 0x11);
}

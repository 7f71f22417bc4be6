use cortex_rt::bootstrap::{copy_region, reset, zero_region, LinkerMap};
use cortex_rt::exception::{
    active_exception_number, exceptions_table, hex32, slot_of, ExceptionFrame, ExceptionType,
    Handler, Vector,
};
use cortex_rt::interrupt::{disable, enable, free, interrupts_table, irq_handler};
use cortex_rt::register::primask::{read, Primask};
use cortex_rt::register::Cpu;

#[test]
fn exceptions_table_has_14_slots() {
    assert_eq!(exceptions_table().len(), 14);
}

#[test]
fn interrupts_table_has_240_slots() {
    assert_eq!(interrupts_table().len(), 240);
}

#[test]
fn exception_slots_layout() {
    let t = exceptions_table();
    assert_eq!(t[0], Vector::Handler(Handler::Nmi));
    assert_eq!(t[1], Vector::Handler(Handler::HardFaultTrampoline));
    assert_eq!(t[2], Vector::Handler(Handler::MemManage));
    assert_eq!(t[3], Vector::Handler(Handler::BusFault));
    assert_eq!(t[4], Vector::Handler(Handler::UsageFault));
    assert_eq!(t[5], Vector::Reserved(0));
    assert_eq!(t[6], Vector::Reserved(0));
    assert_eq!(t[7], Vector::Reserved(0));
    assert_eq!(t[8], Vector::Reserved(0));
    assert_eq!(t[9], Vector::Handler(Handler::SvCall));
    assert_eq!(t[10], Vector::Handler(Handler::DebugMonitor));
    assert_eq!(t[11], Vector::Reserved(0));
    assert_eq!(t[12], Vector::Handler(Handler::PendSv));
    assert_eq!(t[13], Vector::Handler(Handler::SysTick));
}

#[test]
fn reserved_slots_read_as_zero() {
    for v in exceptions_table() {
        if let Vector::Reserved(w) = v {
            assert_eq!(w, 0);
        }
    }
}

#[test]
fn every_interrupt_slot_holds_the_trampoline() {
    for v in interrupts_table() {
        assert_eq!(v, Vector::Handler(Handler::IrqTrampoline));
    }
}

#[test]
fn overridable_exceptions_sit_in_their_slots() {
    let t = exceptions_table();
    for e in [
        ExceptionType::nmi,
        ExceptionType::mem_manage,
        ExceptionType::bus_fault,
        ExceptionType::usage_fault,
        ExceptionType::sv_call,
        ExceptionType::debug_monitor,
        ExceptionType::pend_sv,
        ExceptionType::sys_tick,
    ] {
        let i = slot_of(e);
        assert!(matches!(t[i], Vector::Handler(_)));
    }
    assert_eq!(slot_of(ExceptionType::nmi), 0);
    assert_eq!(slot_of(ExceptionType::sys_tick), 13);
}

#[test]
fn reset_clears_bss() {
    let mut ram = vec![0xAAu8; 16];
    let lm = LinkerMap {
        sbss: 0x2000_0000,
        ebss: 0x2000_0010,
        sdata: 0x2000_0010,
        edata: 0x2000_0010,
        sidata: 0x0800_0000,
    };
    let flash: Vec<u8> = Vec::new();
    reset(&mut ram, 0x2000_0000, &flash, 0x0800_0000, &lm);
    assert_eq!(ram, vec![0u8; 16]);
}

#[test]
fn reset_copies_data() {
    let mut ram = vec![0xFFu8; 4];
    let flash = vec![1u8, 2, 3, 4];
    let lm = LinkerMap {
        sbss: 0x2000_0020,
        ebss: 0x2000_0020,
        sdata: 0x2000_0020,
        edata: 0x2000_0024,
        sidata: 0x0800_1000,
    };
    reset(&mut ram, 0x2000_0020, &flash, 0x0800_1000, &lm);
    assert_eq!(ram, vec![1, 2, 3, 4]);
}

#[test]
fn reset_with_empty_regions_writes_nothing() {
    let mut ram = vec![0xAAu8; 8];
    let lm = LinkerMap {
        sbss: 0x2000_0004,
        ebss: 0x2000_0004,
        sdata: 0x2000_0004,
        edata: 0x2000_0004,
        sidata: 0x0800_0000,
    };
    let flash: Vec<u8> = Vec::new();
    reset(&mut ram, 0x2000_0000, &flash, 0x0800_0000, &lm);
    assert_eq!(ram, vec![0xAAu8; 8]);
}

#[test]
fn reset_leaves_bytes_outside_the_regions() {
    let mut ram = vec![0x11u8, 0x22, 0x33, 0x44, 0x55, 0x66];
    let flash = vec![9u8];
    let lm = LinkerMap {
        sbss: 0x2000_0001,
        ebss: 0x2000_0003,
        sdata: 0x2000_0004,
        edata: 0x2000_0005,
        sidata: 0x0800_0000,
    };
    reset(&mut ram, 0x2000_0000, &flash, 0x0800_0000, &lm);
    assert_eq!(ram, vec![0x11, 0x00, 0x00, 0x44, 9, 0x66]);
}

#[test]
fn zero_and_copy_region_touch_only_their_ranges() {
    let mut bytes = vec![7u8; 5];
    zero_region(&mut bytes, 1, 3);
    assert_eq!(bytes, vec![7, 0, 0, 7, 7]);

    let src = vec![1u8, 2, 3];
    let mut dst = vec![0u8; 5];
    copy_region(&mut dst, 2, &src, 1, 2);
    assert_eq!(dst, vec![0, 0, 2, 3, 0]);
}

#[test]
fn primask_read_follows_bit_zero() {
    assert!(read(&Cpu { primask: 0 }).is_active());
    assert!(read(&Cpu { primask: 1 }).is_inactive());
    assert!(read(&Cpu { primask: 0xFFFF_FFFE }).is_active());
    assert!(read(&Cpu { primask: 0xFFFF_FFFF }).is_inactive());
    assert_eq!(read(&Cpu { primask: 0 }), Primask::Active);
    assert_eq!(read(&Cpu { primask: 1 }), Primask::Inactive);
}

#[test]
fn free_preserves_enabled_state() {
    let mut cpu = Cpu { primask: 0 };
    free(&mut cpu, |_cs| ());
    assert_eq!(cpu.primask, 0);
}

#[test]
fn free_preserves_disabled_state() {
    let mut cpu = Cpu { primask: 1 };
    free(&mut cpu, |_cs| ());
    assert_eq!(cpu.primask, 1);
}

#[test]
fn free_returns_the_closure_result() {
    let mut cpu = Cpu { primask: 0 };
    let r = free(&mut cpu, |_cs| 41 + 1);
    assert_eq!(r, 42);
}

#[test]
fn disable_twice_equals_disable_once() {
    let mut once = Cpu { primask: 0 };
    disable(&mut once);
    let mut twice = Cpu { primask: 0 };
    disable(&mut twice);
    disable(&mut twice);
    assert_eq!(once.primask, twice.primask);
    assert_eq!(once.primask, 1);
}

#[test]
fn enable_clears_the_mask_bit() {
    let mut cpu = Cpu { primask: 1 };
    enable(&mut cpu);
    assert_eq!(cpu.primask, 0);
    assert!(read(&cpu).is_active());
}

#[test]
fn irq_handler_is_a_no_op() {
    irq_handler(0);
    irq_handler(255);
}

#[test]
fn dispatcher_offsets_the_active_vector_by_16() {
    assert_eq!(active_exception_number(32), 16);
    assert_eq!(active_exception_number(3), -13);
    assert_eq!(active_exception_number(16), 0);
    assert_eq!(active_exception_number(255), 239);
}

#[test]
fn hex32_prints_eight_lowercase_digits() {
    assert_eq!(hex32(0), "0x00000000");
    assert_eq!(hex32(0xDEAD_BEEF), "0xdeadbeef");
    assert_eq!(hex32(1), "0x00000001");
    assert_eq!(hex32(0xFFFF_FFFF), "0xffffffff");
}

#[test]
fn exception_frame_describes_every_register() {
    let f = ExceptionFrame {
        r0: 0,
        r1: 1,
        r2: 0x10,
        r3: 0xDEAD_BEEF,
        r12: 0x12,
        lr: 0xFFFF_FFF9,
        pc: 0x0800_0100,
        xpsr: 0x0100_0000,
    };
    assert_eq!(
        f.describe(),
        "ExceptionFrame { r0: 0x00000000, r1: 0x00000001, r2: 0x00000010, \
         r3: 0xdeadbeef, r12: 0x00000012, lr: 0xfffffff9, pc: 0x08000100, \
         xpsr: 0x01000000 }"
    );
}

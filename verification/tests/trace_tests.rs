use banshee::cpu::Cpu;
use banshee::state::{CpuState, TraceAccess};

#[test]
fn trace_line_single_integer_write() {
    let mut cpu = Cpu::new(0, 1, 0);
    cpu.state.instret = 1;
    let line = cpu.binary_trace(
        0x1000,
        0x13,
        &[TraceAccess::WriteReg(5)],
        &[0xDEAD_BEEF],
    );
    assert_eq!(
        line,
        format!("00000001 0000 00001000  {:38}  # DASM(00000013)", "x5=deadbeef")
    );
    assert_eq!(
        line,
        "00000001 0000 00001000  x5=deadbeef                             # DASM(00000013)"
    );
}

#[test]
fn trace_line_joins_accesses_with_spaces() {
    let mut cpu = Cpu::new(3, 4, 0);
    cpu.state.instret = 12345678;
    let line = cpu.binary_trace(
        0x8000_0004,
        0xFFFF_FFFF,
        &[
            TraceAccess::ReadReg(31),
            TraceAccess::ReadMem,
            TraceAccess::WriteMem,
            TraceAccess::WriteFReg(0),
        ],
        &[0x1_0000_0001, 0x20, 0x30, 0x0123_4567_89AB_CDEF],
    );
    assert_eq!(
        line,
        "12345678 0003 80000004  x31:00000001 RA:00000020 WA:00000030 f0=0123456789abcdef  # DASM(ffffffff)"
    );
}

#[test]
fn trace_line_no_accesses_pads_to_width() {
    let cpu = Cpu::new(0, 1, 0);
    let line = cpu.binary_trace(0, 0, &[], &[]);
    assert_eq!(
        line,
        format!("00000000 0000 00000000  {:38}  # DASM(00000000)", "")
    );
}

#[test]
fn trace_line_fp_read_uses_sixteen_digits() {
    let cpu = Cpu::new(0, 1, 0);
    let line = cpu.binary_trace(4, 7, &[TraceAccess::ReadFReg(12)], &[5]);
    assert_eq!(
        line,
        "00000000 0000 00000004  f12:0000000000000005                    # DASM(00000007)"
    );
}

#[test]
fn state_dump_lists_registers_pc_and_instret() {
    let mut state = CpuState::default();
    state.regs[5] = 0xDEAD_BEEF;
    state.fregs[31] = 0x0123_4567_89AB_CDEF;
    state.pc = 0x80;
    state.instret = 42;
    let dump = state.describe();
    let mut expected = String::from("regs:\n");
    for i in 0..32u32 {
        let v: u32 = if i == 5 { 0xDEAD_BEEF } else { 0 };
        expected.push_str(&format!("x{:02}: 0x{:08x}", i, v));
        expected.push_str(if i % 4 == 3 { "\n" } else { "  " });
    }
    expected.push_str("fregs:\n");
    for i in 0..32u64 {
        let v: u64 = if i == 31 { 0x0123_4567_89AB_CDEF } else { 0 };
        expected.push_str(&format!("f{:02}: 0x{:016x}", i, v));
        expected.push_str(if i % 4 == 3 { "\n" } else { "  " });
    }
    expected.push_str("pc: 0x00000080\ninstret: 42");
    assert_eq!(dump, expected);
}

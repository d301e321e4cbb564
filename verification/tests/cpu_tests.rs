use banshee::cpu::Cpu;
use banshee::engine::Engine;

#[test]
fn store_then_load_round_trip() {
    let mut engine = Engine::new();
    let cpu = Cpu::new(0, 1, 0);
    cpu.binary_store(&mut engine, 0x2000, 0xCAFE_BABE, 2);
    assert_eq!(cpu.binary_load(&engine, 0x2000, 2), 0xCAFE_BABE);
    let other = Cpu::new(1, 1, 0);
    assert_eq!(other.binary_load(&engine, 0x2000, 2), 0xCAFE_BABE);
}

#[test]
fn load_from_unwritten_address_is_zero() {
    let engine = Engine::new();
    let cpu = Cpu::new(0, 1, 0);
    assert_eq!(cpu.binary_load(&engine, 0x1234_5678, 2), 0);
    assert_eq!(cpu.binary_load(&engine, 0, 0), 0);
}

#[test]
fn last_store_wins() {
    let mut engine = Engine::new();
    let first = Cpu::new(0, 1, 0);
    let second = Cpu::new(1, 1, 0);
    first.binary_store(&mut engine, 0x2000, 1, 2);
    second.binary_store(&mut engine, 0x2000, 2, 2);
    assert_eq!(first.binary_load(&engine, 0x2000, 2), 2);
}

#[test]
fn mmio_reads_are_configuration() {
    let mut engine = Engine::new();
    let cpu = Cpu::new(9, 4, 8);
    assert_eq!(cpu.binary_load(&engine, 0x4000_0000, 2), 0);
    assert_eq!(cpu.binary_load(&engine, 0x4000_0008, 2), 0x0002_0000);
    assert_eq!(cpu.binary_load(&engine, 0x4000_0010, 2), 4);
    assert_eq!(cpu.binary_load(&engine, 0x4000_0040, 2), 8);
    // stores to the read-only control registers are discarded
    cpu.binary_store(&mut engine, 0x4000_0000, 99, 2);
    cpu.binary_store(&mut engine, 0x4000_0008, 99, 2);
    cpu.binary_store(&mut engine, 0x4000_0010, 99, 2);
    cpu.binary_store(&mut engine, 0x4000_0040, 99, 2);
    assert_eq!(cpu.binary_load(&engine, 0x4000_0000, 2), 0);
    assert_eq!(cpu.binary_load(&engine, 0x4000_0008, 2), 0x0002_0000);
    assert_eq!(cpu.binary_load(&engine, 0x4000_0010, 2), 4);
    assert_eq!(cpu.binary_load(&engine, 0x4000_0040, 2), 8);
    assert_eq!(engine.memory.len(), 0);
}

#[test]
fn scratch_register_reads_back() {
    let mut engine = Engine::new();
    let cpu = Cpu::new(0, 1, 0);
    cpu.binary_store(&mut engine, 0x4000_0020, 10, 2);
    assert_eq!(cpu.binary_load(&engine, 0x4000_0020, 2), 10);
    assert_eq!(engine.memory.len(), 0);
}

#[test]
fn csr_write_then_read_round_trip() {
    let mut cpu = Cpu::new(0, 1, 0);
    cpu.binary_csr_write(0x7C0, 0xAAAA_5555);
    assert_eq!(cpu.binary_csr_read(0x7C0), 0xAAAA_5555);
}

#[test]
fn csr_mhartid_reads_hartid() {
    let cpu = Cpu::new(17, 4, 16);
    assert_eq!(cpu.binary_csr_read(0xF14), 17);
}

#[test]
fn unknown_csr_reads_zero_and_ignores_writes() {
    let mut cpu = Cpu::new(0, 1, 0);
    cpu.binary_csr_write(0x7C0, 3);
    cpu.binary_csr_write(0x300, 0xFFFF_FFFF);
    assert_eq!(cpu.binary_csr_read(0x300), 0);
    assert_eq!(cpu.binary_csr_read(0x7C0), 3);
}

#[test]
fn new_cpu_state_is_zero() {
    let cpu = Cpu::new(5, 2, 4);
    assert_eq!(cpu.hartid, 5);
    assert_eq!(cpu.num_cores, 2);
    assert_eq!(cpu.cluster_base_hartid, 4);
    assert_eq!(cpu.state.pc, 0);
    assert_eq!(cpu.state.instret, 0);
    assert_eq!(cpu.state.ssr_enable, 0);
    assert!(cpu.state.regs.iter().all(|&r| r == 0));
    assert!(cpu.state.fregs.iter().all(|&r| r == 0));
}

use banshee::cpu::Cpu;
use banshee::engine::{ElfImage, ElfSection, Engine, EngineError};

#[test]
fn new_engine_defaults() {
    let engine = Engine::new();
    assert_eq!(engine.exit_code, 0);
    assert!(!engine.had_error);
    assert!(engine.opt_llvm);
    assert!(engine.opt_jit);
    assert!(!engine.trace);
    assert_eq!(engine.base_hartid, 0);
    assert_eq!(engine.num_cores, 1);
    assert_eq!(engine.num_clusters, 1);
    assert_eq!(engine.memory.len(), 0);
}

#[test]
fn translate_elf_preloads_alloc_section() {
    let mut engine = Engine::new();
    let elf = ElfImage {
        sections: vec![ElfSection {
            addr: 0x1000,
            flags: 2,
            data: vec![0x78, 0x56, 0x34, 0x12, 0xEF, 0xBE, 0xAD, 0xDE],
        }],
    };
    engine.translate_elf(&elf);
    let cpu = Cpu::new(0, 1, 0);
    assert_eq!(cpu.binary_load(&engine, 0x1000, 2), 0x12345678);
    assert_eq!(cpu.binary_load(&engine, 0x1004, 2), 0xDEADBEEF);
    assert_eq!(engine.memory.len(), 2);
}

#[test]
fn translate_elf_skips_nonalloc_section() {
    let mut engine = Engine::new();
    let elf = ElfImage {
        sections: vec![ElfSection {
            addr: 0x2000,
            flags: 0,
            data: vec![1, 2, 3, 4],
        }],
    };
    engine.translate_elf(&elf);
    let cpu = Cpu::new(0, 1, 0);
    assert_eq!(cpu.binary_load(&engine, 0x2000, 2), 0);
    assert_eq!(engine.memory.len(), 0);
}

#[test]
fn translate_elf_trailing_partial_word_reads_zero() {
    let mut engine = Engine::new();
    let elf = ElfImage {
        sections: vec![ElfSection {
            addr: 0x3000,
            flags: 2,
            data: vec![0xAA, 0xBB, 0xCC, 0xDD, 0xEE],
        }],
    };
    engine.translate_elf(&elf);
    let cpu = Cpu::new(0, 1, 0);
    assert_eq!(cpu.binary_load(&engine, 0x3000, 2), 0xDDCCBBAA);
    assert_eq!(cpu.binary_load(&engine, 0x3004, 2), 0);
    assert_eq!(engine.memory.len(), 2);
}

#[test]
fn later_section_wins_on_overlap() {
    let mut engine = Engine::new();
    let elf = ElfImage {
        sections: vec![
            ElfSection {
                addr: 0x100,
                flags: 2,
                data: vec![1, 0, 0, 0],
            },
            ElfSection {
                addr: 0x100,
                flags: 2,
                data: vec![2, 0, 0, 0],
            },
        ],
    };
    engine.translate_elf(&elf);
    let cpu = Cpu::new(0, 1, 0);
    assert_eq!(cpu.binary_load(&engine, 0x100, 2), 2);
}

#[test]
fn tcdms_seed_from_low_memory() {
    let mut engine = Engine::new();
    engine.num_clusters = 2;
    let cpu = Cpu::new(0, 1, 0);
    cpu.binary_store(&mut engine, 0x100, 7, 2);
    cpu.binary_store(&mut engine, 0x1FFFC, 9, 2);
    cpu.binary_store(&mut engine, 0x20000, 11, 2);
    let tcdms = engine.init_tcdms();
    assert_eq!(tcdms.len(), 2);
    for tcdm in &tcdms {
        assert_eq!(tcdm.len(), 0x8000);
        assert_eq!(tcdm[0x100 / 4], 7);
        assert_eq!(tcdm[0x1FFFC / 4], 9);
        assert_eq!(tcdm[0], 0);
    }
}

#[test]
fn make_cpus_row_major_hartids() {
    let mut engine = Engine::new();
    engine.num_clusters = 3;
    engine.num_cores = 4;
    engine.base_hartid = 8;
    let cpus = engine.make_cpus();
    assert_eq!(cpus.len(), 12);
    let cpu = &cpus[2 * 4 + 1];
    assert_eq!(cpu.hartid, 17);
    assert_eq!(cpu.cluster_base_hartid, 16);
    assert_eq!(cpu.num_cores, 4);
    assert_eq!(cpu.binary_csr_read(0xF14), 17);
    assert_eq!(cpus[0].hartid, 8);
    assert_eq!(cpus[11].hartid, 19);
}

#[test]
fn execute_zero_harts_returns_zero() {
    let mut engine = Engine::new();
    engine.num_cores = 0;
    let cpus = engine.make_cpus();
    assert_eq!(cpus.len(), 0);
    assert_eq!(engine.execute(), Ok(0));
    assert!(!engine.had_error);
}

#[test]
fn execute_reports_exit_code_shifted() {
    let mut engine = Engine::new();
    let cpu = Cpu::new(0, 1, 0);
    cpu.binary_store(&mut engine, 0x4000_0020, 0x0000_0002, 2);
    assert_eq!(engine.execute(), Ok(1));
    cpu.binary_store(&mut engine, 0x4000_0020, 42, 2);
    assert_eq!(engine.execute(), Ok(21));
}

#[test]
fn escape_abort_forces_error() {
    let mut engine = Engine::new();
    let cpu = Cpu::new(0, 1, 0);
    cpu.binary_store(&mut engine, 0x4000_0020, 42, 2);
    cpu.binary_abort_escape(&mut engine, 0x4400);
    assert!(engine.had_error);
    assert_eq!(engine.execute(), Err(EngineError::ExecutionFailed));
    assert_eq!(engine.exit_code >> 1, 21);
}

#[test]
fn illegal_branch_abort_keeps_exit_code() {
    let mut engine = Engine::new();
    let cpu = Cpu::new(0, 1, 0);
    cpu.binary_store(&mut engine, 0x4000_0020, 6, 2);
    cpu.binary_abort_illegal_branch(&mut engine, 0x4400, 0x9000);
    assert_eq!(engine.execute(), Err(EngineError::ExecutionFailed));
    assert_eq!(engine.exit_code >> 1, 3);
}

#[test]
fn illegal_inst_abort_sets_error() {
    let mut engine = Engine::new();
    let cpu = Cpu::new(0, 1, 0);
    cpu.binary_abort_illegal_inst(&mut engine, 0x4400, 0xFFFF_FFFF);
    assert!(engine.had_error);
}

#[test]
fn two_harts_store_their_hartids() {
    let mut engine = Engine::new();
    engine.num_cores = 2;
    let cpus = engine.make_cpus();
    assert_eq!(cpus.len(), 2);
    for cpu in &cpus {
        let addr = 0x1000 + 4 * cpu.hartid as u32;
        cpu.binary_store(&mut engine, addr, cpu.hartid as u32, 2);
    }
    assert_eq!(cpus[0].binary_load(&engine, 0x1000, 2), 0);
    assert_eq!(cpus[0].binary_load(&engine, 0x1004, 2), 1);
}

#[test]
fn total_instret_sums_all_harts() {
    let mut engine = Engine::new();
    engine.num_cores = 3;
    let mut cpus = engine.make_cpus();
    cpus[0].state.instret = 5;
    cpus[1].state.instret = 7;
    cpus[2].state.instret = 11;
    assert_eq!(Engine::total_instret(&cpus), 23);
}

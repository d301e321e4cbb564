//! One simulated hart and the callback surface the translated code uses.
//!
//! The translated binary reaches the host only through these callbacks:
//! loads and stores (with their memory-mapped control registers), CSR
//! reads and writes, the three runtime aborts, and the trace line.

use vstd::prelude::*;
use crate::engine::{same_options, same_sizing, Engine};
use crate::memory::word_at;
use crate::state::{cpu_state_zero, CpuState, TraceAccess};
use crate::text::chars_to_string;
use crate::trace::{render_trace_line, trace_line};

verus! {

/// Loads here read the scratchpad's start address.
pub const TCDM_START_ADDR: u32 = 0x4000_0000;

/// Loads here read the scratchpad's end address.
pub const TCDM_END_ADDR: u32 = 0x4000_0008;

/// Loads here read the number of cores per cluster.
pub const NUM_CORES_ADDR: u32 = 0x4000_0010;

/// The scratch register: stores set the exit code, loads read it back.
pub const SCRATCH_REG_ADDR: u32 = 0x4000_0020;

/// Loads here read the cluster's base hartid.
pub const CLUSTER_BASE_HARTID_ADDR: u32 = 0x4000_0040;

/// The value read from the scratchpad start register.
pub const TCDM_START: u32 = 0;

/// The value read from the scratchpad end register.
pub const TCDM_END: u32 = 0x0002_0000;

/// The CSR holding the SSR enable mask.
pub const CSR_SSR_ENABLE: u16 = 0x7C0;

/// The CSR holding this hart's id.
pub const CSR_MHARTID: u16 = 0xF14;

/// `addr` is one of the memory-mapped control registers; loads and stores
/// there never touch the global memory.
pub open spec fn is_mmio(addr: u32) -> bool {
    ||| addr == TCDM_START_ADDR
    ||| addr == TCDM_END_ADDR
    ||| addr == NUM_CORES_ADDR
    ||| addr == SCRATCH_REG_ADDR
    ||| addr == CLUSTER_BASE_HARTID_ADDR
}

/// A CPU record, one per simulated hart, handed to the translated code.
pub struct Cpu {
    /// This hart's own state.
    pub state: CpuState,
    /// This hart's id.
    pub hartid: usize,
    /// The number of cores in this hart's cluster.
    pub num_cores: usize,
    /// The hartid of this cluster's first hart.
    pub cluster_base_hartid: usize,
}

/// What a load returns: the fixed control registers by address, and the
/// global memory word (zero if absent) everywhere else.
pub open spec fn load_result(c: Cpu, e: Engine, addr: u32) -> u32 {
    if addr == TCDM_START_ADDR {
        TCDM_START
    } else if addr == TCDM_END_ADDR {
        TCDM_END
    } else if addr == NUM_CORES_ADDR {
        c.num_cores as u32
    } else if addr == SCRATCH_REG_ADDR {
        e.exit_code
    } else if addr == CLUSTER_BASE_HARTID_ADDR {
        c.cluster_base_hartid as u32
    } else {
        word_at(e.memory@, addr as u64)
    }
}

/// What a store does to the engine: the scratch register takes the exit
/// code, the other control registers ignore the store, and every other
/// address takes the word into global memory.
pub open spec fn store_effect(pre: Engine, post: Engine, addr: u32, value: u32) -> bool {
    &&& same_options(pre, post)
    &&& same_sizing(pre, post)
    &&& post.had_error == pre.had_error
    &&& post.exit_code == (if addr == SCRATCH_REG_ADDR {
        value
    } else {
        pre.exit_code
    })
    &&& post.memory@ == (if is_mmio(addr) {
        pre.memory@
    } else {
        pre.memory@.insert(addr as u64, value)
    })
}

/// What a CSR read returns: the SSR enable mask, the hartid, and zero for
/// every other CSR.
pub open spec fn csr_read_result(c: Cpu, csr: u16) -> u32 {
    if csr == CSR_SSR_ENABLE {
        c.state.ssr_enable
    } else if csr == CSR_MHARTID {
        c.hartid as u32
    } else {
        0
    }
}

/// What a CSR write does to the hart: the SSR enable CSR takes the value;
/// every other CSR ignores the write. Nothing else of the hart changes.
pub open spec fn csr_write_effect(pre: Cpu, post: Cpu, csr: u16, value: u32) -> bool {
    &&& post.hartid == pre.hartid
    &&& post.num_cores == pre.num_cores
    &&& post.cluster_base_hartid == pre.cluster_base_hartid
    &&& post.state.ssr_enable == (if csr == CSR_SSR_ENABLE {
        value
    } else {
        pre.state.ssr_enable
    })
    &&& post.state.regs == pre.state.regs
    &&& post.state.fregs == pre.state.fregs
    &&& post.state.pc == pre.state.pc
    &&& post.state.instret == pre.state.instret
}

/// What an abort does to the engine: it records the error and changes
/// nothing else; the hart keeps running until it returns on its own.
pub open spec fn abort_effect(pre: Engine, post: Engine) -> bool {
    &&& same_options(pre, post)
    &&& same_sizing(pre, post)
    &&& post.exit_code == pre.exit_code
    &&& post.memory@ == pre.memory@
    &&& post.had_error
}

impl Cpu {
    /// Create a new CPU in a default state.
    pub fn new(hartid: usize, num_cores: usize, cluster_base_hartid: usize) -> (r: Cpu)
        ensures
            r.hartid == hartid,
            r.num_cores == num_cores,
            r.cluster_base_hartid == cluster_base_hartid,
            cpu_state_zero(r.state),
    {
        Cpu { state: CpuState::default(), hartid, num_cores, cluster_base_hartid }
    }

    /// A load from the translated code. `size` is log2 of the width in
    /// bytes; the callback raises no alignment fault, and a width wider
    /// than a word is the translator's to split.
    pub fn binary_load(&self, engine: &Engine, addr: u32, _size: u8) -> (r: u32)
        ensures
            r == load_result(*self, *engine, addr),
    {
        if addr == TCDM_START_ADDR {
            TCDM_START
        } else if addr == TCDM_END_ADDR {
            TCDM_END
        } else if addr == NUM_CORES_ADDR {
            self.num_cores as u32
        } else if addr == SCRATCH_REG_ADDR {
            engine.exit_code
        } else if addr == CLUSTER_BASE_HARTID_ADDR {
            self.cluster_base_hartid as u32
        } else {
            engine.memory.read_word(addr as u64)
        }
    }

    /// A store from the translated code; `size` as in `binary_load`.
    pub fn binary_store(&self, engine: &mut Engine, addr: u32, value: u32, _size: u8)
        ensures
            store_effect(*old(engine), *final(engine), addr, value),
    {
        if addr == TCDM_START_ADDR || addr == TCDM_END_ADDR || addr == NUM_CORES_ADDR || addr
            == CLUSTER_BASE_HARTID_ADDR {
            // the configuration registers ignore stores
        } else if addr == SCRATCH_REG_ADDR {
            engine.exit_code = value;
        } else {
            engine.memory.write_word(addr as u64, value);
        }
    }

    /// A CSR read from the translated code.
    pub fn binary_csr_read(&self, csr: u16) -> (r: u32)
        ensures
            r == csr_read_result(*self, csr),
    {
        if csr == CSR_SSR_ENABLE {
            self.state.ssr_enable
        } else if csr == CSR_MHARTID {
            self.hartid as u32
        } else {
            0
        }
    }

    /// A CSR write from the translated code.
    pub fn binary_csr_write(&mut self, csr: u16, value: u32)
        ensures
            csr_write_effect(*old(self), *final(self), csr, value),
    {
        if csr == CSR_SSR_ENABLE {
            self.state.ssr_enable = value;
        }
    }

    /// Control fell outside every known basic block.
    pub fn binary_abort_escape(&self, engine: &mut Engine, _addr: u32)
        ensures
            abort_effect(*old(engine), *final(engine)),
    {
        engine.had_error = true;
    }

    /// The translated code hit an instruction it could not decode; the
    /// mnemonic rendering belongs to the external disassembler.
    pub fn binary_abort_illegal_inst(&self, engine: &mut Engine, _addr: u32, _inst_raw: u32)
        ensures
            abort_effect(*old(engine), *final(engine)),
    {
        engine.had_error = true;
    }

    /// A branch went to an address missing from the translated
    /// control-flow graph.
    pub fn binary_abort_illegal_branch(&self, engine: &mut Engine, _addr: u32, _target: u32)
        ensures
            abort_effect(*old(engine), *final(engine)),
    {
        engine.had_error = true;
    }

    /// The trace line for one retired instruction; the caller prints it.
    pub fn binary_trace(&self, addr: u32, inst: u32, accesses: &[TraceAccess], data: &[u64]) -> (r:
        String)
        requires
            accesses@.len() == data@.len(),
        ensures
            r@ == trace_line(self.state.instret, self.hartid, addr, accesses@, data@, inst),
    {
        let line = render_trace_line(self.state.instret, self.hartid, addr, accesses, data, inst);
        chars_to_string(line)
    }
}

/// Round trip: a store to a non-MMIO address followed by a load from the
/// same address, by any hart, yields the stored value.
pub proof fn lemma_store_load_round_trip(pre: Engine, post: Engine, loader: Cpu, addr: u32, value: u32)
    requires
        !is_mmio(addr),
        store_effect(pre, post, addr, value),
    ensures
        load_result(loader, post, addr) == value,
{
}

/// A load from an address never written returns zero.
pub proof fn lemma_unwritten_load_zero(c: Cpu, e: Engine, addr: u32)
    requires
        !is_mmio(addr),
        !e.memory@.contains_key(addr as u64),
    ensures
        load_result(c, e, addr) == 0,
{
}

/// Round trip per hart: writing the SSR enable CSR and reading it back
/// yields the written value.
pub proof fn lemma_csr_round_trip(pre: Cpu, post: Cpu, value: u32)
    requires
        csr_write_effect(pre, post, CSR_SSR_ENABLE, value),
    ensures
        csr_read_result(post, CSR_SSR_ENABLE) == value,
{
}

/// The reads of the four configuration registers are pure functions of the
/// hart and engine configuration: no store and no other engine state ever
/// changes them.
pub proof fn lemma_mmio_config_reads_pure(c: Cpu, e1: Engine, e2: Engine, addr: u32)
    requires
        addr == TCDM_START_ADDR || addr == TCDM_END_ADDR || addr == NUM_CORES_ADDR || addr
            == CLUSTER_BASE_HARTID_ADDR,
        same_sizing(e1, e2),
    ensures
        load_result(c, e1, addr) == load_result(c, e2, addr),
{
}

/// Two stores to the same non-MMIO address leave the word holding the
/// later store's value; under the global memory lock concurrent stores
/// take effect in some order, so the surviving word is one of the two.
pub proof fn lemma_stores_serialize(
    e0: Engine,
    e1: Engine,
    e2: Engine,
    addr: u32,
    v1: u32,
    v2: u32,
)
    requires
        !is_mmio(addr),
        store_effect(e0, e1, addr, v1),
        store_effect(e1, e2, addr, v2),
    ensures
        word_at(e2.memory@, addr as u64) == v2,
{
}

} // verus!

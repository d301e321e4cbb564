//! Per-hart CPU state and the trace access tags.

use vstd::prelude::*;
use crate::text::{dec, dec_pad, hex32, hex64, push_dec_pad, push_hex32, push_hex64,
    chars_to_string};

verus! {

broadcast use vstd::array::group_array_axioms;

/// The state of one streaming-register engine. Its shape belongs to the
/// runtime contract; the engine only owns the storage.
#[derive(Clone, Copy)]
pub struct SsrState {
}

/// The state of the DMA engine. Its shape belongs to the runtime contract;
/// the engine only owns the storage.
#[derive(Clone, Copy)]
pub struct DmaState {
}

/// A single register or memory access as recorded in a trace.
#[derive(Clone, Copy, Debug)]
pub enum TraceAccess {
    ReadMem,
    ReadReg(u8),
    ReadFReg(u8),
    WriteMem,
    WriteReg(u8),
    WriteFReg(u8),
}

/// A representation of a single CPU core's state.
pub struct CpuState {
    /// The 32 integer registers.
    pub regs: [u32; 32],
    /// The 32 floating-point registers, held as raw 64-bit words.
    pub fregs: [u64; 32],
    /// The program counter.
    pub pc: u32,
    /// The retired-instruction counter.
    pub instret: u64,
    /// The two streaming-register engines.
    pub ssrs: [SsrState; 2],
    /// The SSR enable mask, accessed through CSR `0x7C0`.
    pub ssr_enable: u32,
    /// The DMA engine.
    pub dma: DmaState,
}

/// Every counter and register of `s` is zero.
pub open spec fn cpu_state_zero(s: CpuState) -> bool {
    &&& forall|i: int| 0 <= i < 32 ==> s.regs@[i] == 0
    &&& forall|i: int| 0 <= i < 32 ==> s.fregs@[i] == 0
    &&& s.pc == 0
    &&& s.instret == 0
    &&& s.ssr_enable == 0
}

impl Default for CpuState {
    /// The all-zero state a hart starts in.
    fn default() -> (r: CpuState)
        ensures
            cpu_state_zero(r),
    {
        CpuState {
            regs: [0u32; 32],
            fregs: [0u64; 32],
            pc: 0,
            instret: 0,
            ssrs: [SsrState {  }; 2],
            ssr_enable: 0,
            dma: (DmaState {  }),
        }
    }
}

/// One integer-register cell of the state dump: `xNN: 0x<8 hex digits>`.
pub open spec fn int_reg_entry(i: int, v: u32) -> Seq<char> {
    seq!['x'] + dec_pad(i as nat, 2) + seq![':', ' ', '0', 'x'] + hex32(v)
}

/// One floating-point-register cell: `fNN: 0x<16 hex digits>`.
pub open spec fn fp_reg_entry(i: int, v: u64) -> Seq<char> {
    seq!['f'] + dec_pad(i as nat, 2) + seq![':', ' ', '0', 'x'] + hex64(v)
}

/// The first `n` integer-register cells, four to a line.
pub open spec fn int_reg_table(regs: Seq<u32>, n: int) -> Seq<char>
    decreases n,
{
    if n <= 0 {
        Seq::empty()
    } else {
        int_reg_table(regs, n - 1) + int_reg_entry(n - 1, regs[n - 1]) + (if n % 4 == 0 {
            seq!['\n']
        } else {
            seq![' ', ' ']
        })
    }
}

/// The first `n` floating-point-register cells, four to a line.
pub open spec fn fp_reg_table(fregs: Seq<u64>, n: int) -> Seq<char>
    decreases n,
{
    if n <= 0 {
        Seq::empty()
    } else {
        fp_reg_table(fregs, n - 1) + fp_reg_entry(n - 1, fregs[n - 1]) + (if n % 4 == 0 {
            seq!['\n']
        } else {
            seq![' ', ' ']
        })
    }
}

/// The whole state dump: both register files, the program counter and the
/// retired-instruction count, one register file row per four registers.
pub open spec fn state_dump(s: CpuState) -> Seq<char> {
    seq!['r', 'e', 'g', 's', ':', '\n'] + int_reg_table(s.regs@, 32) + seq![
        'f',
        'r',
        'e',
        'g',
        's',
        ':',
        '\n',
    ] + fp_reg_table(s.fregs@, 32) + seq!['p', 'c', ':', ' ', '0', 'x'] + hex32(s.pc)
        + seq!['\n', 'i', 'n', 's', 't', 'r', 'e', 't', ':', ' '] + dec(s.instret as nat)
}

impl CpuState {
    /// Renders the state for a human: registers four to a line, then the
    /// program counter and the retired-instruction count.
    pub fn describe(&self) -> (r: String)
        ensures
            r@ == state_dump(*self),
    {
        let mut out: Vec<char> = Vec::new();
        out.push('r');
        out.push('e');
        out.push('g');
        out.push('s');
        out.push(':');
        out.push('\n');
        let ghost p0 = seq!['r', 'e', 'g', 's', ':', '\n'];
        assert(out@ =~= p0);
        let mut i: usize = 0;
        while i < 32
            invariant
                i <= 32,
                out@ == p0 + int_reg_table(self.regs@, i as int),
                p0 == seq!['r', 'e', 'g', 's', ':', '\n'],
            decreases 32 - i,
        {
            out.push('x');
            push_dec_pad(&mut out, i as u64, 2);
            out.push(':');
            out.push(' ');
            out.push('0');
            out.push('x');
            push_hex32(&mut out, self.regs[i]);
            if i % 4 == 3 {
                out.push('\n');
            } else {
                out.push(' ');
                out.push(' ');
            }
            assert(out@ =~= p0 + int_reg_table(self.regs@, i + 1));
            i = i + 1;
        }
        let ghost p1 = p0 + int_reg_table(self.regs@, 32) + seq![
            'f',
            'r',
            'e',
            'g',
            's',
            ':',
            '\n',
        ];
        out.push('f');
        out.push('r');
        out.push('e');
        out.push('g');
        out.push('s');
        out.push(':');
        out.push('\n');
        assert(out@ =~= p1);
        let mut j: usize = 0;
        while j < 32
            invariant
                j <= 32,
                out@ == p1 + fp_reg_table(self.fregs@, j as int),
                p1 == p0 + int_reg_table(self.regs@, 32) + seq![
                    'f',
                    'r',
                    'e',
                    'g',
                    's',
                    ':',
                    '\n',
                ],
                p0 == seq!['r', 'e', 'g', 's', ':', '\n'],
            decreases 32 - j,
        {
            out.push('f');
            push_dec_pad(&mut out, j as u64, 2);
            out.push(':');
            out.push(' ');
            out.push('0');
            out.push('x');
            push_hex64(&mut out, self.fregs[j]);
            if j % 4 == 3 {
                out.push('\n');
            } else {
                out.push(' ');
                out.push(' ');
            }
            assert(out@ =~= p1 + fp_reg_table(self.fregs@, j + 1));
            j = j + 1;
        }
        out.push('p');
        out.push('c');
        out.push(':');
        out.push(' ');
        out.push('0');
        out.push('x');
        push_hex32(&mut out, self.pc);
        out.push('\n');
        out.push('i');
        out.push('n');
        out.push('s');
        out.push('t');
        out.push('r');
        out.push('e');
        out.push('t');
        out.push(':');
        out.push(' ');
        let mut tail = crate::text::dec_chars(self.instret);
        out.append(&mut tail);
        assert(out@ =~= state_dump(*self));
        chars_to_string(out)
    }
}

} // verus!

//! The instruction trace protocol.
//!
//! Each retired instruction is reported with its address, its raw encoding,
//! and the register and memory accesses it made. The engine renders one
//! line per instruction:
//!
//! ```text
//! {instret:08} {hartid:04} {addr:08x}  {args:38}  # DASM({inst:08x})
//! ```
//!
//! where `args` joins one cell per access with single spaces: `RA:`/`WA:`
//! plus eight hex digits for memory reads and writes, `xN:`/`xN=` plus
//! eight hex digits for integer register reads and writes, and `fN:`/`fN=`
//! plus sixteen hex digits for floating-point register reads and writes.

use vstd::prelude::*;
use crate::state::TraceAccess;
use crate::text::{dec, dec_pad, hex32, hex64, pad_right, push_dec_pad, push_hex32, push_hex64};

verus! {

/// The cell rendered for one access tag and its data word.
pub open spec fn access_text(a: TraceAccess, d: u64) -> Seq<char> {
    match a {
        TraceAccess::ReadMem => seq!['R', 'A', ':'] + hex32(d as u32),
        TraceAccess::WriteMem => seq!['W', 'A', ':'] + hex32(d as u32),
        TraceAccess::ReadReg(x) => seq!['x'] + dec(x as nat) + seq![':'] + hex32(d as u32),
        TraceAccess::WriteReg(x) => seq!['x'] + dec(x as nat) + seq!['='] + hex32(d as u32),
        TraceAccess::ReadFReg(x) => seq!['f'] + dec(x as nat) + seq![':'] + hex64(d),
        TraceAccess::WriteFReg(x) => seq!['f'] + dec(x as nat) + seq!['='] + hex64(d),
    }
}

/// The first `n` access cells joined with single spaces.
pub open spec fn args_text(accesses: Seq<TraceAccess>, data: Seq<u64>, n: int) -> Seq<char>
    decreases n,
{
    if n <= 0 {
        Seq::empty()
    } else if n == 1 {
        access_text(accesses[0], data[0])
    } else {
        args_text(accesses, data, n - 1) + seq![' '] + access_text(accesses[n - 1], data[n - 1])
    }
}

/// The whole trace line for one retired instruction.
pub open spec fn trace_line(
    instret: u64,
    hartid: usize,
    addr: u32,
    accesses: Seq<TraceAccess>,
    data: Seq<u64>,
    inst: u32,
) -> Seq<char> {
    dec_pad(instret as nat, 8) + seq![' '] + dec_pad(hartid as nat, 4) + seq![' '] + hex32(addr)
        + seq![' ', ' '] + pad_right(args_text(accesses, data, accesses.len() as int), 38) + seq![
        ' ',
        ' ',
        '#',
        ' ',
        'D',
        'A',
        'S',
        'M',
        '(',
    ] + hex32(inst) + seq![')']
}

/// Appends the cell for one access to `out`.
pub fn push_access(out: &mut Vec<char>, a: TraceAccess, d: u64)
    ensures
        final(out)@ == old(out)@ + access_text(a, d),
{
    match a {
        TraceAccess::ReadMem => {
            out.push('R');
            out.push('A');
            out.push(':');
            push_hex32(out, d as u32);
        },
        TraceAccess::WriteMem => {
            out.push('W');
            out.push('A');
            out.push(':');
            push_hex32(out, d as u32);
        },
        TraceAccess::ReadReg(x) => {
            out.push('x');
            push_dec_pad(out, x as u64, 0);
            out.push(':');
            push_hex32(out, d as u32);
        },
        TraceAccess::WriteReg(x) => {
            out.push('x');
            push_dec_pad(out, x as u64, 0);
            out.push('=');
            push_hex32(out, d as u32);
        },
        TraceAccess::ReadFReg(x) => {
            out.push('f');
            push_dec_pad(out, x as u64, 0);
            out.push(':');
            push_hex64(out, d);
        },
        TraceAccess::WriteFReg(x) => {
            out.push('f');
            push_dec_pad(out, x as u64, 0);
            out.push('=');
            push_hex64(out, d);
        },
    }
    assert(out@ =~= old(out)@ + access_text(a, d));
}

/// Builds the trace line as a character vector.
pub fn render_trace_line(
    instret: u64,
    hartid: usize,
    addr: u32,
    accesses: &[TraceAccess],
    data: &[u64],
    inst: u32,
) -> (r: Vec<char>)
    requires
        accesses@.len() == data@.len(),
    ensures
        r@ == trace_line(instret, hartid, addr, accesses@, data@, inst),
{
    let mut out: Vec<char> = Vec::new();
    push_dec_pad(&mut out, instret, 8);
    out.push(' ');
    push_dec_pad(&mut out, hartid as u64, 4);
    out.push(' ');
    push_hex32(&mut out, addr);
    out.push(' ');
    out.push(' ');
    let ghost head = dec_pad(instret as nat, 8) + seq![' '] + dec_pad(hartid as nat, 4) + seq![' ']
        + hex32(addr) + seq![' ', ' '];
    assert(out@ =~= head);

    let mut args: Vec<char> = Vec::new();
    let n: usize = accesses.len();
    let mut k: usize = 0;
    while k < n
        invariant
            k <= n,
            n == accesses@.len(),
            accesses@.len() == data@.len(),
            args@ == args_text(accesses@, data@, k as int),
        decreases n - k,
    {
        if k > 0 {
            args.push(' ');
        }
        let a = accesses[k];
        let d = data[k];
        push_access(&mut args, a, d);
        assert(args@ =~= args_text(accesses@, data@, k + 1));
        k = k + 1;
    }
    crate::text::pad_to(&mut args, 38);
    out.append(&mut args);
    out.push(' ');
    out.push(' ');
    out.push('#');
    out.push(' ');
    out.push('D');
    out.push('A');
    out.push('S');
    out.push('M');
    out.push('(');
    push_hex32(&mut out, inst);
    out.push(')');
    assert(out@ =~= trace_line(instret, hartid, addr, accesses@, data@, inst));
    out
}

} // verus!

//! The execution engine: configuration, global memory, ELF preloading,
//! scratchpad seeding, hart layout, and the final verdict.

use vstd::prelude::*;
use crate::cpu::{store_effect, Cpu, SCRATCH_REG_ADDR};
use crate::memory::{word_at, GlobalMemory};
use crate::state::cpu_state_zero;

verus! {

/// The section flag marking a section as occupying memory at run time.
pub const SHF_ALLOC: u64 = 2;

/// Each cluster's scratchpad holds this many 32-bit words (128 KiB).
pub const TCDM_WORDS: usize = 0x8000;

/// One section of a parsed ELF image: its virtual address, its flags and
/// its raw bytes.
pub struct ElfSection {
    /// The virtual address the section is loaded at.
    pub addr: u64,
    /// The section flags; only `SHF_ALLOC` matters to the engine.
    pub flags: u64,
    /// The section's raw bytes.
    pub data: Vec<u8>,
}

/// A parsed ELF image, reduced to what the engine reads: its sections.
pub struct ElfImage {
    /// The sections, in file order.
    pub sections: Vec<ElfSection>,
}

/// The failure `execute` reports after a runtime abort.
#[derive(Clone, Copy, Debug, PartialEq, Eq, Structural)]
pub enum EngineError {
    /// A hart escaped the translated code, hit an illegal instruction, or
    /// branched outside the translated control-flow graph.
    ExecutionFailed,
}

/// An execution engine. One exists per emulation run; it owns the global
/// memory and the aggregate error and exit state every hart shares.
pub struct Engine {
    /// The exit code set by the binary through the scratch register.
    pub exit_code: u32,
    /// Whether an error occurred during execution.
    pub had_error: bool,
    /// Optimize the IR.
    pub opt_llvm: bool,
    /// Optimize during JIT compilation.
    pub opt_jit: bool,
    /// Enable instruction tracing.
    pub trace: bool,
    /// The base hartid.
    pub base_hartid: usize,
    /// The number of cores per cluster.
    pub num_cores: usize,
    /// The number of clusters.
    pub num_clusters: usize,
    /// The global memory.
    pub memory: GlobalMemory,
}

/// The two engines hold the same optimization and tracing options.
pub open spec fn same_options(a: Engine, b: Engine) -> bool {
    &&& a.opt_llvm == b.opt_llvm
    &&& a.opt_jit == b.opt_jit
    &&& a.trace == b.trace
}

/// The two engines describe the same hart lattice.
pub open spec fn same_sizing(a: Engine, b: Engine) -> bool {
    &&& a.base_hartid == b.base_hartid
    &&& a.num_cores == b.num_cores
    &&& a.num_clusters == b.num_clusters
}

/// `flags` marks a section the engine must load.
pub open spec fn is_alloc(flags: u64) -> bool {
    flags & SHF_ALLOC != 0
}

/// The number of 32-bit words a section of `len` bytes loads: every byte is
/// covered, and a trailing partial word counts as one word.
pub open spec fn words_in(len: int) -> int {
    (len + 3) / 4
}

/// The number of words a section of `len` bytes loads.
pub fn words_in_len(len: usize) -> (r: usize)
    ensures
        r == words_in(len as int),
{
    len / 4 + (if len % 4 != 0 {
        1
    } else {
        0
    })
}

/// The little-endian 32-bit word at byte offset `o` of `data`, or zero
/// where fewer than four bytes remain.
pub open spec fn le_word_at(data: Seq<u8>, o: int) -> u32 {
    if 0 <= o && o + 4 <= data.len() {
        (data[o] + data[o + 1] * 0x100 + data[o + 2] * 0x10000 + data[o + 3] * 0x1000000) as u32
    } else {
        0
    }
}

/// The address word `k` of section `s` is loaded at.
pub open spec fn word_addr(s: ElfSection, k: int) -> u64 {
    (s.addr + 4 * k) as u64
}

/// The first `n` words of section `s` written into `m` at the section's
/// addresses.
pub open spec fn preload_section_words(m: Map<u64, u32>, s: ElfSection, n: int) -> Map<u64, u32>
    decreases n,
{
    if n <= 0 {
        m
    } else {
        preload_section_words(m, s, n - 1).insert(
            word_addr(s, n - 1),
            le_word_at(s.data@, 4 * (n - 1)),
        )
    }
}

/// The effect of loading one section: its words land in memory when its
/// `SHF_ALLOC` flag is set, and nothing changes when the flag is clear.
pub open spec fn preload_section(m: Map<u64, u32>, s: ElfSection) -> Map<u64, u32> {
    if is_alloc(s.flags) {
        preload_section_words(m, s, words_in(s.data@.len() as int))
    } else {
        m
    }
}

/// The effect of loading the sections in order.
pub open spec fn preload_image(m: Map<u64, u32>, sections: Seq<ElfSection>) -> Map<u64, u32>
    decreases sections.len(),
{
    if sections.len() == 0 {
        m
    } else {
        preload_section(preload_image(m, sections.drop_last()), sections.last())
    }
}

/// The section's last word address stays within the 64-bit address space.
pub open spec fn section_fits(s: ElfSection) -> bool {
    s.addr + 4 * words_in(s.data@.len() as int) <= 0x1_0000_0000_0000_0000
}

/// Address `a` is one of the word addresses section `s` loads.
pub open spec fn section_covers(s: ElfSection, a: u64) -> bool {
    exists|k: int| 0 <= k < words_in(s.data@.len() as int) && a == #[trigger] word_addr(s, k)
}

/// A section whose `SHF_ALLOC` flag is clear loads nothing: the memory it
/// names stays exactly as it was, and its addresses stay absent.
pub proof fn lemma_nonalloc_section_loads_nothing(m: Map<u64, u32>, s: ElfSection)
    requires
        !is_alloc(s.flags),
    ensures
        preload_section(m, s) == m,
{
}

/// Loading the first `n` words of `s` leaves every other address as it was.
proof fn lemma_preload_section_words_untouched(m: Map<u64, u32>, s: ElfSection, n: int, a: u64)
    requires
        forall|k: int| 0 <= k < n ==> a != #[trigger] word_addr(s, k),
    ensures
        word_at(preload_section_words(m, s, n), a) == word_at(m, a),
        preload_section_words(m, s, n).contains_key(a) == m.contains_key(a),
    decreases n,
{
    if n > 0 {
        lemma_preload_section_words_untouched(m, s, n - 1, a);
    }
}

/// Word `k` of section `s` lands at its address when the first `n > k`
/// words are loaded.
proof fn lemma_preload_section_words_at(m: Map<u64, u32>, s: ElfSection, n: int, k: int)
    requires
        section_fits(s),
        0 <= k < n,
        n <= words_in(s.data@.len() as int),
    ensures
        word_at(preload_section_words(m, s, n), word_addr(s, k)) == le_word_at(s.data@, 4 * k),
        preload_section_words(m, s, n).contains_key(word_addr(s, k)),
    decreases n,
{
    if k == n - 1 {
    } else {
        lemma_preload_section_words_at(m, s, n - 1, k);
        assert(s.addr + 4 * (n - 1) < 0x1_0000_0000_0000_0000);
        assert(word_addr(s, n - 1) != word_addr(s, k));
    }
}

/// An address no loaded section covers reads the same before and after the
/// whole image is preloaded; in particular an address only sections with a
/// clear `SHF_ALLOC` flag name stays absent, and loads from it return zero.
pub proof fn lemma_preload_image_untouched(m: Map<u64, u32>, sections: Seq<ElfSection>, a: u64)
    requires
        forall|i: int|
            0 <= i < sections.len() && is_alloc(#[trigger] sections[i].flags) ==> !section_covers(
                sections[i],
                a,
            ),
    ensures
        word_at(preload_image(m, sections), a) == word_at(m, a),
        preload_image(m, sections).contains_key(a) == m.contains_key(a),
    decreases sections.len(),
{
    if sections.len() > 0 {
        lemma_preload_image_untouched(m, sections.drop_last(), a);
        let s = sections.last();
        if is_alloc(s.flags) {
            assert(!section_covers(s, a));
            assert forall|k: int|
                0 <= k < words_in(s.data@.len() as int) implies a != word_addr(s, k) by {
                if a == word_addr(s, k) {
                    assert(section_covers(s, a));
                }
            }
            lemma_preload_section_words_untouched(
                preload_image(m, sections.drop_last()),
                s,
                words_in(s.data@.len() as int),
                a,
            );
        }
    }
}

/// After the image is preloaded, word `k` of a loaded section reads back as
/// the little-endian word of its bytes, provided no later loaded section
/// covers the same address.
pub proof fn lemma_preload_image_word(m: Map<u64, u32>, sections: Seq<ElfSection>, i: int, k: int)
    requires
        0 <= i < sections.len(),
        is_alloc(sections[i].flags),
        section_fits(sections[i]),
        0 <= k < words_in(sections[i].data@.len() as int),
        forall|l: int|
            i < l < sections.len() && is_alloc(#[trigger] sections[l].flags) ==> !section_covers(
                sections[l],
                word_addr(sections[i], k),
            ),
    ensures
        word_at(preload_image(m, sections), word_addr(sections[i], k)) == le_word_at(
            sections[i].data@,
            4 * k,
        ),
        preload_image(m, sections).contains_key(word_addr(sections[i], k)),
    decreases sections.len(),
{
    let a = word_addr(sections[i], k);
    if i == sections.len() - 1 {
        lemma_preload_section_words_at(
            preload_image(m, sections.drop_last()),
            sections[i],
            words_in(sections[i].data@.len() as int),
            k,
        );
    } else {
        assert(sections.drop_last()[i] == sections[i]);
        lemma_preload_image_word(m, sections.drop_last(), i, k);
        let s = sections.last();
        if is_alloc(s.flags) {
            assert(!section_covers(s, a));
            assert forall|k2: int|
                0 <= k2 < words_in(s.data@.len() as int) implies a != word_addr(s, k2) by {
                if a == word_addr(s, k2) {
                    assert(section_covers(s, a));
                }
            }
            lemma_preload_section_words_untouched(
                preload_image(m, sections.drop_last()),
                s,
                words_in(s.data@.len() as int),
                a,
            );
        }
    }
}

/// The verdict `execute` returns once every hart has finished: the stored
/// exit code, without its low bit, unless a runtime abort was recorded.
pub open spec fn execute_verdict(e: Engine) -> Result<u32, EngineError> {
    if e.had_error {
        Err(EngineError::ExecutionFailed)
    } else {
        Ok(e.exit_code >> 1)
    }
}

/// The scratchpad `tcdm` holds the low `0x2_0000` bytes of memory `m`,
/// word by word.
pub open spec fn tcdm_seeded(tcdm: Seq<u32>, m: Map<u64, u32>) -> bool {
    &&& tcdm.len() == TCDM_WORDS
    &&& forall|i: int| 0 <= i < TCDM_WORDS ==> tcdm[i] == word_at(m, (4 * i) as u64)
}

/// Slot `j * num_cores + i` of `cpus` is the hart of cluster `j`, core `i`:
/// hartids are assigned in row-major order starting at the base hartid.
pub open spec fn cpu_slot(cpus: Seq<Cpu>, e: Engine, j: int, i: int) -> bool {
    &&& cpus[j * e.num_cores + i].hartid == e.base_hartid + j * e.num_cores + i
    &&& cpus[j * e.num_cores + i].num_cores == e.num_cores
    &&& cpus[j * e.num_cores + i].cluster_base_hartid == e.base_hartid + j * e.num_cores
    &&& cpu_state_zero(cpus[j * e.num_cores + i].state)
}

/// The retired-instruction counts of `cpus`, summed.
pub open spec fn sum_instret(cpus: Seq<Cpu>) -> int
    decreases cpus.len(),
{
    if cpus.len() == 0 {
        0
    } else {
        sum_instret(cpus.drop_last()) + cpus.last().state.instret
    }
}

impl Engine {
    /// Create a new execution engine: optimization on, tracing off, one
    /// cluster of one core starting at hartid zero, empty memory.
    pub fn new() -> (r: Engine)
        ensures
            r.exit_code == 0,
            !r.had_error,
            r.opt_llvm,
            r.opt_jit,
            !r.trace,
            r.base_hartid == 0,
            r.num_cores == 1,
            r.num_clusters == 1,
            r.memory@ == Map::<u64, u32>::empty(),
    {
        Engine {
            exit_code: 0,
            had_error: false,
            opt_llvm: true,
            opt_jit: true,
            trace: false,
            base_hartid: 0,
            num_cores: 1,
            num_clusters: 1,
            memory: GlobalMemory::new(),
        }
    }

    /// Preload an ELF binary: for every section whose `SHF_ALLOC` flag is
    /// set, copy its bytes as little-endian 32-bit words into the global
    /// memory at the section's virtual addresses. Sections whose flag is
    /// clear leave memory untouched. Translation of the sections into IR
    /// belongs to the external translator.
    pub fn translate_elf(&mut self, elf: &ElfImage)
        requires
            forall|i: int|
                0 <= i < elf.sections@.len() && is_alloc(#[trigger] elf.sections@[i].flags)
                    ==> section_fits(elf.sections@[i]),
        ensures
            final(self).memory@ == preload_image(old(self).memory@, elf.sections@),
            same_options(*old(self), *final(self)),
            same_sizing(*old(self), *final(self)),
            final(self).exit_code == old(self).exit_code,
            final(self).had_error == old(self).had_error,
    {
        let ghost m0 = self.memory@;
        let n_sections: usize = elf.sections.len();
        let mut si: usize = 0;
        while si < n_sections
            invariant
                si <= n_sections,
                n_sections == elf.sections@.len(),
                forall|i: int|
                    0 <= i < elf.sections@.len() && is_alloc(#[trigger] elf.sections@[i].flags)
                        ==> section_fits(elf.sections@[i]),
                self.memory@ == preload_image(m0, elf.sections@.subrange(0, si as int)),
                same_options(*old(self), *self),
                same_sizing(*old(self), *self),
                self.exit_code == old(self).exit_code,
                self.had_error == old(self).had_error,
            decreases n_sections - si,
        {
            let ghost m_before = self.memory@;
            let section = &elf.sections[si];
            if section.flags & SHF_ALLOC != 0 {
                let len: usize = section.data.len();
                let n_words: usize = words_in_len(len);
                let mut w: usize = 0;
                while w < n_words
                    invariant
                        w <= n_words,
                        n_words == words_in(section.data@.len() as int),
                        len == section.data@.len(),
                        section_fits(*section),
                        is_alloc(section.flags),
                        self.memory@ == preload_section_words(m_before, *section, w as int),
                        same_options(*old(self), *self),
                        same_sizing(*old(self), *self),
                        self.exit_code == old(self).exit_code,
                        self.had_error == old(self).had_error,
                    decreases n_words - w,
                {
                    assert(4 * (w as int) < len as int) by (nonlinear_arith)
                        requires
                            0 <= w,
                            w < n_words,
                            n_words == (len as int + 3) / 4,
                    ;
                    let base: usize = 4 * w;
                    let value: u32 = if len >= 4 && base <= len - 4 {
                        section.data[base] as u32 + (section.data[base + 1] as u32) * 0x100 + (
                        section.data[base + 2] as u32) * 0x10000 + (section.data[base + 3] as u32)
                            * 0x1000000
                    } else {
                        0
                    };
                    assert(value == le_word_at(section.data@, 4 * (w as int)));
                    let addr: u64 = section.addr + 4 * (w as u64);
                    self.memory.write_word(addr, value);
                    w = w + 1;
                }
                assert(self.memory@ == preload_section(m_before, *section));
            } else {
                assert(self.memory@ == preload_section(m_before, *section));
            }
            let ghost sub = elf.sections@.subrange(0, si + 1);
            assert(sub.drop_last() =~= elf.sections@.subrange(0, si as int));
            assert(sub.last() == elf.sections@[si as int]);
            assert(self.memory@ == preload_image(m0, sub));
            si = si + 1;
        }
        assert(elf.sections@.subrange(0, n_sections as int) =~= elf.sections@);
    }

    /// One freshly seeded scratchpad per cluster: each holds the global
    /// memory's words below the scratchpad's end address, at address
    /// divided by four; absent words read as zero.
    pub fn init_tcdms(&self) -> (tcdms: Vec<Vec<u32>>)
        ensures
            tcdms@.len() == self.num_clusters,
            forall|j: int|
                0 <= j < self.num_clusters ==> tcdm_seeded(#[trigger] tcdms@[j]@, self.memory@),
    {
        let mut tcdms: Vec<Vec<u32>> = Vec::new();
        let mut j: usize = 0;
        while j < self.num_clusters
            invariant
                j <= self.num_clusters,
                tcdms@.len() == j,
                forall|k: int| 0 <= k < j ==> tcdm_seeded(#[trigger] tcdms@[k]@, self.memory@),
            decreases self.num_clusters - j,
        {
            let tcdm = self.init_tcdm();
            tcdms.push(tcdm);
            j = j + 1;
        }
        tcdms
    }

    /// One seeded scratchpad.
    fn init_tcdm(&self) -> (tcdm: Vec<u32>)
        ensures
            tcdm_seeded(tcdm@, self.memory@),
    {
        let mut tcdm: Vec<u32> = Vec::new();
        let mut i: usize = 0;
        while i < TCDM_WORDS
            invariant
                i <= TCDM_WORDS,
                tcdm@.len() == i,
                forall|k: int| 0 <= k < i ==> tcdm@[k] == word_at(self.memory@, (4 * k) as u64),
            decreases TCDM_WORDS - i,
        {
            let word = self.memory.read_word(4 * (i as u64));
            tcdm.push(word);
            i = i + 1;
        }
        tcdm
    }

    /// The per-hart CPU records, one per core of every cluster, hartids in
    /// row-major order: cluster `j`, core `i` gets hartid
    /// `base_hartid + j * num_cores + i`.
    pub fn make_cpus(&self) -> (cpus: Vec<Cpu>)
        requires
            self.base_hartid + self.num_clusters * self.num_cores <= usize::MAX,
        ensures
            cpus@.len() == self.num_clusters * self.num_cores,
            forall|j: int, i: int|
                0 <= j < self.num_clusters && 0 <= i < self.num_cores ==> #[trigger] cpu_slot(
                    cpus@,
                    *self,
                    j,
                    i,
                ),
    {
        let mut cpus: Vec<Cpu> = Vec::new();
        let mut j: usize = 0;
        while j < self.num_clusters
            invariant
                j <= self.num_clusters,
                self.base_hartid + self.num_clusters * self.num_cores <= usize::MAX,
                cpus@.len() == j * self.num_cores,
                forall|j2: int, i2: int|
                    0 <= j2 < j && 0 <= i2 < self.num_cores ==> #[trigger] cpu_slot(
                        cpus@,
                        *self,
                        j2,
                        i2,
                    ),
            decreases self.num_clusters - j,
        {
            assert((j + 1) * self.num_cores <= self.num_clusters * self.num_cores) by (nonlinear_arith)
                requires
                    j < self.num_clusters,
                    self.num_cores >= 0,
            ;
            assert(j * self.num_cores + self.num_cores == (j + 1) * self.num_cores)
                by (nonlinear_arith);
            let cluster_base: usize = self.base_hartid + j * self.num_cores;
            let mut i: usize = 0;
            while i < self.num_cores
                invariant
                    i <= self.num_cores,
                    j < self.num_clusters,
                    self.base_hartid + self.num_clusters * self.num_cores <= usize::MAX,
                    (j + 1) * self.num_cores <= self.num_clusters * self.num_cores,
                    j * self.num_cores + self.num_cores == (j + 1) * self.num_cores,
                    cluster_base == self.base_hartid + j * self.num_cores,
                    cpus@.len() == j * self.num_cores + i,
                    forall|j2: int, i2: int|
                        0 <= j2 < j && 0 <= i2 < self.num_cores ==> #[trigger] cpu_slot(
                            cpus@,
                            *self,
                            j2,
                            i2,
                        ),
                    forall|i2: int| 0 <= i2 < i ==> #[trigger] cpu_slot(cpus@, *self, j as int, i2),
                decreases self.num_cores - i,
            {
                let ghost pre = cpus@;
                let cpu = Cpu::new(cluster_base + i, self.num_cores, cluster_base);
                cpus.push(cpu);
                proof {
                    assert forall|j2: int, i2: int|
                        0 <= j2 < j && 0 <= i2 < self.num_cores implies #[trigger] cpu_slot(
                        cpus@,
                        *self,
                        j2,
                        i2,
                    ) by {
                        assert(cpu_slot(pre, *self, j2, i2));
                        assert(0 <= j2 * self.num_cores + i2 && j2 * self.num_cores + i2 + 1 <= j
                            * self.num_cores) by (nonlinear_arith)
                            requires
                                0 <= j2,
                                j2 + 1 <= j,
                                0 <= i2,
                                i2 + 1 <= self.num_cores,
                        ;
                        assert(cpus@[j2 * self.num_cores + i2] == pre[j2 * self.num_cores + i2]);
                    }
                    assert forall|i2: int| 0 <= i2 < i + 1 implies #[trigger] cpu_slot(
                        cpus@,
                        *self,
                        j as int,
                        i2,
                    ) by {
                        if i2 < i {
                            assert(cpu_slot(pre, *self, j as int, i2));
                            assert(cpus@[j * self.num_cores + i2] == pre[j * self.num_cores + i2]);
                        } else {
                            assert(cpus@[j * self.num_cores + i2] == cpu);
                        }
                    }
                }
                i = i + 1;
            }
            j = j + 1;
            assert forall|j2: int, i2: int|
                0 <= j2 < j && 0 <= i2 < self.num_cores implies #[trigger] cpu_slot(
                cpus@,
                *self,
                j2,
                i2,
            ) by {
                if j2 == j - 1 {
                    assert(cpu_slot(cpus@, *self, j2, i2));
                }
            }
        }
        assert(cpus@.len() == self.num_clusters * self.num_cores) by (nonlinear_arith)
            requires
                cpus@.len() == j * self.num_cores,
                j == self.num_clusters,
        ;
        cpus
    }

    /// The retired-instruction counts of every hart, summed.
    pub fn total_instret(cpus: &Vec<Cpu>) -> (r: u64)
        requires
            sum_instret(cpus@) <= u64::MAX,
        ensures
            r == sum_instret(cpus@),
    {
        let mut acc: u64 = 0;
        let mut i: usize = 0;
        let n: usize = cpus.len();
        while i < n
            invariant
                i <= n,
                n == cpus@.len(),
                sum_instret(cpus@) <= u64::MAX,
                acc == sum_instret(cpus@.subrange(0, i as int)),
            decreases n - i,
        {
            proof {
                lemma_sum_instret_prefix(cpus@, i + 1);
                assert(cpus@.subrange(0, i + 1).drop_last() =~= cpus@.subrange(0, i as int));
                assert(cpus@.subrange(0, i + 1).last() == cpus@[i as int]);
            }
            acc = acc + cpus[i].state.instret;
            i = i + 1;
        }
        proof {
            assert(cpus@.subrange(0, n as int) =~= cpus@);
        }
        acc
    }

    /// The engine's verdict once every hart has joined: the exit code the
    /// binary stored, shifted right by one, or the execution failure when a
    /// runtime abort was recorded.
    pub fn execute(&self) -> (r: Result<u32, EngineError>)
        ensures
            r == execute_verdict(*self),
    {
        if self.had_error {
            Err(EngineError::ExecutionFailed)
        } else {
            Ok(self.exit_code >> 1)
        }
    }
}

/// Every prefix's retired-instruction sum is bounded by the whole sum,
/// since each count is nonnegative.
proof fn lemma_sum_instret_prefix(cpus: Seq<Cpu>, i: int)
    requires
        0 <= i <= cpus.len(),
    ensures
        sum_instret(cpus.subrange(0, i)) <= sum_instret(cpus),
        sum_instret(cpus.subrange(0, i)) >= 0,
    decreases cpus.len() - i,
{
    if i == cpus.len() {
        assert(cpus.subrange(0, i) =~= cpus);
        lemma_sum_instret_nonneg(cpus);
    } else {
        lemma_sum_instret_prefix(cpus, i + 1);
        assert(cpus.subrange(0, i + 1).drop_last() =~= cpus.subrange(0, i));
        lemma_sum_instret_nonneg(cpus.subrange(0, i));
    }
}

/// A sum of retired-instruction counts is nonnegative.
proof fn lemma_sum_instret_nonneg(cpus: Seq<Cpu>)
    ensures
        sum_instret(cpus) >= 0,
    decreases cpus.len(),
{
    if cpus.len() > 0 {
        lemma_sum_instret_nonneg(cpus.drop_last());
    }
}

/// The exit code reported by a clean run is the last value the binary
/// stored to the scratch register, shifted right by one.
pub proof fn lemma_exit_code_reported(pre: Engine, post: Engine, value: u32)
    requires
        store_effect(pre, post, SCRATCH_REG_ADDR, value),
        !post.had_error,
    ensures
        execute_verdict(post) == Ok::<u32, EngineError>(value >> 1),
{
}

/// A recorded runtime abort makes the verdict an error, whatever exit code
/// was stored.
pub proof fn lemma_abort_forces_error(pre: Engine, post: Engine)
    requires
        crate::cpu::abort_effect(pre, post),
    ensures
        execute_verdict(post) == Err::<u32, EngineError>(EngineError::ExecutionFailed),
{
}

/// An engine whose binary never stored an exit code and never aborted
/// reports an exit code of zero — in particular a run with zero harts.
pub proof fn lemma_untouched_engine_reports_zero(e: Engine)
    requires
        e.exit_code == 0,
        !e.had_error,
    ensures
        execute_verdict(e) == Ok::<u32, EngineError>(0),
{
    assert(0u32 >> 1 == 0) by (bit_vector);
}

} // verus!

//! The feature flags of the version information leaf.

use crate::bits::{bit_of, bit_set};
use crate::layout::{
    distinct_names, flag, plain_names, render_fields, well_formed, Field, LineWriter,
};
use crate::query::{cpuid, Registers, RequestType};
use vstd::prelude::*;

verus! {

/// Exposes the processor feature flags.
///
/// Each method corresponds to a single capability. Method names match
/// the feature mnemonic listed in the Intel Instruction Set
/// Reference.
#[derive(Copy, Clone)]
pub struct FeatureInformation {
    ecx: u32,
    edx: u32,
}

impl FeatureInformation {
    /// The captured `ecx` word.
    pub closed spec fn ecx(self) -> u32 {
        self.ecx
    }

    /// The captured `edx` word.
    pub closed spec fn edx(self) -> u32 {
        self.edx
    }

    /// The named bits of the `ecx` word, lowest first. Bits 16 and 31 carry no
    /// name.
    pub open spec fn ecx_layout() -> Seq<Field> {
        seq![
            flag("sse3"@, 0),
            flag("pclmulqdq"@, 1),
            flag("dtes64"@, 2),
            flag("monitor"@, 3),
            flag("ds_cpl"@, 4),
            flag("vmx"@, 5),
            flag("smx"@, 6),
            flag("eist"@, 7),
            flag("tm2"@, 8),
            flag("ssse3"@, 9),
            flag("cnxt_id"@, 10),
            flag("sdbg"@, 11),
            flag("fma"@, 12),
            flag("cmpxchg16b"@, 13),
            flag("xtpr_update_control"@, 14),
            flag("pdcm"@, 15),
            flag("pcid"@, 17),
            flag("dca"@, 18),
            flag("sse4_1"@, 19),
            flag("sse4_2"@, 20),
            flag("x2apic"@, 21),
            flag("movbe"@, 22),
            flag("popcnt"@, 23),
            flag("tsc_deadline"@, 24),
            flag("aesni"@, 25),
            flag("xsave"@, 26),
            flag("osxsave"@, 27),
            flag("avx"@, 28),
            flag("f16c"@, 29),
            flag("rdrand"@, 30),
        ]
    }

    /// The named bits of the `edx` word, lowest first. Bits 10, 20 and 30
    /// carry no name.
    pub open spec fn edx_layout() -> Seq<Field> {
        seq![
            flag("fpu"@, 0),
            flag("vme"@, 1),
            flag("de"@, 2),
            flag("pse"@, 3),
            flag("tsc"@, 4),
            flag("msr"@, 5),
            flag("pae"@, 6),
            flag("mce"@, 7),
            flag("cx8"@, 8),
            flag("apic"@, 9),
            flag("sep"@, 11),
            flag("mtrr"@, 12),
            flag("pge"@, 13),
            flag("mca"@, 14),
            flag("cmov"@, 15),
            flag("pat"@, 16),
            flag("pse_36"@, 17),
            flag("psn"@, 18),
            flag("clfsh"@, 19),
            flag("ds"@, 21),
            flag("acpi"@, 22),
            flag("mmx"@, 23),
            flag("fxsr"@, 24),
            flag("sse"@, 25),
            flag("sse2"@, 26),
            flag("ss"@, 27),
            flag("htt"@, 28),
            flag("tm"@, 29),
            flag("pbe"@, 31),
        ]
    }

    /// The rendering of the descriptor: the lines of `ecx`, then those of
    /// `edx`.
    pub open spec fn text(self) -> Seq<char> {
        render_fields(Self::ecx_layout(), self.ecx())
            + render_fields(Self::edx_layout(), self.edx())
    }

    /// Keeps the `ecx` and `edx` words of an answer to the version information
    /// leaf.
    pub fn from_registers(found: Registers) -> (info: Self)
        ensures
            info.ecx() == found.ecx,
            info.edx() == found.edx,
    {
        FeatureInformation { ecx: found.ecx, edx: found.edx }
    }

    /// Streaming SIMD Extensions 3.
    pub fn sse3(self) -> (flag: bool)
        ensures
            flag == bit_set(self.ecx(), 0),
    {
        bit_of(self.ecx, 0)
    }

    /// The carry-less multiplication instruction `PCLMULQDQ`.
    pub fn pclmulqdq(self) -> (flag: bool)
        ensures
            flag == bit_set(self.ecx(), 1),
    {
        bit_of(self.ecx, 1)
    }

    /// A debug store area with 64-bit layout.
    pub fn dtes64(self) -> (flag: bool)
        ensures
            flag == bit_set(self.ecx(), 2),
    {
        bit_of(self.ecx, 2)
    }

    /// The `MONITOR` and `MWAIT` instructions.
    pub fn monitor(self) -> (flag: bool)
        ensures
            flag == bit_set(self.ecx(), 3),
    {
        bit_of(self.ecx, 3)
    }

    /// A debug store qualified by privilege level.
    pub fn ds_cpl(self) -> (flag: bool)
        ensures
            flag == bit_set(self.ecx(), 4),
    {
        bit_of(self.ecx, 4)
    }

    /// Virtual machine extensions.
    pub fn vmx(self) -> (flag: bool)
        ensures
            flag == bit_set(self.ecx(), 5),
    {
        bit_of(self.ecx, 5)
    }

    /// Safer mode extensions.
    pub fn smx(self) -> (flag: bool)
        ensures
            flag == bit_set(self.ecx(), 6),
    {
        bit_of(self.ecx, 6)
    }

    /// Enhanced Intel SpeedStep technology.
    pub fn eist(self) -> (flag: bool)
        ensures
            flag == bit_set(self.ecx(), 7),
    {
        bit_of(self.ecx, 7)
    }

    /// Thermal monitor 2.
    pub fn tm2(self) -> (flag: bool)
        ensures
            flag == bit_set(self.ecx(), 8),
    {
        bit_of(self.ecx, 8)
    }

    /// Supplemental Streaming SIMD Extensions 3.
    pub fn ssse3(self) -> (flag: bool)
        ensures
            flag == bit_set(self.ecx(), 9),
    {
        bit_of(self.ecx, 9)
    }

    /// An L1 data cache mode that can be set to adaptive or shared.
    pub fn cnxt_id(self) -> (flag: bool)
        ensures
            flag == bit_set(self.ecx(), 10),
    {
        bit_of(self.ecx, 10)
    }

    /// The silicon debug interface register.
    pub fn sdbg(self) -> (flag: bool)
        ensures
            flag == bit_set(self.ecx(), 11),
    {
        bit_of(self.ecx, 11)
    }

    /// Fused multiply-add on the vector registers.
    pub fn fma(self) -> (flag: bool)
        ensures
            flag == bit_set(self.ecx(), 12),
    {
        bit_of(self.ecx, 12)
    }

    /// The `CMPXCHG16B` instruction.
    pub fn cmpxchg16b(self) -> (flag: bool)
        ensures
            flag == bit_set(self.ecx(), 13),
    {
        bit_of(self.ecx, 13)
    }

    /// Control over the sending of task priority messages.
    pub fn xtpr_update_control(self) -> (flag: bool)
        ensures
            flag == bit_set(self.ecx(), 14),
    {
        bit_of(self.ecx, 14)
    }

    /// The performance and debug capability register.
    pub fn pdcm(self) -> (flag: bool)
        ensures
            flag == bit_set(self.ecx(), 15),
    {
        bit_of(self.ecx, 15)
    }

    /// Process-context identifiers.
    pub fn pcid(self) -> (flag: bool)
        ensures
            flag == bit_set(self.ecx(), 17),
    {
        bit_of(self.ecx, 17)
    }

    /// Prefetching of data from a memory-mapped device.
    pub fn dca(self) -> (flag: bool)
        ensures
            flag == bit_set(self.ecx(), 18),
    {
        bit_of(self.ecx, 18)
    }

    /// Streaming SIMD Extensions 4.1.
    pub fn sse4_1(self) -> (flag: bool)
        ensures
            flag == bit_set(self.ecx(), 19),
    {
        bit_of(self.ecx, 19)
    }

    /// Streaming SIMD Extensions 4.2.
    pub fn sse4_2(self) -> (flag: bool)
        ensures
            flag == bit_set(self.ecx(), 20),
    {
        bit_of(self.ecx, 20)
    }

    /// The x2APIC interrupt controller.
    pub fn x2apic(self) -> (flag: bool)
        ensures
            flag == bit_set(self.ecx(), 21),
    {
        bit_of(self.ecx, 21)
    }

    /// The `MOVBE` instruction.
    pub fn movbe(self) -> (flag: bool)
        ensures
            flag == bit_set(self.ecx(), 22),
    {
        bit_of(self.ecx, 22)
    }

    /// The `POPCNT` instruction.
    pub fn popcnt(self) -> (flag: bool)
        ensures
            flag == bit_set(self.ecx(), 23),
    {
        bit_of(self.ecx, 23)
    }

    /// One-shot operation of the local APIC timer by a time stamp deadline.
    pub fn tsc_deadline(self) -> (flag: bool)
        ensures
            flag == bit_set(self.ecx(), 24),
    {
        bit_of(self.ecx, 24)
    }

    /// The AES instructions.
    pub fn aesni(self) -> (flag: bool)
        ensures
            flag == bit_set(self.ecx(), 25),
    {
        bit_of(self.ecx, 25)
    }

    /// The `XSAVE` family of instructions and the extended control registers.
    pub fn xsave(self) -> (flag: bool)
        ensures
            flag == bit_set(self.ecx(), 26),
    {
        bit_of(self.ecx, 26)
    }

    /// The operating system has switched `XSAVE` on.
    pub fn osxsave(self) -> (flag: bool)
        ensures
            flag == bit_set(self.ecx(), 27),
    {
        bit_of(self.ecx, 27)
    }

    /// Advanced Vector Extensions.
    pub fn avx(self) -> (flag: bool)
        ensures
            flag == bit_set(self.ecx(), 28),
    {
        bit_of(self.ecx, 28)
    }

    /// Conversion between half and single precision.
    pub fn f16c(self) -> (flag: bool)
        ensures
            flag == bit_set(self.ecx(), 29),
    {
        bit_of(self.ecx, 29)
    }

    /// The `RDRAND` instruction.
    pub fn rdrand(self) -> (flag: bool)
        ensures
            flag == bit_set(self.ecx(), 30),
    {
        bit_of(self.ecx, 30)
    }

    /// An x87 floating-point unit on the chip.
    pub fn fpu(self) -> (flag: bool)
        ensures
            flag == bit_set(self.edx(), 0),
    {
        bit_of(self.edx, 0)
    }

    /// Virtual-8086 mode enhancements.
    pub fn vme(self) -> (flag: bool)
        ensures
            flag == bit_set(self.edx(), 1),
    {
        bit_of(self.edx, 1)
    }

    /// Debugging extensions.
    pub fn de(self) -> (flag: bool)
        ensures
            flag == bit_set(self.edx(), 2),
    {
        bit_of(self.edx, 2)
    }

    /// Page size extension.
    pub fn pse(self) -> (flag: bool)
        ensures
            flag == bit_set(self.edx(), 3),
    {
        bit_of(self.edx, 3)
    }

    /// The time stamp counter.
    pub fn tsc(self) -> (flag: bool)
        ensures
            flag == bit_set(self.edx(), 4),
    {
        bit_of(self.edx, 4)
    }

    /// Model-specific registers with `RDMSR` and `WRMSR`.
    pub fn msr(self) -> (flag: bool)
        ensures
            flag == bit_set(self.edx(), 5),
    {
        bit_of(self.edx, 5)
    }

    /// Physical address extension.
    pub fn pae(self) -> (flag: bool)
        ensures
            flag == bit_set(self.edx(), 6),
    {
        bit_of(self.edx, 6)
    }

    /// The machine check exception.
    pub fn mce(self) -> (flag: bool)
        ensures
            flag == bit_set(self.edx(), 7),
    {
        bit_of(self.edx, 7)
    }

    /// The `CMPXCHG8B` instruction.
    pub fn cx8(self) -> (flag: bool)
        ensures
            flag == bit_set(self.edx(), 8),
    {
        bit_of(self.edx, 8)
    }

    /// A local APIC on the chip.
    pub fn apic(self) -> (flag: bool)
        ensures
            flag == bit_set(self.edx(), 9),
    {
        bit_of(self.edx, 9)
    }

    /// The `SYSENTER` and `SYSEXIT` instructions.
    pub fn sep(self) -> (flag: bool)
        ensures
            flag == bit_set(self.edx(), 11),
    {
        bit_of(self.edx, 11)
    }

    /// Memory type range registers.
    pub fn mtrr(self) -> (flag: bool)
        ensures
            flag == bit_set(self.edx(), 12),
    {
        bit_of(self.edx, 12)
    }

    /// The global bit in page table entries.
    pub fn pge(self) -> (flag: bool)
        ensures
            flag == bit_set(self.edx(), 13),
    {
        bit_of(self.edx, 13)
    }

    /// The machine check architecture.
    pub fn mca(self) -> (flag: bool)
        ensures
            flag == bit_set(self.edx(), 14),
    {
        bit_of(self.edx, 14)
    }

    /// The conditional move instructions.
    pub fn cmov(self) -> (flag: bool)
        ensures
            flag == bit_set(self.edx(), 15),
    {
        bit_of(self.edx, 15)
    }

    /// The page attribute table.
    pub fn pat(self) -> (flag: bool)
        ensures
            flag == bit_set(self.edx(), 16),
    {
        bit_of(self.edx, 16)
    }

    /// Page size extension with 36-bit addresses.
    pub fn pse_36(self) -> (flag: bool)
        ensures
            flag == bit_set(self.edx(), 17),
    {
        bit_of(self.edx, 17)
    }

    /// The processor serial number.
    pub fn psn(self) -> (flag: bool)
        ensures
            flag == bit_set(self.edx(), 18),
    {
        bit_of(self.edx, 18)
    }

    /// The `CLFLUSH` instruction.
    pub fn clfsh(self) -> (flag: bool)
        ensures
            flag == bit_set(self.edx(), 19),
    {
        bit_of(self.edx, 19)
    }

    /// The debug store.
    pub fn ds(self) -> (flag: bool)
        ensures
            flag == bit_set(self.edx(), 21),
    {
        bit_of(self.edx, 21)
    }

    /// Thermal monitoring and clock control by software.
    pub fn acpi(self) -> (flag: bool)
        ensures
            flag == bit_set(self.edx(), 22),
    {
        bit_of(self.edx, 22)
    }

    /// The MMX instructions.
    pub fn mmx(self) -> (flag: bool)
        ensures
            flag == bit_set(self.edx(), 23),
    {
        bit_of(self.edx, 23)
    }

    /// The `FXSAVE` and `FXRSTOR` instructions.
    pub fn fxsr(self) -> (flag: bool)
        ensures
            flag == bit_set(self.edx(), 24),
    {
        bit_of(self.edx, 24)
    }

    /// Streaming SIMD Extensions.
    pub fn sse(self) -> (flag: bool)
        ensures
            flag == bit_set(self.edx(), 25),
    {
        bit_of(self.edx, 25)
    }

    /// Streaming SIMD Extensions 2.
    pub fn sse2(self) -> (flag: bool)
        ensures
            flag == bit_set(self.edx(), 26),
    {
        bit_of(self.edx, 26)
    }

    /// Self snoop.
    pub fn ss(self) -> (flag: bool)
        ensures
            flag == bit_set(self.edx(), 27),
    {
        bit_of(self.edx, 27)
    }

    /// More than one logical processor may share the package.
    pub fn htt(self) -> (flag: bool)
        ensures
            flag == bit_set(self.edx(), 28),
    {
        bit_of(self.edx, 28)
    }

    /// The thermal monitor.
    pub fn tm(self) -> (flag: bool)
        ensures
            flag == bit_set(self.edx(), 29),
    {
        bit_of(self.edx, 29)
    }

    /// Pending break enable.
    pub fn pbe(self) -> (flag: bool)
        ensures
            flag == bit_set(self.edx(), 31),
    {
        bit_of(self.edx, 31)
    }

    /// The lines of the `ecx` word.
    fn render_ecx(&self) -> (text: String)
        ensures
            text@ == render_fields(Self::ecx_layout(), self.ecx()),
    {
        let mut writer = LineWriter::new(Ghost(Self::ecx_layout()), Ghost(self.ecx()));
        writer.flag("sse3", self.sse3());
        writer.flag("pclmulqdq", self.pclmulqdq());
        writer.flag("dtes64", self.dtes64());
        writer.flag("monitor", self.monitor());
        writer.flag("ds_cpl", self.ds_cpl());
        writer.flag("vmx", self.vmx());
        writer.flag("smx", self.smx());
        writer.flag("eist", self.eist());
        writer.flag("tm2", self.tm2());
        writer.flag("ssse3", self.ssse3());
        writer.flag("cnxt_id", self.cnxt_id());
        writer.flag("sdbg", self.sdbg());
        writer.flag("fma", self.fma());
        writer.flag("cmpxchg16b", self.cmpxchg16b());
        writer.flag("xtpr_update_control", self.xtpr_update_control());
        writer.flag("pdcm", self.pdcm());
        writer.flag("pcid", self.pcid());
        writer.flag("dca", self.dca());
        writer.flag("sse4_1", self.sse4_1());
        writer.flag("sse4_2", self.sse4_2());
        writer.flag("x2apic", self.x2apic());
        writer.flag("movbe", self.movbe());
        writer.flag("popcnt", self.popcnt());
        writer.flag("tsc_deadline", self.tsc_deadline());
        writer.flag("aesni", self.aesni());
        writer.flag("xsave", self.xsave());
        writer.flag("osxsave", self.osxsave());
        writer.flag("avx", self.avx());
        writer.flag("f16c", self.f16c());
        writer.flag("rdrand", self.rdrand());
        writer.finish()
    }

    /// The lines of the `edx` word.
    fn render_edx(&self) -> (text: String)
        ensures
            text@ == render_fields(Self::edx_layout(), self.edx()),
    {
        let mut writer = LineWriter::new(Ghost(Self::edx_layout()), Ghost(self.edx()));
        writer.flag("fpu", self.fpu());
        writer.flag("vme", self.vme());
        writer.flag("de", self.de());
        writer.flag("pse", self.pse());
        writer.flag("tsc", self.tsc());
        writer.flag("msr", self.msr());
        writer.flag("pae", self.pae());
        writer.flag("mce", self.mce());
        writer.flag("cx8", self.cx8());
        writer.flag("apic", self.apic());
        writer.flag("sep", self.sep());
        writer.flag("mtrr", self.mtrr());
        writer.flag("pge", self.pge());
        writer.flag("mca", self.mca());
        writer.flag("cmov", self.cmov());
        writer.flag("pat", self.pat());
        writer.flag("pse_36", self.pse_36());
        writer.flag("psn", self.psn());
        writer.flag("clfsh", self.clfsh());
        writer.flag("ds", self.ds());
        writer.flag("acpi", self.acpi());
        writer.flag("mmx", self.mmx());
        writer.flag("fxsr", self.fxsr());
        writer.flag("sse", self.sse());
        writer.flag("sse2", self.sse2());
        writer.flag("ss", self.ss());
        writer.flag("htt", self.htt());
        writer.flag("tm", self.tm());
        writer.flag("pbe", self.pbe());
        writer.finish()
    }

    /// Renders every flag as a line `name: value`, first those of `ecx`, then
    /// those of `edx`, each in the order of its table.
    pub fn render(&self) -> (text: String)
        ensures
            text@ == self.text(),
    {
        let mut text = self.render_ecx();
        text.append(self.render_edx().as_str());
        text
    }
}

/// Asks the processor for its feature flags. The flags are the processor's
/// own answer, so no clause binds them.
pub fn feature_information() -> FeatureInformation {
    FeatureInformation::from_registers(cpuid(RequestType::VersionInformation))
}

/// The tables of the feature flags are well formed, their names hold no line
/// end, and no name stands twice in a rendering.
pub proof fn lemma_feature_layout()
    ensures
        well_formed(FeatureInformation::ecx_layout()),
        well_formed(FeatureInformation::edx_layout()),
        plain_names(FeatureInformation::ecx_layout()),
        plain_names(FeatureInformation::edx_layout()),
        distinct_names(FeatureInformation::ecx_layout() + FeatureInformation::edx_layout()),
{
    reveal_strlit("sse3");
    assert("sse3"@ =~= seq!['s', 's', 'e', '3']);
    reveal_strlit("pclmulqdq");
    assert("pclmulqdq"@ =~= seq!['p', 'c', 'l', 'm', 'u', 'l', 'q', 'd', 'q']);
    reveal_strlit("dtes64");
    assert("dtes64"@ =~= seq!['d', 't', 'e', 's', '6', '4']);
    reveal_strlit("monitor");
    assert("monitor"@ =~= seq!['m', 'o', 'n', 'i', 't', 'o', 'r']);
    reveal_strlit("ds_cpl");
    assert("ds_cpl"@ =~= seq!['d', 's', '_', 'c', 'p', 'l']);
    reveal_strlit("vmx");
    assert("vmx"@ =~= seq!['v', 'm', 'x']);
    reveal_strlit("smx");
    assert("smx"@ =~= seq!['s', 'm', 'x']);
    reveal_strlit("eist");
    assert("eist"@ =~= seq!['e', 'i', 's', 't']);
    reveal_strlit("tm2");
    assert("tm2"@ =~= seq!['t', 'm', '2']);
    reveal_strlit("ssse3");
    assert("ssse3"@ =~= seq!['s', 's', 's', 'e', '3']);
    reveal_strlit("cnxt_id");
    assert("cnxt_id"@ =~= seq!['c', 'n', 'x', 't', '_', 'i', 'd']);
    reveal_strlit("sdbg");
    assert("sdbg"@ =~= seq!['s', 'd', 'b', 'g']);
    reveal_strlit("fma");
    assert("fma"@ =~= seq!['f', 'm', 'a']);
    reveal_strlit("cmpxchg16b");
    assert("cmpxchg16b"@ =~= seq!['c', 'm', 'p', 'x', 'c', 'h', 'g', '1', '6', 'b']);
    reveal_strlit("xtpr_update_control");
    assert("xtpr_update_control"@ =~= seq![
        'x', 't', 'p', 'r', '_', 'u', 'p', 'd', 'a', 't', 'e', '_', 'c', 'o', 'n', 't', 'r',
        'o', 'l',
    ]);
    reveal_strlit("pdcm");
    assert("pdcm"@ =~= seq!['p', 'd', 'c', 'm']);
    reveal_strlit("pcid");
    assert("pcid"@ =~= seq!['p', 'c', 'i', 'd']);
    reveal_strlit("dca");
    assert("dca"@ =~= seq!['d', 'c', 'a']);
    reveal_strlit("sse4_1");
    assert("sse4_1"@ =~= seq!['s', 's', 'e', '4', '_', '1']);
    reveal_strlit("sse4_2");
    assert("sse4_2"@ =~= seq!['s', 's', 'e', '4', '_', '2']);
    reveal_strlit("x2apic");
    assert("x2apic"@ =~= seq!['x', '2', 'a', 'p', 'i', 'c']);
    reveal_strlit("movbe");
    assert("movbe"@ =~= seq!['m', 'o', 'v', 'b', 'e']);
    reveal_strlit("popcnt");
    assert("popcnt"@ =~= seq!['p', 'o', 'p', 'c', 'n', 't']);
    reveal_strlit("tsc_deadline");
    assert("tsc_deadline"@ =~= seq!['t', 's', 'c', '_', 'd', 'e', 'a', 'd', 'l', 'i', 'n', 'e']);
    reveal_strlit("aesni");
    assert("aesni"@ =~= seq!['a', 'e', 's', 'n', 'i']);
    reveal_strlit("xsave");
    assert("xsave"@ =~= seq!['x', 's', 'a', 'v', 'e']);
    reveal_strlit("osxsave");
    assert("osxsave"@ =~= seq!['o', 's', 'x', 's', 'a', 'v', 'e']);
    reveal_strlit("avx");
    assert("avx"@ =~= seq!['a', 'v', 'x']);
    reveal_strlit("f16c");
    assert("f16c"@ =~= seq!['f', '1', '6', 'c']);
    reveal_strlit("rdrand");
    assert("rdrand"@ =~= seq!['r', 'd', 'r', 'a', 'n', 'd']);
    reveal_strlit("fpu");
    assert("fpu"@ =~= seq!['f', 'p', 'u']);
    reveal_strlit("vme");
    assert("vme"@ =~= seq!['v', 'm', 'e']);
    reveal_strlit("de");
    assert("de"@ =~= seq!['d', 'e']);
    reveal_strlit("pse");
    assert("pse"@ =~= seq!['p', 's', 'e']);
    reveal_strlit("tsc");
    assert("tsc"@ =~= seq!['t', 's', 'c']);
    reveal_strlit("msr");
    assert("msr"@ =~= seq!['m', 's', 'r']);
    reveal_strlit("pae");
    assert("pae"@ =~= seq!['p', 'a', 'e']);
    reveal_strlit("mce");
    assert("mce"@ =~= seq!['m', 'c', 'e']);
    reveal_strlit("cx8");
    assert("cx8"@ =~= seq!['c', 'x', '8']);
    reveal_strlit("apic");
    assert("apic"@ =~= seq!['a', 'p', 'i', 'c']);
    reveal_strlit("sep");
    assert("sep"@ =~= seq!['s', 'e', 'p']);
    reveal_strlit("mtrr");
    assert("mtrr"@ =~= seq!['m', 't', 'r', 'r']);
    reveal_strlit("pge");
    assert("pge"@ =~= seq!['p', 'g', 'e']);
    reveal_strlit("mca");
    assert("mca"@ =~= seq!['m', 'c', 'a']);
    reveal_strlit("cmov");
    assert("cmov"@ =~= seq!['c', 'm', 'o', 'v']);
    reveal_strlit("pat");
    assert("pat"@ =~= seq!['p', 'a', 't']);
    reveal_strlit("pse_36");
    assert("pse_36"@ =~= seq!['p', 's', 'e', '_', '3', '6']);
    reveal_strlit("psn");
    assert("psn"@ =~= seq!['p', 's', 'n']);
    reveal_strlit("clfsh");
    assert("clfsh"@ =~= seq!['c', 'l', 'f', 's', 'h']);
    reveal_strlit("ds");
    assert("ds"@ =~= seq!['d', 's']);
    reveal_strlit("acpi");
    assert("acpi"@ =~= seq!['a', 'c', 'p', 'i']);
    reveal_strlit("mmx");
    assert("mmx"@ =~= seq!['m', 'm', 'x']);
    reveal_strlit("fxsr");
    assert("fxsr"@ =~= seq!['f', 'x', 's', 'r']);
    reveal_strlit("sse");
    assert("sse"@ =~= seq!['s', 's', 'e']);
    reveal_strlit("sse2");
    assert("sse2"@ =~= seq!['s', 's', 'e', '2']);
    reveal_strlit("ss");
    assert("ss"@ =~= seq!['s', 's']);
    reveal_strlit("htt");
    assert("htt"@ =~= seq!['h', 't', 't']);
    reveal_strlit("tm");
    assert("tm"@ =~= seq!['t', 'm']);
    reveal_strlit("pbe");
    assert("pbe"@ =~= seq!['p', 'b', 'e']);
}

} // verus!

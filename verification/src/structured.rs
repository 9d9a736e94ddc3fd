//! The feature flags of the structured extended leaf.

use crate::bits::{bit_of, bit_set};
use crate::layout::{
    distinct_names, flag, plain_names, render_fields, well_formed, Field, LineWriter,
};
use crate::query::{cpuid, Registers, RequestType};
use vstd::prelude::*;

verus! {

/// Exposes the structured extended feature flags of the processor.
#[derive(Copy, Clone)]
pub struct StructuredExtendedInformation {
    ebx: u32,
    ecx: u32,
}

impl StructuredExtendedInformation {
    /// The captured `ebx` word.
    pub closed spec fn ebx(self) -> u32 {
        self.ebx
    }

    /// The captured `ecx` word.
    pub closed spec fn ecx(self) -> u32 {
        self.ecx
    }

    /// The named bits of the `ebx` word, lowest first. Bits 2, 6, 14, 16, 17,
    /// 21 to 24 and those above 25 carry no name.
    pub open spec fn ebx_layout() -> Seq<Field> {
        seq![
            flag("fsgsbase"@, 0),
            flag("ia32_tsc_adjust_msr"@, 1),
            flag("bmi1"@, 3),
            flag("hle"@, 4),
            flag("avx2"@, 5),
            flag("smep"@, 7),
            flag("bmi2"@, 8),
            flag("enhanced_rep_movsb_stosb"@, 9),
            flag("invpcid"@, 10),
            flag("rtm"@, 11),
            flag("pqm"@, 12),
            flag("deprecates_fpu_cs_ds"@, 13),
            flag("pqe"@, 15),
            flag("rdseed"@, 18),
            flag("adx"@, 19),
            flag("smap"@, 20),
            flag("intel_processor_trace"@, 25),
        ]
    }

    /// The named bits of the `ecx` word: bit 0 alone carries a name.
    pub open spec fn ecx_layout() -> Seq<Field> {
        seq![
            flag("prefetchwt1"@, 0),
        ]
    }

    /// The rendering of the descriptor: the lines of `ebx`, then those of
    /// `ecx`.
    pub open spec fn text(self) -> Seq<char> {
        render_fields(Self::ebx_layout(), self.ebx())
            + render_fields(Self::ecx_layout(), self.ecx())
    }

    /// Keeps the `ebx` and `ecx` words of an answer to the structured extended
    /// leaf.
    pub fn from_registers(found: Registers) -> (info: Self)
        ensures
            info.ebx() == found.ebx,
            info.ecx() == found.ecx,
    {
        StructuredExtendedInformation { ebx: found.ebx, ecx: found.ecx }
    }

    /// Instructions that read and write the `FS` and `GS` base addresses.
    pub fn fsgsbase(self) -> (flag: bool)
        ensures
            flag == bit_set(self.ebx(), 0),
    {
        bit_of(self.ebx, 0)
    }

    /// The register that adjusts the time stamp counter.
    pub fn ia32_tsc_adjust_msr(self) -> (flag: bool)
        ensures
            flag == bit_set(self.ebx(), 1),
    {
        bit_of(self.ebx, 1)
    }

    /// Bit manipulation instructions, first group.
    pub fn bmi1(self) -> (flag: bool)
        ensures
            flag == bit_set(self.ebx(), 3),
    {
        bit_of(self.ebx, 3)
    }

    /// Hardware lock elision.
    pub fn hle(self) -> (flag: bool)
        ensures
            flag == bit_set(self.ebx(), 4),
    {
        bit_of(self.ebx, 4)
    }

    /// Advanced Vector Extensions 2.
    pub fn avx2(self) -> (flag: bool)
        ensures
            flag == bit_set(self.ebx(), 5),
    {
        bit_of(self.ebx, 5)
    }

    /// Supervisor mode execution prevention.
    pub fn smep(self) -> (flag: bool)
        ensures
            flag == bit_set(self.ebx(), 7),
    {
        bit_of(self.ebx, 7)
    }

    /// Bit manipulation instructions, second group.
    pub fn bmi2(self) -> (flag: bool)
        ensures
            flag == bit_set(self.ebx(), 8),
    {
        bit_of(self.ebx, 8)
    }

    /// Fast string moves and stores with `REP MOVSB` and `REP STOSB`.
    pub fn enhanced_rep_movsb_stosb(self) -> (flag: bool)
        ensures
            flag == bit_set(self.ebx(), 9),
    {
        bit_of(self.ebx, 9)
    }

    /// The `INVPCID` instruction.
    pub fn invpcid(self) -> (flag: bool)
        ensures
            flag == bit_set(self.ebx(), 10),
    {
        bit_of(self.ebx, 10)
    }

    /// Restricted transactional memory.
    pub fn rtm(self) -> (flag: bool)
        ensures
            flag == bit_set(self.ebx(), 11),
    {
        bit_of(self.ebx, 11)
    }

    /// Monitoring of the platform quality of service.
    pub fn pqm(self) -> (flag: bool)
        ensures
            flag == bit_set(self.ebx(), 12),
    {
        bit_of(self.ebx, 12)
    }

    /// The floating-point unit no longer records its code and data segments.
    pub fn deprecates_fpu_cs_ds(self) -> (flag: bool)
        ensures
            flag == bit_set(self.ebx(), 13),
    {
        bit_of(self.ebx, 13)
    }

    /// Enforcement of the platform quality of service.
    pub fn pqe(self) -> (flag: bool)
        ensures
            flag == bit_set(self.ebx(), 15),
    {
        bit_of(self.ebx, 15)
    }

    /// The `RDSEED` instruction.
    pub fn rdseed(self) -> (flag: bool)
        ensures
            flag == bit_set(self.ebx(), 18),
    {
        bit_of(self.ebx, 18)
    }

    /// The multi-precision add-carry instructions `ADCX` and `ADOX`.
    pub fn adx(self) -> (flag: bool)
        ensures
            flag == bit_set(self.ebx(), 19),
    {
        bit_of(self.ebx, 19)
    }

    /// Supervisor mode access prevention.
    pub fn smap(self) -> (flag: bool)
        ensures
            flag == bit_set(self.ebx(), 20),
    {
        bit_of(self.ebx, 20)
    }

    /// Intel Processor Trace.
    pub fn intel_processor_trace(self) -> (flag: bool)
        ensures
            flag == bit_set(self.ebx(), 25),
    {
        bit_of(self.ebx, 25)
    }

    /// The `PREFETCHWT1` instruction.
    pub fn prefetchwt1(self) -> (flag: bool)
        ensures
            flag == bit_set(self.ecx(), 0),
    {
        bit_of(self.ecx, 0)
    }

    /// The lines of the `ebx` word.
    fn render_ebx(&self) -> (text: String)
        ensures
            text@ == render_fields(Self::ebx_layout(), self.ebx()),
    {
        let mut writer = LineWriter::new(Ghost(Self::ebx_layout()), Ghost(self.ebx()));
        writer.flag("fsgsbase", self.fsgsbase());
        writer.flag("ia32_tsc_adjust_msr", self.ia32_tsc_adjust_msr());
        writer.flag("bmi1", self.bmi1());
        writer.flag("hle", self.hle());
        writer.flag("avx2", self.avx2());
        writer.flag("smep", self.smep());
        writer.flag("bmi2", self.bmi2());
        writer.flag("enhanced_rep_movsb_stosb", self.enhanced_rep_movsb_stosb());
        writer.flag("invpcid", self.invpcid());
        writer.flag("rtm", self.rtm());
        writer.flag("pqm", self.pqm());
        writer.flag("deprecates_fpu_cs_ds", self.deprecates_fpu_cs_ds());
        writer.flag("pqe", self.pqe());
        writer.flag("rdseed", self.rdseed());
        writer.flag("adx", self.adx());
        writer.flag("smap", self.smap());
        writer.flag("intel_processor_trace", self.intel_processor_trace());
        writer.finish()
    }

    /// The lines of the `ecx` word.
    fn render_ecx(&self) -> (text: String)
        ensures
            text@ == render_fields(Self::ecx_layout(), self.ecx()),
    {
        let mut writer = LineWriter::new(Ghost(Self::ecx_layout()), Ghost(self.ecx()));
        writer.flag("prefetchwt1", self.prefetchwt1());
        writer.finish()
    }

    /// Renders every flag as a line `name: value`, first those of `ebx`, then
    /// that of `ecx`, each in the order of its table.
    pub fn render(&self) -> (text: String)
        ensures
            text@ == self.text(),
    {
        let mut text = self.render_ebx();
        text.append(self.render_ecx().as_str());
        text
    }
}

/// Asks the processor for its structured extended feature flags. The flags
/// are the processor's own answer, so no clause binds them.
pub fn structured_extended_information() -> StructuredExtendedInformation {
    StructuredExtendedInformation::from_registers(cpuid(RequestType::StructuredExtendedInformation))
}

/// The tables of the structured extended flags are well formed, their names
/// hold no line end, and no name stands twice in a rendering.
pub proof fn lemma_structured_layout()
    ensures
        well_formed(StructuredExtendedInformation::ebx_layout()),
        well_formed(StructuredExtendedInformation::ecx_layout()),
        plain_names(StructuredExtendedInformation::ebx_layout()),
        plain_names(StructuredExtendedInformation::ecx_layout()),
        distinct_names(
            StructuredExtendedInformation::ebx_layout()
                + StructuredExtendedInformation::ecx_layout(),
        ),
{
    reveal_strlit("fsgsbase");
    assert("fsgsbase"@ =~= seq!['f', 's', 'g', 's', 'b', 'a', 's', 'e']);
    reveal_strlit("ia32_tsc_adjust_msr");
    assert("ia32_tsc_adjust_msr"@ =~= seq![
        'i', 'a', '3', '2', '_', 't', 's', 'c', '_', 'a', 'd', 'j', 'u', 's', 't', '_', 'm',
        's', 'r',
    ]);
    reveal_strlit("bmi1");
    assert("bmi1"@ =~= seq!['b', 'm', 'i', '1']);
    reveal_strlit("hle");
    assert("hle"@ =~= seq!['h', 'l', 'e']);
    reveal_strlit("avx2");
    assert("avx2"@ =~= seq!['a', 'v', 'x', '2']);
    reveal_strlit("smep");
    assert("smep"@ =~= seq!['s', 'm', 'e', 'p']);
    reveal_strlit("bmi2");
    assert("bmi2"@ =~= seq!['b', 'm', 'i', '2']);
    reveal_strlit("enhanced_rep_movsb_stosb");
    assert("enhanced_rep_movsb_stosb"@ =~= seq![
        'e', 'n', 'h', 'a', 'n', 'c', 'e', 'd', '_', 'r', 'e', 'p', '_', 'm', 'o', 'v', 's',
        'b', '_', 's', 't', 'o', 's', 'b',
    ]);
    reveal_strlit("invpcid");
    assert("invpcid"@ =~= seq!['i', 'n', 'v', 'p', 'c', 'i', 'd']);
    reveal_strlit("rtm");
    assert("rtm"@ =~= seq!['r', 't', 'm']);
    reveal_strlit("pqm");
    assert("pqm"@ =~= seq!['p', 'q', 'm']);
    reveal_strlit("deprecates_fpu_cs_ds");
    assert("deprecates_fpu_cs_ds"@ =~= seq![
        'd', 'e', 'p', 'r', 'e', 'c', 'a', 't', 'e', 's', '_', 'f', 'p', 'u', '_', 'c', 's',
        '_', 'd', 's',
    ]);
    reveal_strlit("pqe");
    assert("pqe"@ =~= seq!['p', 'q', 'e']);
    reveal_strlit("rdseed");
    assert("rdseed"@ =~= seq!['r', 'd', 's', 'e', 'e', 'd']);
    reveal_strlit("adx");
    assert("adx"@ =~= seq!['a', 'd', 'x']);
    reveal_strlit("smap");
    assert("smap"@ =~= seq!['s', 'm', 'a', 'p']);
    reveal_strlit("intel_processor_trace");
    assert("intel_processor_trace"@ =~= seq![
        'i', 'n', 't', 'e', 'l', '_', 'p', 'r', 'o', 'c', 'e', 's', 's', 'o', 'r', '_', 't',
        'r', 'a', 'c', 'e',
    ]);
    reveal_strlit("prefetchwt1");
    assert("prefetchwt1"@ =~= seq!['p', 'r', 'e', 'f', 'e', 't', 'c', 'h', 'w', 't', '1']);
}

} // verus!

//! The address widths of the address size leaf.

use crate::bits::{bit_range, bits_of, lemma_bit_range_below, lemma_bit_range_is_div_mod};
use crate::layout::{
    distinct_names, number, plain_names, render_fields, well_formed, Field, LineWriter,
};
use crate::query::{cpuid, Registers, RequestType};
use vstd::arithmetic::power2::lemma2_to64;
use vstd::prelude::*;

verus! {

/// Exposes the widths of the addresses that the processor handles.
#[derive(Copy, Clone)]
pub struct PhysicalAddressSize(u32);

impl PhysicalAddressSize {
    /// The captured `eax` word.
    pub closed spec fn eax(self) -> u32 {
        self.0
    }

    /// The named bits of the `eax` word, lowest first: two numbers of eight
    /// bits each. The upper half carries no name.
    pub open spec fn eax_layout() -> Seq<Field> {
        seq![
            number("physical_address_bits"@, 0, 7),
            number("linear_address_bits"@, 8, 15),
        ]
    }

    /// The rendering of the descriptor: the lines of `eax`.
    pub open spec fn text(self) -> Seq<char> {
        render_fields(Self::eax_layout(), self.eax())
    }

    /// Keeps the `eax` word of an answer to the address size leaf.
    pub fn from_registers(found: Registers) -> (info: Self)
        ensures
            info.eax() == found.eax,
    {
        PhysicalAddressSize(found.eax)
    }

    /// The number of bits in a physical address.
    pub fn physical_address_bits(self) -> (bits: u32)
        ensures
            bits == bit_range(self.eax(), 0, 7),
            bits < 256,
    {
        proof {
            lemma_bit_range_below(self.eax(), 0, 7);
            lemma2_to64();
        }
        bits_of(self.0, 0, 7)
    }

    /// The number of bits in a linear address.
    pub fn linear_address_bits(self) -> (bits: u32)
        ensures
            bits == bit_range(self.eax(), 8, 15),
            bits < 256,
    {
        proof {
            lemma_bit_range_below(self.eax(), 8, 15);
            lemma2_to64();
        }
        bits_of(self.0, 8, 15)
    }

    /// Renders both widths as lines `name: value`, in the order of the table.
    pub fn render(&self) -> (text: String)
        ensures
            text@ == self.text(),
    {
        let mut writer = LineWriter::new(Ghost(Self::eax_layout()), Ghost(self.eax()));
        writer.number("physical_address_bits", self.physical_address_bits());
        writer.number("linear_address_bits", self.linear_address_bits());
        writer.finish()
    }
}

/// Asks the processor for the widths of its addresses. The widths are the
/// processor's own answer, so no clause binds them.
pub fn physical_address_size() -> PhysicalAddressSize {
    PhysicalAddressSize::from_registers(cpuid(RequestType::PhysicalAddressSize))
}

/// The table of the address widths is well formed, so the two widths share no
/// bit; its names hold no line end, and no name stands twice in a rendering.
pub proof fn lemma_address_layout()
    ensures
        well_formed(PhysicalAddressSize::eax_layout()),
        plain_names(PhysicalAddressSize::eax_layout()),
        distinct_names(PhysicalAddressSize::eax_layout()),
{
    reveal_strlit("physical_address_bits");
    assert("physical_address_bits"@ =~= seq![
        'p', 'h', 'y', 's', 'i', 'c', 'a', 'l', '_', 'a', 'd', 'd', 'r', 'e', 's', 's', '_',
        'b', 'i', 't', 's',
    ]);
    reveal_strlit("linear_address_bits");
    assert("linear_address_bits"@ =~= seq![
        'l', 'i', 'n', 'e', 'a', 'r', '_', 'a', 'd', 'd', 'r', 'e', 's', 's', '_', 'b', 'i',
        't', 's',
    ]);
}

/// The two widths are the two low bytes of the word: together they make up
/// its low sixteen bits, and neither reads a bit of the other.
pub proof fn lemma_address_widths(word: u32)
    ensures
        bit_range(word, 0, 7) == word % 0x100,
        bit_range(word, 8, 15) == (word / 0x100) % 0x100,
        bit_range(word, 0, 7) + 0x100 * bit_range(word, 8, 15) == word % 0x1_0000,
{
    lemma_bit_range_is_div_mod(word, 0, 7);
    lemma_bit_range_is_div_mod(word, 8, 15);
    lemma2_to64();
}

} // verus!

//! Bit-layout tables of a register word, and their rendering as text.
//!
//! A table lists the named fields of one word in ascending bit order. Its
//! rendering is one line per field, `name: value`, in the order of the table.

use crate::bits::{bit_range, bit_set};
use vstd::prelude::*;

verus! {

/// How a field's bits are shown.
pub enum FieldKind {
    /// A single bit, shown as `true` or `false`.
    Flag,
    /// A range of bits, shown as a decimal numeral.
    Number,
}

/// One row of a layout table: the bits `start_bit..=end_bit` under a name.
pub ghost struct Field {
    pub name: Seq<char>,
    pub start_bit: u8,
    pub end_bit: u8,
    pub kind: FieldKind,
}

/// The row of the flag `name` at bit `idx`.
pub open spec fn flag(name: Seq<char>, idx: u8) -> Field {
    Field { name, start_bit: idx, end_bit: idx, kind: FieldKind::Flag }
}

/// The row of the number `name` in the bits `start_bit..=end_bit`.
pub open spec fn number(name: Seq<char>, start_bit: u8, end_bit: u8) -> Field {
    Field { name, start_bit, end_bit, kind: FieldKind::Number }
}

/// The text of a flag.
pub open spec fn bool_text(value: bool) -> Seq<char> {
    if value {
        "true"@
    } else {
        "false"@
    }
}

/// The numeral of one decimal digit.
pub open spec fn digit_text(digit: nat) -> Seq<char> {
    if digit == 0 {
        "0"@
    } else if digit == 1 {
        "1"@
    } else if digit == 2 {
        "2"@
    } else if digit == 3 {
        "3"@
    } else if digit == 4 {
        "4"@
    } else if digit == 5 {
        "5"@
    } else if digit == 6 {
        "6"@
    } else if digit == 7 {
        "7"@
    } else if digit == 8 {
        "8"@
    } else {
        "9"@
    }
}

/// The decimal numeral of `value`, without leading zeros.
pub open spec fn decimal_text(value: nat) -> Seq<char>
    decreases value,
{
    if value < 10 {
        digit_text(value)
    } else {
        decimal_text(value / 10) + digit_text(value % 10)
    }
}

impl Field {
    /// The text of this field's value in `word`.
    pub open spec fn value_text(self, word: u32) -> Seq<char> {
        match self.kind {
            FieldKind::Flag => bool_text(bit_set(word, self.start_bit)),
            FieldKind::Number => decimal_text(
                bit_range(word, self.start_bit, self.end_bit) as nat,
            ),
        }
    }

    /// The line that shows this field of `word`: name, colon, space, value,
    /// newline.
    pub open spec fn line(self, word: u32) -> Seq<char> {
        self.name + ": "@ + self.value_text(word) + "\n"@
    }
}

/// The lines of `word` under `layout`, one per row, in the table's order.
pub open spec fn lines(layout: Seq<Field>, word: u32) -> Seq<Seq<char>> {
    Seq::new(layout.len(), |row: int| layout[row].line(word))
}

/// The text of `word` under `layout`: its lines, one after the other.
pub open spec fn render_fields(layout: Seq<Field>, word: u32) -> Seq<char> {
    lines(layout, word).flatten()
}

/// Whether `layout` is a table: every row holds a valid range, a flag holds a
/// single bit, and each row lies wholly above the one before it.
pub open spec fn well_formed(layout: Seq<Field>) -> bool {
    &&& forall|row: int|
        0 <= row < layout.len() ==> {
            &&& (#[trigger] layout[row]).start_bit <= layout[row].end_bit <= 31
            &&& layout[row].kind is Flag ==> layout[row].start_bit == layout[row].end_bit
        }
    &&& forall|row: int|
        0 < row < layout.len() ==> layout[row - 1].end_bit < (#[trigger] layout[row]).start_bit
}

/// Whether no name occurs twice in `layout`.
pub open spec fn distinct_names(layout: Seq<Field>) -> bool {
    forall|first: int, second: int|
        0 <= first < second < layout.len() ==> (#[trigger] layout[first]).name != (
        #[trigger] layout[second]).name
}

/// Whether no name in `layout` holds a line end.
pub open spec fn plain_names(layout: Seq<Field>) -> bool {
    forall|row: int, at: int|
        0 <= row < layout.len() && 0 <= at < layout[row].name.len()
            ==> #[trigger] layout[row].name[at] != '\n'
}

/// Whether `line` is one line: it ends in a line end and holds no other.
pub open spec fn single_line(line: Seq<char>) -> bool {
    &&& line.len() > 0
    &&& line.last() == '\n'
    &&& forall|at: int| 0 <= at < line.len() - 1 ==> line[at] != '\n'
}

/// The numeral of the digit `digit`.
fn digit_str(digit: u32) -> (text: &'static str)
    requires
        digit < 10,
    ensures
        text@ == digit_text(digit as nat),
{
    match digit {
        0 => "0",
        1 => "1",
        2 => "2",
        3 => "3",
        4 => "4",
        5 => "5",
        6 => "6",
        7 => "7",
        8 => "8",
        _ => "9",
    }
}

/// Appends the decimal numeral of `value` to `out`.
pub fn push_decimal(out: &mut String, value: u32)
    ensures
        final(out)@ == old(out)@ + decimal_text(value as nat),
    decreases value,
{
    if value >= 10 {
        push_decimal(out, value / 10);
    }
    out.append(digit_str(value % 10));
    assert(out@ =~= old(out)@ + decimal_text(value as nat));
}

/// Appends the text of `value` to `out`.
pub fn push_bool(out: &mut String, value: bool)
    ensures
        final(out)@ == old(out)@ + bool_text(value),
{
    if value {
        out.append("true");
    } else {
        out.append("false");
    }
}

/// Writes the lines of one word, row by row, and keeps account of how far
/// down its table it has come.
pub(crate) struct LineWriter {
    text: String,
    layout: Ghost<Seq<Field>>,
    word: Ghost<u32>,
    rows: Ghost<int>,
}

impl LineWriter {
    /// The table that is being written.
    pub(crate) closed spec fn layout(&self) -> Seq<Field> {
        self.layout@
    }

    /// The word whose fields are being written.
    pub(crate) closed spec fn word(&self) -> u32 {
        self.word@
    }

    /// The number of rows written so far.
    pub(crate) closed spec fn rows(&self) -> int {
        self.rows@
    }

    /// The text so far is the rendering of the rows written so far.
    pub(crate) closed spec fn inv(&self) -> bool {
        &&& 0 <= self.rows@ <= self.layout@.len()
        &&& self.text@ == render_fields(self.layout@.take(self.rows@), self.word@)
    }

    /// A writer that has written no row of `layout` yet.
    pub(crate) fn new(Ghost(layout): Ghost<Seq<Field>>, Ghost(word): Ghost<u32>) -> (writer: Self)
        ensures
            writer.inv(),
            writer.layout() == layout,
            writer.word() == word,
            writer.rows() == 0,
    {
        let writer = LineWriter {
            text: String::new(),
            layout: Ghost(layout),
            word: Ghost(word),
            rows: Ghost(0),
        };
        assert(lines(layout.take(0), word) =~= Seq::<Seq<char>>::empty());
        assert(writer.text@ =~= render_fields(layout.take(0), word));
        writer
    }

    /// Writes the next row, a flag called `name` whose bit is `value`.
    pub(crate) fn flag(&mut self, name: &str, value: bool)
        requires
            old(self).inv(),
            old(self).rows() < old(self).layout().len(),
            old(self).layout()[old(self).rows()].name == name@,
            old(self).layout()[old(self).rows()].kind is Flag,
            value == bit_set(old(self).word(), old(self).layout()[old(self).rows()].start_bit),
        ensures
            final(self).inv(),
            final(self).layout() == old(self).layout(),
            final(self).word() == old(self).word(),
            final(self).rows() == old(self).rows() + 1,
    {
        proof {
            lemma_render_next(self.layout@, self.word@, self.rows@);
        }
        self.text.append(name);
        self.text.append(": ");
        push_bool(&mut self.text, value);
        self.text.append("\n");
        self.rows = Ghost(self.rows@ + 1);
        assert(self.text@ =~= old(self).text@ + old(self).layout@[old(self).rows@].line(
            self.word@,
        ));
    }

    /// Writes the next row, a number called `name` whose bits hold `value`.
    pub(crate) fn number(&mut self, name: &str, value: u32)
        requires
            old(self).inv(),
            old(self).rows() < old(self).layout().len(),
            old(self).layout()[old(self).rows()].name == name@,
            old(self).layout()[old(self).rows()].kind is Number,
            value == bit_range(
                old(self).word(),
                old(self).layout()[old(self).rows()].start_bit,
                old(self).layout()[old(self).rows()].end_bit,
            ),
        ensures
            final(self).inv(),
            final(self).layout() == old(self).layout(),
            final(self).word() == old(self).word(),
            final(self).rows() == old(self).rows() + 1,
    {
        proof {
            lemma_render_next(self.layout@, self.word@, self.rows@);
        }
        self.text.append(name);
        self.text.append(": ");
        push_decimal(&mut self.text, value);
        self.text.append("\n");
        self.rows = Ghost(self.rows@ + 1);
        assert(self.text@ =~= old(self).text@ + old(self).layout@[old(self).rows@].line(
            self.word@,
        ));
    }

    /// Hands out the text once every row is written.
    pub(crate) fn finish(self) -> (text: String)
        requires
            self.inv(),
            self.rows() == self.layout().len(),
        ensures
            text@ == render_fields(self.layout(), self.word()),
    {
        assert(self.layout@.take(self.rows@) =~= self.layout@);
        self.text
    }
}

/// A numeral is made of the ten digits, and of at least one.
pub proof fn lemma_decimal_text_digits(value: nat)
    ensures
        decimal_text(value).len() > 0,
        forall|at: int|
            0 <= at < decimal_text(value).len() ==> '0' <= #[trigger] decimal_text(value)[at]
                <= '9',
    decreases value,
{
    reveal_strlit("0");
    reveal_strlit("1");
    reveal_strlit("2");
    reveal_strlit("3");
    reveal_strlit("4");
    reveal_strlit("5");
    reveal_strlit("6");
    reveal_strlit("7");
    reveal_strlit("8");
    reveal_strlit("9");
    let last = digit_text(value % 10);
    assert(last.len() == 1 && '0' <= last[0] <= '9');
    if value >= 10 {
        lemma_decimal_text_digits(value / 10);
    }
}

/// Every line of a table whose names hold no line end is one line: the name,
/// a colon and a space, the value, and a line end that is its only one.
pub proof fn lemma_lines_are_single(layout: Seq<Field>, word: u32, row: int)
    requires
        plain_names(layout),
        0 <= row < layout.len(),
    ensures
        single_line(lines(layout, word)[row]),
        layout[row].name.is_prefix_of(lines(layout, word)[row]),
{
    reveal_strlit(": ");
    reveal_strlit("\n");
    reveal_strlit("true");
    reveal_strlit("false");
    let field = layout[row];
    let value = field.value_text(word);
    let line = field.line(word);
    assert(forall|at: int| 0 <= at < value.len() ==> value[at] != '\n') by {
        if field.kind is Number {
            lemma_decimal_text_digits(bit_range(word, field.start_bit, field.end_bit) as nat);
        }
    }
    assert(line.len() == field.name.len() + 2 + value.len() + 1);
    assert forall|at: int| 0 <= at < line.len() - 1 implies line[at] != '\n' by {
        if at < field.name.len() {
            assert(line[at] == field.name[at]);
        } else if at < field.name.len() + 2 {
            assert(line[at] == ": "@[at - field.name.len()]);
        } else {
            assert(line[at] == value[at - field.name.len() - 2]);
        }
    }
    assert(line.last() == '\n');
    assert(field.name =~= line.subrange(0, field.name.len() as int));
}

/// In a well-formed table a later row lies wholly above an earlier one, so
/// no bit belongs to two rows.
pub proof fn lemma_rows_ascend(layout: Seq<Field>, lower: int, upper: int)
    requires
        well_formed(layout),
        0 <= lower < upper < layout.len(),
    ensures
        layout[lower].end_bit < layout[upper].start_bit,
    decreases upper - lower,
{
    if lower + 1 < upper {
        lemma_rows_ascend(layout, lower, upper - 1);
    }
}

/// The rendering of the first `rows + 1` rows is that of the first `rows`
/// rows followed by the line of row `rows`.
pub proof fn lemma_render_next(layout: Seq<Field>, word: u32, rows: int)
    requires
        0 <= rows < layout.len(),
    ensures
        render_fields(layout.take(rows + 1), word) == render_fields(layout.take(rows), word)
            + layout[rows].line(word),
{
    broadcast use Seq::lemma_flatten_push;

    assert(lines(layout.take(rows + 1), word) =~= lines(layout.take(rows), word).push(
        layout[rows].line(word),
    ));
}

} // verus!

//! Memory dumps: a section of memory as lines of hexadecimal text.
//!
//! A section is shown in rows of 64 words, four upper-case hexadecimal
//! digits to a word and nothing between words. A row of zeros is not shown:
//! the next row that is shown is preceded by one line that counts the rows
//! left out before it. Words past the last full row are not shown, nor are
//! rows of zeros at the end.

use vstd::prelude::*;

verus! {

/// Number of words in a row.
pub const ITEMS_PER_ROW: usize = 64;

/// Number of characters in a row.
pub const ROW_WIDTH: usize = 256;

/// One line of a dump.
#[derive(Debug, PartialEq, Eq)]
pub enum DumpLine {
    /// That many rows of zeros were left out here.
    EmptyRows(usize),
    /// The text of a row, in ASCII.
    Row(Vec<u8>),
}

/// One line of a dump as contracts see it.
pub ghost enum DumpEntry {
    EmptyRows(nat),
    Row(Seq<u8>),
}

impl View for DumpLine {
    type V = DumpEntry;

    open spec fn view(&self) -> DumpEntry {
        match self {
            DumpLine::EmptyRows(count) => DumpEntry::EmptyRows(*count as nat),
            DumpLine::Row(text) => DumpEntry::Row(text@),
        }
    }
}

/// The ASCII character for a hexadecimal digit: `0` to `9`, then `A` to `F`.
pub open spec fn hex_digit(digit: int) -> u8 {
    if digit < 10 {
        (0x30 + digit) as u8
    } else {
        (0x41 + digit - 10) as u8
    }
}

/// Digit `place` of a word written with four hexadecimal digits, the most
/// significant at place 0.
pub open spec fn word_digit(word: u16, place: int) -> int {
    if place == 0 {
        word as int / 0x1000
    } else if place == 1 {
        word as int / 0x100 % 16
    } else if place == 2 {
        word as int / 0x10 % 16
    } else {
        word as int % 16
    }
}

/// Number of rows that a section is shown in.
pub open spec fn row_count(memory: Seq<u16>) -> int {
    memory.len() as int / ITEMS_PER_ROW as int
}

/// The text of row `row`.
pub open spec fn row_text(memory: Seq<u16>, row: int) -> Seq<u8> {
    Seq::new(
        ROW_WIDTH as nat,
        |column: int| hex_digit(word_digit(memory[row * ITEMS_PER_ROW + column / 4], column % 4)),
    )
}

/// Whether row `row` holds a word that is not zero.
pub open spec fn row_has_data(memory: Seq<u16>, row: int) -> bool {
    exists|item: int| 0 <= item < ITEMS_PER_ROW && #[trigger] memory[row * ITEMS_PER_ROW + item] != 0
}

/// The lines for the rows from `row` on, when `skipped` rows of zeros were
/// left out just before them.
pub open spec fn dump_from(memory: Seq<u16>, row: int, skipped: nat) -> Seq<DumpEntry>
    decreases row_count(memory) - row,
{
    if row >= row_count(memory) {
        Seq::empty()
    } else if row_has_data(memory, row) {
        let shown = seq![DumpEntry::Row(row_text(memory, row))] + dump_from(memory, row + 1, 0);
        if skipped > 0 {
            seq![DumpEntry::EmptyRows(skipped)] + shown
        } else {
            shown
        }
    } else {
        dump_from(memory, row + 1, skipped + 1)
    }
}

/// The lines of the dump of a section.
pub open spec fn dump(memory: Seq<u16>) -> Seq<DumpEntry> {
    dump_from(memory, 0, 0)
}

/// The character for a hexadecimal digit.
fn hex_character(digit: u16) -> (character: u8)
    requires
        digit < 16,
    ensures
        character == hex_digit(digit as int),
{
    if digit < 10 {
        0x30 + digit as u8
    } else {
        0x41 + (digit as u8 - 10)
    }
}

/// The text of one row, and whether the row holds a word that is not zero.
fn format_row(memory_section: &[u16], row: usize) -> (shown: (Vec<u8>, bool))
    requires
        row < row_count(memory_section@),
    ensures
        shown.0@ == row_text(memory_section@, row as int),
        shown.1 == row_has_data(memory_section@, row as int),
{
    let mut block_text: Vec<u8> = Vec::new();
    let mut row_has_data = false;
    let mut j: usize = 0;
    while j < ITEMS_PER_ROW
        invariant
            j <= ITEMS_PER_ROW,
            row * ITEMS_PER_ROW + ITEMS_PER_ROW <= memory_section.len(),
            block_text.len() == 4 * j,
            forall|column: int|
                0 <= column < 4 * j ==> block_text[column] == row_text(
                    memory_section@,
                    row as int,
                )[column],
            row_has_data == exists|item: int|
                0 <= item < j && #[trigger] memory_section[row * ITEMS_PER_ROW + item] != 0,
        decreases ITEMS_PER_ROW - j,
    {
        let value = memory_section[(row * ITEMS_PER_ROW) + j];

        if value != 0 {
            row_has_data = true;
        }
        assert((value >> 12) & 0b1111 == value / 0x1000) by (bit_vector);
        assert((value >> 8) & 0b1111 == value / 0x100 % 16) by (bit_vector);
        assert((value >> 4) & 0b1111 == value / 0x10 % 16) by (bit_vector);
        assert(value & 0b1111 == value % 16) by (bit_vector);
        block_text.push(hex_character((value >> 12) & 0b1111));
        block_text.push(hex_character((value >> 8) & 0b1111));
        block_text.push(hex_character((value >> 4) & 0b1111));
        block_text.push(hex_character(value & 0b1111));
        j += 1;
    }
    assert(block_text@ =~= row_text(memory_section@, row as int));
    (block_text, row_has_data)
}

/// The dump of a section of memory, line by line.
pub fn show_memory(memory_section: &[u16]) -> (lines: Vec<DumpLine>)
    ensures
        lines@.map_values(|line: DumpLine| line@) == dump(memory_section@),
{
    let length = memory_section.len();
    let display_height = length / ITEMS_PER_ROW;
    let mut lines: Vec<DumpLine> = Vec::new();

    let mut skipped_row_count: usize = 0;
    let mut i: usize = 0;
    while i < display_height
        invariant
            i <= display_height == row_count(memory_section@),
            skipped_row_count <= i,
            lines@.map_values(|line: DumpLine| line@) + dump_from(
                memory_section@,
                i as int,
                skipped_row_count as nat,
            ) == dump(memory_section@),
        decreases display_height - i,
    {
        let ghost before = lines@.map_values(|line: DumpLine| line@);
        let ghost rest = dump_from(memory_section@, i as int, skipped_row_count as nat);
        let (block_text, row_has_data) = format_row(memory_section, i);

        if row_has_data {
            if skipped_row_count > 0 {
                lines.push(DumpLine::EmptyRows(skipped_row_count));
                skipped_row_count = 0;
            }
            lines.push(DumpLine::Row(block_text));
            assert(lines@.map_values(|line: DumpLine| line@) + dump_from(
                memory_section@,
                i + 1,
                0,
            ) =~= before + rest);
        } else {
            skipped_row_count += 1;
        }
        i += 1;
    }
    assert(lines@.map_values(|line: DumpLine| line@) =~= dump(memory_section@));
    lines
}

} // verus!

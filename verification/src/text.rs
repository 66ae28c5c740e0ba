//! The mathematical model of a text: a sequence of characters in which
//! line breaks separate rows.

use vstd::prelude::*;

verus! {

/// The rows of a text: the runs of characters between line breaks.
///
/// A text always has at least one row; a text that ends in a line break
/// ends with an empty row.
pub open spec fn lines(text: Seq<char>) -> Seq<Seq<char>>
    decreases text.len(),
{
    if text.len() == 0 {
        seq![Seq::empty()]
    } else {
        let before = lines(text.drop_last());
        if text.last() == '\n' {
            before.push(Seq::empty())
        } else {
            before.drop_last().push(before.last().push(text.last()))
        }
    }
}

/// The row in which the character at `offset` stands, or would stand if it
/// were inserted there.
pub open spec fn row_at(text: Seq<char>, offset: int) -> int {
    lines(text.take(offset)).len() - 1
}

/// The column of the character at `offset`: its distance from the start of
/// its row.
pub open spec fn column_at(text: Seq<char>, offset: int) -> int {
    lines(text.take(offset)).last().len() as int
}

/// `offset` is the place in `text` that row `row` and column `column` name:
/// a character of the text, or the place just behind the last character of
/// a row.
pub open spec fn addresses(text: Seq<char>, row: int, column: int, offset: int) -> bool {
    &&& 0 <= offset <= text.len()
    &&& row_at(text, offset) == row
    &&& column_at(text, offset) == column
}

/// Some place in `text` has row `row` and column `column`.
pub open spec fn has_position(text: Seq<char>, row: int, column: int) -> bool {
    exists|offset: int| addresses(text, row, column, offset)
}

/// The place in `text` with row `row` and column `column`, where there is
/// one.
pub open spec fn offset_of(text: Seq<char>, row: int, column: int) -> int {
    choose|offset: int| addresses(text, row, column, offset)
}

/// The rows `rows` written out as one text, with a line break between
/// neighbours.
pub open spec fn join_lines(rows: Seq<Seq<char>>) -> Seq<char>
    decreases rows.len(),
{
    if rows.len() == 0 {
        Seq::empty()
    } else if rows.len() == 1 {
        rows[0]
    } else {
        join_lines(rows.drop_last()).push('\n') + rows.last()
    }
}

/// A text has at least one row.
pub proof fn lemma_lines_nonempty(text: Seq<char>)
    ensures
        lines(text).len() >= 1,
    decreases text.len(),
{
    if text.len() > 0 {
        lemma_lines_nonempty(text.drop_last());
    }
}

/// How the rows grow when the text is read one character further: a line
/// break opens a new empty row, any other character lengthens the last row.
pub proof fn lemma_lines_step(text: Seq<char>, offset: int)
    requires
        0 <= offset < text.len(),
    ensures
        lines(text.take(offset)).len() >= 1,
        text[offset] == '\n' ==> lines(text.take(offset + 1)) == lines(text.take(offset)).push(
            Seq::empty(),
        ),
        text[offset] != '\n' ==> lines(text.take(offset + 1)) == lines(
            text.take(offset),
        ).drop_last().push(lines(text.take(offset)).last().push(text[offset])),
{
    lemma_lines_nonempty(text.take(offset));
    assert(text.take(offset + 1).drop_last() =~= text.take(offset));
    assert(text.take(offset + 1).last() == text[offset]);
}

/// Row and column of the place one character further on.
pub proof fn lemma_position_step(text: Seq<char>, offset: int)
    requires
        0 <= offset < text.len(),
    ensures
        row_at(text, offset) >= 0,
        column_at(text, offset) >= 0,
        text[offset] == '\n' ==> row_at(text, offset + 1) == row_at(text, offset) + 1 && column_at(
            text,
            offset + 1,
        ) == 0,
        text[offset] != '\n' ==> row_at(text, offset + 1) == row_at(text, offset) && column_at(
            text,
            offset + 1,
        ) == column_at(text, offset) + 1,
{
    lemma_lines_step(text, offset);
}

/// Places further on in the text have later positions: a later row, or the
/// same row and a later column.
pub proof fn lemma_position_increases(text: Seq<char>, from: int, to: int)
    requires
        0 <= from < to <= text.len(),
    ensures
        row_at(text, from) < row_at(text, to) || (row_at(text, from) == row_at(text, to)
            && column_at(text, from) < column_at(text, to)),
    decreases to - from,
{
    lemma_position_step(text, to - 1);
    if from < to - 1 {
        lemma_position_increases(text, from, to - 1);
    }
}

/// A place with an earlier position lies earlier in the text.
pub proof fn lemma_earlier_position_earlier_place(text: Seq<char>, first: int, second: int)
    requires
        0 <= first <= text.len(),
        0 <= second <= text.len(),
        row_at(text, first) < row_at(text, second) || (row_at(text, first) == row_at(text, second)
            && column_at(text, first) < column_at(text, second)),
    ensures
        first < second,
{
    if second < first {
        lemma_position_increases(text, second, first);
    }
}

/// No two places of a text share row and column, so a position names at
/// most one place.
pub proof fn lemma_offset_unique(text: Seq<char>, row: int, column: int, offset: int)
    requires
        addresses(text, row, column, offset),
    ensures
        has_position(text, row, column),
        offset_of(text, row, column) == offset,
{
    let other = offset_of(text, row, column);
    assert(addresses(text, row, column, other));
    if other < offset {
        lemma_position_increases(text, other, offset);
    } else if offset < other {
        lemma_position_increases(text, offset, other);
    }
}

/// The rows of the first `shorter` characters fit into the rows of the
/// first `longer` characters: they are no more, and the last of them is no
/// longer than the row of the same number.
proof fn lemma_prefix_rows_fit(text: Seq<char>, shorter: int, longer: int)
    requires
        0 <= shorter <= longer <= text.len(),
    ensures
        1 <= lines(text.take(shorter)).len() <= lines(text.take(longer)).len(),
        lines(text.take(shorter)).last().len() <= lines(text.take(longer))[lines(
            text.take(shorter),
        ).len() - 1].len(),
    decreases longer - shorter,
{
    lemma_lines_nonempty(text.take(shorter));
    if shorter < longer {
        lemma_prefix_rows_fit(text, shorter, longer - 1);
        lemma_lines_step(text, longer - 1);
    }
}

/// A place of a text has the row and the column of that place in every
/// text that continues it.
proof fn lemma_addresses_in_longer(text: Seq<char>, row: int, column: int, offset: int)
    requires
        text.len() > 0,
        addresses(text.drop_last(), row, column, offset),
    ensures
        addresses(text, row, column, offset),
{
    assert(text.take(offset) =~= text.drop_last().take(offset));
}

/// Every column of a row, up to the one just behind its last character, is
/// the column of some place of the text.
proof fn lemma_row_positions_exist(text: Seq<char>, row: int, column: int)
    requires
        0 <= row < lines(text).len(),
        0 <= column <= lines(text)[row].len(),
    ensures
        has_position(text, row, column),
    decreases text.len(),
{
    assert(text.take(text.len() as int) =~= text);
    if text.len() == 0 {
        assert(addresses(text, row, column, 0));
    } else {
        let shorter = text.drop_last();
        let before = lines(shorter);
        lemma_lines_nonempty(shorter);
        let in_shorter = if text.last() == '\n' {
            row < before.len()
        } else {
            row < before.len() - 1 || column <= before.last().len()
        };
        if in_shorter {
            lemma_row_positions_exist(shorter, row, column);
            lemma_addresses_in_longer(text, row, column, offset_of(shorter, row, column));
        } else {
            assert(addresses(text, row, column, text.len() as int));
        }
    }
}

/// The positions that name a place of a text are those of its rows: a row
/// that the text has, and a column up to the one just behind the row's
/// last character.
pub proof fn lemma_has_position_iff_in_rows(text: Seq<char>, row: int, column: int)
    ensures
        has_position(text, row, column) <==> 0 <= row < lines(text).len() && 0 <= column <= lines(
            text,
        )[row].len(),
{
    if has_position(text, row, column) {
        let offset = offset_of(text, row, column);
        lemma_prefix_rows_fit(text, offset, text.len() as int);
        assert(text.take(text.len() as int) =~= text);
    }
    if 0 <= row < lines(text).len() && 0 <= column <= lines(text)[row].len() {
        lemma_row_positions_exist(text, row, column);
    }
}

/// Splitting a text into rows and joining them again gives the text back.
pub proof fn lemma_join_lines_of_lines(text: Seq<char>)
    ensures
        join_lines(lines(text)) == text,
    decreases text.len(),
{
    if text.len() == 0 {
        assert(lines(text) =~= seq![Seq::<char>::empty()]);
        assert(join_lines(lines(text)) =~= text);
    } else {
        let shorter = text.drop_last();
        let before = lines(shorter);
        lemma_lines_nonempty(shorter);
        lemma_join_lines_of_lines(shorter);
        if text.last() == '\n' {
            let rows = before.push(Seq::empty());
            assert(rows.drop_last() =~= before);
            assert(join_lines(rows) =~= join_lines(before).push('\n'));
            assert(shorter.push('\n') =~= text);
        } else {
            let grown = before.last().push(text.last());
            let rows = before.drop_last().push(grown);
            assert(rows.drop_last() =~= before.drop_last());
            if before.len() == 1 {
                assert(join_lines(before) == before[0]);
                assert(join_lines(rows) == grown);
            } else {
                assert(join_lines(before) == join_lines(before.drop_last()).push('\n')
                    + before.last());
                assert(join_lines(rows) =~= join_lines(before).push(text.last()));
            }
            assert(shorter.push(text.last()) =~= text);
        }
    }
}

} // verus!

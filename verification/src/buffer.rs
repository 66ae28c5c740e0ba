//! The text buffer: the text being edited, the point at which edits take
//! place, and what the rows of the text look like to a cursor.

use crate::movement::position_valid;
use crate::text::{
    addresses, column_at, has_position, join_lines, lemma_earlier_position_earlier_place,
    lemma_has_position_iff_in_rows, lemma_lines_nonempty, lemma_lines_step, lemma_offset_unique,
    lemma_position_step, lines, offset_of, row_at,
};
use vstd::prelude::*;

verus! {

/// What a buffer is for.
#[allow(non_camel_case_types)]
#[derive(Clone, Copy, Debug, PartialEq, Eq, Structural)]
pub enum BufferType {
    /// Text of the user.
    NORMAL,
    /// The reserved buffer in which the editor asks for a file name.
    OPTION,
}

/// Why an edit could not be carried out.
#[derive(Clone, Copy, Debug, PartialEq, Eq, Structural)]
pub enum BufferError {
    /// The point names a row or a column that the text does not have.
    PointOutsideContent,
}

/// A named position in a buffer.
#[derive(Clone, Debug, PartialEq, Eq)]
pub struct Mark {
    pub name: String,
    pub row: u16,
    pub column: u16,
}

/// A text with the point at which it is edited.
///
/// Nothing keeps the point inside the text: `move_point_to` goes wherever
/// it is told. `point_in_content` says whether the point names a place of
/// the text, and the edits refuse to work where it does not.
#[derive(Clone, Debug, PartialEq, Eq)]
pub struct Buffer {
    pub content: Vec<char>,
    pub point: Mark,
    pub mark_list: Vec<Mark>,
    pub file_name: Option<Vec<char>>,
    pub buffer_type: BufferType,
}

/// A mark as a plain value.
pub struct MarkView {
    pub name: Seq<char>,
    pub row: u16,
    pub column: u16,
}

/// A buffer as a plain value: its text as a sequence of characters, its
/// point, its marks, the name of its file and its kind.
pub struct BufferView {
    pub content: Seq<char>,
    pub point: MarkView,
    pub mark_list: Seq<MarkView>,
    pub file_name: Option<Seq<char>>,
    pub buffer_type: BufferType,
}

impl View for Mark {
    type V = MarkView;

    open spec fn view(&self) -> MarkView {
        MarkView { name: self.name@, row: self.row, column: self.column }
    }
}

impl View for Buffer {
    type V = BufferView;

    open spec fn view(&self) -> BufferView {
        BufferView {
            content: self.content@,
            point: self.point@,
            mark_list: self.mark_list@.map_values(|mark: Mark| mark@),
            file_name: match self.file_name {
                Some(name) => Some(name@),
                None => None,
            },
            buffer_type: self.buffer_type,
        }
    }
}

/// The column of the last character of a row as a 16-bit coordinate, or
/// `None` for an empty row. Rows longer than the coordinates reach count
/// as ending in the last column that can be named.
pub open spec fn last_occupied(line: Seq<char>) -> Option<u16> {
    if line.len() == 0 {
        None
    } else if line.len() - 1 >= u16::MAX {
        Some(u16::MAX)
    } else {
        Some((line.len() - 1) as u16)
    }
}

/// What the cursor engine sees of a text: nothing at all for a text without
/// characters, else for each row the column of its last character.
pub open spec fn occupied_positions(text: Seq<char>) -> Seq<Option<u16>> {
    if text.len() == 0 {
        Seq::empty()
    } else {
        Seq::new(lines(text).len(), |row: int| last_occupied(lines(text)[row]))
    }
}

/// The last column of row `row` on which a cursor may rest: the column
/// just behind the row's last character, cut off at the last column that
/// 16 bits can name. A row that the text does not have gives 0.
pub open spec fn last_column(text: Seq<char>, row: int) -> u16 {
    if 0 <= row < lines(text).len() {
        if lines(text)[row].len() >= u16::MAX {
            u16::MAX
        } else {
            lines(text)[row].len() as u16
        }
    } else {
        0
    }
}

/// The rows from `start` up to, not including, `end`, as one text with a
/// line break between neighbours. Rows that the text does not have are
/// left out.
pub open spec fn rows_text(text: Seq<char>, start: int, end: int) -> Seq<char> {
    let rows = lines(text);
    let stop = if end < rows.len() {
        end
    } else {
        rows.len() as int
    };
    if 0 <= start < stop {
        join_lines(rows.subrange(start, stop))
    } else {
        Seq::empty()
    }
}

/// The text without the character in front of place `place`; with no
/// character in front of it, at the very start, the text as it is.
pub open spec fn removed_before(text: Seq<char>, place: int) -> Seq<char> {
    if place == 0 {
        text
    } else {
        text.remove(place - 1)
    }
}

/// The text with `count` copies of `c` written at place `place`.
pub open spec fn with_inserted(text: Seq<char>, place: int, c: char, count: nat) -> Seq<char>
    decreases count,
{
    if count == 0 {
        text
    } else {
        with_inserted(text, place, c, (count - 1) as nat).insert(place, c)
    }
}

/// How the rows from `start` to `end` grow when the text is read one
/// character further.
proof fn lemma_rows_text_step(text: Seq<char>, offset: int, start: int, end: int)
    requires
        0 <= offset < text.len(),
        0 <= start,
    ensures
        rows_text(text.take(offset + 1), start, end) == if start <= row_at(text, offset) && (
        if text[offset] == '\n' {
            row_at(text, offset) + 1 < end
        } else {
            row_at(text, offset) < end
        }) {
            rows_text(text.take(offset), start, end).push(text[offset])
        } else {
            rows_text(text.take(offset), start, end)
        },
{
    lemma_lines_step(text, offset);
    let rows = lines(text.take(offset));
    let grown = lines(text.take(offset + 1));
    let count = rows.len() as int;
    let row = count - 1;
    let stop = if end < count {
        end
    } else {
        count
    };
    let grown_stop = if end < grown.len() {
        end
    } else {
        grown.len() as int
    };
    if text[offset] == '\n' {
        if start < stop && end > count {
            let part = grown.subrange(start, grown_stop);
            assert(part.drop_last() =~= rows.subrange(start, stop));
            assert(part.last() =~= Seq::<char>::empty());
            assert(join_lines(part) =~= join_lines(rows.subrange(start, stop)).push('\n'));
        } else if start < stop {
            assert(grown.subrange(start, grown_stop) =~= rows.subrange(start, stop));
        } else if start < grown_stop {
            assert(grown.subrange(start, grown_stop) =~= seq![Seq::<char>::empty()]);
        }
    } else {
        if start < stop && end >= count {
            let part = rows.subrange(start, stop);
            let grown_part = grown.subrange(start, grown_stop);
            assert(grown_part.drop_last() =~= part.drop_last());
            assert(grown_part.last() =~= part.last().push(text[offset]));
            if part.len() > 1 {
                assert(join_lines(grown_part) =~= join_lines(part).push(text[offset]));
            }
        } else if start < stop {
            assert(grown.subrange(start, grown_stop) =~= rows.subrange(start, stop));
        }
    }
}

/// In a text that has characters, the places where the cursor engine lets
/// the cursor rest are the places that the text has: what the engine
/// resolves to can be written at.
pub proof fn lemma_valid_positions_are_places(text: Seq<char>, row: u16, col: u16)
    requires
        text.len() > 0,
    ensures
        position_valid(occupied_positions(text), row, col) <==> has_position(
            text,
            row as int,
            col as int,
        ),
{
    lemma_has_position_iff_in_rows(text, row as int, col as int);
}

/// Where the point has to go after a character was written at it, so that
/// it stands behind that character: the start of the next row behind a
/// line break, else one column further.
pub proof fn lemma_insert_advances(text: Seq<char>, row: int, column: int, offset: int, c: char)
    requires
        addresses(text, row, column, offset),
    ensures
        c == '\n' ==> addresses(text.insert(offset, c), row + 1, 0, offset + 1),
        c != '\n' ==> addresses(text.insert(offset, c), row, column + 1, offset + 1),
        addresses(text.insert(offset, c), row, column, offset),
{
    let longer = text.insert(offset, c);
    lemma_lines_nonempty(text.take(offset));
    assert(longer.take(offset) =~= text.take(offset));
    assert(longer.take(offset + 1).drop_last() =~= text.take(offset));
    assert(longer.take(offset + 1).last() == c);
}

/// Writing a character at a place and then removing the character in
/// front of the place just behind it gives the text back.
pub proof fn lemma_insert_then_remove(text: Seq<char>, place: int, c: char)
    requires
        0 <= place <= text.len(),
    ensures
        removed_before(text.insert(place, c), place + 1) == text,
{
    assert(text.insert(place, c).remove(place) =~= text);
}

/// Written characters leave the place at which they were written where it
/// was: it still has the row and the column that it had.
pub proof fn lemma_inserted_keeps_place(
    text: Seq<char>,
    row: int,
    column: int,
    place: int,
    c: char,
    count: nat,
)
    requires
        addresses(text, row, column, place),
    ensures
        addresses(with_inserted(text, place, c, count), row, column, place),
    decreases count,
{
    if count > 0 {
        lemma_inserted_keeps_place(text, row, column, place, c, (count - 1) as nat);
        lemma_insert_advances(with_inserted(text, place, c, (count - 1) as nat), row, column, place, c);
    }
}

/// Several copies of a character written at one place stand there as a
/// run, between what was in front of the place and what was behind it.
pub proof fn lemma_inserted_is_a_run(text: Seq<char>, place: int, c: char, count: nat)
    requires
        0 <= place <= text.len(),
    ensures
        with_inserted(text, place, c, count) == text.subrange(0, place) + Seq::new(
            count,
            |i: int| c,
        ) + text.subrange(place, text.len() as int),
    decreases count,
{
    let run = text.subrange(0, place) + Seq::new(count, |i: int| c) + text.subrange(
        place,
        text.len() as int,
    );
    if count == 0 {
        assert(run =~= text);
    } else {
        lemma_inserted_is_a_run(text, place, c, (count - 1) as nat);
        assert(with_inserted(text, place, c, count) =~= run);
    }
}

/// Behind `count` copies of a character that is no line break, written at
/// one place, lies the place `count` columns further on in the same row.
pub proof fn lemma_inserted_advances(
    text: Seq<char>,
    row: int,
    column: int,
    place: int,
    c: char,
    count: nat,
)
    requires
        addresses(text, row, column, place),
        c != '\n',
    ensures
        addresses(with_inserted(text, place, c, count), row, column + count, place + count),
    decreases count,
{
    if count > 0 {
        let fewer = (count - 1) as nat;
        lemma_inserted_advances(text, row, column, place, c, fewer);
        lemma_inserted_is_a_run(text, place, c, fewer);
        lemma_inserted_is_a_run(text, place, c, count);
        let before = with_inserted(text, place, c, fewer);
        assert(with_inserted(text, place, c, count) =~= before.insert(place + fewer, c));
        lemma_insert_advances(before, row, column + fewer, place + fewer, c);
    }
}

/// Removing the character in front of a place leaves every earlier
/// position a place of the text.
pub proof fn lemma_remove_keeps_earlier_places(text: Seq<char>, place: int, row: int, column: int)
    requires
        0 < place <= text.len(),
        has_position(text, row, column),
        row < row_at(text, place) || (row == row_at(text, place) && column < column_at(
            text,
            place,
        )),
    ensures
        has_position(text.remove(place - 1), row, column),
{
    let earlier = offset_of(text, row, column);
    lemma_earlier_position_earlier_place(text, earlier, place);
    assert(text.remove(place - 1).take(earlier) =~= text.take(earlier));
    assert(addresses(text.remove(place - 1), row, column, earlier));
}

impl BufferView {
    /// The point names a place of the text: a character, or the place just
    /// behind the last character of a row.
    pub open spec fn point_in_content(self) -> bool {
        has_position(self.content, self.point.row as int, self.point.column as int)
    }

    /// The place in the text that the point names.
    pub open spec fn point_place(self) -> int {
        offset_of(self.content, self.point.row as int, self.point.column as int)
    }

    /// The buffer with the point at `(row, column)`.
    pub open spec fn with_point_at(self, row: u16, column: u16) -> BufferView {
        BufferView { point: MarkView { row, column, ..self.point }, ..self }
    }

    /// The buffer with `count` copies of `c` written at the point.
    pub open spec fn with_chars_written(self, c: char, count: nat) -> BufferView {
        BufferView { content: with_inserted(self.content, self.point_place(), c, count), ..self }
    }

    /// The buffer with `c` written at the point.
    pub open spec fn with_char_written(self, c: char) -> BufferView {
        BufferView { content: self.content.insert(self.point_place(), c), ..self }
    }

    /// The buffer without the character in front of the point.
    pub open spec fn with_char_removed(self) -> BufferView {
        BufferView { content: removed_before(self.content, self.point_place()), ..self }
    }
}

/// Writing a character at the point, advancing the point behind it and
/// removing the character in front of the point gives back the text that
/// the buffer had.
pub proof fn lemma_write_then_remove_restores(buffer: BufferView, c: char)
    requires
        buffer.point_in_content(),
        c == '\n' ==> buffer.point.row < u16::MAX,
        c != '\n' ==> buffer.point.column < u16::MAX,
    ensures
        ({
            let written = buffer.with_char_written(c);
            let advanced = if c == '\n' {
                written.with_point_at((buffer.point.row + 1) as u16, 0)
            } else {
                written.with_point_at(buffer.point.row, (buffer.point.column + 1) as u16)
            };
            &&& advanced.point_in_content()
            &&& advanced.point_place() == buffer.point_place() + 1
            &&& advanced.with_char_removed().content == buffer.content
        }),
{
    let row = buffer.point.row as int;
    let column = buffer.point.column as int;
    let place = buffer.point_place();
    lemma_insert_advances(buffer.content, row, column, place, c);
    let written = buffer.content.insert(place, c);
    if c == '\n' {
        lemma_offset_unique(written, row + 1, 0, place + 1);
    } else {
        lemma_offset_unique(written, row, column + 1, place + 1);
    }
    lemma_insert_then_remove(buffer.content, place, c);
}

/// A buffer of kind `buffer_type` as it is made: no text, no marks, no
/// file, the point at the start.
pub open spec fn empty_buffer(buffer_type: BufferType) -> BufferView {
    BufferView {
        content: Seq::empty(),
        point: MarkView { name: "Point"@, row: 0, column: 0 },
        mark_list: Seq::empty(),
        file_name: None,
        buffer_type,
    }
}

impl Mark {
    /// A mark called `name` at `(row, column)`.
    pub fn new(name: String, row: u16, column: u16) -> (mark: Mark)
        ensures
            mark@ == (MarkView { name: name@, row, column }),
    {
        Mark { name, row, column }
    }
}

impl Buffer {
    /// An empty buffer for text of the user: no characters, the point at
    /// the start, no file.
    pub fn default() -> (buffer: Buffer)
        ensures
            buffer@ == empty_buffer(BufferType::NORMAL),
    {
        let buffer = Buffer {
            content: Vec::new(),
            point: Mark::new("Point".to_owned(), 0, 0),
            mark_list: Vec::new(),
            file_name: None,
            buffer_type: BufferType::NORMAL,
        };
        proof {
            assert(buffer@.mark_list =~= Seq::empty());
        }
        buffer
    }

    /// Finds the place in the text that has row `row` and column `column`.
    pub fn offset_at(&self, row: u16, column: u16) -> (offset: Option<usize>)
        ensures
            offset is Some <==> has_position(self@.content, row as int, column as int),
            offset matches Some(place) ==> place == offset_of(
                self@.content,
                row as int,
                column as int,
            ) && place <= self@.content.len(),
    {
        let mut seen_rows: usize = 0;
        let mut seen_columns: usize = 0;
        let mut i: usize = 0;
        proof {
            assert(self.content@.take(0) =~= Seq::<char>::empty());
        }
        loop
            invariant
                i <= self.content@.len(),
                seen_rows == row_at(self.content@, i as int),
                seen_columns == column_at(self.content@, i as int),
                seen_rows <= i,
                seen_columns <= i,
                forall|j: int|
                    0 <= j < i ==> !addresses(self.content@, row as int, column as int, j),
            decreases self.content@.len() - i,
        {
            if seen_rows == row as usize && seen_columns == column as usize {
                proof {
                    lemma_offset_unique(self.content@, row as int, column as int, i as int);
                }
                return Some(i);
            }
            if i == self.content.len() {
                return None;
            }
            proof {
                lemma_position_step(self.content@, i as int);
            }
            if self.content[i] == '\n' {
                seen_rows = seen_rows + 1;
                seen_columns = 0;
            } else {
                seen_columns = seen_columns + 1;
            }
            i = i + 1;
        }
    }

    /// Finds the place in the text that the point names.
    pub fn point_offset(&self) -> (offset: Option<usize>)
        ensures
            offset is Some <==> self@.point_in_content(),
            offset matches Some(place) ==> place == self@.point_place() && place
                <= self@.content.len(),
    {
        self.offset_at(self.point.row, self.point.column)
    }

    /// Writes `c` into the text at the point. The point stays where it is:
    /// to advance it is for the caller, who knows whether the cursor wraps
    /// or the viewport scrolls.
    ///
    /// Fails, and changes nothing, where the point names no place of the
    /// text.
    pub fn write_char(&mut self, c: char) -> (done: Result<(), BufferError>)
        ensures
            done is Ok <==> old(self)@.point_in_content(),
            done is Ok ==> final(self)@ == old(self)@.with_char_written(c),
            done is Err ==> done == Err::<(), BufferError>(BufferError::PointOutsideContent)
                && final(self)@ == old(self)@,
    {
        match self.point_offset() {
            Some(place) => {
                self.content.insert(place, c);
                Ok(())
            },
            None => Err(BufferError::PointOutsideContent),
        }
    }

    /// Removes the character in front of the point, which joins two rows
    /// where that character is a line break. With the point at the very
    /// start of the text there is no such character, and nothing changes.
    /// The point stays where it is.
    ///
    /// Fails, and changes nothing, where the point names no place of the
    /// text.
    pub fn remove_char(&mut self) -> (done: Result<(), BufferError>)
        ensures
            done is Ok <==> old(self)@.point_in_content(),
            done is Ok ==> final(self)@ == old(self)@.with_char_removed(),
            done is Err ==> done == Err::<(), BufferError>(BufferError::PointOutsideContent)
                && final(self)@ == old(self)@,
    {
        match self.point_offset() {
            Some(place) => {
                if place > 0 {
                    self.content.remove(place - 1);
                }
                Ok(())
            },
            None => Err(BufferError::PointOutsideContent),
        }
    }

    /// Puts the point at `(row, col)`, whether or not the text has such a
    /// place.
    pub fn move_point_to(&mut self, row: u16, col: u16)
        ensures
            final(self)@ == old(self)@.with_point_at(row, col),
    {
        self.point.row = row;
        self.point.column = col;
    }

    /// Row and column of the point, where the point names a place of the
    /// text, and `None` where it does not.
    pub fn get_point_line_and_column(&self) -> (position: Option<(u16, u16)>)
        ensures
            position == if self@.point_in_content() {
                Some((self.point.row, self.point.column))
            } else {
                None
            },
    {
        match self.point_offset() {
            Some(_) => Some((self.point.row, self.point.column)),
            None => None,
        }
    }

    /// The length of each row of the text.
    fn line_lengths(&self) -> (lengths: Vec<usize>)
        ensures
            lengths@.len() == lines(self.content@).len(),
            forall|row: int|
                0 <= row < lengths@.len() ==> lengths@[row] == (#[trigger] lines(
                    self.content@,
                )[row]).len(),
    {
        let mut lengths: Vec<usize> = Vec::new();
        let mut current: usize = 0;
        let mut i: usize = 0;
        proof {
            assert(self.content@.take(0) =~= Seq::<char>::empty());
        }
        while i < self.content.len()
            invariant
                i <= self.content@.len(),
                current <= i,
                lengths@.len() == lines(self.content@.take(i as int)).len() - 1,
                current == lines(self.content@.take(i as int)).last().len(),
                forall|row: int|
                    0 <= row < lengths@.len() ==> lengths@[row] == (#[trigger] lines(
                        self.content@.take(i as int),
                    )[row]).len(),
            decreases self.content@.len() - i,
        {
            proof {
                lemma_lines_step(self.content@, i as int);
            }
            if self.content[i] == '\n' {
                lengths.push(current);
                current = 0;
            } else {
                current = current + 1;
            }
            i = i + 1;
        }
        proof {
            assert(self.content@.take(i as int) =~= self.content@);
        }
        lengths.push(current);
        lengths
    }

    /// For each row of the text the column of its last character, or `None`
    /// for an empty row; nothing at all for a text without characters.
    pub fn get_last_visible_char_position(&self) -> (occupied: Vec<Option<u16>>)
        ensures
            occupied@ == occupied_positions(self.content@),
    {
        let mut occupied: Vec<Option<u16>> = Vec::new();
        if self.content.len() == 0 {
            return occupied;
        }
        let lengths = self.line_lengths();
        let mut row: usize = 0;
        while row < lengths.len()
            invariant
                row <= lengths@.len(),
                lengths@.len() == lines(self.content@).len(),
                forall|r: int|
                    0 <= r < lengths@.len() ==> lengths@[r] == (#[trigger] lines(
                        self.content@,
                    )[r]).len(),
                occupied@.len() == row,
                forall|r: int|
                    0 <= r < row ==> occupied@[r] == last_occupied(
                        #[trigger] lines(self.content@)[r],
                    ),
            decreases lengths@.len() - row,
        {
            let length = lengths[row];
            let entry = if length == 0 {
                None
            } else if length - 1 >= u16::MAX as usize {
                Some(u16::MAX)
            } else {
                Some((length - 1) as u16)
            };
            occupied.push(entry);
            row = row + 1;
        }
        proof {
            assert(occupied@ =~= occupied_positions(self.content@));
        }
        occupied
    }

    /// The last column of row `row` on which a cursor may rest.
    pub fn get_last_column(&self, row: u16) -> (column: u16)
        ensures
            column == last_column(self.content@, row as int),
    {
        let lengths = self.line_lengths();
        if (row as usize) < lengths.len() {
            let length = lengths[row as usize];
            if length >= u16::MAX as usize {
                u16::MAX
            } else {
                length as u16
            }
        } else {
            0
        }
    }

    /// The text of the rows from `start_row` up to, not including,
    /// `end_row`.
    pub fn get_buffer_part(&self, start_row: usize, end_row: usize) -> (part: Vec<char>)
        ensures
            part@ == rows_text(self.content@, start_row as int, end_row as int),
    {
        let mut part: Vec<char> = Vec::new();
        let mut row: usize = 0;
        let mut i: usize = 0;
        proof {
            assert(self.content@.take(0) =~= Seq::<char>::empty());
            assert(lines(self.content@.take(0)) =~= seq![Seq::<char>::empty()]);
            assert(join_lines(seq![Seq::<char>::empty()]) =~= Seq::<char>::empty());
            assert(lines(self.content@.take(0)).subrange(0, 1) =~= seq![Seq::<char>::empty()]);
        }
        while i < self.content.len()
            invariant
                i <= self.content@.len(),
                row <= i,
                row == row_at(self.content@, i as int),
                part@ == rows_text(self.content@.take(i as int), start_row as int, end_row as int),
            decreases self.content@.len() - i,
        {
            proof {
                lemma_rows_text_step(self.content@, i as int, start_row as int, end_row as int);
                lemma_position_step(self.content@, i as int);
            }
            let c = self.content[i];
            if c == '\n' {
                if start_row <= row && row + 1 < end_row {
                    part.push(c);
                }
                row = row + 1;
            } else if start_row <= row && row < end_row {
                part.push(c);
            }
            i = i + 1;
        }
        proof {
            assert(self.content@.take(i as int) =~= self.content@);
        }
        part
    }
}

} // verus!

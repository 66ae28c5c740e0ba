use editor_core::buffer::{Buffer, BufferError, BufferType, Mark};

fn chars(text: &str) -> Vec<char> {
    text.chars().collect()
}

fn buffer_with(text: &str, row: u16, column: u16) -> Buffer {
    let mut buffer = Buffer::default();
    buffer.content = chars(text);
    buffer.move_point_to(row, column);
    buffer
}

#[test]
fn a_new_buffer_is_empty() {
    let buffer = Buffer::default();
    assert_eq!(buffer.content, Vec::<char>::new());
    assert_eq!(buffer.point, Mark::new(String::from("Point"), 0, 0));
    assert!(buffer.mark_list.is_empty());
    assert_eq!(buffer.file_name, None);
    assert_eq!(buffer.buffer_type, BufferType::NORMAL);
}

#[test]
fn a_mark_keeps_what_it_was_made_with() {
    let mark = Mark::new(String::from("here"), 3, 9);
    assert_eq!(mark.name, "here");
    assert_eq!(mark.row, 3);
    assert_eq!(mark.column, 9);
}

#[test]
fn occupied_columns_of_two_rows() {
    assert_eq!(
        buffer_with("ab\ncdef", 0, 0).get_last_visible_char_position(),
        vec![Some(1), Some(3)]
    );
}

#[test]
fn an_empty_text_has_no_entries() {
    assert_eq!(buffer_with("", 0, 0).get_last_visible_char_position(), Vec::<Option<u16>>::new());
}

#[test]
fn empty_rows_have_no_occupied_column() {
    assert_eq!(
        buffer_with("\na\n\nbc\n", 0, 0).get_last_visible_char_position(),
        vec![None, Some(0), None, Some(1), None]
    );
    assert_eq!(buffer_with("\n", 0, 0).get_last_visible_char_position(), vec![None, None]);
}

#[test]
fn a_row_longer_than_the_coordinates_ends_in_their_last_column() {
    let mut buffer = Buffer::default();
    buffer.content = vec!['x'; 70000];
    buffer.content.push('\n');
    buffer.content.extend(vec!['y'; 65536]);
    buffer.content.push('\n');
    buffer.content.extend(vec!['z'; 65535]);
    assert_eq!(
        buffer.get_last_visible_char_position(),
        vec![Some(u16::MAX), Some(u16::MAX), Some(65534)]
    );
    assert_eq!(buffer.get_last_column(0), u16::MAX);
    assert_eq!(buffer.get_last_column(1), u16::MAX);
    assert_eq!(buffer.get_last_column(2), u16::MAX);
}

#[test]
fn the_last_column_is_the_one_behind_the_last_character() {
    let buffer = buffer_with("ab\n\ncdef", 0, 0);
    assert_eq!(buffer.get_last_column(0), 2);
    assert_eq!(buffer.get_last_column(1), 0);
    assert_eq!(buffer.get_last_column(2), 4);
    assert_eq!(buffer.get_last_column(3), 0);
    assert_eq!(buffer_with("", 0, 0).get_last_column(0), 0);
}

#[test]
fn places_of_rows_and_columns() {
    let buffer = buffer_with("ab\ncdef", 0, 0);
    assert_eq!(buffer.offset_at(0, 0), Some(0));
    assert_eq!(buffer.offset_at(0, 2), Some(2));
    assert_eq!(buffer.offset_at(0, 3), None);
    assert_eq!(buffer.offset_at(1, 0), Some(3));
    assert_eq!(buffer.offset_at(1, 4), Some(7));
    assert_eq!(buffer.offset_at(1, 5), None);
    assert_eq!(buffer.offset_at(2, 0), None);
    assert_eq!(buffer_with("", 0, 0).offset_at(0, 0), Some(0));
    assert_eq!(buffer_with("", 0, 0).offset_at(0, 1), None);
    assert_eq!(buffer_with("a\n", 0, 0).offset_at(1, 0), Some(2));
}

#[test]
fn the_place_of_the_point() {
    assert_eq!(buffer_with("ab\ncdef", 1, 2).point_offset(), Some(5));
    assert_eq!(buffer_with("ab\ncdef", 1, 9).point_offset(), None);
}

#[test]
fn the_point_is_reported_where_it_names_a_place() {
    assert_eq!(buffer_with("ab\ncdef", 1, 4).get_point_line_and_column(), Some((1, 4)));
    assert_eq!(buffer_with("ab\ncdef", 1, 5).get_point_line_and_column(), None);
    assert_eq!(buffer_with("ab\ncdef", 2, 0).get_point_line_and_column(), None);
    assert_eq!(buffer_with("", 0, 0).get_point_line_and_column(), Some((0, 0)));
}

#[test]
fn moving_the_point_does_not_validate() {
    let mut buffer = buffer_with("ab", 0, 0);
    buffer.move_point_to(40, 50);
    assert_eq!(buffer.point.row, 40);
    assert_eq!(buffer.point.column, 50);
    assert_eq!(buffer.point.name, "Point");
    assert_eq!(buffer.content, chars("ab"));
}

#[test]
fn a_character_is_written_at_the_point_and_the_point_stays() {
    let mut buffer = buffer_with("ab\ncdef", 1, 2);
    assert_eq!(buffer.write_char('X'), Ok(()));
    assert_eq!(buffer.content, chars("ab\ncdXef"));
    assert_eq!((buffer.point.row, buffer.point.column), (1, 2));
    let mut at_end = buffer_with("ab", 0, 2);
    assert_eq!(at_end.write_char('c'), Ok(()));
    assert_eq!(at_end.content, chars("abc"));
    let mut empty = buffer_with("", 0, 0);
    assert_eq!(empty.write_char('\n'), Ok(()));
    assert_eq!(empty.content, chars("\n"));
}

#[test]
fn writing_outside_the_text_fails_and_changes_nothing() {
    let mut buffer = buffer_with("ab", 0, 3);
    let before = buffer.clone();
    assert_eq!(buffer.write_char('x'), Err(BufferError::PointOutsideContent));
    assert_eq!(buffer, before);
    let mut no_such_row = buffer_with("ab", 1, 0);
    assert_eq!(no_such_row.write_char('x'), Err(BufferError::PointOutsideContent));
    assert_eq!(no_such_row.content, chars("ab"));
}

#[test]
fn the_character_in_front_of_the_point_is_removed() {
    let mut buffer = buffer_with("ab\ncdef", 1, 2);
    assert_eq!(buffer.remove_char(), Ok(()));
    assert_eq!(buffer.content, chars("ab\ncef"));
    assert_eq!((buffer.point.row, buffer.point.column), (1, 2));
}

#[test]
fn removing_a_line_break_joins_two_rows() {
    let mut buffer = buffer_with("ab\ncdef", 1, 0);
    assert_eq!(buffer.remove_char(), Ok(()));
    assert_eq!(buffer.content, chars("abcdef"));
    assert_eq!(buffer.get_last_visible_char_position(), vec![Some(5)]);
}

#[test]
fn removing_at_the_very_start_changes_nothing() {
    let mut buffer = buffer_with("ab", 0, 0);
    assert_eq!(buffer.remove_char(), Ok(()));
    assert_eq!(buffer.content, chars("ab"));
    let mut empty = buffer_with("", 0, 0);
    assert_eq!(empty.remove_char(), Ok(()));
    assert_eq!(empty.content, chars(""));
}

#[test]
fn removing_outside_the_text_fails_and_changes_nothing() {
    let mut buffer = buffer_with("ab", 2, 0);
    let before = buffer.clone();
    assert_eq!(buffer.remove_char(), Err(BufferError::PointOutsideContent));
    assert_eq!(buffer, before);
}

#[test]
fn writing_then_removing_gives_the_text_back() {
    for text in ["", "a", "ab\ncdef", "\n\n", "x\n"] {
        let rows: Vec<&str> = text.split('\n').collect();
        for (row, line) in rows.iter().enumerate() {
            for column in 0..=line.chars().count() {
                for c in ['q', '\n', ' '] {
                    let mut buffer = buffer_with(text, row as u16, column as u16);
                    assert_eq!(buffer.write_char(c), Ok(()));
                    if c == '\n' {
                        buffer.move_point_to(row as u16 + 1, 0);
                    } else {
                        buffer.move_point_to(row as u16, column as u16 + 1);
                    }
                    assert_eq!(buffer.remove_char(), Ok(()));
                    assert_eq!(buffer.content, chars(text));
                }
            }
        }
    }
}

#[test]
fn a_range_of_rows_is_cut_out_with_its_line_breaks() {
    let buffer = buffer_with("a\nbb\n\nccc\nd", 0, 0);
    assert_eq!(buffer.get_buffer_part(0, 5), chars("a\nbb\n\nccc\nd"));
    assert_eq!(buffer.get_buffer_part(0, 99), chars("a\nbb\n\nccc\nd"));
    assert_eq!(buffer.get_buffer_part(1, 3), chars("bb\n"));
    assert_eq!(buffer.get_buffer_part(1, 4), chars("bb\n\nccc"));
    assert_eq!(buffer.get_buffer_part(3, 4), chars("ccc"));
    assert_eq!(buffer.get_buffer_part(4, 5), chars("d"));
    assert_eq!(buffer.get_buffer_part(2, 3), chars(""));
    assert_eq!(buffer.get_buffer_part(0, 1), chars("a"));
}

#[test]
fn an_empty_or_missing_range_of_rows_is_empty() {
    let buffer = buffer_with("a\nbb", 0, 0);
    assert_eq!(buffer.get_buffer_part(0, 0), chars(""));
    assert_eq!(buffer.get_buffer_part(1, 1), chars(""));
    assert_eq!(buffer.get_buffer_part(2, 1), chars(""));
    assert_eq!(buffer.get_buffer_part(2, 9), chars(""));
    assert_eq!(buffer_with("", 0, 0).get_buffer_part(0, 3), chars(""));
    assert_eq!(buffer_with("a\n", 0, 0).get_buffer_part(0, 2), chars("a\n"));
    assert_eq!(buffer_with("a\n", 0, 0).get_buffer_part(1, 2), chars(""));
}

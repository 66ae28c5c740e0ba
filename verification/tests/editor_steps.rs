use editor_core::buffer::{BufferError, BufferType};
use editor_core::editor::{CursorMovement, Editor, EditorMode, LoadOutcome};
use editor_core::input::{
    command_for, Action, Command, InputEvent, KeyCode, KeyModifiers, PromptStep, SaveStep,
    ScreenUpdate, TAB_SIZE,
};
use editor_core::viewport::Viewport;

fn text(s: &str) -> Vec<char> {
    s.chars().collect()
}

fn editor_with(content: &str, width: u16, height: u16) -> Editor {
    let mut editor = Editor::default();
    editor.display = Viewport::new(width, height);
    editor.buffer_list[1].content = text(content);
    editor
}

fn point_of(editor: &Editor) -> (u16, u16) {
    let point = &editor.buffer_list[editor.current_buffer].point;
    (point.row, point.column)
}

fn shown(content: &str, col: u16, row: u16) -> ScreenUpdate {
    ScreenUpdate { text: Some(text(content)), cursor: Some((col, row)) }
}

fn no_modifiers() -> KeyModifiers {
    KeyModifiers { shift: false, control: false, alt: false, super_key: false, hyper: false, meta: false }
}

fn control() -> KeyModifiers {
    KeyModifiers { control: true, ..no_modifiers() }
}

fn key(code: KeyCode) -> InputEvent {
    InputEvent::Key { code, modifiers: no_modifiers() }
}

#[test]
fn the_editor_starts_with_two_empty_buffers() {
    let editor = Editor::default();
    assert!(editor.is_well_formed());
    assert_eq!(editor.display, Viewport { width: 0, height: 0, first_line_visible: 0 });
    assert!(!editor.exit);
    assert_eq!(editor.current_buffer, 1);
    assert_eq!(editor.previous_buffer, 0);
    assert_eq!(editor.mode, EditorMode::Normal);
    assert_eq!(editor.buffer_list.len(), 2);
    assert_eq!(editor.buffer_list[0], Editor::init_option_buffer());
    assert_eq!(editor.buffer_list[0].buffer_type, BufferType::OPTION);
    assert_eq!(editor.buffer_list[1].buffer_type, BufferType::NORMAL);
    for buffer in &editor.buffer_list {
        assert!(buffer.content.is_empty());
        assert_eq!(buffer.file_name, None);
        assert_eq!((buffer.point.row, buffer.point.column), (0, 0));
        assert_eq!(buffer.point.name, "Point");
        assert!(buffer.mark_list.is_empty());
    }
}

#[test]
fn a_file_is_taken_into_the_current_buffer() {
    let mut editor = Editor::default();
    assert_eq!(editor.init(Some(text("notes.txt")), text("ab\ncdef")), LoadOutcome::Loaded);
    assert_eq!(editor.buffer_list[1].content, text("ab\ncdef"));
    assert_eq!(editor.buffer_list[1].file_name, Some(text("notes.txt")));
    assert_eq!(editor.buffer_list[0], Editor::init_option_buffer());
    assert!(editor.is_well_formed());
}

#[test]
fn without_a_file_name_nothing_is_loaded() {
    let mut editor = Editor::default();
    assert_eq!(editor.init(None, text("ignored")), LoadOutcome::NoFile);
    assert_eq!(editor, Editor::default());
}

#[test]
fn without_a_current_buffer_nothing_is_loaded() {
    let mut editor = Editor::default();
    editor.current_buffer = 7;
    let before = editor.clone();
    assert_eq!(editor.init(Some(text("notes.txt")), text("abc")), LoadOutcome::InvalidBuffer);
    assert_eq!(editor, before);
    assert!(!editor.is_well_formed());
}

#[test]
fn an_editor_out_of_order_is_told_apart() {
    let mut editor = Editor::default();
    editor.previous_buffer = 2;
    assert!(!editor.is_well_formed());
    let mut editor = Editor::default();
    editor.mode = EditorMode::SaveMode;
    assert!(!editor.is_well_formed());
    editor.current_buffer = 0;
    editor.previous_buffer = 1;
    assert!(editor.is_well_formed());
    editor.buffer_list[0].buffer_type = BufferType::NORMAL;
    assert!(!editor.is_well_formed());
    editor.buffer_list.clear();
    assert!(!editor.is_well_formed());
}

#[test]
fn the_buffer_row_is_the_screen_row_plus_the_first_visible_row() {
    assert_eq!(Editor::get_buffer_row(3, 10), 13);
    assert_eq!(Editor::get_buffer_row(0, 0), 0);
    assert_eq!(Editor::get_buffer_row(65535, 0), 65535);
}

#[test]
fn the_viewport_shows_its_height_in_rows() {
    let mut viewport = Viewport::new(80, 24);
    assert_eq!(viewport.get_displayable_lines(), (0, 24));
    viewport.first_line_visible = 65535;
    viewport.height = 65535;
    assert_eq!(viewport.get_displayable_lines(), (65535, 131070));
    assert!(viewport.is_row_visible(65535));
    let small = Viewport { width: 10, height: 2, first_line_visible: 3 };
    assert!(!small.is_row_visible(2));
    assert!(small.is_row_visible(3));
    assert!(small.is_row_visible(4));
    assert!(!small.is_row_visible(5));
    assert_eq!(Viewport::default(), Viewport { width: 0, height: 0, first_line_visible: 0 });
}

#[test]
fn the_viewport_follows_by_one_row() {
    let mut viewport = Viewport { width: 10, height: 2, first_line_visible: 3 };
    viewport.follow(3);
    assert_eq!(viewport.first_line_visible, 3);
    viewport.follow(4);
    assert_eq!(viewport.first_line_visible, 3);
    viewport.follow(5);
    assert_eq!(viewport.first_line_visible, 4);
    viewport.follow(50);
    assert_eq!(viewport.first_line_visible, 5);
    viewport.follow(0);
    assert_eq!(viewport.first_line_visible, 4);
    assert_eq!((viewport.width, viewport.height), (10, 2));
    let mut flat = Viewport { width: 10, height: 0, first_line_visible: 65535 };
    flat.follow(65535);
    assert_eq!(flat.first_line_visible, 65535);
}

#[test]
fn the_screen_shows_the_rows_in_the_viewport() {
    let mut editor = editor_with("0\n1\n2\n3\n4", 10, 2);
    assert_eq!(editor.display_current_buffer(), text("0\n1"));
    editor.display.first_line_visible = 3;
    assert_eq!(editor.display_current_buffer(), text("3\n4"));
    assert_eq!(editor.handle_cancel_save(), text("3\n4"));
    editor.display.first_line_visible = 4;
    assert_eq!(editor.display_current_buffer(), text("4"));
    editor.display.height = 0;
    assert_eq!(editor.display_current_buffer(), text(""));
}

#[test]
fn right_at_the_end_of_a_row_wraps_to_the_next_row() {
    let mut editor = editor_with("ab\ncdef", 80, 24);
    assert_eq!(
        editor.buffer_list[1].get_last_visible_char_position(),
        vec![Some(1), Some(3)]
    );
    assert_eq!(editor.get_cursor_valid_position(0, 3, CursorMovement::Right), Some((1, 0)));
    let update = editor.handle_cursor_movement(2, 0, CursorMovement::Right);
    assert_eq!(update, shown("ab\ncdef", 0, 1));
    assert_eq!(point_of(&editor), (1, 0));
}

#[test]
fn left_at_the_start_of_a_row_wraps_to_the_previous_row() {
    let mut editor = editor_with("ab\ncdef", 80, 24);
    assert_eq!(
        editor.get_cursor_valid_position(1, 0u16.wrapping_sub(1), CursorMovement::Left),
        Some((0, 1))
    );
    let update = editor.handle_cursor_movement(0, 1, CursorMovement::Left);
    assert_eq!(update, shown("ab\ncdef", 1, 0));
    assert_eq!(point_of(&editor), (0, 1));
}

#[test]
fn an_empty_buffer_takes_every_position() {
    let editor = Editor::default();
    for movement in
        [CursorMovement::Up, CursorMovement::Down, CursorMovement::Left, CursorMovement::Right]
    {
        assert_eq!(editor.get_cursor_valid_position(5, 7, movement), Some((5, 7)));
        assert_eq!(editor.get_cursor_valid_position(0, 0, movement), Some((0, 0)));
    }
    assert!(editor.is_cursor_position_valid(5, 7));
}

#[test]
fn positions_of_a_text_are_valid_up_to_the_column_behind_each_row() {
    let editor = editor_with("ab\n\ncdef", 80, 24);
    assert!(editor.is_cursor_position_valid(0, 2));
    assert!(!editor.is_cursor_position_valid(0, 3));
    assert!(editor.is_cursor_position_valid(1, 0));
    assert!(!editor.is_cursor_position_valid(1, 1));
    assert!(editor.is_cursor_position_valid(2, 4));
    assert!(!editor.is_cursor_position_valid(3, 0));
}

#[test]
fn moving_within_a_row() {
    let mut editor = editor_with("ab\ncdef", 80, 24);
    assert_eq!(editor.handle_cursor_movement(0, 0, CursorMovement::Right), shown("ab\ncdef", 1, 0));
    assert_eq!(point_of(&editor), (0, 1));
    assert_eq!(editor.handle_cursor_movement(1, 0, CursorMovement::Left), shown("ab\ncdef", 0, 0));
    assert_eq!(point_of(&editor), (0, 0));
}

#[test]
fn down_and_up_snap_to_the_end_of_a_shorter_row() {
    let mut editor = editor_with("abcdef\nxy\nabcdef", 80, 24);
    assert_eq!(
        editor.handle_cursor_movement(6, 0, CursorMovement::Down),
        shown("abcdef\nxy\nabcdef", 1, 1)
    );
    assert_eq!(point_of(&editor), (1, 1));
    assert_eq!(
        editor.handle_cursor_movement(5, 2, CursorMovement::Up),
        shown("abcdef\nxy\nabcdef", 1, 1)
    );
    assert_eq!(point_of(&editor), (1, 1));
}

#[test]
fn moves_off_the_text_change_nothing() {
    let mut editor = editor_with("ab\ncdef", 80, 24);
    let before = editor.clone();
    assert_eq!(editor.handle_cursor_movement(0, 0, CursorMovement::Up), ScreenUpdate::nothing());
    assert_eq!(editor.handle_cursor_movement(0, 1, CursorMovement::Down), ScreenUpdate::nothing());
    assert_eq!(editor.handle_cursor_movement(0, 0, CursorMovement::Left), ScreenUpdate::nothing());
    assert_eq!(editor.handle_cursor_movement(4, 1, CursorMovement::Right), ScreenUpdate::nothing());
    assert_eq!(editor, before);
    assert_eq!(ScreenUpdate::nothing(), ScreenUpdate { text: None, cursor: None });
}

#[test]
fn the_viewport_scrolls_one_row_with_the_cursor() {
    let mut editor = editor_with("0\n1\n2\n3\n4", 10, 2);
    assert_eq!(editor.handle_cursor_movement(0, 0, CursorMovement::Down), shown("0\n1", 0, 1));
    assert_eq!(editor.display.first_line_visible, 0);
    assert_eq!(editor.handle_cursor_movement(0, 1, CursorMovement::Down), shown("1\n2", 0, 1));
    assert_eq!(editor.display.first_line_visible, 1);
    assert_eq!(point_of(&editor), (2, 0));
    assert_eq!(editor.handle_cursor_movement(0, 1, CursorMovement::Down), shown("2\n3", 0, 1));
    assert_eq!(editor.display.first_line_visible, 2);
    assert_eq!(editor.handle_cursor_movement(0, 0, CursorMovement::Up), shown("1\n2", 0, 0));
    assert_eq!(editor.display.first_line_visible, 1);
    assert_eq!(point_of(&editor), (1, 0));
    assert_eq!(editor.handle_cursor_movement(1, 1, CursorMovement::Right), shown("2\n3", 0, 1));
    assert_eq!(editor.display.first_line_visible, 2);
    assert_eq!(point_of(&editor), (3, 0));
    assert_eq!(editor.handle_cursor_movement(0, 0, CursorMovement::Left), shown("1\n2", 0, 0));
    assert_eq!(editor.display.first_line_visible, 1);
    assert_eq!(point_of(&editor), (1, 0));
}

#[test]
fn no_move_scrolls_by_more_than_one_row() {
    let mut editor = editor_with("0\n1\n2\n3\n4\n5\n6\n7", 10, 3);
    let moves = [
        CursorMovement::Down,
        CursorMovement::Down,
        CursorMovement::Down,
        CursorMovement::Right,
        CursorMovement::Right,
        CursorMovement::Down,
        CursorMovement::Up,
        CursorMovement::Up,
        CursorMovement::Up,
        CursorMovement::Left,
        CursorMovement::Up,
        CursorMovement::Up,
        CursorMovement::Up,
        CursorMovement::Up,
    ];
    let mut cursor = (0u16, 0u16);
    for movement in moves {
        let before = editor.display.first_line_visible;
        let update = editor.handle_cursor_movement(cursor.0, cursor.1, movement);
        let after = editor.display.first_line_visible;
        assert!(after == before || after == before + 1 || after + 1 == before);
        if let Some(moved) = update.cursor {
            cursor = moved;
            assert!(cursor.1 < 3);
            assert_eq!(point_of(&editor), (cursor.1 + after, cursor.0));
        }
    }
    assert_eq!(editor.display.first_line_visible, 0);
}

#[test]
fn a_typed_character_is_written_and_the_cursor_advances() {
    let mut editor = editor_with("", 80, 24);
    assert_eq!(editor.handle_char_input('h', 0, 0), Ok(shown("h", 1, 0)));
    assert_eq!(point_of(&editor), (0, 1));
    assert_eq!(editor.handle_char_input('i', 1, 0), Ok(shown("hi", 2, 0)));
    assert_eq!(editor.buffer_list[1].content, text("hi"));
    assert_eq!(point_of(&editor), (0, 2));
    editor.buffer_list[1].move_point_to(0, 1);
    assert_eq!(editor.handle_char_input('-', 1, 0), Ok(shown("h-i", 2, 0)));
}

#[test]
fn typing_with_the_point_outside_the_text_fails() {
    let mut editor = editor_with("ab", 80, 24);
    editor.buffer_list[1].move_point_to(3, 3);
    let before = editor.clone();
    assert_eq!(editor.handle_char_input('x', 3, 3), Err(BufferError::PointOutsideContent));
    assert_eq!(editor.handle_tab_input(3, 3), Err(BufferError::PointOutsideContent));
    assert_eq!(editor.handle_enter_input(3), Err(BufferError::PointOutsideContent));
    assert_eq!(editor, before);
}

#[test]
fn tab_writes_four_spaces() {
    assert_eq!(TAB_SIZE, 4);
    let mut editor = editor_with("ab", 80, 24);
    editor.buffer_list[1].move_point_to(0, 1);
    assert_eq!(editor.handle_tab_input(1, 0), Ok(shown("a    b", 5, 0)));
    assert_eq!(editor.buffer_list[1].content, text("a    b"));
    assert_eq!(point_of(&editor), (0, 5));
}

#[test]
fn enter_breaks_the_line_and_goes_to_the_next_row() {
    let mut editor = editor_with("ab", 80, 24);
    editor.buffer_list[1].move_point_to(0, 1);
    assert_eq!(editor.handle_enter_input(0), Ok(Action::Draw(shown("a\nb", 0, 1))));
    assert_eq!(editor.buffer_list[1].content, text("a\nb"));
    assert_eq!(point_of(&editor), (1, 0));
    assert_eq!(editor.mode, EditorMode::Normal);
}

#[test]
fn enter_in_the_last_row_of_the_screen_scrolls() {
    let mut editor = editor_with("ab\ncd", 80, 2);
    editor.buffer_list[1].move_point_to(1, 2);
    assert_eq!(editor.handle_enter_input(1), Ok(Action::Draw(shown("cd\n", 0, 1))));
    assert_eq!(editor.display.first_line_visible, 1);
    assert_eq!(editor.buffer_list[1].content, text("ab\ncd\n"));
    assert_eq!(point_of(&editor), (2, 0));
}

#[test]
fn backspace_removes_the_character_in_front_of_the_cursor() {
    let mut editor = editor_with("ab\ncd", 80, 24);
    assert_eq!(editor.handle_backspace_input(1, 1), Ok(shown("ab\nd", 0, 1)));
    assert_eq!(editor.buffer_list[1].content, text("ab\nd"));
    assert_eq!(point_of(&editor), (1, 0));
    assert_eq!(editor.handle_backspace_input(2, 0), Ok(shown("a\nd", 1, 0)));
    assert_eq!(point_of(&editor), (0, 1));
}

#[test]
fn backspace_in_column_zero_joins_the_row_to_the_one_above() {
    let mut editor = editor_with("ab\ncd", 80, 24);
    assert_eq!(editor.handle_backspace_input(0, 1), Ok(shown("abcd", 2, 0)));
    assert_eq!(editor.buffer_list[1].content, text("abcd"));
    assert_eq!(point_of(&editor), (0, 2));
    let mut after_empty_row = editor_with("\ncd", 80, 24);
    assert_eq!(after_empty_row.handle_backspace_input(0, 1), Ok(shown("cd", 0, 0)));
    assert_eq!(point_of(&after_empty_row), (0, 0));
}

#[test]
fn backspace_at_the_top_of_a_scrolled_screen_scrolls_up() {
    let mut editor = editor_with("ab\ncd\nef", 80, 2);
    editor.display.first_line_visible = 1;
    assert_eq!(editor.handle_backspace_input(0, 0), Ok(shown("abcd\nef", 2, 0)));
    assert_eq!(editor.display.first_line_visible, 0);
    assert_eq!(point_of(&editor), (0, 2));
}

#[test]
fn backspace_at_the_very_start_does_nothing() {
    let mut editor = editor_with("ab", 80, 24);
    let before = editor.clone();
    assert_eq!(editor.handle_backspace_input(0, 0), Ok(ScreenUpdate::nothing()));
    assert_eq!(editor, before);
}

#[test]
fn backspace_off_the_text_fails() {
    let mut editor = editor_with("ab", 80, 24);
    let before = editor.clone();
    assert_eq!(editor.handle_backspace_input(5, 0), Err(BufferError::PointOutsideContent));
    assert_eq!(editor.handle_backspace_input(0, 4), Err(BufferError::PointOutsideContent));
    assert_eq!(editor, before);
}

#[test]
fn a_new_size_redraws_and_puts_the_cursor_at_the_point() {
    let mut editor = editor_with("0\n1\n2\n3", 80, 24);
    editor.buffer_list[1].move_point_to(2, 1);
    assert_eq!(editor.handle_resizing(40, 3), shown("0\n1\n2", 1, 2));
    assert_eq!(editor.display, Viewport { width: 40, height: 3, first_line_visible: 0 });
    assert_eq!(
        editor.handle_resizing(40, 2),
        ScreenUpdate { text: Some(text("0\n1")), cursor: None }
    );
    editor.display.first_line_visible = 1;
    assert_eq!(editor.handle_resizing(20, 2), shown("1\n2", 1, 1));
    editor.display.first_line_visible = 3;
    assert_eq!(editor.handle_resizing(20, 2), ScreenUpdate { text: Some(text("3")), cursor: None });
    assert_eq!(editor.display.first_line_visible, 3);
}

#[test]
fn a_new_size_draws_nothing_with_the_point_outside_the_text() {
    let mut editor = editor_with("ab", 80, 24);
    editor.buffer_list[1].move_point_to(1, 0);
    assert_eq!(editor.handle_resizing(10, 5), ScreenUpdate::nothing());
    assert_eq!(editor.display, Viewport { width: 10, height: 5, first_line_visible: 0 });
}

#[test]
fn a_buffer_with_a_file_is_written() {
    let mut editor = editor_with("ab\ncd\nef", 80, 2);
    editor.buffer_list[1].file_name = Some(text("notes.txt"));
    let before = editor.clone();
    assert_eq!(
        editor.handle_save_file(),
        SaveStep::Write { path: text("notes.txt"), content: text("ab\ncd\nef"), text: text("ab\ncd") }
    );
    assert_eq!(editor, before);
}

#[test]
fn the_reserved_buffer_is_not_saved() {
    let mut editor = editor_with("ab", 80, 24);
    editor.current_buffer = 0;
    let before = editor.clone();
    assert_eq!(editor.handle_save_file(), SaveStep::Cleared);
    assert_eq!(editor, before);
}

#[test]
fn saving_a_buffer_without_a_file_asks_for_the_name_and_returns() {
    let mut editor = editor_with("hello", 80, 24);
    editor.buffer_list[1].move_point_to(0, 5);
    assert_eq!(
        editor.handle_key_events(
            InputEvent::Key { code: KeyCode::Char('x'), modifiers: control() },
            5,
            0
        ),
        Ok(Action::ConfirmSave)
    );
    assert_eq!(editor.handle_save_mode_input(KeyCode::Char('k')), PromptStep::Ignored);
    assert_eq!(
        editor.handle_save_mode_input(KeyCode::Char('Y')),
        PromptStep::Confirmed(SaveStep::AskFileName)
    );
    assert_eq!(editor.mode, EditorMode::SaveMode);
    assert_eq!(editor.current_buffer, 0);
    assert_eq!(editor.previous_buffer, 1);
    assert!(editor.is_well_formed());
    let mut column = 0;
    for c in "out.txt".chars() {
        let action = editor.handle_key_events(key(KeyCode::Char(c)), column, 0);
        column += 1;
        let typed: String = "out.txt".chars().take(column as usize).collect();
        assert_eq!(action, Ok(Action::Draw(shown(&typed, column, 0))));
        assert_eq!(editor.mode, EditorMode::SaveMode);
        assert_eq!(editor.buffer_list[1].content, text("hello"));
        assert_eq!(editor.buffer_list[1].file_name, None);
    }
    assert_eq!(
        editor.handle_key_events(key(KeyCode::Enter), column, 0),
        Ok(Action::Save(SaveStep::Write {
            path: text("out.txt"),
            content: text("hello"),
            text: text("hello"),
        }))
    );
    assert_eq!(editor.buffer_list[1].file_name, Some(text("out.txt")));
    assert_eq!(editor.buffer_list[1].content, text("hello"));
    assert_eq!(editor.current_buffer, 1);
    assert_eq!(editor.previous_buffer, 0);
    assert_eq!(editor.mode, EditorMode::Normal);
    assert!(editor.is_well_formed());
}

#[test]
fn keys_typed_for_a_file_name_leave_the_buffer_to_save_alone() {
    let mut editor = editor_with("ab\ncd", 80, 24);
    assert_eq!(editor.handle_save_file(), SaveStep::AskFileName);
    let saved = editor.buffer_list[1].clone();
    assert_eq!(editor.handle_char_input('a', 0, 0), Ok(shown("a", 1, 0)));
    assert_eq!(editor.handle_char_input('b', 1, 0), Ok(shown("ab", 2, 0)));
    assert_eq!(
        editor.handle_cursor_movement(2, 0, CursorMovement::Left),
        shown("ab", 1, 0)
    );
    assert_eq!(editor.handle_cursor_movement(1, 0, CursorMovement::Down), ScreenUpdate::nothing());
    assert_eq!(editor.handle_cursor_movement(1, 0, CursorMovement::Up), ScreenUpdate::nothing());
    assert_eq!(editor.handle_cursor_movement(1, 0, CursorMovement::Right), shown("ab", 2, 0));
    assert_eq!(editor.buffer_list[1], saved);
    assert_eq!(editor.mode, EditorMode::SaveMode);
    assert_eq!((editor.current_buffer, editor.previous_buffer), (0, 1));
    assert_eq!(editor.buffer_list[0].content, text("ab"));
}

#[test]
fn only_yes_and_no_answer_the_question() {
    let mut editor = editor_with("ab\ncd\nef", 80, 2);
    editor.buffer_list[1].file_name = Some(text("f"));
    let before = editor.clone();
    for code in [
        KeyCode::Char('a'),
        KeyCode::Char('q'),
        KeyCode::Char(' '),
        KeyCode::Enter,
        KeyCode::Tab,
        KeyCode::Backspace,
        KeyCode::Left,
        KeyCode::Right,
        KeyCode::Up,
        KeyCode::Down,
        KeyCode::Other,
    ] {
        assert_eq!(editor.handle_save_mode_input(code), PromptStep::Ignored);
        assert_eq!(editor, before);
    }
    for code in [KeyCode::Char('N'), KeyCode::Char('n')] {
        assert_eq!(
            editor.handle_save_mode_input(code),
            PromptStep::Cancelled { text: text("ab\ncd") }
        );
        assert_eq!(editor, before);
    }
    for code in [KeyCode::Char('Y'), KeyCode::Char('y')] {
        assert_eq!(
            editor.handle_save_mode_input(code),
            PromptStep::Confirmed(SaveStep::Write {
                path: text("f"),
                content: text("ab\ncd\nef"),
                text: text("ab\ncd"),
            })
        );
    }
}

#[test]
fn keys_become_commands() {
    let none = no_modifiers();
    let shift = KeyModifiers { shift: true, ..none };
    let alt = KeyModifiers { alt: true, ..none };
    let control_shift = KeyModifiers { shift: true, ..control() };
    let normal = EditorMode::Normal;
    let saving = EditorMode::SaveMode;
    assert_eq!(command_for(normal, KeyCode::Char('q'), control()), Command::Quit);
    assert_eq!(command_for(saving, KeyCode::Char('q'), control()), Command::Quit);
    assert_eq!(command_for(normal, KeyCode::Char('q'), control_shift), Command::Quit);
    assert_eq!(command_for(normal, KeyCode::Char('x'), control()), Command::Save);
    assert_eq!(command_for(saving, KeyCode::Char('x'), control()), Command::Ignore);
    assert_eq!(command_for(normal, KeyCode::Char('q'), none), Command::Insert('q'));
    assert_eq!(command_for(normal, KeyCode::Char('x'), none), Command::Insert('x'));
    assert_eq!(command_for(normal, KeyCode::Char('A'), shift), Command::Insert('A'));
    assert_eq!(command_for(normal, KeyCode::Char('a'), alt), Command::Ignore);
    assert_eq!(command_for(normal, KeyCode::Char('a'), control()), Command::Ignore);
    assert_eq!(command_for(normal, KeyCode::Char('a'), control_shift), Command::Ignore);
    for modifiers in [none, shift, alt, control()] {
        assert_eq!(command_for(normal, KeyCode::Left, modifiers), Command::Move(CursorMovement::Left));
        assert_eq!(command_for(normal, KeyCode::Right, modifiers), Command::Move(CursorMovement::Right));
        assert_eq!(command_for(normal, KeyCode::Up, modifiers), Command::Move(CursorMovement::Up));
        assert_eq!(command_for(saving, KeyCode::Down, modifiers), Command::Move(CursorMovement::Down));
        assert_eq!(command_for(normal, KeyCode::Backspace, modifiers), Command::Backspace);
        assert_eq!(command_for(saving, KeyCode::Enter, modifiers), Command::Enter);
        assert_eq!(command_for(normal, KeyCode::Tab, modifiers), Command::Tab);
        assert_eq!(command_for(normal, KeyCode::Other, modifiers), Command::Ignore);
    }
    assert!(none.is_empty());
    assert!(!shift.is_empty());
    assert!(shift.is_shift());
    assert!(!control_shift.is_shift());
    assert!(!none.is_shift());
}

#[test]
fn events_are_handed_to_their_handlers() {
    let mut editor = editor_with("ab\ncd", 80, 24);
    assert_eq!(editor.handle_key_events(InputEvent::Other, 0, 0), Ok(Action::Nothing));
    assert_eq!(editor.handle_key_events(key(KeyCode::Other), 0, 0), Ok(Action::Nothing));
    assert_eq!(
        editor.handle_key_events(key(KeyCode::Right), 0, 0),
        Ok(Action::Draw(shown("ab\ncd", 1, 0)))
    );
    assert_eq!(
        editor.handle_key_events(key(KeyCode::Down), 1, 0),
        Ok(Action::Draw(shown("ab\ncd", 1, 1)))
    );
    assert_eq!(
        editor.handle_key_events(key(KeyCode::Char('x')), 1, 1),
        Ok(Action::Draw(shown("ab\ncxd", 2, 1)))
    );
    assert_eq!(
        editor.handle_key_events(key(KeyCode::Backspace), 2, 1),
        Ok(Action::Draw(shown("ab\ncd", 1, 1)))
    );
    assert_eq!(
        editor.handle_key_events(key(KeyCode::Tab), 1, 1),
        Ok(Action::Draw(shown("ab\nc    d", 5, 1)))
    );
    assert_eq!(
        editor.handle_key_events(key(KeyCode::Enter), 5, 1),
        Ok(Action::Draw(shown("ab\nc    \nd", 0, 2)))
    );
    assert_eq!(
        editor.handle_key_events(InputEvent::Resize { width: 9, height: 2 }, 0, 2),
        Ok(Action::Draw(ScreenUpdate { text: Some(text("ab\nc    ")), cursor: None }))
    );
    assert!(!editor.exit);
    assert_eq!(
        editor.handle_key_events(
            InputEvent::Key { code: KeyCode::Char('q'), modifiers: control() },
            0,
            0
        ),
        Ok(Action::Nothing)
    );
    assert!(editor.exit);
}

#[test]
fn the_cursor_has_to_be_where_the_event_can_be_handled() {
    let mut editor = editor_with("ab", 80, 24);
    assert!(editor.can_handle(key(KeyCode::Char('a')), 65534, 65535));
    assert!(!editor.can_handle(key(KeyCode::Char('a')), 65535, 0));
    assert!(editor.can_handle(key(KeyCode::Tab), 65531, 0));
    assert!(!editor.can_handle(key(KeyCode::Tab), 65532, 0));
    assert!(editor.can_handle(key(KeyCode::Down), 65535, 65534));
    assert!(!editor.can_handle(key(KeyCode::Down), 0, 65535));
    assert!(editor.can_handle(key(KeyCode::Enter), 65535, 65534));
    assert!(!editor.can_handle(key(KeyCode::Enter), 0, 65535));
    assert!(editor.can_handle(key(KeyCode::Right), 65534, 65535));
    assert!(!editor.can_handle(key(KeyCode::Right), 65535, 65535));
    assert!(editor.can_handle(key(KeyCode::Left), 65535, 65535));
    assert!(editor.can_handle(key(KeyCode::Up), 65535, 65535));
    assert!(editor.can_handle(key(KeyCode::Backspace), 65535, 65535));
    assert!(editor.can_handle(key(KeyCode::Other), 65535, 65535));
    assert!(editor.can_handle(InputEvent::Other, 65535, 65535));
    assert!(editor.can_handle(InputEvent::Resize { width: 1, height: 1 }, 65535, 65535));
    editor.display.first_line_visible = 1;
    assert!(!editor.can_handle(key(KeyCode::Left), 0, 65535));
    assert!(!editor.can_handle(key(KeyCode::Up), 0, 65535));
    assert!(!editor.can_handle(key(KeyCode::Backspace), 0, 65535));
    assert!(!editor.can_handle(key(KeyCode::Char('a')), 0, 65535));
    assert!(!editor.can_handle(key(KeyCode::Down), 0, 65534));
    assert!(editor.can_handle(key(KeyCode::Down), 0, 65533));
    editor.mode = EditorMode::SaveMode;
    assert!(editor.can_handle(key(KeyCode::Enter), 0, 65535));
}

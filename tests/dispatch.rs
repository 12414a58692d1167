use cic::input::{command_actions, from_prompt, get_actions, insert_mode_actions, prompt_mode_actions, table_mode_actions};
use cic::{Action, Cursor, Dir, Editor, Key, Mode, PromptAction, PromptType, Table};

fn strings(rows: &[&[&str]]) -> Vec<Vec<String>> {
    rows.iter().map(|r| r.iter().map(|c| c.to_string()).collect()).collect()
}

fn editor_of(rows: &[&[&str]]) -> Editor {
    Editor::from_table(Table::from_rows(strings(rows)).expect("rows form a grid"))
}

fn at(x: usize, y: usize) -> Cursor {
    Cursor { x, y }
}

fn type_command(e: &mut Editor, text: &str) -> bool {
    e.do_action(Action::EnterPrompt(PromptType::Command));
    for ch in text.chars() {
        e.do_action(Action::Prompt(PromptType::Command, PromptAction::Push(ch)));
    }
    e.do_action(Action::Prompt(PromptType::Command, PromptAction::Submit))
}

fn assert_well_formed(e: &Editor) {
    let rows = e.table().rows();
    assert!(!rows.is_empty());
    let w = rows[0].len();
    assert!(w >= 1);
    assert!(rows.iter().all(|r| r.len() == w));
    let c = e.cursor();
    assert!(c.x < w && c.y < rows.len());
}

#[test]
fn move_right_then_clamped_at_last_column() {
    let mut e = editor_of(&[&["a", "b"], &["1", "2"]]);
    assert_eq!(e.cursor(), at(0, 0));
    e.do_action(Action::MoveCursor(Dir::Right));
    assert_eq!(e.cursor(), at(1, 0));
    e.do_action(Action::MoveCursor(Dir::Right));
    assert_eq!(e.cursor(), at(1, 0));
}

#[test]
fn add_row_below_on_last_row() {
    let mut e = editor_of(&[&["a", "b"], &["1", "2"]]);
    e.do_action(Action::MoveCursor(Dir::Down));
    assert_eq!(e.cursor(), at(0, 1));
    e.do_action(Action::AddRowBelow);
    assert_eq!(e.table().rows(), strings(&[&["a", "b"], &["1", "2"], &["", ""]]));
    assert_eq!(e.cursor(), at(0, 2));
}

#[test]
fn append_prompt_starts_from_cell_value() {
    let mut e = editor_of(&[&["abc"]]);
    e.do_action(Action::EnterPrompt(PromptType::EditAppend));
    assert_eq!(e.mode(), Mode::Prompt(PromptType::EditAppend));
    assert_eq!(e.buf(), "abc");
    e.do_action(Action::Prompt(PromptType::EditAppend, PromptAction::Push('d')));
    assert_eq!(e.buf(), "abcd");
    e.do_action(Action::Prompt(PromptType::EditAppend, PromptAction::Submit));
    assert_eq!(e.table().get(at(0, 0)), "abcd");
    assert_eq!(e.mode(), Mode::Table);
    assert_eq!(e.buf(), "");
}

#[test]
fn addcol_command_inserts_after_cursor() {
    let mut e = editor_of(&[&["a", "b"], &["1", "2"]]);
    e.do_action(Action::MoveCursor(Dir::Right));
    assert_eq!(e.cursor(), at(1, 0));
    let save = type_command(&mut e, "addcol");
    assert!(!save);
    assert_eq!(e.table().rows(), strings(&[&["a", "b", ""], &["1", "2", ""]]));
    assert_eq!(e.table().dims(), (3, 2));
    assert_eq!(e.mode(), Mode::Table);
}

#[test]
fn replace_prompt_starts_empty() {
    let mut e = editor_of(&[&["old"]]);
    e.do_action(Action::EnterPrompt(PromptType::EditReplace));
    assert_eq!(e.buf(), "");
    for ch in "new".chars() {
        e.do_action(Action::Prompt(PromptType::EditReplace, PromptAction::Push(ch)));
    }
    e.do_action(Action::Prompt(PromptType::EditReplace, PromptAction::Backspace));
    assert_eq!(e.buf(), "ne");
    e.do_action(Action::Prompt(PromptType::EditReplace, PromptAction::Submit));
    assert_eq!(e.table().get(at(0, 0)), "ne");
}

#[test]
fn prompt_exit_discards_buffer() {
    let mut e = editor_of(&[&["keep"]]);
    e.do_action(Action::EnterPrompt(PromptType::EditAppend));
    e.do_action(Action::Prompt(PromptType::EditAppend, PromptAction::Push('!')));
    e.do_action(Action::Prompt(PromptType::EditAppend, PromptAction::Exit));
    assert_eq!(e.mode(), Mode::Table);
    assert_eq!(e.buf(), "");
    assert_eq!(e.table().get(at(0, 0)), "keep");
}

#[test]
fn backspace_on_empty_buffer_keeps_it_empty() {
    let mut e = Editor::new();
    e.do_action(Action::EnterPrompt(PromptType::Command));
    e.do_action(Action::Prompt(PromptType::Command, PromptAction::Backspace));
    assert_eq!(e.buf(), "");
}

#[test]
fn write_command_requests_save_and_quit_exits() {
    let mut e = Editor::new();
    assert!(type_command(&mut e, "W"));
    assert_eq!(e.mode(), Mode::Table);
    assert!(e.do_action(Action::Save));
    assert!(!type_command(&mut e, "QUIT"));
    assert_eq!(e.mode(), Mode::Exit);
}

#[test]
fn unknown_command_does_nothing() {
    let mut e = editor_of(&[&["a"]]);
    assert!(!type_command(&mut e, "frobnicate"));
    assert_eq!(e.table().rows(), strings(&[&["a"]]));
    assert_eq!(e.mode(), Mode::Table);
}

#[test]
fn delcol_command_removes_cursor_column() {
    let mut e = editor_of(&[&["a", "b"], &["1", "2"]]);
    e.do_action(Action::MoveCursor(Dir::End));
    type_command(&mut e, "delcol");
    assert_eq!(e.table().rows(), strings(&[&["a"], &["1"]]));
    assert_eq!(e.cursor(), at(0, 0));
}

#[test]
fn insert_mode_edits_cell_in_place() {
    let mut e = editor_of(&[&["ab"]]);
    e.do_action(Action::EnterMode(Mode::Insert));
    assert_eq!(e.mode(), Mode::Insert);
    e.do_action(Action::Append('c'));
    assert_eq!(e.table().get(at(0, 0)), "abc");
    e.do_action(Action::Pop);
    e.do_action(Action::Pop);
    assert_eq!(e.table().get(at(0, 0)), "a");
    e.do_action(Action::Pop);
    e.do_action(Action::Pop);
    assert_eq!(e.table().get(at(0, 0)), "");
    e.do_action(Action::EnterMode(Mode::Table));
    assert_eq!(e.mode(), Mode::Table);
}

#[test]
fn carriage_return_on_last_row_adds_a_row() {
    let mut e = editor_of(&[&["a", "b"]]);
    e.do_action(Action::MoveCursor(Dir::Right));
    e.do_action(Action::CarriageReturn);
    assert_eq!(e.table().rows(), strings(&[&["a", "b"], &["", ""]]));
    assert_eq!(e.cursor(), at(0, 1));
}

#[test]
fn carriage_return_above_last_row_moves_down() {
    let mut e = editor_of(&[&["a", "b"], &["c", "d"], &["e", "f"]]);
    e.do_action(Action::MoveCursor(Dir::End));
    e.do_action(Action::CarriageReturn);
    assert_eq!(e.table().dims(), (2, 3));
    assert_eq!(e.cursor(), at(0, 1));
}

#[test]
fn movement_to_edges() {
    let mut e = editor_of(&[&["a", "b", "c"], &["d", "e", "f"], &["g", "h", "i"]]);
    e.do_action(Action::MoveCursor(Dir::Bottom));
    assert_eq!(e.cursor(), at(0, 2));
    e.do_action(Action::MoveCursor(Dir::End));
    assert_eq!(e.cursor(), at(2, 2));
    e.do_action(Action::MoveCursor(Dir::Down));
    assert_eq!(e.cursor(), at(2, 2));
    e.do_action(Action::MoveCursor(Dir::Top));
    e.do_action(Action::MoveCursor(Dir::Up));
    assert_eq!(e.cursor(), at(2, 0));
    e.do_action(Action::MoveCursor(Dir::Start));
    e.do_action(Action::MoveCursor(Dir::Left));
    assert_eq!(e.cursor(), at(0, 0));
}

#[test]
fn move_dir_on_cursor_reads_live_dimensions() {
    let t = Table::from_rows(strings(&[&["a", "b"], &["c", "d"]])).unwrap();
    let mut c = Cursor::new();
    c.move_dir(Dir::Down, &t);
    c.move_dir(Dir::Down, &t);
    assert_eq!(c, at(0, 1));
    c.move_dir(Dir::End, &t);
    assert_eq!(c, at(1, 1));
}

#[test]
fn add_row_above_and_col_left() {
    let mut e = editor_of(&[&["a", "b"]]);
    e.do_action(Action::MoveCursor(Dir::Right));
    e.do_action(Action::AddRowAbove);
    assert_eq!(e.table().rows(), strings(&[&["", ""], &["a", "b"]]));
    assert_eq!(e.cursor(), at(1, 0));
    e.do_action(Action::AddColLeft);
    assert_eq!(e.table().rows(), strings(&[&["", "", ""], &["a", "", "b"]]));
    assert_eq!(e.cursor(), at(0, 0));
}

#[test]
fn delete_row_of_cursor_and_clear_cell() {
    let mut e = editor_of(&[&["a"], &["b"]]);
    e.do_action(Action::MoveCursor(Dir::Down));
    e.do_action(Action::DeleteRow);
    assert_eq!(e.table().rows(), strings(&[&["a"]]));
    assert_eq!(e.cursor(), at(0, 0));
    e.do_action(Action::DeleteRow);
    assert_eq!(e.table().rows(), strings(&[&["a"]]));
    e.do_action(Action::ClearCell);
    assert_eq!(e.table().rows(), strings(&[&[""]]));
}

#[test]
fn every_action_keeps_grid_rectangular_and_cursor_inside() {
    let script = [
        Action::AddRowBelow,
        Action::AddColRight,
        Action::MoveCursor(Dir::End),
        Action::MoveCursor(Dir::Bottom),
        Action::DeleteCol,
        Action::DeleteRow,
        Action::CarriageReturn,
        Action::AddColLeft,
        Action::MoveCursor(Dir::Right),
        Action::DeleteCol,
        Action::DeleteCol,
        Action::DeleteCol,
        Action::DeleteRow,
        Action::DeleteRow,
        Action::DeleteRow,
        Action::Append('x'),
        Action::CarriageReturn,
        Action::CarriageReturn,
        Action::MoveCursor(Dir::Bottom),
        Action::DeleteRow,
    ];
    let mut e = editor_of(&[&["a", "b"], &["1", "2"]]);
    assert_well_formed(&e);
    for a in script {
        e.do_action(a);
        assert_well_formed(&e);
    }
    type_command(&mut e, "delcol");
    assert_well_formed(&e);
    type_command(&mut e, "addcol");
    assert_well_formed(&e);
}

#[test]
fn quit_from_any_mode() {
    let mut e = Editor::new();
    e.do_action(Action::EnterMode(Mode::Insert));
    e.do_action(Action::Quit);
    assert_eq!(e.mode(), Mode::Exit);
}

#[test]
fn align_view_keeps_cursor_visible() {
    let mut e = editor_of(&[&["a"], &["b"], &["c"], &["d"], &["e"]]);
    e.do_action(Action::MoveCursor(Dir::Bottom));
    e.align_view(2);
    assert_eq!(e.anchor().y, 3);
    e.align_view(2);
    assert_eq!(e.anchor().y, 3);
    e.do_action(Action::MoveCursor(Dir::Top));
    e.align_view(2);
    assert_eq!(e.anchor().y, 0);
}

#[test]
fn table_mode_bindings() {
    assert_eq!(table_mode_actions(Key::Char('j')), vec![Action::MoveCursor(Dir::Down)]);
    assert_eq!(table_mode_actions(Key::Up), vec![Action::MoveCursor(Dir::Up)]);
    assert_eq!(table_mode_actions(Key::Char('$')), vec![Action::MoveCursor(Dir::End)]);
    assert_eq!(table_mode_actions(Key::Char('q')), vec![Action::Quit]);
    assert_eq!(table_mode_actions(Key::Esc), vec![Action::Quit]);
    assert_eq!(table_mode_actions(Key::Char('o')), vec![Action::AddRowBelow]);
    assert_eq!(table_mode_actions(Key::Char('O')), vec![Action::AddRowAbove]);
    assert_eq!(table_mode_actions(Key::Char('I')), vec![Action::EnterMode(Mode::Insert)]);
    assert_eq!(table_mode_actions(Key::Char(':')), vec![Action::EnterPrompt(PromptType::Command)]);
    assert_eq!(table_mode_actions(Key::Char('z')), Vec::<Action>::new());
    assert_eq!(table_mode_actions(Key::Other), Vec::<Action>::new());
}

#[test]
fn insert_and_prompt_bindings() {
    assert_eq!(insert_mode_actions(Key::Tab), vec![Action::MoveCursor(Dir::Right)]);
    assert_eq!(insert_mode_actions(Key::BackTab), vec![Action::MoveCursor(Dir::Left)]);
    assert_eq!(insert_mode_actions(Key::Char('j')), vec![Action::Append('j')]);
    assert_eq!(insert_mode_actions(Key::Enter), vec![Action::CarriageReturn]);
    assert_eq!(insert_mode_actions(Key::Esc), vec![Action::EnterMode(Mode::Table)]);
    let p = PromptType::EditReplace;
    assert_eq!(prompt_mode_actions(p, Key::Char('x')), vec![Action::Prompt(p, PromptAction::Push('x'))]);
    assert_eq!(prompt_mode_actions(p, Key::Enter), vec![Action::Prompt(p, PromptAction::Submit)]);
    assert_eq!(prompt_mode_actions(p, Key::Tab), Vec::<Action>::new());
    assert_eq!(get_actions(Mode::Exit, Key::Char('j')), Vec::<Action>::new());
    assert_eq!(get_actions(Mode::Insert, Key::Backspace), vec![Action::Pop]);
}

#[test]
fn commands_are_case_insensitive() {
    assert_eq!(from_prompt("w".to_string()), vec![Action::Save]);
    assert_eq!(from_prompt("Write".to_string()), vec![Action::Save]);
    assert_eq!(from_prompt("Q".to_string()), vec![Action::Quit]);
    assert_eq!(from_prompt("quit".to_string()), vec![Action::Quit]);
    assert_eq!(from_prompt("ADDCOL".to_string()), vec![Action::AddColRight]);
    assert_eq!(from_prompt("DelCol".to_string()), vec![Action::DeleteCol]);
    assert_eq!(from_prompt("".to_string()), Vec::<Action>::new());
    assert_eq!(from_prompt("w extra".to_string()), vec![Action::Save]);
    assert_eq!(from_prompt("  AddCol\t".to_string()), vec![Action::AddColRight]);
    assert_eq!(from_prompt("   ".to_string()), Vec::<Action>::new());
    assert_eq!(from_prompt("writes".to_string()), Vec::<Action>::new());
    assert_eq!(command_actions("W"), Vec::<Action>::new());
    assert_eq!(command_actions("addcol"), vec![Action::AddColRight]);
}

use file_browser::ansi;
use file_browser::display::{display_file, truncate_with_ellipsis};
use file_browser::file::{File, FileType};
use file_browser::input::{ApplicationEvent, KeyCode, KeyModifiers};
use file_browser::update::{Reply, Request};
use file_browser::App;

fn entry(ftype: FileType, name: &str) -> File {
    File::new(ftype, name.to_string())
}

/// Brings an application up in `/d` with the given entries, a parent that
/// holds `d` alone, and text files that read "one", "two", "three".
fn shown(entries: Vec<File>) -> App {
    let mut app = App::new("/d".to_string());
    app.update(Reply::Tick { size: None });
    app.update(Reply::Entries(entries));
    app.update(Reply::Entries(vec![entry(FileType::Directory, "d")]));
    settle(&mut app);
    app
}

fn settle(app: &mut App) {
    loop {
        let reply = match app.request() {
            Request::Idle => break,
            Request::ReadText { .. } => Reply::Text("one\ntwo\nthree\n".to_string()),
            Request::ListDirectory { .. } => Reply::Entries(Vec::new()),
            Request::ReadHead { .. } => Reply::Head(None),
            _ => panic!("nothing else is asked for here"),
        };
        app.update(reply);
    }
}

fn press(app: &mut App, event: ApplicationEvent) {
    app.add_keybinding(KeyCode::F(9), KeyModifiers::none(), event);
    app.input(KeyCode::F(9), KeyModifiers::none());
    app.update(Reply::Tick { size: None });
    settle(app);
}

fn row(parent: Option<&File>, selected: bool, current: Option<&File>, info: &str) -> String {
    format!(
        "{} | {} {} | {}\r\n",
        display_file(parent, 14),
        if selected { "->" } else { "  " },
        display_file(current, 28),
        truncate_with_ellipsis(info, 28)
    )
}

#[test]
fn the_columns_share_the_width_one_to_two_to_two() {
    let app = shown(vec![entry(FileType::File, "a.txt")]);
    assert_eq!(app.width(), 80);
    let frame = app.display();
    let first = frame.split("\r\n").nth(1).unwrap();
    let plain: String = first
        .replace(ansi::WHITE, "")
        .replace(ansi::BLUE, "")
        .replace(ansi::RESET, "");
    // 14 + 3 + 2 + 1 + 28 + 3 + 28
    assert_eq!(plain.chars().count(), 79);
    assert_eq!(&plain[14..17], " | ");
    assert_eq!(&plain[17..19], "->");
    assert_eq!(&plain[48..51], " | ");
}

#[test]
fn a_frame_shows_both_panes_the_preview_and_the_messages() {
    let a = entry(FileType::File, "a.txt");
    let b = entry(FileType::Directory, "b");
    let d = entry(FileType::Directory, "d");
    let mut app = shown(vec![a.duplicate(), b.duplicate()]);
    press(&mut app, ApplicationEvent::SelectNext);
    press(&mut app, ApplicationEvent::DebugEvent);
    assert_eq!(app.current_selection(), 1);
    let expected = format!(
        "{}{}/d\r\n{}{}{}\r\nq!!\r\n",
        ansi::CLEAR,
        ansi::RESET,
        row(Some(&d), false, Some(&b), "one"),
        row(None, true, Some(&a), "two"),
        row(None, false, None, "three"),
    );
    assert_eq!(app.display(), expected);
}

#[test]
fn a_frame_without_entries_shows_the_head_and_the_messages() {
    let mut app = App::new("/nowhere".to_string());
    app.msg("first");
    app.msg("second");
    let expected =
        format!("{}{}/nowhere\r\n\r\nfirst\r\nsecond\r\n", ansi::CLEAR, ansi::RESET);
    assert_eq!(app.display(), expected);
}

#[test]
fn the_preview_lines_follow_the_rows_that_are_drawn_not_the_entries() {
    let entries: Vec<File> =
        (0..40).map(|i| entry(FileType::Directory, &format!("dir{:02}", i))).collect();
    let mut app = shown(entries);
    for _ in 0..20 {
        press(&mut app, ApplicationEvent::SelectNext);
    }
    assert_eq!(app.current_selection(), 20);
    assert_eq!(app.rows_to_print(1), (14, 26));
    let frame = app.display();
    let rows: Vec<&str> = frame.split("\r\n").collect();
    // head, twelve rows, the empty line, and the end
    assert_eq!(rows.len(), 1 + 12 + 1 + 1);
    assert!(rows[1].contains("dir14"));
    assert!(rows[1].contains("Directory"));
    assert!(rows[7].contains("-> "));
    assert!(rows[7].contains("dir20"));
    assert!(rows[12].contains("dir25"));
    assert_eq!(rows[13], "");
}

#[test]
fn debug_messages_take_rows_from_the_listing() {
    let entries: Vec<File> =
        (0..40).map(|i| entry(FileType::File, &format!("f{:02}.png", i))).collect();
    let mut app = shown(entries);
    assert_eq!(app.height(), 15);
    assert_eq!(app.rows_to_print(0), (0, 13));
    for _ in 0..6 {
        app.msg("m");
    }
    assert_eq!(app.rows_to_print(0), (0, 7));
    let frame = app.display();
    assert_eq!(frame.split("\r\n").count(), 1 + 7 + 1 + 6 + 1);
}

#[test]
fn the_longest_of_the_three_columns_gives_the_number_of_rows() {
    let app = shown(vec![entry(FileType::File, "a.txt")]);
    // one entry, one parent entry, three preview lines
    assert_eq!(app.rows_to_print(3), (0, 3));
    assert_eq!(app.rows_to_print(0), (0, 1));
    assert_eq!(app.rows_to_print(100), (0, 13));
}

#[test]
fn drawing_changes_nothing() {
    let app = shown(vec![entry(FileType::File, "a.txt")]);
    let first = app.display();
    let second = app.display();
    assert_eq!(first, second);
    assert_eq!(app.current_selection(), 0);
}

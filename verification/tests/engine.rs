use file_browser::external::{CommandReport, ProcessExit};
use file_browser::file::{File, FileType};
use file_browser::info::InfoType;
use file_browser::input::{ApplicationEvent, KeyCode, KeyModifiers};
use file_browser::update::{Phase, Reply, Request};
use file_browser::App;

/// Everything outside the engine, held in memory.
struct World {
    directories: Vec<(String, Vec<(FileType, String)>)>,
    heads: Vec<(String, Vec<u8>)>,
    texts: Vec<(String, String)>,
    sizes: Vec<(String, String)>,
    commands: Vec<(String, CommandOutcome)>,
    duration: Result<f32, String>,
    foreground: Result<(), String>,
    spawn: Result<u32, String>,
    exited: Vec<u32>,
    log: Vec<String>,
}

#[derive(Clone)]
enum CommandOutcome {
    Prints(String),
    Fails(i32),
    Missing(String),
}

impl World {
    fn new() -> World {
        World {
            directories: Vec::new(),
            heads: Vec::new(),
            texts: Vec::new(),
            sizes: Vec::new(),
            commands: Vec::new(),
            duration: Ok(1.0),
            foreground: Ok(()),
            spawn: Ok(4242),
            exited: Vec::new(),
            log: Vec::new(),
        }
    }

    fn directory(mut self, path: &str, entries: &[(FileType, &str)]) -> World {
        let entries = entries.iter().map(|(t, n)| (*t, n.to_string())).collect();
        self.directories.push((path.to_string(), entries));
        self
    }

    fn command(mut self, name: &str, outcome: CommandOutcome) -> World {
        self.commands.push((name.to_string(), outcome));
        self
    }

    fn entries(&self, path: &str) -> Vec<File> {
        match self.directories.iter().find(|(p, _)| p == path) {
            Some((_, entries)) => {
                entries.iter().map(|(t, n)| File::new(*t, n.clone())).collect()
            }
            None => Vec::new(),
        }
    }

    fn answer(&mut self, request: &Request) -> Reply {
        match request {
            Request::Idle => unreachable!(),
            Request::ListDirectory { path } => {
                self.log.push(format!("list {}", path));
                Reply::Entries(self.entries(path))
            }
            Request::ReadHead { path } => {
                self.log.push(format!("head {}", path));
                let head = self.heads.iter().find(|(p, _)| p == path).map(|(_, h)| h.clone());
                Reply::Head(head)
            }
            Request::ReadText { path } => {
                self.log.push(format!("text {}", path));
                let text = self.texts.iter().find(|(p, _)| p == path).map(|(_, t)| t.clone());
                Reply::Text(text.unwrap_or_default())
            }
            Request::FileSize { path } => {
                self.log.push(format!("size {}", path));
                Reply::Size(self.sizes.iter().find(|(p, _)| p == path).map(|(_, s)| s.clone()))
            }
            Request::IsDirectory { path } => {
                self.log.push(format!("is_dir {}", path));
                Reply::Directory(self.directories.iter().any(|(p, _)| p == path))
            }
            Request::RunCaptured { command, args } => {
                self.log.push(format!("run {} {:?}", command, args));
                let outcome = self.commands.iter().find(|(c, _)| c == command);
                let outcome = outcome.map(|(_, o)| o.clone());
                Reply::Captured(match outcome {
                    Some(CommandOutcome::Prints(stdout)) => {
                        CommandReport::Exited(ProcessExit { success: true, code: Some(0), stdout })
                    }
                    Some(CommandOutcome::Fails(code)) => CommandReport::Exited(ProcessExit {
                        success: false,
                        code: Some(code),
                        stdout: String::new(),
                    }),
                    Some(CommandOutcome::Missing(why)) => CommandReport::Failed(why),
                    None => CommandReport::Failed("No such file or directory".to_string()),
                })
            }
            Request::ParseDuration { text } => {
                self.log.push(format!("parse {:?}", text));
                Reply::Duration(self.duration.clone().map(f32::to_bits))
            }
            Request::SpawnForeground { command, args } => {
                self.log.push(format!("foreground {} {:?}", command, args));
                Reply::Finished(self.foreground.clone())
            }
            Request::SpawnDetached { command, args } => {
                self.log.push(format!("detached {} {:?}", command, args));
                Reply::Spawned(self.spawn.clone())
            }
            Request::PollChildren { ids } => {
                self.log.push(format!("poll {:?}", ids));
                Reply::Exited(self.exited.clone())
            }
        }
    }

    /// Runs one tick to its end and returns what was asked for on the way.
    fn tick(&mut self, app: &mut App, size: Option<(u16, u16)>) -> Vec<String> {
        self.log.clear();
        app.update(Reply::Tick { size });
        let mut rounds = 0;
        while !matches!(app.request(), Request::Idle) {
            let reply = self.answer(app.request());
            app.update(reply);
            rounds += 1;
            assert!(rounds < 1000, "the tick does not end");
        }
        assert_eq!(app.phase(), Phase::Idle);
        self.log.clone()
    }
}

fn project() -> World {
    World::new()
        .directory(
            "/home/u/proj",
            &[
                (FileType::File, "notes.txt"),
                (FileType::Directory, "src"),
                (FileType::File, ".gitignore"),
                (FileType::Directory, ".git"),
                (FileType::File, "tool"),
                (FileType::File, "song.mp3"),
                (FileType::Link, "link"),
                (FileType::Unknown, "socket"),
                (FileType::File, "paper.pdf"),
                (FileType::File, "photo.png"),
            ],
        )
        .directory("/home/u", &[(FileType::Directory, "proj"), (FileType::File, "other")])
        .directory("/home/u/proj/src", &[(FileType::File, "main.rs")])
        .directory("/home/u/proj/.git", &[(FileType::File, "HEAD")])
}

fn started(world: &mut World) -> App {
    let mut app = App::new("/home/u/proj".to_string());
    app.setup();
    world.tick(&mut app, None);
    app
}

fn press(app: &mut App, event: ApplicationEvent) {
    let key = KeyCode::F(200);
    app.add_keybinding(key, KeyModifiers::none(), event);
    app.input(key, KeyModifiers::none());
}

fn names(files: &Vec<File>) -> Vec<&str> {
    files.iter().map(|f| f.name.as_str()).collect()
}

fn select(world: &mut World, app: &mut App, name: &str) {
    let index = app
        .current_directory_contents()
        .iter()
        .position(|f| f.name == name)
        .expect("no such entry");
    while app.current_selection() < index {
        press(app, ApplicationEvent::SelectNext);
        world.tick(app, None);
    }
    while app.current_selection() > index {
        press(app, ApplicationEvent::SelectPrevious);
        world.tick(app, None);
    }
    assert_eq!(app.current_selection(), index);
}

fn messages(app: &App) -> Vec<&str> {
    app.debug_messages().iter().map(|m| m.as_str()).collect()
}

#[test]
fn a_fresh_application_waits_for_its_first_tick() {
    let app = App::new("/home/u/proj".to_string());
    assert_eq!(app.width(), 80);
    assert_eq!(app.height(), 15);
    assert_eq!(app.starting_directory(), "/home/u/proj");
    assert_eq!(app.current_directory(), "/home/u/proj");
    assert_eq!(app.current_selection(), 0);
    assert!(app.selected_item().is_none());
    assert!(app.selection_info().is_none());
    assert!(app.current_directory_contents().is_empty());
    assert!(app.parent_directory_contents().is_empty());
    assert!(app.should_run());
    assert!(app.directory_changed());
    assert!(app.show_hidden());
    assert!(app.new_events().is_empty());
    assert!(app.children().is_empty());
    assert!(app.debug_messages().is_empty());
    assert_eq!(app.phase(), Phase::Idle);
    assert!(matches!(app.request(), Request::Idle));
}

#[test]
fn the_first_tick_lists_both_panes_and_previews_the_selection() {
    let mut world = project();
    let mut app = App::new("/home/u/proj".to_string());
    let log = world.tick(&mut app, None);
    assert_eq!(log, vec!["list /home/u/proj", "list /home/u", "list /home/u/proj/.git"]);
    assert_eq!(
        names(app.current_directory_contents()),
        vec![
            ".git",
            "src",
            ".gitignore",
            "link",
            "notes.txt",
            "paper.pdf",
            "photo.png",
            "socket",
            "song.mp3",
            "tool"
        ]
    );
    assert_eq!(names(app.parent_directory_contents()), vec!["proj", "other"]);
    assert!(!app.directory_changed());
    assert_eq!(app.current_selection(), 0);
    assert_eq!(app.selected_item().map(|p| p.as_str()), Some("/home/u/proj/.git"));
    let info = app.selection_info().expect("a preview");
    assert_eq!(info.info_type, InfoType::Directory);
    assert_eq!(info.lines().len(), 1);
    assert!(info.lines()[0].contains("HEAD"));
}

#[test]
fn the_engine_asks_step_by_step() {
    let mut app = App::new("/d".to_string());
    app.update(Reply::Tick { size: None });
    assert_eq!(app.phase(), Phase::ListCurrent);
    assert!(matches!(app.request(), Request::ListDirectory { path } if path == "/d"));
    app.update(Reply::Entries(vec![File::new(FileType::File, "a.txt".to_string())]));
    assert_eq!(app.phase(), Phase::ListParent);
    assert!(matches!(app.request(), Request::ListDirectory { path } if path == "/"));
    app.update(Reply::Entries(Vec::new()));
    assert_eq!(app.phase(), Phase::PreviewText);
    assert!(matches!(app.request(), Request::ReadText { path } if path == "/d/a.txt"));
    app.update(Reply::Text("hello\nworld\n".to_string()));
    assert_eq!(app.phase(), Phase::Idle);
    assert!(matches!(app.request(), Request::Idle));
    assert_eq!(app.selection_info().unwrap().lines(), vec!["hello", "world"]);
}

#[test]
fn without_a_parent_the_parent_pane_lists_a_path_that_names_nothing() {
    let mut app = App::new("/".to_string());
    app.update(Reply::Tick { size: None });
    app.update(Reply::Entries(Vec::new()));
    assert!(matches!(app.request(), Request::ListDirectory { path } if path == "\\"));
}

#[test]
fn a_reply_that_does_not_answer_changes_nothing() {
    let mut app = App::new("/d".to_string());
    app.update(Reply::Tick { size: None });
    let wrong = vec![
        Reply::Tick { size: Some((200, 100)) },
        Reply::Head(Some(vec![1, 2, 3, 4])),
        Reply::Text("text".to_string()),
        Reply::Size(None),
        Reply::Directory(true),
        Reply::Captured(CommandReport::Failed("x".to_string())),
        Reply::Duration(Ok(0)),
        Reply::Finished(Ok(())),
        Reply::Spawned(Ok(1)),
        Reply::Exited(vec![1]),
    ];
    for reply in wrong {
        app.update(reply);
        assert_eq!(app.phase(), Phase::ListCurrent);
        assert!(matches!(app.request(), Request::ListDirectory { path } if path == "/d"));
        assert_eq!(app.width(), 80);
        assert!(app.debug_messages().is_empty());
        assert!(app.directory_changed());
        assert!(app.children().is_empty());
    }
    // entries are no answer when nothing was asked for
    let mut idle = App::new("/d".to_string());
    idle.update(Reply::Entries(vec![File::new(FileType::File, "a".to_string())]));
    assert_eq!(idle.phase(), Phase::Idle);
    assert!(idle.current_directory_contents().is_empty());
}

#[test]
fn the_size_of_the_terminal_is_taken_in_at_every_tick() {
    let mut world = project();
    let mut app = started(&mut world);
    world.tick(&mut app, Some((200, 50)));
    assert_eq!((app.width(), app.height()), (195, 48));
    world.tick(&mut app, None);
    assert_eq!((app.width(), app.height()), (195, 48));
    world.tick(&mut app, Some((85, 17)));
    assert_eq!((app.width(), app.height()), (80, 15));
    world.tick(&mut app, Some((86, 18)));
    assert_eq!((app.width(), app.height()), (81, 16));
    world.tick(&mut app, Some((0, 0)));
    assert_eq!((app.width(), app.height()), (80, 15));
    world.tick(&mut app, Some((u16::MAX, u16::MAX)));
    assert_eq!((app.width(), app.height()), (65530, 65533));
}

#[test]
fn the_selection_stops_at_the_first_entry() {
    let mut world = project();
    let mut app = started(&mut world);
    assert_eq!(app.current_selection(), 0);
    press(&mut app, ApplicationEvent::SelectPrevious);
    world.tick(&mut app, None);
    assert_eq!(app.current_selection(), 0);
    assert_eq!(app.selected_item().map(|p| p.as_str()), Some("/home/u/proj/.git"));
}

#[test]
fn the_selection_stops_at_the_last_entry() {
    let mut world = project();
    let mut app = started(&mut world);
    for _ in 0..9 {
        press(&mut app, ApplicationEvent::SelectNext);
    }
    world.tick(&mut app, None);
    assert_eq!(app.current_selection(), 9);
    press(&mut app, ApplicationEvent::SelectNext);
    world.tick(&mut app, None);
    assert_eq!(app.current_selection(), 9);
    assert_eq!(app.selected_item().map(|p| p.as_str()), Some("/home/u/proj/tool"));
}

#[test]
fn the_selection_stays_at_zero_in_an_empty_directory() {
    let mut world = World::new();
    let mut app = App::new("/empty".to_string());
    world.tick(&mut app, None);
    press(&mut app, ApplicationEvent::SelectNext);
    world.tick(&mut app, None);
    assert_eq!(app.current_selection(), 0);
    press(&mut app, ApplicationEvent::SelectPrevious);
    world.tick(&mut app, None);
    assert_eq!(app.current_selection(), 0);
    assert!(app.selected_item().is_none());
}

#[test]
fn events_are_handled_in_the_order_in_which_they_came() {
    let mut world = project();
    let mut app = started(&mut world);
    press(&mut app, ApplicationEvent::SelectNext);
    press(&mut app, ApplicationEvent::SelectNext);
    press(&mut app, ApplicationEvent::SelectPrevious);
    press(&mut app, ApplicationEvent::DebugEvent);
    press(&mut app, ApplicationEvent::SelectNext);
    let log = world.tick(&mut app, None);
    assert_eq!(app.current_selection(), 2);
    assert_eq!(
        log,
        vec![
            "list /home/u/proj/src",
            "text /home/u/proj/.gitignore",
            "list /home/u/proj/src",
            "text /home/u/proj/.gitignore",
        ]
    );
    assert_eq!(messages(&app), vec!["q!!"]);
    assert!(app.new_events().is_empty());
}

#[test]
fn toggling_hidden_entries_lists_anew_and_resets_the_selection() {
    let mut world = project();
    let mut app = started(&mut world);
    select(&mut world, &mut app, "notes.txt");
    assert!(app.show_hidden());
    press(&mut app, ApplicationEvent::ToggleShowHidden);
    let log = world.tick(&mut app, None);
    assert!(log.is_empty());
    assert!(!app.show_hidden());
    assert!(app.directory_changed());
    assert_eq!(app.current_selection(), 4);
    let log = world.tick(&mut app, None);
    assert_eq!(log, vec!["list /home/u/proj", "list /home/u", "list /home/u/proj/src"]);
    assert!(!app.directory_changed());
    assert_eq!(app.current_selection(), 0);
    assert_eq!(
        names(app.current_directory_contents()),
        vec!["src", "link", "notes.txt", "paper.pdf", "photo.png", "socket", "song.mp3", "tool"]
    );
    assert_eq!(app.selected_item().map(|p| p.as_str()), Some("/home/u/proj/src"));
    press(&mut app, ApplicationEvent::ToggleShowHidden);
    world.tick(&mut app, None);
    assert!(app.show_hidden());
    assert!(app.directory_changed());
}

#[test]
fn moving_up_enters_the_parent() {
    let mut world = project();
    let mut app = started(&mut world);
    press(&mut app, ApplicationEvent::NavigateUp);
    world.tick(&mut app, None);
    assert_eq!(app.current_directory(), "/home/u");
    assert!(app.directory_changed());
    let log = world.tick(&mut app, None);
    assert_eq!(log, vec!["list /home/u", "list /home", "list /home/u/proj"]);
    assert_eq!(names(app.current_directory_contents()), vec!["proj", "other"]);
    assert_eq!(app.current_selection(), 0);
    assert!(app.debug_messages().is_empty());
}

#[test]
fn moving_up_from_the_root_is_reported() {
    let mut world = World::new();
    let mut app = App::new("/".to_string());
    world.tick(&mut app, None);
    press(&mut app, ApplicationEvent::NavigateUp);
    world.tick(&mut app, None);
    assert_eq!(app.current_directory(), "/");
    assert!(!app.directory_changed());
    assert_eq!(messages(&app), vec!["Error: No parent directory available"]);
}

#[test]
fn moving_down_enters_the_selected_directory() {
    let mut world = project();
    let mut app = started(&mut world);
    select(&mut world, &mut app, "src");
    press(&mut app, ApplicationEvent::NavigateDown);
    let log = world.tick(&mut app, None);
    assert_eq!(log, vec!["is_dir /home/u/proj/src"]);
    assert_eq!(app.current_directory(), "/home/u/proj/src");
    assert!(app.directory_changed());
    let log = world.tick(&mut app, None);
    assert_eq!(log, vec!["list /home/u/proj/src", "list /home/u/proj", "text /home/u/proj/src/main.rs"]);
    assert_eq!(names(app.current_directory_contents()), vec!["main.rs"]);
    assert_eq!(app.parent_directory_contents().len(), 10);
}

#[test]
fn moving_down_on_a_text_file_opens_the_editor_at_the_next_tick() {
    let mut world = project().command("micro", CommandOutcome::Prints(String::new()));
    let mut app = started(&mut world);
    select(&mut world, &mut app, "notes.txt");
    press(&mut app, ApplicationEvent::NavigateDown);
    let log = world.tick(&mut app, None);
    assert_eq!(log, vec!["is_dir /home/u/proj/notes.txt"]);
    assert_eq!(app.new_events(), &vec![ApplicationEvent::OpenText]);
    assert!(app.debug_messages().is_empty());
    assert_eq!(app.current_directory(), "/home/u/proj");
    let log = world.tick(&mut app, None);
    assert_eq!(log, vec!["run micro [\"/home/u/proj/notes.txt\"]"]);
    assert!(app.debug_messages().is_empty());
    assert!(app.new_events().is_empty());
}

#[test]
fn moving_down_opens_each_category_with_its_own_event() {
    let cases = [
        ("photo.png", Some(ApplicationEvent::OpenImage)),
        ("paper.pdf", Some(ApplicationEvent::ReadPdf)),
        ("song.mp3", Some(ApplicationEvent::PlayMedia)),
        ("tool", Some(ApplicationEvent::OpenExecutable)),
        (".gitignore", Some(ApplicationEvent::OpenText)),
        ("link", None),
    ];
    for (name, event) in cases {
        let mut world = project();
        world.heads.push(("/home/u/proj/tool".to_string(), b"\x7FELF....".to_vec()));
        let mut app = started(&mut world);
        select(&mut world, &mut app, name);
        press(&mut app, ApplicationEvent::NavigateDown);
        world.tick(&mut app, None);
        let expected: Vec<ApplicationEvent> = event.into_iter().collect();
        assert_eq!(app.new_events(), &expected, "{}", name);
        assert!(app.debug_messages().is_empty(), "{}", name);
    }
}

#[test]
fn a_file_of_unknown_category_is_opened_as_an_image() {
    let mut world = project();
    world.heads.push(("/home/u/proj/tool".to_string(), vec![0xff, 0xfe, 0xfd, 0xfc]));
    let mut app = started(&mut world);
    select(&mut world, &mut app, "tool");
    assert_eq!(app.selection_info().unwrap().info_type, InfoType::Unknown);
    press(&mut app, ApplicationEvent::NavigateDown);
    world.tick(&mut app, None);
    assert_eq!(app.new_events(), &vec![ApplicationEvent::OpenImage]);
}

#[test]
fn moving_down_without_anything_to_go_by_is_reported() {
    let mut world = World::new();
    let mut app = App::new("/empty".to_string());
    world.tick(&mut app, None);
    press(&mut app, ApplicationEvent::NavigateDown);
    let log = world.tick(&mut app, None);
    assert!(log.is_empty());
    assert_eq!(messages(&app), vec!["Error: No item selected!"]);
    assert!(app.new_events().is_empty());
}

#[test]
fn a_directory_that_cannot_be_entered_is_reported() {
    let mut world = project();
    let mut app = started(&mut world);
    select(&mut world, &mut app, "src");
    world.directories.retain(|(p, _)| p != "/home/u/proj/src");
    press(&mut app, ApplicationEvent::NavigateDown);
    world.tick(&mut app, None);
    assert_eq!(app.current_directory(), "/home/u/proj");
    assert_eq!(messages(&app), vec!["Error: Selected item is not a directory!"]);
    assert!(app.new_events().is_empty());
}

#[test]
fn a_link_to_a_directory_can_be_entered() {
    let mut world = project().directory("/home/u/proj/link", &[(FileType::File, "x")]);
    let mut app = started(&mut world);
    select(&mut world, &mut app, "link");
    assert_eq!(app.selection_info().unwrap().info_type, InfoType::Link);
    press(&mut app, ApplicationEvent::NavigateDown);
    world.tick(&mut app, None);
    assert_eq!(app.current_directory(), "/home/u/proj/link");
    assert!(app.directory_changed());
}

#[test]
fn an_entry_of_unknown_kind_selects_nothing_and_keeps_the_last_preview() {
    let mut world = project();
    let mut app = started(&mut world);
    select(&mut world, &mut app, "photo.png");
    assert_eq!(app.selection_info().unwrap().info_type, InfoType::Image);
    select(&mut world, &mut app, "socket");
    assert!(app.selected_item().is_none());
    assert_eq!(app.selection_info().unwrap().info_type, InfoType::Image);
    // the stale preview asks for the image viewer, which finds nothing selected
    press(&mut app, ApplicationEvent::NavigateDown);
    world.tick(&mut app, None);
    assert_eq!(app.new_events(), &vec![ApplicationEvent::OpenImage]);
    world.tick(&mut app, None);
    assert_eq!(messages(&app), vec!["Error: No item selected!"]);
}

#[test]
fn each_viewer_is_run_with_its_arguments() {
    let cases = [
        (ApplicationEvent::OpenImage, "run pfiew [\"--input=/home/u/proj/.git\"]"),
        (ApplicationEvent::OpenText, "run micro [\"/home/u/proj/.git\"]"),
        (ApplicationEvent::ReadPdf, "run zathura [\"/home/u/proj/.git\"]"),
        (ApplicationEvent::OpenExecutable, "run /home/u/proj/.git []"),
    ];
    for (event, expected) in cases {
        let mut world = project()
            .command("pfiew", CommandOutcome::Prints("ok".to_string()))
            .command("micro", CommandOutcome::Prints("ok".to_string()))
            .command("zathura", CommandOutcome::Prints("ok".to_string()))
            .command("/home/u/proj/.git", CommandOutcome::Prints("ok".to_string()));
        let mut app = started(&mut world);
        press(&mut app, event);
        let log = world.tick(&mut app, None);
        assert_eq!(log, vec![expected]);
        assert!(app.debug_messages().is_empty(), "a viewer that succeeds leaves no message");
    }
}

#[test]
fn a_viewer_is_asked_for_without_a_message() {
    let mut world = project();
    let mut app = started(&mut world);
    app.msg("earlier");
    press(&mut app, ApplicationEvent::OpenText);
    app.update(Reply::Tick { size: None });
    assert_eq!(app.phase(), Phase::Command);
    assert!(matches!(
        app.request(),
        Request::RunCaptured { command, args }
            if command == "micro" && args == &vec!["/home/u/proj/.git".to_string()]
    ));
    assert_eq!(messages(&app), vec!["earlier"]);
}

#[test]
fn a_failed_command_leaves_one_message_and_the_loop_goes_on() {
    for earlier in 0..5usize {
        let mut world = project().command("micro", CommandOutcome::Fails(2));
        let mut app = started(&mut world);
        for i in 0..earlier {
            app.msg(&format!("earlier {}", i));
        }
        let before: Vec<String> = app.debug_messages().clone();
        press(&mut app, ApplicationEvent::OpenText);
        app.update(Reply::Tick { size: None });
        assert_eq!(app.phase(), Phase::Command);
        assert_eq!(app.debug_messages(), &before);
        app.update(Reply::Captured(CommandReport::Exited(ProcessExit {
            success: false,
            code: Some(2),
            stdout: String::new(),
        })));
        assert_eq!(app.debug_messages().len(), earlier + 1);
        assert_eq!(&app.debug_messages()[..earlier], &before[..]);
        assert_eq!(
            messages(&app).last().copied(),
            Some("Error: Executing external command failed with code: 2")
        );
        assert_eq!(app.phase(), Phase::Idle);
        assert!(app.should_run());
        assert_eq!(app.current_directory(), "/home/u/proj");
        assert_eq!(app.current_selection(), 0);
        // the next event is handled as usual
        press(&mut app, ApplicationEvent::SelectNext);
        world.tick(&mut app, None);
        assert_eq!(app.current_selection(), 1);
    }
}

#[test]
fn a_failed_command_in_a_full_buffer_pushes_the_oldest_message_out() {
    let mut world = project().command("micro", CommandOutcome::Fails(3));
    let mut app = started(&mut world);
    for i in 0..6 {
        app.msg(&format!("earlier {}", i));
    }
    press(&mut app, ApplicationEvent::OpenText);
    world.tick(&mut app, None);
    assert_eq!(
        messages(&app),
        vec![
            "earlier 1",
            "earlier 2",
            "earlier 3",
            "earlier 4",
            "earlier 5",
            "Error: Executing external command failed with code: 3"
        ]
    );
}

#[test]
fn a_command_that_cannot_be_started_is_reported_with_the_reason() {
    let mut world =
        project().command("zathura", CommandOutcome::Missing("os error 2".to_string()));
    let mut app = started(&mut world);
    press(&mut app, ApplicationEvent::ReadPdf);
    world.tick(&mut app, None);
    assert_eq!(messages(&app), vec!["Error: os error 2"]);
}

#[test]
fn events_behind_a_failed_one_are_still_handled() {
    let mut world = project().command("micro", CommandOutcome::Fails(1));
    let mut app = started(&mut world);
    press(&mut app, ApplicationEvent::OpenText);
    press(&mut app, ApplicationEvent::SelectNext);
    press(&mut app, ApplicationEvent::Close);
    world.tick(&mut app, None);
    assert_eq!(app.current_selection(), 1);
    assert!(!app.should_run());
    assert_eq!(messages(&app), vec!["Error: Executing external command failed with code: 1"]);
}

#[test]
fn the_debug_messages_never_exceed_six() {
    let mut world = project();
    let mut app = started(&mut world);
    for round in 0..5 {
        for _ in 0..3 {
            press(&mut app, ApplicationEvent::DebugEvent);
        }
        world.tick(&mut app, None);
        assert!(app.debug_messages().len() <= 6);
        assert_eq!(app.debug_messages().len(), std::cmp::min(6, 3 * (round + 1)));
    }
}

#[test]
fn the_oldest_debug_message_gives_way() {
    let mut app = App::new("/".to_string());
    for i in 0..6 {
        app.msg(&format!("message {}", i));
    }
    assert_eq!(app.debug_messages().len(), 6);
    assert_eq!(app.debug_messages()[0], "message 0");
    app.msg("message 6");
    assert_eq!(
        messages(&app),
        vec!["message 1", "message 2", "message 3", "message 4", "message 5", "message 6"]
    );
}

#[test]
fn closing_ends_the_run() {
    let mut world = project();
    let mut app = started(&mut world);
    press(&mut app, ApplicationEvent::Close);
    world.tick(&mut app, None);
    assert!(!app.should_run());
}

#[test]
fn text_files_are_previewed_by_their_text() {
    let mut world = project();
    world.texts.push(("/home/u/proj/notes.txt".to_string(), "first\nsecond\n".to_string()));
    let mut app = started(&mut world);
    select(&mut world, &mut app, "notes.txt");
    let info = app.selection_info().unwrap();
    assert_eq!(info.info_type, InfoType::Text);
    assert_eq!(info.lines(), vec!["first", "second"]);
}

#[test]
fn a_file_without_telling_name_is_classified_by_its_leading_bytes() {
    let mut world = project().command("ldd", CommandOutcome::Prints("  libc.so.6\n".to_string()));
    world.heads.push(("/home/u/proj/tool".to_string(), b"\x7FELF\x02\x01\x01".to_vec()));
    world.sizes.push(("/home/u/proj/tool".to_string(), "0.12 MB".to_string()));
    let mut app = started(&mut world);
    for _ in 0..8 {
        press(&mut app, ApplicationEvent::SelectNext);
        world.tick(&mut app, None);
    }
    press(&mut app, ApplicationEvent::SelectNext);
    let log = world.tick(&mut app, None);
    assert_eq!(
        log,
        vec![
            "head /home/u/proj/tool",
            "run ldd [\"/home/u/proj/tool\"]",
            "size /home/u/proj/tool"
        ]
    );
    let info = app.selection_info().unwrap();
    assert_eq!(info.info_type, InfoType::Executable);
    assert_eq!(info.lines(), vec!["Executable 0.12 MB", "libc.so.6"]);
}

#[test]
fn a_lister_that_fails_does_not_fail_the_preview() {
    let mut world = project().command("ldd", CommandOutcome::Fails(1));
    world.heads.push(("/home/u/proj/tool".to_string(), b"\x7FELF".to_vec()));
    let mut app = started(&mut world);
    select(&mut world, &mut app, "tool");
    let info = app.selection_info().unwrap();
    assert_eq!(info.info_type, InfoType::Executable);
    assert_eq!(info.lines(), vec!["Executable Unknown size", "Unable to run ldd"]);
    assert!(app.debug_messages().is_empty());
}

#[test]
fn text_without_extension_is_recognised_and_previewed() {
    let mut world = project();
    world.heads.push(("/home/u/proj/tool".to_string(), b"#!/bin/sh\necho hi\n".to_vec()));
    world.texts.push(("/home/u/proj/tool".to_string(), "#!/bin/sh\necho hi\n".to_string()));
    let mut app = started(&mut world);
    select(&mut world, &mut app, "tool");
    let info = app.selection_info().unwrap();
    assert_eq!(info.info_type, InfoType::Text);
    assert_eq!(info.lines(), vec!["#!/bin/sh", "echo hi"]);
}

#[test]
fn audio_is_previewed_by_its_metadata() {
    let mut world =
        project().command("metadata", CommandOutcome::Prints("artist: x\n title: y \n".to_string()));
    let mut app = started(&mut world);
    select(&mut world, &mut app, "song.mp3");
    assert!(world.log.contains(&"run metadata [\"/home/u/proj/song.mp3\"]".to_string()));
    let info = app.selection_info().unwrap();
    assert_eq!(info.info_type, InfoType::Audio);
    assert_eq!(info.lines(), vec!["Audio", "artist: x", "title: y"]);
}

#[test]
fn media_without_metadata_says_so() {
    let mut world = project();
    let mut app = started(&mut world);
    select(&mut world, &mut app, "song.mp3");
    assert_eq!(app.selection_info().unwrap().lines(), vec!["Audio", "Unable to get metadata"]);
}

#[test]
fn images_and_documents_are_previewed_by_their_category() {
    let mut world = project();
    let mut app = started(&mut world);
    select(&mut world, &mut app, "photo.png");
    assert_eq!(app.selection_info().unwrap().lines(), vec!["Image"]);
    select(&mut world, &mut app, "paper.pdf");
    assert_eq!(app.selection_info().unwrap().lines(), vec!["Pdf"]);
    select(&mut world, &mut app, "link");
    assert_eq!(app.selection_info().unwrap().lines(), vec!["Link"]);
}

#[test]
fn short_media_is_played_beside_the_application_and_tracked() {
    let mut world = project().command("ffprobe", CommandOutcome::Prints("0.734000\n".to_string()));
    world.duration = Ok(0.734);
    world.spawn = Ok(77);
    let mut app = started(&mut world);
    select(&mut world, &mut app, "song.mp3");
    press(&mut app, ApplicationEvent::PlayMedia);
    let log = world.tick(&mut app, None);
    assert_eq!(
        log,
        vec![
            "run ffprobe [\"-show_entries\", \"format=duration\", \"-of\", \
             \"default=noprint_wrappers=1:nokey=1\", \"/home/u/proj/song.mp3\"]",
            "parse \"0.734000\"",
            "detached mpv [\"/home/u/proj/song.mp3\", \"--really-quiet\", \
             \"--no-input-default-bindings\", \"--no-config\", \"--volume=50\"]",
            "poll [77]",
        ]
    );
    // present on the tick after the start
    assert_eq!(app.children(), vec![77]);
    let log = world.tick(&mut app, None);
    assert_eq!(log, vec!["poll [77]"]);
    assert_eq!(app.children(), vec![77]);
    // the process ends; the next sweep finds it gone
    world.exited = vec![77];
    world.tick(&mut app, None);
    assert!(app.children().is_empty());
    let log = world.tick(&mut app, None);
    assert!(log.is_empty());
    assert!(app.debug_messages().is_empty());
}

#[test]
fn long_media_takes_over_the_terminal() {
    let mut world = project().command("ffprobe", CommandOutcome::Prints(" 215.5 \nrest\n".to_string()));
    world.duration = Ok(215.5);
    let mut app = started(&mut world);
    select(&mut world, &mut app, "song.mp3");
    press(&mut app, ApplicationEvent::PlayMedia);
    let log = world.tick(&mut app, None);
    assert_eq!(log.len(), 3);
    assert_eq!(log[1], "parse \"215.5\"");
    assert_eq!(log[2], "foreground mpv [\"/home/u/proj/song.mp3\"]");
    assert!(app.children().is_empty());
    assert!(app.debug_messages().is_empty());
}

#[test]
fn media_of_exactly_the_threshold_is_short() {
    let mut world = project().command("ffprobe", CommandOutcome::Prints("1.5\n".to_string()));
    world.duration = Ok(1.5);
    let mut app = started(&mut world);
    press(&mut app, ApplicationEvent::PlayMedia);
    let log = world.tick(&mut app, None);
    assert!(log[2].starts_with("detached mpv"));
}

#[test]
fn a_probe_that_fails_is_reported_with_its_arguments() {
    let mut world = project().command("ffprobe", CommandOutcome::Fails(1));
    let mut app = started(&mut world);
    press(&mut app, ApplicationEvent::PlayMedia);
    let log = world.tick(&mut app, None);
    assert_eq!(log.len(), 1);
    assert_eq!(
        messages(&app),
        vec![
            "Error: Executing ffprobe [\"-show_entries\", \"format=duration\", \"-of\", \
             \"default=noprint_wrappers=1:nokey=1\", \"/home/u/proj/.git\"] failed with code: 1"
        ]
    );
}

#[test]
fn a_probe_that_is_missing_or_silent_is_reported() {
    let mut world = project();
    let mut app = started(&mut world);
    press(&mut app, ApplicationEvent::PlayMedia);
    world.tick(&mut app, None);
    assert_eq!(messages(&app), vec!["Error: No such file or directory"]);

    let mut world = project().command("ffprobe", CommandOutcome::Prints(String::new()));
    let mut app = started(&mut world);
    press(&mut app, ApplicationEvent::PlayMedia);
    world.tick(&mut app, None);
    assert_eq!(messages(&app), vec!["Error: No media length reported"]);
}

#[test]
fn a_length_that_cannot_be_read_is_reported() {
    let mut world = project().command("ffprobe", CommandOutcome::Prints("N/A\n".to_string()));
    world.duration = Err("invalid float literal".to_string());
    let mut app = started(&mut world);
    press(&mut app, ApplicationEvent::PlayMedia);
    let log = world.tick(&mut app, None);
    assert_eq!(log.len(), 2);
    assert_eq!(messages(&app), vec!["Error: invalid float literal"]);
}

#[test]
fn a_player_that_cannot_be_started_is_reported() {
    let mut world = project().command("ffprobe", CommandOutcome::Prints("0.2\n".to_string()));
    world.duration = Ok(0.2);
    world.spawn = Err("mpv: not found".to_string());
    let mut app = started(&mut world);
    press(&mut app, ApplicationEvent::PlayMedia);
    world.tick(&mut app, None);
    assert!(app.children().is_empty());
    assert_eq!(messages(&app), vec!["Error: mpv: not found"]);

    let mut world = project().command("ffprobe", CommandOutcome::Prints("20\n".to_string()));
    world.duration = Ok(20.0);
    world.foreground = Err("terminal lost".to_string());
    let mut app = started(&mut world);
    press(&mut app, ApplicationEvent::PlayMedia);
    world.tick(&mut app, None);
    assert_eq!(messages(&app), vec!["Error: terminal lost"]);
}

#[test]
fn playing_with_nothing_selected_is_reported() {
    let mut world = World::new();
    let mut app = App::new("/empty".to_string());
    world.tick(&mut app, None);
    for event in [
        ApplicationEvent::PlayMedia,
        ApplicationEvent::OpenText,
        ApplicationEvent::OpenImage,
        ApplicationEvent::OpenExecutable,
        ApplicationEvent::ReadPdf,
    ] {
        press(&mut app, event);
    }
    let log = world.tick(&mut app, None);
    assert!(log.is_empty());
    assert_eq!(messages(&app), vec!["Error: No item selected!"; 5]);
}

#[test]
fn the_selected_item_can_be_set_by_its_path() {
    let mut app = App::new("/d".to_string());
    app.update(Reply::Tick { size: None });
    app.update(Reply::Entries(vec![File::new(FileType::Link, "l".to_string())]));
    app.update(Reply::Entries(Vec::new()));
    assert_eq!(app.selected_item().map(|p| p.as_str()), Some("/d/l"));
    app.select_item("/elsewhere/l".to_string());
    assert_eq!(app.selected_item().map(|p| p.as_str()), Some("/elsewhere/l"));
    assert_eq!(app.selection_info().unwrap().info_type, InfoType::Link);
}

#[test]
fn the_parent_can_be_entered_by_its_path() {
    let mut app = App::new("/a/b".to_string());
    app.enter_parent(Some("/a".to_string()));
    assert_eq!(app.current_directory(), "/a");
    assert!(app.directory_changed());
    app.enter_parent(None);
    assert_eq!(app.current_directory(), "/a");
    assert_eq!(messages(&app), vec!["Error: No parent directory available"]);
}

#[test]
fn a_file_with_an_unlisted_extension_is_classified_by_its_contents() {
    let mut world = World::new()
        .directory(
            "/d",
            &[(FileType::File, "prog.bin"), (FileType::File, "text.dat"), (FileType::File, "x.blob")],
        )
        .command("ldd", CommandOutcome::Prints("libc.so.6\n".to_string()));
    world.heads.push(("/d/prog.bin".to_string(), b"\x7FELF\x02\x01\x01\x00".to_vec()));
    world.heads.push(("/d/text.dat".to_string(), b"hi\n".to_vec()));
    world.texts.push(("/d/text.dat".to_string(), "hi\n".to_string()));
    world.heads.push(("/d/x.blob".to_string(), vec![0xff, 0x00, 0xfe]));
    let mut app = App::new("/d".to_string());
    let log = world.tick(&mut app, None);
    assert_eq!(
        log,
        vec![
            "list /d",
            "list /",
            "head /d/prog.bin",
            "run ldd [\"/d/prog.bin\"]",
            "size /d/prog.bin"
        ]
    );
    assert_eq!(app.selection_info().unwrap().info_type, InfoType::Executable);
    select(&mut world, &mut app, "text.dat");
    assert_eq!(world.log, vec!["head /d/text.dat", "text /d/text.dat"]);
    assert_eq!(app.selection_info().unwrap().info_type, InfoType::Text);
    assert_eq!(app.selection_info().unwrap().lines(), vec!["hi"]);
    select(&mut world, &mut app, "x.blob");
    assert_eq!(app.selection_info().unwrap().info_type, InfoType::Unknown);
}

#[test]
fn an_empty_file_is_text_and_a_file_that_cannot_be_read_is_unknown() {
    let mut world =
        World::new().directory("/d", &[(FileType::File, "empty"), (FileType::File, "locked")]);
    world.heads.push(("/d/empty".to_string(), Vec::new()));
    let mut app = App::new("/d".to_string());
    world.tick(&mut app, None);
    assert_eq!(app.selected_item().map(|p| p.as_str()), Some("/d/empty"));
    assert_eq!(app.selection_info().unwrap().info_type, InfoType::Text);
    assert_eq!(app.selection_info().unwrap().lines(), vec!["Text"]);
    select(&mut world, &mut app, "locked");
    assert_eq!(world.log, vec!["head /d/locked"]);
    assert_eq!(app.selection_info().unwrap().info_type, InfoType::Unknown);
    assert_eq!(app.selection_info().unwrap().lines(), vec!["Unknown"]);
    assert!(app.debug_messages().is_empty());
}

#[test]
fn a_probe_that_fails_shows_its_arguments_in_escaped_form() {
    let mut world = World::new()
        .directory("/d", &[(FileType::File, "a \"b\".mp3")])
        .command("ffprobe", CommandOutcome::Fails(7));
    let mut app = App::new("/d".to_string());
    world.tick(&mut app, None);
    press(&mut app, ApplicationEvent::PlayMedia);
    world.tick(&mut app, None);
    assert_eq!(
        messages(&app),
        vec![
            "Error: Executing ffprobe [\"-show_entries\", \"format=duration\", \"-of\", \
             \"default=noprint_wrappers=1:nokey=1\", \"/d/a \\\"b\\\".mp3\"] failed with code: 7"
        ]
    );
}

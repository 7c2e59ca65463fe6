//! The update engine: a state machine that takes the outcome of the outside
//! work it asked for and says what it needs next.
//!
//! A tick starts with [`Reply::Tick`]. The engine takes in the size of the
//! terminal, lists both panes anew where the directory has changed, handles
//! the waiting events in the order in which they came, each to its end
//! before the next, and at last sweeps the process registry. Whenever it
//! needs something from outside it stops with a [`Request`]; the reply to
//! it makes it go on. A reply that does not answer the request leaves
//! everything as it is.
use crate::external::{
    failure_message, is_long_media, is_long_media_spec, lines_of_report, read_report,
    report_lines, report_result, CommandReport, CommandReportView,
};
use crate::file::{directory_contents, files_view, listing, File, FileType, FileView};
use crate::info::{
    directory_preview, linkage_preview, metadata_preview, text_preview, type_of_head,
    type_of_name, Info, InfoType, InfoView, Material,
};
use crate::input::ApplicationEvent;
use crate::path::{joined_path, parent_path, path_join, path_parent};
use crate::process::{process_ids, still_running, TrackedProcessView};
use crate::text::{
    append_decimal, debug_list, debug_text, decimal, optional_text, split_lines, strings_view,
    text_lines, trim, trimmed,
};
use crate::{
    app_invariant, last_index, pushed_message, state_invariant, with_message, App, AppView,
    DEBUG_CAPACITY, MIN_HEIGHT, MIN_WIDTH,
};
use vstd::prelude::*;

verus! {

/// Where the engine stands within a tick.
#[derive(Debug, Clone, Copy, PartialEq, Eq, Structural)]
pub enum Phase {
    /// Between ticks.
    Idle,
    /// Handling events; never seen from outside.
    Running,
    /// Waits for the entries of the current directory.
    ListCurrent,
    /// Waits for the entries of the parent directory.
    ListParent,
    /// Waits for the entries of the selected directory.
    PreviewDirectory,
    /// Waits for the leading bytes of the selected file.
    PreviewHead,
    /// Waits for the text of the selected file.
    PreviewText,
    /// Waits for the output of the dependency lister.
    PreviewLinkage,
    /// Waits for the size of the selected file.
    PreviewSize,
    /// Waits for the output of the metadata probe.
    PreviewMetadata,
    /// Waits to hear whether the selection can be entered.
    Descend,
    /// Waits for a viewer to end.
    Command,
    /// Waits for the output of the media probe.
    MediaProbe,
    /// Waits for the length of the media.
    MediaDuration,
    /// Waits for the media player that took over the terminal.
    MediaForeground,
    /// Waits for the media player to be started beside the application.
    MediaDetached,
    /// Waits to hear which processes have ended.
    Sweep,
}

/// What the engine asks of the outside.
pub enum Request {
    /// Nothing: the tick is over.
    Idle,
    /// The immediate children of a directory, each with its kind, in any
    /// order; none where the directory cannot be read.
    ListDirectory { path: String },
    /// The leading bytes of a file, a kilobyte at most; nothing where the
    /// file cannot be read.
    ReadHead { path: String },
    /// The text of a file; empty where the file cannot be read.
    ReadText { path: String },
    /// The size of a file in megabytes as it is to be shown; nothing where
    /// it cannot be had.
    FileSize { path: String },
    /// Whether a path leads to a directory.
    IsDirectory { path: String },
    /// A command run to its end with its output captured.
    RunCaptured { command: String, args: Vec<String> },
    /// The number of seconds that a text states, as the bit pattern of an
    /// IEEE 754 single-precision number.
    ParseDuration { text: String },
    /// A command run to its end in the foreground: the terminal is released
    /// before and taken back after.
    SpawnForeground { command: String, args: Vec<String> },
    /// A command started beside the application, without input and with
    /// its output discarded.
    SpawnDetached { command: String, args: Vec<String> },
    /// Which of these processes have ended by now, without waiting.
    PollChildren { ids: Vec<u32> },
}

/// The mathematical value of a [`Request`].
pub enum RequestView {
    Idle,
    ListDirectory { path: Seq<char> },
    ReadHead { path: Seq<char> },
    ReadText { path: Seq<char> },
    FileSize { path: Seq<char> },
    IsDirectory { path: Seq<char> },
    RunCaptured { command: Seq<char>, args: Seq<Seq<char>> },
    ParseDuration { text: Seq<char> },
    SpawnForeground { command: Seq<char>, args: Seq<Seq<char>> },
    SpawnDetached { command: Seq<char>, args: Seq<Seq<char>> },
    PollChildren { ids: Seq<u32> },
}

impl View for Request {
    type V = RequestView;

    open spec fn view(&self) -> RequestView {
        match self {
            Request::Idle => RequestView::Idle,
            Request::ListDirectory { path } => RequestView::ListDirectory { path: path@ },
            Request::ReadHead { path } => RequestView::ReadHead { path: path@ },
            Request::ReadText { path } => RequestView::ReadText { path: path@ },
            Request::FileSize { path } => RequestView::FileSize { path: path@ },
            Request::IsDirectory { path } => RequestView::IsDirectory { path: path@ },
            Request::RunCaptured { command, args } => RequestView::RunCaptured {
                command: command@,
                args: strings_view(args@),
            },
            Request::ParseDuration { text } => RequestView::ParseDuration { text: text@ },
            Request::SpawnForeground { command, args } => RequestView::SpawnForeground {
                command: command@,
                args: strings_view(args@),
            },
            Request::SpawnDetached { command, args } => RequestView::SpawnDetached {
                command: command@,
                args: strings_view(args@),
            },
            Request::PollChildren { ids } => RequestView::PollChildren { ids: ids@ },
        }
    }
}

/// What the outside tells the engine.
pub enum Reply {
    /// A new tick begins; the terminal has this many columns and rows,
    /// where its size is known.
    Tick { size: Option<(u16, u16)> },
    /// The entries of the directory that was asked for.
    Entries(Vec<File>),
    /// The leading bytes of the file that was asked for, or nothing where
    /// it could not be read.
    Head(Option<Vec<u8>>),
    /// The text of the file that was asked for.
    Text(String),
    /// The size of the file that was asked for, as it is to be shown.
    Size(Option<String>),
    /// Whether the path that was asked for leads to a directory.
    Directory(bool),
    /// What came of the command that was to be run with its output
    /// captured.
    Captured(CommandReport),
    /// The length that the text states, or why it states none.
    Duration(Result<u32, String>),
    /// The foreground command has ended, or why it could not be run.
    Finished(Result<(), String>),
    /// The identifier of the process that was started, or why none was.
    Spawned(Result<u32, String>),
    /// The identifiers of the processes that have ended.
    Exited(Vec<u32>),
}

/// The mathematical value of a [`Reply`].
pub enum ReplyView {
    Tick { size: Option<(u16, u16)> },
    Entries(Seq<FileView>),
    Head(Option<Seq<u8>>),
    Text(Seq<char>),
    Size(Option<Seq<char>>),
    Directory(bool),
    Captured(CommandReportView),
    Duration(Result<u32, Seq<char>>),
    Finished(Result<(), Seq<char>>),
    Spawned(Result<u32, Seq<char>>),
    Exited(Seq<u32>),
}

impl View for Reply {
    type V = ReplyView;

    open spec fn view(&self) -> ReplyView {
        match self {
            Reply::Tick { size } => ReplyView::Tick { size: *size },
            Reply::Entries(entries) => ReplyView::Entries(files_view(entries@)),
            Reply::Head(head) => ReplyView::Head(optional_bytes(*head)),
            Reply::Text(text) => ReplyView::Text(text@),
            Reply::Size(size) => ReplyView::Size(optional_text(*size)),
            Reply::Directory(is_dir) => ReplyView::Directory(*is_dir),
            Reply::Captured(report) => ReplyView::Captured(report@),
            Reply::Duration(result) => ReplyView::Duration(
                match result {
                    Ok(bits) => Ok(*bits),
                    Err(why) => Err(why@),
                },
            ),
            Reply::Finished(result) => ReplyView::Finished(
                match result {
                    Ok(_) => Ok(()),
                    Err(why) => Err(why@),
                },
            ),
            Reply::Spawned(result) => ReplyView::Spawned(
                match result {
                    Ok(id) => Ok(*id),
                    Err(why) => Err(why@),
                },
            ),
            Reply::Exited(ids) => ReplyView::Exited(ids@),
        }
    }
}

/// The value of bytes that may be missing.
pub open spec fn optional_bytes(bytes: Option<Vec<u8>>) -> Option<Seq<u8>> {
    match bytes {
        Some(b) => Some(b@),
        None => None,
    }
}

/// Why the selection could not be moved into or out of.
#[derive(Debug, Clone, Copy, PartialEq, Eq, Structural)]
pub enum NavigationError {
    NoParent,
    NotADirectory,
    NothingSelected,
}

/// The text that reports a navigation error.
pub open spec fn navigation_message(error: NavigationError) -> Seq<char> {
    match error {
        NavigationError::NoParent => "No parent directory available"@,
        NavigationError::NotADirectory => "Selected item is not a directory!"@,
        NavigationError::NothingSelected => "No item selected!"@,
    }
}

impl NavigationError {
    /// The text that reports this error.
    pub fn message(&self) -> (text: &'static str)
        ensures
            text@ == navigation_message(*self),
    {
        match self {
            NavigationError::NoParent => "No parent directory available",
            NavigationError::NotADirectory => "Selected item is not a directory!",
            NavigationError::NothingSelected => "No item selected!",
        }
    }
}

/// The debug message that reports an error.
pub open spec fn error_text(what: Seq<char>) -> Seq<char> {
    "Error: "@ + what
}

/// The state in which the engine waits in `phase` for the reply to
/// `request`.
pub open spec fn awaiting(s: AppView, phase: Phase, request: RequestView) -> AppView {
    AppView { phase, request, ..s }
}

/// The state in which the engine goes on with the events of the tick.
pub open spec fn resumed(s: AppView) -> AppView {
    AppView { phase: Phase::Running, request: RequestView::Idle, ..s }
}

/// The width drawn for a terminal of `columns` columns: five less, and the
/// minimum at least.
pub open spec fn width_for(columns: int) -> int {
    if columns - 5 > MIN_WIDTH {
        columns - 5
    } else {
        MIN_WIDTH as int
    }
}

/// The height drawn for a terminal of `rows` rows: two less, and the
/// minimum at least.
pub open spec fn height_for(rows: int) -> int {
    if rows - 2 > MIN_HEIGHT {
        rows - 2
    } else {
        MIN_HEIGHT as int
    }
}

/// The state after the size of the terminal was taken in; an unknown size
/// changes nothing.
pub open spec fn resized(s: AppView, size: Option<(u16, u16)>) -> AppView {
    match size {
        Some((columns, rows)) => AppView {
            width: width_for(columns as int),
            height: height_for(rows as int),
            ..s
        },
        None => s,
    }
}

/// The selection after a move by `change_by` among `n` entries: it stops
/// at the first and at the last entry, and does not wrap around.
pub open spec fn clamped_selection(n: int, current: int, change_by: int) -> int {
    let next = current + change_by;
    if next >= n {
        last_index(n)
    } else if next < 0 {
        0
    } else {
        next
    }
}

/// A move never leaves the listing: from the first entry a step back stays
/// there, from the last entry a step forward stays there, and every result
/// is an index of the listing, or 0 where the listing is empty.
pub proof fn lemma_selection_stays_within(n: int, current: int, change_by: int)
    requires
        0 <= n,
    ensures
        0 <= clamped_selection(n, current, change_by) <= last_index(n),
        clamped_selection(n, 0, -1) == 0,
        clamped_selection(n, last_index(n), 1) == last_index(n),
        0 <= current + change_by < n ==> clamped_selection(n, current, change_by) == current
            + change_by,
{
}

/// Computes the selection after a move by `change_by` among `n` entries.
pub fn next_selection(n: usize, current: usize, change_by: i32) -> (next: usize)
    ensures
        next == clamped_selection(n as int, current as int, change_by as int),
{
    let last: usize = if n > 0 {
        n - 1
    } else {
        0
    };
    if change_by >= 0 {
        let forward = change_by as usize;
        if n == 0 || current >= n || forward >= n - current {
            last
        } else {
            current + forward
        }
    } else {
        let back: usize = if change_by == i32::MIN {
            2147483648usize
        } else {
            (-change_by) as usize
        };
        if back > current {
            0
        } else if current - back >= n {
            last
        } else {
            current - back
        }
    }
}

/// The directory listed in the parent pane: the parent, or a path that
/// names nothing where there is none.
pub open spec fn parent_or_nothing(path: Seq<char>) -> Seq<char> {
    match parent_path(path) {
        Some(parent) => parent,
        None => "\\"@,
    }
}

/// The state when the preview of a regular file of category `t` at `path`
/// is begun: text, executables, audio and video need material from
/// outside; the others are previewed by their category alone.
pub open spec fn gathering(s: AppView, t: InfoType, path: Seq<char>) -> AppView {
    match t {
        InfoType::Text => awaiting(s, Phase::PreviewText, RequestView::ReadText { path }),
        InfoType::Executable => awaiting(
            s,
            Phase::PreviewLinkage,
            RequestView::RunCaptured { command: "ldd"@, args: seq![path] },
        ),
        InfoType::Audio | InfoType::Video => awaiting(
            AppView { pending_type: t, ..s },
            Phase::PreviewMetadata,
            RequestView::RunCaptured { command: "metadata"@, args: seq![path] },
        ),
        _ => resumed(
            AppView {
                selection_info: Some(InfoView { info_type: t, info_lines: Seq::empty() }),
                ..s
            },
        ),
    }
}

/// The state after the entry under the selection, found at `path`, was
/// made the selected item: a regular file and a directory are previewed, a
/// link is shown as such, and an entry of unknown kind selects nothing, as
/// does a selection that names no entry.
pub open spec fn item_selected(s: AppView, path: Seq<char>) -> AppView {
    if 0 <= s.current_selection < s.current_directory_contents.len() {
        let item = s.current_directory_contents[s.current_selection];
        match item.ftype {
            FileType::File => {
                let selected = AppView { selected_item: Some(path), ..s };
                match type_of_name(item.name) {
                    Some(t) => gathering(selected, t, path),
                    None => awaiting(selected, Phase::PreviewHead, RequestView::ReadHead { path }),
                }
            },
            FileType::Directory => awaiting(
                AppView { selected_item: Some(path), ..s },
                Phase::PreviewDirectory,
                RequestView::ListDirectory { path },
            ),
            FileType::Link => resumed(
                AppView {
                    selected_item: Some(path),
                    selection_info: Some(
                        InfoView { info_type: InfoType::Link, info_lines: Seq::empty() },
                    ),
                    ..s
                },
            ),
            FileType::Unknown => resumed(AppView { selected_item: None, ..s }),
        }
    } else {
        resumed(AppView { selected_item: None, ..s })
    }
}

/// The state after the selected item was worked out anew from the
/// selection: the entry under the selection is selected at its path in
/// the current directory.
pub open spec fn selection_refreshed(s: AppView) -> AppView {
    if 0 <= s.current_selection < s.current_directory_contents.len() {
        item_selected(
            s,
            joined_path(
                s.current_directory,
                s.current_directory_contents[s.current_selection].name,
            ),
        )
    } else {
        resumed(AppView { selected_item: None, ..s })
    }
}

/// The state at the start of a tick: the size is taken in, the waiting
/// events become the events of the tick, and the current directory is
/// asked for where it has changed.
pub open spec fn tick_begun(s: AppView, size: Option<(u16, u16)>) -> AppView {
    let taken = AppView { pending: s.new_events, new_events: Seq::empty(), ..resized(s, size) };
    if taken.directory_changed {
        awaiting(
            taken,
            Phase::ListCurrent,
            RequestView::ListDirectory { path: taken.current_directory },
        )
    } else {
        resumed(taken)
    }
}

/// The state after the current directory was listed: its listing is shown,
/// the selection is back at the first entry, and the parent is asked for.
pub open spec fn current_listed(s: AppView, entries: Seq<FileView>) -> AppView {
    awaiting(
        AppView {
            current_directory_contents: listing(entries, s.show_hidden),
            current_selection: 0,
            ..s
        },
        Phase::ListParent,
        RequestView::ListDirectory { path: parent_or_nothing(s.current_directory) },
    )
}

/// The state after the parent directory was listed, too: the change of
/// directory is done with, and the selected item is worked out.
pub open spec fn parent_listed(s: AppView, entries: Seq<FileView>) -> AppView {
    selection_refreshed(
        AppView {
            parent_directory_contents: listing(entries, s.show_hidden),
            directory_changed: false,
            current_selection: 0,
            ..s
        },
    )
}

/// The state after the selected directory was listed for its preview.
pub open spec fn directory_previewed(s: AppView, entries: Seq<FileView>) -> AppView {
    resumed(
        AppView {
            selection_info: Some(
                InfoView { info_type: InfoType::Directory, info_lines: directory_preview(entries) },
            ),
            ..s
        },
    )
}

/// The state after the leading bytes of the selected file were read, or
/// could not be: they decide its category, and its preview is begun.
pub open spec fn head_read(s: AppView, head: Option<Seq<u8>>) -> AppView {
    match s.selected_item {
        Some(path) => gathering(s, type_of_head(head), path),
        None => resumed(s),
    }
}

/// The state after the text of the selected file was read.
pub open spec fn text_read(s: AppView, text: Seq<char>) -> AppView {
    resumed(
        AppView {
            selection_info: Some(
                InfoView { info_type: InfoType::Text, info_lines: text_preview(text) },
            ),
            ..s
        },
    )
}

/// The state after the dependency lister was run on the selected file:
/// what it printed is kept, and the size of the file is asked for.
pub open spec fn linkage_listed(s: AppView, report: CommandReportView) -> AppView {
    let kept = AppView { pending_lines: report_lines(report), ..s };
    match s.selected_item {
        Some(path) => awaiting(kept, Phase::PreviewSize, RequestView::FileSize { path }),
        None => size_read(kept, None),
    }
}

/// The state after the size of the selected executable was read.
pub open spec fn size_read(s: AppView, size: Option<Seq<char>>) -> AppView {
    resumed(
        AppView {
            selection_info: Some(
                InfoView {
                    info_type: InfoType::Executable,
                    info_lines: linkage_preview(s.pending_lines, size),
                },
            ),
            pending_lines: None,
            ..s
        },
    )
}

/// The state after the metadata probe was run on the selected file.
pub open spec fn metadata_probed(s: AppView, report: CommandReportView) -> AppView {
    resumed(
        AppView {
            selection_info: Some(
                InfoView {
                    info_type: s.pending_type,
                    info_lines: metadata_preview(s.pending_type, report_lines(report)),
                },
            ),
            ..s
        },
    )
}

/// The event that opens a file of category `t`, where there is one.
pub open spec fn fallback_event(t: InfoType) -> Option<ApplicationEvent> {
    match t {
        InfoType::Executable => Some(ApplicationEvent::OpenExecutable),
        InfoType::Text => Some(ApplicationEvent::OpenText),
        InfoType::Unknown => Some(ApplicationEvent::OpenImage),
        InfoType::Image => Some(ApplicationEvent::OpenImage),
        InfoType::Video => Some(ApplicationEvent::PlayMedia),
        InfoType::Audio => Some(ApplicationEvent::PlayMedia),
        InfoType::Pdf => Some(ApplicationEvent::ReadPdf),
        InfoType::Link => None,
        InfoType::Directory => None,
    }
}

/// The state after the selection could not be entered for the reason
/// `error`: the event that opens a file of the previewed category is put
/// behind the waiting events. A link is left alone. Without a preview, and
/// for a directory, the error is reported.
pub open spec fn fallen_back(s: AppView, error: NavigationError) -> AppView {
    match s.selection_info {
        Some(info) => match fallback_event(info.info_type) {
            Some(event) => AppView { new_events: s.new_events.push(event), ..s },
            None => if info.info_type == InfoType::Link {
                s
            } else {
                with_message(s, error_text(navigation_message(error)))
            },
        },
        None => with_message(s, error_text(navigation_message(error))),
    }
}

/// The state after a move to `parent`, the parent of the current
/// directory: it becomes the current directory, to be listed at the next
/// tick. Without a parent the error is reported.
pub open spec fn parent_entered(s: AppView, parent: Option<Seq<char>>) -> AppView {
    match parent {
        Some(p) => AppView { current_directory: p, directory_changed: true, ..s },
        None => with_message(s, error_text(navigation_message(NavigationError::NoParent))),
    }
}

/// The state after it became known whether the selected item is a
/// directory: it is entered if it is one; else the fallback applies.
pub open spec fn descended(s: AppView, is_directory: bool) -> AppView {
    resumed(
        match s.selected_item {
            Some(path) => if is_directory {
                AppView { current_directory: path, directory_changed: true, ..s }
            } else {
                fallen_back(s, NavigationError::NotADirectory)
            },
            None => fallen_back(s, NavigationError::NothingSelected),
        },
    )
}

/// Whether an event opens the selected item with a viewer.
pub open spec fn opens_viewer(event: ApplicationEvent) -> bool {
    event == ApplicationEvent::OpenImage || event == ApplicationEvent::OpenText || event
        == ApplicationEvent::OpenExecutable || event == ApplicationEvent::ReadPdf
}

/// The command that a viewer event runs on `path`: an executable is its
/// own command.
pub open spec fn viewer_command(event: ApplicationEvent, path: Seq<char>) -> Seq<char> {
    match event {
        ApplicationEvent::OpenImage => "pfiew"@,
        ApplicationEvent::OpenText => "micro"@,
        ApplicationEvent::ReadPdf => "zathura"@,
        _ => path,
    }
}

/// The arguments that a viewer event hands to its command for `path`.
pub open spec fn viewer_args(event: ApplicationEvent, path: Seq<char>) -> Seq<Seq<char>> {
    match event {
        ApplicationEvent::OpenImage => seq!["--input="@ + path],
        ApplicationEvent::OpenText => seq![path],
        ApplicationEvent::ReadPdf => seq![path],
        _ => Seq::empty(),
    }
}

/// The state after a viewer event: the command is asked for, and nothing
/// else changes. With nothing selected the error is reported.
pub open spec fn viewer_opened(s: AppView, event: ApplicationEvent) -> AppView {
    match s.selected_item {
        Some(path) => awaiting(
            s,
            Phase::Command,
            RequestView::RunCaptured {
                command: viewer_command(event, path),
                args: viewer_args(event, path),
            },
        ),
        None => with_message(s, error_text(navigation_message(NavigationError::NothingSelected))),
    }
}

/// The state after a viewer has ended: its failure, if any, is reported.
pub open spec fn command_finished(s: AppView, report: CommandReportView) -> AppView {
    resumed(
        match report_result(report) {
            Ok(_) => s,
            Err(failure) => with_message(s, error_text(failure_message(failure))),
        },
    )
}

/// The arguments with which the media probe is asked for the length of
/// the media at `path`.
pub open spec fn probe_args(path: Seq<char>) -> Seq<Seq<char>> {
    seq![
        "-show_entries"@,
        "format=duration"@,
        "-of"@,
        "default=noprint_wrappers=1:nokey=1"@,
        path,
    ]
}

/// The arguments with which short media at `path` is played beside the
/// application.
pub open spec fn detached_args(path: Seq<char>) -> Seq<Seq<char>> {
    seq![
        path,
        "--really-quiet"@,
        "--no-input-default-bindings"@,
        "--no-config"@,
        "--volume=50"@,
    ]
}

/// The text that reports that the media probe, whose arguments are shown
/// as `shown`, ended with `code`.
pub open spec fn probe_failure(shown: Seq<char>, code: int) -> Seq<char> {
    "Executing ffprobe "@ + shown + " failed with code: "@ + decimal(code)
}

/// The text that reports that the media probe ended with `code`.
pub open spec fn probe_failure_text(args: Seq<Seq<char>>, code: int) -> Seq<char> {
    probe_failure(debug_text(args), code)
}

/// Words the report that the media probe, whose arguments are shown as
/// `shown`, ended with `code`.
pub fn report_probe_failure(shown: &str, code: i32) -> (text: String)
    ensures
        text@ == probe_failure(shown@, code as int),
{
    let mut text = String::from_str("Executing ffprobe ");
    text.append(shown);
    text.append(" failed with code: ");
    append_decimal(&mut text, code);
    text
}

/// The state after a media event: the probe is asked for the length of
/// the selected item. With nothing selected the error is reported.
pub open spec fn media_requested(s: AppView) -> AppView {
    match s.selected_item {
        Some(path) => awaiting(
            s,
            Phase::MediaProbe,
            RequestView::RunCaptured { command: "ffprobe"@, args: probe_args(path) },
        ),
        None => with_message(s, error_text(navigation_message(NavigationError::NothingSelected))),
    }
}

/// The arguments of the command that was asked for; none for any other
/// request.
pub open spec fn request_args(request: RequestView) -> Seq<Seq<char>> {
    match request {
        RequestView::RunCaptured { command, args } => args,
        RequestView::SpawnForeground { command, args } => args,
        RequestView::SpawnDetached { command, args } => args,
        _ => Seq::empty(),
    }
}

/// The state after the media probe was run: the first line that it
/// printed is handed on to have the length read from it. A probe that
/// failed, or printed nothing, is reported.
pub open spec fn media_probed(s: AppView, report: CommandReportView) -> AppView {
    match report {
        CommandReportView::Failed(why) => resumed(with_message(s, error_text(why))),
        CommandReportView::Exited { success, code, stdout } => {
            if !success {
                resumed(
                    with_message(
                        s,
                        error_text(
                            probe_failure_text(
                                request_args(s.request),
                                match code {
                                    Some(c) => c as int,
                                    None => -1,
                                },
                            ),
                        ),
                    ),
                )
            } else if text_lines(stdout).len() == 0 {
                resumed(with_message(s, error_text("No media length reported"@)))
            } else {
                awaiting(
                    s,
                    Phase::MediaDuration,
                    RequestView::ParseDuration { text: trimmed(text_lines(stdout)[0]) },
                )
            }
        },
    }
}

/// The state after the length of the media became known: long media is
/// played in the foreground, short media beside the application. A length
/// that could not be read is reported.
pub open spec fn duration_parsed(s: AppView, result: Result<u32, Seq<char>>) -> AppView {
    match result {
        Ok(bits) => match s.selected_item {
            Some(path) => if is_long_media_spec(bits) {
                awaiting(
                    s,
                    Phase::MediaForeground,
                    RequestView::SpawnForeground { command: "mpv"@, args: seq![path] },
                )
            } else {
                awaiting(
                    s,
                    Phase::MediaDetached,
                    RequestView::SpawnDetached { command: "mpv"@, args: detached_args(path) },
                )
            },
            None => resumed(
                with_message(s, error_text(navigation_message(NavigationError::NothingSelected))),
            ),
        },
        Err(why) => resumed(with_message(s, error_text(why))),
    }
}

/// The state after the foreground player has ended.
pub open spec fn foreground_finished(s: AppView, result: Result<(), Seq<char>>) -> AppView {
    resumed(
        match result {
            Ok(_) => s,
            Err(why) => with_message(s, error_text(why)),
        },
    )
}

/// The state after the detached player was started: it is tracked. A
/// player that could not be started is reported.
pub open spec fn detached_spawned(s: AppView, result: Result<u32, Seq<char>>) -> AppView {
    resumed(
        match result {
            Ok(id) => AppView {
                children: s.children.push(TrackedProcessView { id, command: "mpv"@ }),
                ..s
            },
            Err(why) => with_message(s, error_text(why)),
        },
    )
}

/// The state after one event was handled, as far as it can be without
/// outside work.
pub open spec fn event_handled(s: AppView, event: ApplicationEvent) -> AppView {
    match event {
        ApplicationEvent::Close => AppView { should_run: false, ..s },
        ApplicationEvent::NavigateUp => parent_entered(s, parent_path(s.current_directory)),
        ApplicationEvent::NavigateDown => match s.selected_item {
            Some(path) => awaiting(s, Phase::Descend, RequestView::IsDirectory { path }),
            None => fallen_back(s, NavigationError::NothingSelected),
        },
        ApplicationEvent::SelectNext => selection_refreshed(
            AppView {
                current_selection: clamped_selection(
                    s.current_directory_contents.len() as int,
                    s.current_selection,
                    1,
                ),
                ..s
            },
        ),
        ApplicationEvent::SelectPrevious => selection_refreshed(
            AppView {
                current_selection: clamped_selection(
                    s.current_directory_contents.len() as int,
                    s.current_selection,
                    -1,
                ),
                ..s
            },
        ),
        ApplicationEvent::ToggleShowHidden => AppView {
            show_hidden: !s.show_hidden,
            directory_changed: true,
            ..s
        },
        ApplicationEvent::OpenImage => viewer_opened(s, event),
        ApplicationEvent::OpenText => viewer_opened(s, event),
        ApplicationEvent::OpenExecutable => viewer_opened(s, event),
        ApplicationEvent::ReadPdf => viewer_opened(s, event),
        ApplicationEvent::PlayMedia => media_requested(s),
        ApplicationEvent::DebugEvent => with_message(s, "q!!"@),
    }
}

/// The state at the end of a tick's events: the registry is swept if it
/// tracks anything, and else the tick is over.
pub open spec fn tick_finished(s: AppView) -> AppView {
    if s.children.len() > 0 {
        awaiting(s, Phase::Sweep, RequestView::PollChildren { ids: process_ids(s.children) })
    } else {
        awaiting(s, Phase::Idle, RequestView::Idle)
    }
}

/// The state after the registry was swept: the processes that have ended
/// are tracked no longer, and the tick is over.
pub open spec fn swept(s: AppView, exited: Seq<u32>) -> AppView {
    awaiting(
        AppView { children: still_running(s.children, exited), ..s },
        Phase::Idle,
        RequestView::Idle,
    )
}

/// The state after the events of the tick were handled in their order, up
/// to the first that needs outside work, or to the end of the tick.
pub open spec fn queue_run(s: AppView) -> AppView
    decreases s.pending.len(),
{
    if s.phase != Phase::Running {
        s
    } else if s.pending.len() == 0 {
        tick_finished(s)
    } else {
        let rest = s.pending.drop_first();
        let handled = event_handled(AppView { pending: rest, ..s }, s.pending[0]);
        queue_run(AppView { pending: rest, ..handled })
    }
}

/// The state after a reply was taken in, before the engine goes on with
/// the events. A reply that does not answer what the engine waits for
/// changes nothing.
pub open spec fn reacted(s: AppView, reply: ReplyView) -> AppView {
    match reply {
        ReplyView::Tick { size } => if s.phase == Phase::Idle {
            tick_begun(s, size)
        } else {
            s
        },
        ReplyView::Entries(entries) => match s.phase {
            Phase::ListCurrent => current_listed(s, entries),
            Phase::ListParent => parent_listed(s, entries),
            Phase::PreviewDirectory => directory_previewed(s, entries),
            _ => s,
        },
        ReplyView::Head(head) => if s.phase == Phase::PreviewHead {
            head_read(s, head)
        } else {
            s
        },
        ReplyView::Text(text) => if s.phase == Phase::PreviewText {
            text_read(s, text)
        } else {
            s
        },
        ReplyView::Size(size) => if s.phase == Phase::PreviewSize {
            size_read(s, size)
        } else {
            s
        },
        ReplyView::Directory(is_directory) => if s.phase == Phase::Descend {
            descended(s, is_directory)
        } else {
            s
        },
        ReplyView::Captured(report) => match s.phase {
            Phase::PreviewLinkage => linkage_listed(s, report),
            Phase::PreviewMetadata => metadata_probed(s, report),
            Phase::Command => command_finished(s, report),
            Phase::MediaProbe => media_probed(s, report),
            _ => s,
        },
        ReplyView::Duration(result) => if s.phase == Phase::MediaDuration {
            duration_parsed(s, result)
        } else {
            s
        },
        ReplyView::Finished(result) => if s.phase == Phase::MediaForeground {
            foreground_finished(s, result)
        } else {
            s
        },
        ReplyView::Spawned(result) => if s.phase == Phase::MediaDetached {
            detached_spawned(s, result)
        } else {
            s
        },
        ReplyView::Exited(exited) => if s.phase == Phase::Sweep {
            swept(s, exited)
        } else {
            s
        },
    }
}

/// One step of the engine: the reply is taken in, and the events of the
/// tick are handled as far as they can be.
pub open spec fn step(s: AppView, reply: ReplyView) -> AppView {
    queue_run(reacted(s, reply))
}

fn text_of(literal: &str) -> (text: String)
    ensures
        text@ == literal@,
{
    String::from_str(literal)
}

fn one_argument(argument: String) -> (args: Vec<String>)
    ensures
        strings_view(args@) == seq![argument@],
{
    let mut args: Vec<String> = Vec::new();
    args.push(argument);
    proof {
        assert(strings_view(args@) =~= seq![argument@]);
    }
    args
}

fn no_arguments() -> (args: Vec<String>)
    ensures
        strings_view(args@) == Seq::<Seq<char>>::empty(),
{
    let args: Vec<String> = Vec::new();
    proof {
        assert(strings_view(args@) =~= Seq::<Seq<char>>::empty());
    }
    args
}

impl App {
    fn await_reply(&mut self, phase: Phase, request: Request)
        requires
            old(self).wf(),
            (phase == Phase::Idle || phase == Phase::Sweep) ==> old(self)@.pending.len() == 0,
        ensures
            final(self).wf(),
            final(self)@ == awaiting(old(self)@, phase, request@),
    {
        self.phase = phase;
        self.request = request;
    }

    fn resume(&mut self)
        requires
            old(self).wf(),
        ensures
            final(self).wf(),
            final(self)@ == resumed(old(self)@),
    {
        self.phase = Phase::Running;
        self.request = Request::Idle;
    }

    fn report_error(&mut self, what: &str)
        requires
            old(self).wf(),
        ensures
            final(self).wf(),
            final(self)@ == with_message(old(self)@, error_text(what@)),
    {
        let mut text = text_of("Error: ");
        text.append(what);
        self.msg(text.as_str());
    }

    fn report_navigation_error(&mut self, error: NavigationError)
        requires
            old(self).wf(),
        ensures
            final(self).wf(),
            final(self)@ == with_message(old(self)@, error_text(navigation_message(error))),
    {
        self.report_error(error.message());
    }

    fn selected_path(&self) -> (path: Option<String>)
        ensures
            optional_text(path) == self@.selected_item,
    {
        match &self.selected_item {
            Some(path) => Some(path.clone()),
            None => None,
        }
    }

    /// Takes in the size of the terminal, where it is known.
    fn update_window_size(&mut self, size: Option<(u16, u16)>)
        requires
            old(self).wf(),
        ensures
            final(self).wf(),
            final(self)@ == resized(old(self)@, size),
    {
        if let Some((columns, rows)) = size {
            self.width = if columns as usize > MIN_WIDTH + 5 {
                columns as usize - 5
            } else {
                MIN_WIDTH
            };
            self.height = if rows as usize > MIN_HEIGHT + 2 {
                rows as usize - 2
            } else {
                MIN_HEIGHT
            };
        }
    }

    fn gather(&mut self, t: InfoType, path: String)
        requires
            old(self).wf(),
        ensures
            final(self).wf(),
            final(self)@ == gathering(old(self)@, t, path@),
    {
        match t {
            InfoType::Text => self.await_reply(Phase::PreviewText, Request::ReadText { path }),
            InfoType::Executable => self.await_reply(
                Phase::PreviewLinkage,
                Request::RunCaptured { command: text_of("ldd"), args: one_argument(path) },
            ),
            InfoType::Audio | InfoType::Video => {
                self.pending_type = t;
                self.await_reply(
                    Phase::PreviewMetadata,
                    Request::RunCaptured { command: text_of("metadata"), args: one_argument(path) },
                );
            },
            _ => {
                self.selection_info = Some(Info::new(t, Material::Nothing));
                self.resume();
            },
        }
    }

    /// Makes the entry under the selection, found at `path`, the selected
    /// item, and begins its preview.
    pub fn select_item(&mut self, path: String)
        requires
            old(self).wf(),
        ensures
            final(self).wf(),
            final(self)@ == item_selected(old(self)@, path@),
    {
        if self.current_selection < self.current_directory_contents.len() {
            let item = &self.current_directory_contents[self.current_selection];
            let ftype = item.ftype;
            let decided = InfoType::from_name(item.name.as_str());
            proof {
                assert(files_view(self.current_directory_contents@)[self.current_selection as int]
                    == item@);
            }
            match ftype {
                FileType::File => {
                    self.selected_item = Some(path.clone());
                    match decided {
                        Some(t) => self.gather(t, path),
                        None => self.await_reply(Phase::PreviewHead, Request::ReadHead { path }),
                    }
                },
                FileType::Directory => {
                    self.selected_item = Some(path.clone());
                    self.await_reply(Phase::PreviewDirectory, Request::ListDirectory { path });
                },
                FileType::Link => {
                    self.selection_info = Some(Info::link(path.as_str()));
                    self.selected_item = Some(path);
                    self.resume();
                },
                FileType::Unknown => {
                    self.selected_item = None;
                    self.resume();
                },
            }
        } else {
            self.selected_item = None;
            self.resume();
        }
    }

    /// Works the selected item out anew from the selection.
    fn update_selected_item(&mut self)
        requires
            old(self).wf(),
        ensures
            final(self).wf(),
            final(self)@ == selection_refreshed(old(self)@),
    {
        if self.current_selection < self.current_directory_contents.len() {
            let item = &self.current_directory_contents[self.current_selection];
            let path = path_join(self.current_directory.as_str(), item.name.as_str());
            proof {
                assert(files_view(self.current_directory_contents@)[self.current_selection as int]
                    == item@);
            }
            self.select_item(path);
        } else {
            self.selected_item = None;
            self.resume();
        }
    }

    fn begin_tick(&mut self, size: Option<(u16, u16)>)
        requires
            old(self).wf(),
            old(self)@.pending.len() == 0,
        ensures
            final(self).wf(),
            final(self)@ == tick_begun(old(self)@, size),
    {
        self.update_window_size(size);
        self.resume();
        let mut events: Vec<ApplicationEvent> = Vec::new();
        std::mem::swap(&mut self.new_events, &mut events);
        self.queue = events;
        self.cursor = 0;
        proof {
            assert(self.queue@.skip(0) =~= self.queue@);
        }
        if self.directory_changed {
            let path = self.current_directory.clone();
            self.await_reply(Phase::ListCurrent, Request::ListDirectory { path });
        }
    }

    fn list_current(&mut self, entries: Vec<File>)
        requires
            old(self).wf(),
        ensures
            final(self).wf(),
            final(self)@ == current_listed(old(self)@, files_view(entries@)),
    {
        self.current_directory_contents = directory_contents(&entries, self.show_hidden);
        self.current_selection = 0;
        let path = match path_parent(self.current_directory.as_str()) {
            Some(parent) => parent,
            None => text_of("\\"),
        };
        self.await_reply(Phase::ListParent, Request::ListDirectory { path });
    }

    fn list_parent(&mut self, entries: Vec<File>)
        requires
            old(self).wf(),
        ensures
            final(self).wf(),
            final(self)@ == parent_listed(old(self)@, files_view(entries@)),
    {
        self.parent_directory_contents = directory_contents(&entries, self.show_hidden);
        self.directory_changed = false;
        self.current_selection = 0;
        self.update_selected_item();
    }

    fn preview_directory(&mut self, entries: Vec<File>)
        requires
            old(self).wf(),
        ensures
            final(self).wf(),
            final(self)@ == directory_previewed(old(self)@, files_view(entries@)),
    {
        self.selection_info = Some(Info::directory(&entries));
        self.resume();
    }

    fn read_head(&mut self, head: Option<Vec<u8>>)
        requires
            old(self).wf(),
        ensures
            final(self).wf(),
            final(self)@ == head_read(old(self)@, optional_bytes(head)),
    {
        match self.selected_path() {
            Some(path) => {
                let t = match &head {
                    Some(bytes) => InfoType::from_contents(bytes.as_slice()),
                    None => InfoType::Unknown,
                };
                self.gather(t, path);
            },
            None => self.resume(),
        }
    }

    fn read_text(&mut self, text: String)
        requires
            old(self).wf(),
        ensures
            final(self).wf(),
            final(self)@ == text_read(old(self)@, text@),
    {
        self.selection_info = Some(Info::new(InfoType::Text, Material::Text(text)));
        self.resume();
    }

    fn list_linkage(&mut self, report: CommandReport)
        requires
            old(self).wf(),
        ensures
            final(self).wf(),
            final(self)@ == linkage_listed(old(self)@, report@),
    {
        self.pending_lines = lines_of_report(report);
        match self.selected_path() {
            Some(path) => self.await_reply(Phase::PreviewSize, Request::FileSize { path }),
            None => self.read_size(None),
        }
    }

    fn read_size(&mut self, size: Option<String>)
        requires
            old(self).wf(),
        ensures
            final(self).wf(),
            final(self)@ == size_read(old(self)@, optional_text(size)),
    {
        let mut listed: Option<Vec<String>> = None;
        std::mem::swap(&mut self.pending_lines, &mut listed);
        self.selection_info = Some(Info::executable(listed, size));
        self.resume();
    }

    fn probe_metadata(&mut self, report: CommandReport)
        requires
            old(self).wf(),
        ensures
            final(self).wf(),
            final(self)@ == metadata_probed(old(self)@, report@),
    {
        let probed = lines_of_report(report);
        let t = self.pending_type;
        self.selection_info = Some(Info::media(t, probed));
        self.resume();
    }

    fn fall_back(&mut self, error: NavigationError)
        requires
            old(self).wf(),
        ensures
            final(self).wf(),
            final(self)@ == fallen_back(old(self)@, error),
    {
        let t = match &self.selection_info {
            Some(info) => Some(info.info_type),
            None => None,
        };
        match t {
            Some(InfoType::Executable) => self.new_events.push(ApplicationEvent::OpenExecutable),
            Some(InfoType::Text) => self.new_events.push(ApplicationEvent::OpenText),
            Some(InfoType::Unknown) => self.new_events.push(ApplicationEvent::OpenImage),
            Some(InfoType::Image) => self.new_events.push(ApplicationEvent::OpenImage),
            Some(InfoType::Video) => self.new_events.push(ApplicationEvent::PlayMedia),
            Some(InfoType::Audio) => self.new_events.push(ApplicationEvent::PlayMedia),
            Some(InfoType::Pdf) => self.new_events.push(ApplicationEvent::ReadPdf),
            Some(InfoType::Link) => {},
            Some(InfoType::Directory) => self.report_navigation_error(error),
            None => self.report_navigation_error(error),
        }
    }

    /// Moves to `parent`, the parent of the current directory, or reports
    /// that there is none.
    pub fn enter_parent(&mut self, parent: Option<String>)
        requires
            old(self).wf(),
        ensures
            final(self).wf(),
            final(self)@ == parent_entered(old(self)@, optional_text(parent)),
    {
        match parent {
            Some(p) => self.change_directory(p),
            None => self.report_navigation_error(NavigationError::NoParent),
        }
    }

    fn navigate_up(&mut self)
        requires
            old(self).wf(),
        ensures
            final(self).wf(),
            final(self)@ == parent_entered(old(self)@, parent_path(old(self)@.current_directory)),
    {
        let parent = path_parent(self.current_directory.as_str());
        self.enter_parent(parent);
    }

    fn change_directory(&mut self, to: String)
        requires
            old(self).wf(),
        ensures
            final(self).wf(),
            final(self)@ == (AppView {
                current_directory: to@,
                directory_changed: true,
                ..old(self)@
            }),
    {
        self.current_directory = to;
        self.directory_changed = true;
    }

    fn navigate_down(&mut self, is_directory: bool)
        requires
            old(self).wf(),
        ensures
            final(self).wf(),
            final(self)@ == descended(old(self)@, is_directory),
    {
        match self.selected_path() {
            Some(path) => {
                if is_directory {
                    self.change_directory(path);
                } else {
                    self.fall_back(NavigationError::NotADirectory);
                }
            },
            None => self.fall_back(NavigationError::NothingSelected),
        }
        self.resume();
    }

    fn change_selection(&mut self, change_by: i32)
        requires
            old(self).wf(),
        ensures
            final(self).wf(),
            final(self)@ == selection_refreshed(
                AppView {
                    current_selection: clamped_selection(
                        old(self)@.current_directory_contents.len() as int,
                        old(self)@.current_selection,
                        change_by as int,
                    ),
                    ..old(self)@
                },
            ),
    {
        self.current_selection = next_selection(
            self.current_directory_contents.len(),
            self.current_selection,
            change_by,
        );
        self.update_selected_item();
    }

    fn run_command(&mut self, command: String, args: Vec<String>)
        requires
            old(self).wf(),
        ensures
            final(self).wf(),
            final(self)@ == awaiting(
                old(self)@,
                Phase::Command,
                RequestView::RunCaptured { command: command@, args: strings_view(args@) },
            ),
    {
        self.await_reply(Phase::Command, Request::RunCaptured { command, args });
    }

    fn open_viewer(&mut self, event: ApplicationEvent)
        requires
            old(self).wf(),
            opens_viewer(event),
        ensures
            final(self).wf(),
            final(self)@ == viewer_opened(old(self)@, event),
    {
        match self.selected_path() {
            Some(path) => {
                match event {
                    ApplicationEvent::OpenImage => {
                        let mut input = text_of("--input=");
                        input.append(path.as_str());
                        self.run_command(text_of("pfiew"), one_argument(input));
                    },
                    ApplicationEvent::OpenText => self.run_command(
                        text_of("micro"),
                        one_argument(path),
                    ),
                    ApplicationEvent::ReadPdf => self.run_command(
                        text_of("zathura"),
                        one_argument(path),
                    ),
                    _ => self.run_command(path, no_arguments()),
                }
            },
            None => self.report_navigation_error(NavigationError::NothingSelected),
        }
    }

    fn finish_command(&mut self, report: CommandReport)
        requires
            old(self).wf(),
        ensures
            final(self).wf(),
            final(self)@ == command_finished(old(self)@, report@),
    {
        match read_report(report) {
            Ok(_) => {},
            Err(failure) => {
                let text = failure.message();
                self.report_error(text.as_str());
            },
        }
        self.resume();
    }

    fn play_media(&mut self)
        requires
            old(self).wf(),
        ensures
            final(self).wf(),
            final(self)@ == media_requested(old(self)@),
    {
        match self.selected_path() {
            Some(path) => {
                let mut args: Vec<String> = Vec::new();
                args.push(text_of("-show_entries"));
                args.push(text_of("format=duration"));
                args.push(text_of("-of"));
                args.push(text_of("default=noprint_wrappers=1:nokey=1"));
                args.push(path);
                proof {
                    assert(strings_view(args@) =~= probe_args(path@));
                }
                self.await_reply(
                    Phase::MediaProbe,
                    Request::RunCaptured { command: text_of("ffprobe"), args },
                );
            },
            None => self.report_navigation_error(NavigationError::NothingSelected),
        }
    }

    fn shown_request_args(&self) -> (shown: String)
        ensures
            shown@ == debug_text(request_args(self@.request)),
    {
        match &self.request {
            Request::RunCaptured { command, args } => debug_list(args),
            Request::SpawnForeground { command, args } => debug_list(args),
            Request::SpawnDetached { command, args } => debug_list(args),
            _ => debug_list(&no_arguments()),
        }
    }

    fn probe_media(&mut self, report: CommandReport)
        requires
            old(self).wf(),
        ensures
            final(self).wf(),
            final(self)@ == media_probed(old(self)@, report@),
    {
        match report {
            CommandReport::Failed(why) => {
                self.report_error(why.as_str());
                self.resume();
            },
            CommandReport::Exited(exit) => {
                if !exit.success {
                    let code = match exit.code {
                        Some(c) => c,
                        None => -1,
                    };
                    let shown = self.shown_request_args();
                    let text = report_probe_failure(shown.as_str(), code);
                    self.report_error(text.as_str());
                    self.resume();
                } else {
                    let lines = split_lines(exit.stdout.as_str());
                    if lines.len() == 0 {
                        self.report_error("No media length reported");
                        self.resume();
                    } else {
                        let text = trim(lines[0].as_str());
                        proof {
                            assert(strings_view(lines@)[0] == lines@[0]@);
                        }
                        self.await_reply(Phase::MediaDuration, Request::ParseDuration { text });
                    }
                }
            },
        }
    }

    fn parse_duration(&mut self, result: Result<u32, String>)
        requires
            old(self).wf(),
        ensures
            final(self).wf(),
            final(self)@ == duration_parsed(
                old(self)@,
                match result {
                    Ok(bits) => Ok(bits),
                    Err(why) => Err(why@),
                },
            ),
    {
        match result {
            Ok(bits) => match self.selected_path() {
                Some(path) => {
                    if is_long_media(bits) {
                        self.await_reply(
                            Phase::MediaForeground,
                            Request::SpawnForeground {
                                command: text_of("mpv"),
                                args: one_argument(path),
                            },
                        );
                    } else {
                        let mut args: Vec<String> = Vec::new();
                        args.push(path);
                        args.push(text_of("--really-quiet"));
                        args.push(text_of("--no-input-default-bindings"));
                        args.push(text_of("--no-config"));
                        args.push(text_of("--volume=50"));
                        proof {
                            assert(strings_view(args@) =~= detached_args(path@));
                        }
                        self.await_reply(
                            Phase::MediaDetached,
                            Request::SpawnDetached { command: text_of("mpv"), args },
                        );
                    }
                },
                None => {
                    self.report_navigation_error(NavigationError::NothingSelected);
                    self.resume();
                },
            },
            Err(why) => {
                self.report_error(why.as_str());
                self.resume();
            },
        }
    }

    fn finish_foreground(&mut self, result: Result<(), String>)
        requires
            old(self).wf(),
        ensures
            final(self).wf(),
            final(self)@ == foreground_finished(
                old(self)@,
                match result {
                    Ok(_) => Ok(()),
                    Err(why) => Err(why@),
                },
            ),
    {
        match result {
            Ok(_) => {},
            Err(why) => self.report_error(why.as_str()),
        }
        self.resume();
    }

    fn track_detached(&mut self, result: Result<u32, String>)
        requires
            old(self).wf(),
        ensures
            final(self).wf(),
            final(self)@ == detached_spawned(
                old(self)@,
                match result {
                    Ok(id) => Ok(id),
                    Err(why) => Err(why@),
                },
            ),
    {
        match result {
            Ok(id) => self.children.track(id, text_of("mpv")),
            Err(why) => self.report_error(why.as_str()),
        }
        self.resume();
    }

    fn handle_event(&mut self, event: ApplicationEvent)
        requires
            old(self).wf(),
        ensures
            final(self).wf(),
            final(self)@ == event_handled(old(self)@, event),
            final(self)@.pending == old(self)@.pending,
    {
        match event {
            ApplicationEvent::Close => {
                self.should_run = false;
            },
            ApplicationEvent::NavigateUp => self.navigate_up(),
            ApplicationEvent::NavigateDown => match self.selected_path() {
                Some(path) => self.await_reply(Phase::Descend, Request::IsDirectory { path }),
                None => self.fall_back(NavigationError::NothingSelected),
            },
            ApplicationEvent::SelectNext => self.change_selection(1),
            ApplicationEvent::SelectPrevious => self.change_selection(-1),
            ApplicationEvent::ToggleShowHidden => {
                self.show_hidden = !self.show_hidden;
                self.directory_changed = true;
            },
            ApplicationEvent::OpenImage => self.open_viewer(event),
            ApplicationEvent::OpenText => self.open_viewer(event),
            ApplicationEvent::OpenExecutable => self.open_viewer(event),
            ApplicationEvent::ReadPdf => self.open_viewer(event),
            ApplicationEvent::PlayMedia => self.play_media(),
            ApplicationEvent::DebugEvent => self.msg("q!!"),
        }
        proof {
            lemma_event_keeps_pending(old(self)@, event);
        }
    }

    fn finish_tick(&mut self)
        requires
            old(self).wf(),
            old(self)@.pending.len() == 0,
        ensures
            final(self).wf(),
            final(self)@ == tick_finished(old(self)@),
    {
        if self.children.len() > 0 {
            let ids = self.children.ids();
            self.await_reply(Phase::Sweep, Request::PollChildren { ids });
        } else {
            self.await_reply(Phase::Idle, Request::Idle);
        }
    }

    fn sweep(&mut self, exited: Vec<u32>)
        requires
            old(self).wf(),
            old(self)@.phase == Phase::Sweep,
        ensures
            final(self).wf(),
            final(self)@ == swept(old(self)@, exited@),
    {
        let _ = self.children.sweep(&exited);
        self.await_reply(Phase::Idle, Request::Idle);
    }

    fn run_queue(&mut self)
        requires
            old(self).wf(),
        ensures
            final(self).wf(),
            final(self)@.phase != Phase::Running,
            final(self)@ == queue_run(old(self)@),
    {
        while self.phase == Phase::Running && self.cursor < self.queue.len()
            invariant
                self.wf(),
                queue_run(self@) == queue_run(old(self)@),
            decreases self@.pending.len(),
        {
            let ghost before = self@;
            let event = self.queue[self.cursor];
            self.cursor = self.cursor + 1;
            proof {
                assert(self@.pending =~= before.pending.drop_first());
                assert(before.pending[0] == event);
                assert(self@ == (AppView { pending: before.pending.drop_first(), ..before }));
            }
            let ghost middle = self@;
            self.handle_event(event);
            proof {
                assert(self@ == (AppView { pending: middle.pending, ..self@ }));
            }
        }
        if self.phase == Phase::Running {
            proof {
                assert(self@.pending =~= Seq::<ApplicationEvent>::empty());
            }
            self.finish_tick();
        }
    }

    /// Takes in the reply to what the engine asked for, and goes on until
    /// it needs something from outside again or the tick is over. What it
    /// needs is then found in [`App::request`].
    pub fn update(&mut self, reply: Reply)
        requires
            old(self).wf(),
        ensures
            final(self).wf(),
            final(self)@.phase != Phase::Running,
            final(self)@ == step(old(self)@, reply@),
    {
        self.react(reply);
        self.run_queue();
    }

    fn react(&mut self, reply: Reply)
        requires
            old(self).wf(),
        ensures
            final(self).wf(),
            final(self)@ == reacted(old(self)@, reply@),
    {
        match reply {
            Reply::Tick { size } => {
                if self.phase == Phase::Idle {
                    self.begin_tick(size);
                }
            },
            Reply::Entries(entries) => match self.phase {
                Phase::ListCurrent => self.list_current(entries),
                Phase::ListParent => self.list_parent(entries),
                Phase::PreviewDirectory => self.preview_directory(entries),
                _ => {},
            },
            Reply::Head(head) => {
                if self.phase == Phase::PreviewHead {
                    self.read_head(head);
                }
            },
            Reply::Text(text) => {
                if self.phase == Phase::PreviewText {
                    self.read_text(text);
                }
            },
            Reply::Size(size) => {
                if self.phase == Phase::PreviewSize {
                    self.read_size(size);
                }
            },
            Reply::Directory(is_directory) => {
                if self.phase == Phase::Descend {
                    self.navigate_down(is_directory);
                }
            },
            Reply::Captured(report) => match self.phase {
                Phase::PreviewLinkage => self.list_linkage(report),
                Phase::PreviewMetadata => self.probe_metadata(report),
                Phase::Command => self.finish_command(report),
                Phase::MediaProbe => self.probe_media(report),
                _ => {},
            },
            Reply::Duration(result) => {
                if self.phase == Phase::MediaDuration {
                    self.parse_duration(result);
                }
            },
            Reply::Finished(result) => {
                if self.phase == Phase::MediaForeground {
                    self.finish_foreground(result);
                }
            },
            Reply::Spawned(result) => {
                if self.phase == Phase::MediaDetached {
                    self.track_detached(result);
                }
            },
            Reply::Exited(exited) => {
                if self.phase == Phase::Sweep {
                    self.sweep(exited);
                }
            },
        }
    }

    /// What the engine needs from outside to go on; [`Request::Idle`]
    /// when the tick is over.
    pub fn request(&self) -> (request: &Request)
        ensures
            request@ == self@.request,
    {
        &self.request
    }
}

/// Toggling the display of hidden entries flips the flag and marks the
/// directory as changed, whatever else the state holds.
pub proof fn lemma_toggle_marks_directory_changed(s: AppView)
    ensures
        event_handled(s, ApplicationEvent::ToggleShowHidden) == (AppView {
            show_hidden: !s.show_hidden,
            directory_changed: true,
            ..s
        }),
{
}

/// The tick that follows a change of directory asks for the current
/// directory.
pub proof fn lemma_changed_directory_is_asked_for(s: AppView, size: Option<(u16, u16)>)
    requires
        s.phase == Phase::Idle,
        s.directory_changed,
    ensures
        step(s, ReplyView::Tick { size }).phase == Phase::ListCurrent,
        step(s, ReplyView::Tick { size }).request == (RequestView::ListDirectory {
            path: s.current_directory,
        }),
        step(s, ReplyView::Tick { size }).show_hidden == s.show_hidden,
        step(s, ReplyView::Tick { size }).current_directory == s.current_directory,
{
    let begun = tick_begun(s, size);
    assert(reacted(s, ReplyView::Tick { size }) == begun);
    assert(begun.phase == Phase::ListCurrent);
    assert(queue_run(begun) == begun);
}

/// When the current directory is listed after a change, its listing is
/// shown, the selection is back at the first entry, and the parent
/// directory is asked for.
pub proof fn lemma_current_listing_resets_selection(s: AppView, entries: Seq<FileView>)
    requires
        s.phase == Phase::ListCurrent,
    ensures
        step(s, ReplyView::Entries(entries)).phase == Phase::ListParent,
        step(s, ReplyView::Entries(entries)).request == (RequestView::ListDirectory {
            path: parent_or_nothing(s.current_directory),
        }),
        step(s, ReplyView::Entries(entries)).current_selection == 0,
        step(s, ReplyView::Entries(entries)).current_directory_contents == listing(
            entries,
            s.show_hidden,
        ),
{
    let listed = current_listed(s, entries);
    assert(reacted(s, ReplyView::Entries(entries)) == listed);
    assert(listed.phase == Phase::ListParent);
    assert(queue_run(listed) == listed);
}

/// When the parent directory is listed, too, the change of directory is
/// done with, and the selection is at the first entry before any event of
/// the tick is handled.
pub proof fn lemma_parent_listing_ends_change(s: AppView, entries: Seq<FileView>)
    requires
        s.phase == Phase::ListParent,
    ensures
        reacted(s, ReplyView::Entries(entries)).current_selection == 0,
        !reacted(s, ReplyView::Entries(entries)).directory_changed,
        reacted(s, ReplyView::Entries(entries)).parent_directory_contents == listing(
            entries,
            s.show_hidden,
        ),
{
    let relisted = AppView {
        parent_directory_contents: listing(entries, s.show_hidden),
        directory_changed: false,
        current_selection: 0,
        ..s
    };
    assert(reacted(s, ReplyView::Entries(entries)) == selection_refreshed(relisted));
    lemma_selection_refreshed_keeps_listing(relisted);
}

/// Working the selected item out anew changes neither the selection nor
/// the listings nor the flags.
pub proof fn lemma_selection_refreshed_keeps_listing(s: AppView)
    ensures
        selection_refreshed(s).current_selection == s.current_selection,
        selection_refreshed(s).directory_changed == s.directory_changed,
        selection_refreshed(s).show_hidden == s.show_hidden,
        selection_refreshed(s).current_directory_contents == s.current_directory_contents,
        selection_refreshed(s).parent_directory_contents == s.parent_directory_contents,
        selection_refreshed(s).debug_messages == s.debug_messages,
        selection_refreshed(s).pending == s.pending,
        selection_refreshed(s).width == s.width,
        selection_refreshed(s).height == s.height,
        selection_refreshed(s).phase != Phase::Idle,
        selection_refreshed(s).phase != Phase::Sweep,
{
}

/// Working the selected item out anew keeps what holds of every state in
/// mid-step.
pub proof fn lemma_selection_refreshed_keeps_invariant(s: AppView)
    requires
        state_invariant(s),
    ensures
        state_invariant(selection_refreshed(s)),
        selection_refreshed(s).pending == s.pending,
        selection_refreshed(s).phase != Phase::Idle,
        selection_refreshed(s).phase != Phase::Sweep,
{
    lemma_selection_refreshed_keeps_listing(s);
}

/// Taking in the entries of a directory keeps what holds of every state
/// in mid-step.
pub proof fn lemma_entries_keep_invariant(s: AppView, entries: Seq<FileView>)
    requires
        state_invariant(s),
    ensures
        state_invariant(reacted(s, ReplyView::Entries(entries))),
{
    crate::file::lemma_listing_properties(entries, s.show_hidden);
    if s.phase == Phase::ListParent {
        lemma_selection_refreshed_keeps_invariant(
            AppView {
                parent_directory_contents: listing(entries, s.show_hidden),
                directory_changed: false,
                current_selection: 0,
                ..s
            },
        );
    }
}

/// Taking in the output of a command keeps what holds of every state in
/// mid-step.
pub proof fn lemma_captured_keeps_invariant(s: AppView, report: CommandReportView)
    requires
        state_invariant(s),
    ensures
        state_invariant(reacted(s, ReplyView::Captured(report))),
{
    let after = reacted(s, ReplyView::Captured(report));
    match s.phase {
        Phase::PreviewLinkage => {
            assert(after == linkage_listed(s, report));
            assert(state_invariant(after));
        },
        Phase::PreviewMetadata => {
            assert(after == metadata_probed(s, report));
            assert(state_invariant(after));
        },
        Phase::Command => {
            assert(after == command_finished(s, report));
            assert(state_invariant(after));
        },
        Phase::MediaProbe => {
            assert(after == media_probed(s, report));
            assert(state_invariant(after));
        },
        _ => {
            assert(after == s);
        },
    }
}

/// Starting a tick keeps what holds of every state in mid-step.
pub proof fn lemma_tick_keeps_invariant(s: AppView, size: Option<(u16, u16)>)
    requires
        state_invariant(s),
    ensures
        state_invariant(reacted(s, ReplyView::Tick { size })),
{
}

/// Taking in what was read of the selected file keeps what holds of every
/// state in mid-step.
pub proof fn lemma_file_replies_keep_invariant(s: AppView, reply: ReplyView)
    requires
        state_invariant(s),
        reply is Head || reply is Text || reply is Size || reply is Directory,
    ensures
        state_invariant(reacted(s, reply)),
{
}

/// Taking in what became of the media player keeps what holds of every
/// state in mid-step.
pub proof fn lemma_media_replies_keep_invariant(s: AppView, reply: ReplyView)
    requires
        state_invariant(s),
        reply is Duration || reply is Finished || reply is Spawned,
    ensures
        state_invariant(reacted(s, reply)),
{
}

/// Sweeping the registry keeps what holds of every state in mid-step.
pub proof fn lemma_sweep_keeps_invariant(s: AppView, exited: Seq<u32>)
    requires
        state_invariant(s),
    ensures
        state_invariant(reacted(s, ReplyView::Exited(exited))),
{
}

/// Taking in a reply keeps what holds of every state in mid-step.
pub proof fn lemma_reacted_keeps_invariant(s: AppView, reply: ReplyView)
    requires
        state_invariant(s),
    ensures
        state_invariant(reacted(s, reply)),
{
    match reply {
        ReplyView::Tick { size } => lemma_tick_keeps_invariant(s, size),
        ReplyView::Entries(entries) => lemma_entries_keep_invariant(s, entries),
        ReplyView::Captured(report) => lemma_captured_keeps_invariant(s, report),
        ReplyView::Exited(exited) => lemma_sweep_keeps_invariant(s, exited),
        ReplyView::Head(_) => lemma_file_replies_keep_invariant(s, reply),
        ReplyView::Text(_) => lemma_file_replies_keep_invariant(s, reply),
        ReplyView::Size(_) => lemma_file_replies_keep_invariant(s, reply),
        ReplyView::Directory(_) => lemma_file_replies_keep_invariant(s, reply),
        ReplyView::Duration(_) => lemma_media_replies_keep_invariant(s, reply),
        ReplyView::Finished(_) => lemma_media_replies_keep_invariant(s, reply),
        ReplyView::Spawned(_) => lemma_media_replies_keep_invariant(s, reply),
    }
}

/// Handling an event keeps what holds of every state in mid-step, and
/// leaves the events that are still to be handled alone.
pub proof fn lemma_event_handled_keeps_invariant(s: AppView, event: ApplicationEvent)
    requires
        state_invariant(s),
        s.phase == Phase::Running,
    ensures
        state_invariant(event_handled(s, event)),
        event_handled(s, event).pending == s.pending,
        event_handled(s, event).phase != Phase::Idle,
        event_handled(s, event).phase != Phase::Sweep,
{
    let n = s.current_directory_contents.len() as int;
    match event {
        ApplicationEvent::SelectNext => {
            lemma_selection_stays_within(n, s.current_selection, 1);
            lemma_selection_refreshed_keeps_invariant(
                AppView { current_selection: clamped_selection(n, s.current_selection, 1), ..s },
            );
        },
        ApplicationEvent::SelectPrevious => {
            lemma_selection_stays_within(n, s.current_selection, -1);
            lemma_selection_refreshed_keeps_invariant(
                AppView { current_selection: clamped_selection(n, s.current_selection, -1), ..s },
            );
        },
        ApplicationEvent::OpenImage => lemma_viewer_opened_keeps_invariant(s, event),
        ApplicationEvent::OpenText => lemma_viewer_opened_keeps_invariant(s, event),
        ApplicationEvent::OpenExecutable => lemma_viewer_opened_keeps_invariant(s, event),
        ApplicationEvent::ReadPdf => lemma_viewer_opened_keeps_invariant(s, event),
        ApplicationEvent::NavigateUp => {
            assert(event_handled(s, event) == parent_entered(s, parent_path(s.current_directory)));
        },
        ApplicationEvent::NavigateDown => {
            assert(fallen_back(s, NavigationError::NothingSelected).pending == s.pending);
        },
        ApplicationEvent::PlayMedia => {
            assert(event_handled(s, event) == media_requested(s));
        },
        _ => {},
    }
}

/// Handling an event leaves the events that are still to be handled
/// alone.
pub proof fn lemma_event_keeps_pending(s: AppView, event: ApplicationEvent)
    ensures
        event_handled(s, event).pending == s.pending,
{
    let n = s.current_directory_contents.len() as int;
    match event {
        ApplicationEvent::SelectNext => {
            lemma_selection_refreshed_keeps_listing(
                AppView { current_selection: clamped_selection(n, s.current_selection, 1), ..s },
            );
        },
        ApplicationEvent::SelectPrevious => {
            lemma_selection_refreshed_keeps_listing(
                AppView { current_selection: clamped_selection(n, s.current_selection, -1), ..s },
            );
        },
        ApplicationEvent::OpenImage => {
            assert(viewer_opened(s, event).pending == s.pending);
        },
        ApplicationEvent::OpenText => {
            assert(viewer_opened(s, event).pending == s.pending);
        },
        ApplicationEvent::OpenExecutable => {
            assert(viewer_opened(s, event).pending == s.pending);
        },
        ApplicationEvent::ReadPdf => {
            assert(viewer_opened(s, event).pending == s.pending);
        },
        ApplicationEvent::NavigateUp => {
            assert(parent_entered(s, parent_path(s.current_directory)).pending == s.pending);
        },
        ApplicationEvent::NavigateDown => {
            assert(fallen_back(s, NavigationError::NothingSelected).pending == s.pending);
        },
        ApplicationEvent::PlayMedia => {
            assert(media_requested(s).pending == s.pending);
        },
        _ => {},
    }
}

/// Opening a viewer keeps what holds of every state in mid-step.
pub proof fn lemma_viewer_opened_keeps_invariant(s: AppView, event: ApplicationEvent)
    requires
        state_invariant(s),
        s.phase == Phase::Running,
    ensures
        state_invariant(viewer_opened(s, event)),
        viewer_opened(s, event).pending == s.pending,
        viewer_opened(s, event).phase != Phase::Idle,
        viewer_opened(s, event).phase != Phase::Sweep,
{
}

/// Handling the events of a tick keeps what holds of every state, and the
/// engine comes to rest: it waits for a reply or for the next tick.
pub proof fn lemma_queue_run_keeps_invariant(s: AppView)
    requires
        state_invariant(s),
    ensures
        app_invariant(queue_run(s)),
    decreases s.pending.len(),
{
    if s.phase == Phase::Running && s.pending.len() > 0 {
        let rest = s.pending.drop_first();
        let popped = AppView { pending: rest, ..s };
        lemma_event_handled_keeps_invariant(popped, s.pending[0]);
        let handled = event_handled(popped, s.pending[0]);
        lemma_queue_run_keeps_invariant(AppView { pending: rest, ..handled });
    }
}

/// Every step of the engine keeps what holds of every state: the
/// selection stays an index of the listing, the debug messages stay within
/// their room, the listings stay in order, and the engine comes to rest.
pub proof fn lemma_step_keeps_invariant(s: AppView, reply: ReplyView)
    requires
        app_invariant(s),
    ensures
        app_invariant(step(s, reply)),
{
    lemma_reacted_keeps_invariant(s, reply);
    lemma_queue_run_keeps_invariant(reacted(s, reply));
}

/// A viewer is asked for without a message. When the only waiting event
/// opens a viewer on the selected item, the tick stops at the request for
/// the command, with the debug messages and everything else that is shown
/// as they were.
pub proof fn lemma_viewer_is_asked_for_silently(
    s: AppView,
    size: Option<(u16, u16)>,
    event: ApplicationEvent,
)
    requires
        s.phase == Phase::Idle,
        !s.directory_changed,
        s.new_events == seq![event],
        opens_viewer(event),
        s.selected_item is Some,
    ensures
        ({
            let path = s.selected_item->0;
            let asked = step(s, ReplyView::Tick { size });
            &&& asked.phase == Phase::Command
            &&& asked.request == (RequestView::RunCaptured {
                command: viewer_command(event, path),
                args: viewer_args(event, path),
            })
            &&& asked.pending.len() == 0
            &&& asked.debug_messages == s.debug_messages
            &&& asked.should_run == s.should_run
            &&& asked.current_directory == s.current_directory
            &&& asked.current_selection == s.current_selection
        }),
{
    let begun = tick_begun(s, size);
    assert(reacted(s, ReplyView::Tick { size }) == begun);
    assert(begun.phase == Phase::Running);
    assert(begun.pending == seq![event]);
    let rest = begun.pending.drop_first();
    assert(rest =~= Seq::<ApplicationEvent>::empty());
    let popped = AppView { pending: rest, ..begun };
    assert(event_handled(popped, event) == viewer_opened(popped, event));
    let asked = AppView { pending: rest, ..viewer_opened(popped, event) };
    assert(asked.phase == Phase::Command);
    assert(queue_run(asked) == asked);
    assert(queue_run(begun) == asked);
}

/// A viewer that fails leaves exactly one debug message. When the engine
/// waits for a viewer with no event left to handle, and the command has
/// failed, the report of the failure is appended to the debug messages,
/// nothing else is, the application goes on, and the tick ends.
pub proof fn lemma_failed_viewer_adds_one_message(s: AppView, report: CommandReportView)
    requires
        s.phase == Phase::Command,
        s.pending.len() == 0,
        report_result(report) is Err,
    ensures
        ({
            let done = step(s, ReplyView::Captured(report));
            let failure = report_result(report)->Err_0;
            &&& done.debug_messages == pushed_message(
                s.debug_messages,
                error_text(failure_message(failure)),
            )
            &&& s.debug_messages.len() < DEBUG_CAPACITY ==> done.debug_messages.len()
                == s.debug_messages.len() + 1
            &&& done.debug_messages.last() == error_text(failure_message(failure))
            &&& done.should_run == s.should_run
            &&& done.current_directory == s.current_directory
            &&& done.current_selection == s.current_selection
            &&& done.children == s.children
            &&& done.phase == Phase::Idle || done.phase == Phase::Sweep
        }),
{
    let finished = command_finished(s, report);
    assert(reacted(s, ReplyView::Captured(report)) == finished);
    assert(finished.phase == Phase::Running);
    assert(finished.pending.len() == 0);
    assert(queue_run(finished) == tick_finished(finished));
}

/// A viewer that succeeds leaves no debug message.
pub proof fn lemma_successful_viewer_adds_no_message(s: AppView, report: CommandReportView)
    requires
        s.phase == Phase::Command,
        s.pending.len() == 0,
        report_result(report) is Ok,
    ensures
        step(s, ReplyView::Captured(report)).debug_messages == s.debug_messages,
{
    let finished = command_finished(s, report);
    assert(reacted(s, ReplyView::Captured(report)) == finished);
    assert(finished.phase == Phase::Running);
    assert(finished.pending.len() == 0);
    assert(queue_run(finished) == tick_finished(finished));
}

/// Media is played by its length. Once the length is known, long media
/// is asked to be played in the foreground and short media beside the
/// application, the registry unchanged in both cases. When the detached
/// player was started it is tracked behind the others, and the engine
/// goes on without waiting for it; when the foreground player has ended
/// the registry is as it was.
pub proof fn lemma_media_is_played_by_its_length(
    s: AppView,
    bits: u32,
    id: u32,
    ended: Result<(), Seq<char>>,
)
    requires
        s.selected_item is Some,
    ensures
        ({
            let path = s.selected_item->0;
            &&& s.phase == Phase::MediaDuration && is_long_media_spec(bits) ==> reacted(
                s,
                ReplyView::Duration(Ok(bits)),
            ) == awaiting(
                s,
                Phase::MediaForeground,
                RequestView::SpawnForeground { command: "mpv"@, args: seq![path] },
            )
            &&& s.phase == Phase::MediaDuration && !is_long_media_spec(bits) ==> reacted(
                s,
                ReplyView::Duration(Ok(bits)),
            ) == awaiting(
                s,
                Phase::MediaDetached,
                RequestView::SpawnDetached { command: "mpv"@, args: detached_args(path) },
            )
            &&& s.phase == Phase::MediaDetached ==> reacted(s, ReplyView::Spawned(Ok(id)))
                == resumed(
                AppView {
                    children: s.children.push(TrackedProcessView { id, command: "mpv"@ }),
                    ..s
                },
            )
            &&& s.phase == Phase::MediaForeground ==> reacted(s, ReplyView::Finished(ended)).children
                == s.children && reacted(s, ReplyView::Finished(ended)).phase == Phase::Running
        }),
{
}

/// Media whose length cannot be had is not played: a probe that could not
/// be run, that failed or that printed nothing, and a length that could
/// not be read, each leave the registry as it was, add one debug message,
/// and let the engine go on.
pub proof fn lemma_unprobed_media_is_not_played(
    s: AppView,
    report: CommandReportView,
    why: Seq<char>,
)
    ensures
        s.phase == Phase::MediaProbe && report_result(report) is Err ==> ({
            let after = reacted(s, ReplyView::Captured(report));
            &&& after.children == s.children
            &&& after.phase == Phase::Running
            &&& exists|text: Seq<char>|
                after.debug_messages == pushed_message(s.debug_messages, error_text(text))
        }),
        s.phase == Phase::MediaProbe && report_result(report) == Ok::<
            Option<Seq<Seq<char>>>,
            crate::external::ExternalToolFailureView,
        >(None) ==> ({
            let after = reacted(s, ReplyView::Captured(report));
            &&& after.children == s.children
            &&& after.phase == Phase::Running
            &&& after.debug_messages == pushed_message(
                s.debug_messages,
                error_text("No media length reported"@),
            )
        }),
        s.phase == Phase::MediaDuration ==> ({
            let after = reacted(s, ReplyView::Duration(Err(why)));
            &&& after.children == s.children
            &&& after.phase == Phase::Running
            &&& after.debug_messages == pushed_message(s.debug_messages, error_text(why))
        }),
{
    if s.phase == Phase::MediaProbe && report_result(report) is Err {
        let after = reacted(s, ReplyView::Captured(report));
        assert(after == media_probed(s, report));
        match report {
            CommandReportView::Failed(reason) => {
                assert(after.debug_messages == pushed_message(
                    s.debug_messages,
                    error_text(reason),
                ));
            },
            CommandReportView::Exited { success, code, stdout } => {
                assert(!success);
                let text = probe_failure_text(
                    request_args(s.request),
                    match code {
                        Some(c) => c as int,
                        None => -1,
                    },
                );
                assert(after.debug_messages == pushed_message(
                    s.debug_messages,
                    error_text(text),
                ));
            },
        }
    }
}

} // verus!

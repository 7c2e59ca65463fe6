//! Engine of a dual-pane terminal file browser: directory listings, file
//! classification, viewport arithmetic, key bindings and the update state
//! machine, each with a verified contract.
//!
//! The engine does no input or output. Whatever it needs from outside it
//! asks for with a [`update::Request`], and it is told the outcome with a
//! [`update::Reply`].
use crate::file::{files_view, is_sorted, File, FileView};
use crate::info::{Info, InfoType, InfoView};
use crate::input::{ApplicationEvent, KeyCode, KeyModifiers, Keybindings};
use crate::process::{ProcessRegistry, TrackedProcessView};
use crate::text::{optional_strings, optional_text, strings_view};
use crate::update::{Phase, Request, RequestView};
use vstd::prelude::*;

pub mod ansi;
pub mod display;
pub mod external;
pub mod file;
pub mod info;
pub mod input;
pub mod path;
pub mod process;
pub mod text;
pub mod update;

verus! {

/// The narrowest width that the application draws for.
pub const MIN_WIDTH: usize = 80;

/// The lowest height that the application draws for.
pub const MIN_HEIGHT: usize = 15;

/// How many debug messages are kept.
pub const DEBUG_CAPACITY: usize = 6;

/// The whole state of the application.
pub struct App {
    pub(crate) width: usize,
    pub(crate) height: usize,
    pub(crate) starting_directory: String,
    pub(crate) current_directory: String,
    pub(crate) current_selection: usize,
    pub(crate) selected_item: Option<String>,
    pub(crate) current_directory_contents: Vec<File>,
    pub(crate) parent_directory_contents: Vec<File>,
    pub(crate) selection_info: Option<Info>,
    pub(crate) should_run: bool,
    pub(crate) directory_changed: bool,
    pub(crate) show_hidden: bool,
    pub(crate) keybindings: Keybindings,
    pub(crate) new_events: Vec<ApplicationEvent>,
    pub(crate) children: ProcessRegistry,
    pub(crate) debug_messages: Vec<String>,
    /// The events of the tick that is under way, and how many of them are
    /// done with.
    pub(crate) queue: Vec<ApplicationEvent>,
    pub(crate) cursor: usize,
    /// What the engine waits for, and what it has asked for.
    pub(crate) phase: Phase,
    pub(crate) request: Request,
    /// What a preview under way has gathered so far.
    pub(crate) pending_type: InfoType,
    pub(crate) pending_lines: Option<Vec<String>>,
}

/// The mathematical value of an [`App`].
pub struct AppView {
    pub width: int,
    pub height: int,
    pub starting_directory: Seq<char>,
    pub current_directory: Seq<char>,
    pub current_selection: int,
    pub selected_item: Option<Seq<char>>,
    pub current_directory_contents: Seq<FileView>,
    pub parent_directory_contents: Seq<FileView>,
    pub selection_info: Option<InfoView>,
    pub should_run: bool,
    pub directory_changed: bool,
    pub show_hidden: bool,
    pub keybindings: Map<(KeyCode, KeyModifiers), ApplicationEvent>,
    /// The events that wait for the next tick.
    pub new_events: Seq<ApplicationEvent>,
    pub children: Seq<TrackedProcessView>,
    pub debug_messages: Seq<Seq<char>>,
    /// The events of the tick under way that are not done with.
    pub pending: Seq<ApplicationEvent>,
    pub phase: Phase,
    pub request: RequestView,
    pub pending_type: InfoType,
    pub pending_lines: Option<Seq<Seq<char>>>,
}

/// The value of a preview that may be missing.
pub open spec fn optional_info(info: Option<Info>) -> Option<InfoView> {
    match info {
        Some(i) => Some(i@),
        None => None,
    }
}

/// The largest index that can be selected among `n` entries.
pub open spec fn last_index(n: int) -> int {
    if n > 0 {
        n - 1
    } else {
        0
    }
}

/// What holds of every state in which the engine has come to rest: the
/// invariant of all states, and the engine waits for a reply or for the
/// next tick.
pub open spec fn app_invariant(s: AppView) -> bool {
    &&& state_invariant(s)
    &&& s.phase != Phase::Running
}

/// What holds of every state of the application: the selection is an index
/// of the listing, or 0 where the listing is empty; no more debug messages
/// are kept than there is room for; the size is not below the minimum; both
/// listings are in listing order; and between ticks, and while the registry
/// is swept, no event is under way.
pub open spec fn state_invariant(s: AppView) -> bool {
    &&& 0 <= s.current_selection <= last_index(s.current_directory_contents.len() as int)
    &&& s.debug_messages.len() <= DEBUG_CAPACITY
    &&& MIN_WIDTH <= s.width <= usize::MAX
    &&& MIN_HEIGHT <= s.height <= usize::MAX
    &&& is_sorted(s.current_directory_contents)
    &&& is_sorted(s.parent_directory_contents)
    &&& (s.phase == Phase::Idle || s.phase == Phase::Sweep) ==> s.pending.len() == 0
}

/// The state of an application that was started in `directory`.
pub open spec fn initial_state(directory: Seq<char>) -> AppView {
    AppView {
        width: MIN_WIDTH as int,
        height: MIN_HEIGHT as int,
        starting_directory: directory,
        current_directory: directory,
        current_selection: 0,
        selected_item: None,
        current_directory_contents: Seq::empty(),
        parent_directory_contents: Seq::empty(),
        selection_info: None,
        should_run: true,
        directory_changed: true,
        show_hidden: true,
        keybindings: Map::empty(),
        new_events: Seq::empty(),
        children: Seq::empty(),
        debug_messages: Seq::empty(),
        pending: Seq::empty(),
        phase: Phase::Idle,
        request: RequestView::Idle,
        pending_type: InfoType::Unknown,
        pending_lines: None,
    }
}

/// The messages after `text` was appended; where there is no room, the
/// oldest message gives way.
pub open spec fn pushed_message(messages: Seq<Seq<char>>, text: Seq<char>) -> Seq<Seq<char>> {
    if messages.len() >= DEBUG_CAPACITY {
        messages.drop_first().push(text)
    } else {
        messages.push(text)
    }
}

/// The state after `text` was appended to the debug messages.
pub open spec fn with_message(s: AppView, text: Seq<char>) -> AppView {
    AppView { debug_messages: pushed_message(s.debug_messages, text), ..s }
}

impl App {
    /// The mathematical value of the state.
    pub open(crate) spec fn view(&self) -> AppView {
        AppView {
            width: self.width as int,
            height: self.height as int,
            starting_directory: self.starting_directory@,
            current_directory: self.current_directory@,
            current_selection: self.current_selection as int,
            selected_item: optional_text(self.selected_item),
            current_directory_contents: files_view(self.current_directory_contents@),
            parent_directory_contents: files_view(self.parent_directory_contents@),
            selection_info: optional_info(self.selection_info),
            should_run: self.should_run,
            directory_changed: self.directory_changed,
            show_hidden: self.show_hidden,
            keybindings: self.keybindings@,
            new_events: self.new_events@,
            children: self.children@,
            debug_messages: strings_view(self.debug_messages@),
            pending: self.queue@.skip(self.cursor as int),
            phase: self.phase,
            request: self.request@,
            pending_type: self.pending_type,
            pending_lines: optional_strings(self.pending_lines),
        }
    }

    /// Whether the state is one that the application can be in. Every
    /// function that hands out or changes a state keeps it so.
    pub open(crate) spec fn wf(&self) -> bool {
        &&& state_invariant(self@)
        &&& self.cursor <= self.queue@.len()
    }

    /// An application that starts in `starting_directory`, without
    /// bindings, and lists its directory at the first tick.
    pub fn new(starting_directory: String) -> (app: Self)
        ensures
            app.wf(),
            app@ == initial_state(starting_directory@),
    {
        let current_directory = starting_directory.clone();
        let app = Self {
            width: MIN_WIDTH,
            height: MIN_HEIGHT,
            starting_directory,
            current_directory,
            current_selection: 0,
            selected_item: None,
            current_directory_contents: Vec::new(),
            parent_directory_contents: Vec::new(),
            selection_info: None,
            should_run: true,
            directory_changed: true,
            show_hidden: true,
            keybindings: Keybindings::new(),
            new_events: Vec::new(),
            children: ProcessRegistry::new(),
            debug_messages: Vec::new(),
            queue: Vec::new(),
            cursor: 0,
            phase: Phase::Idle,
            request: Request::Idle,
            pending_type: InfoType::Unknown,
            pending_lines: None,
        };
        proof {
            assert(app@.current_directory_contents =~= Seq::<FileView>::empty());
            assert(app@.parent_directory_contents =~= Seq::<FileView>::empty());
            assert(app@.debug_messages =~= Seq::<Seq<char>>::empty());
            assert(app@.new_events =~= Seq::<ApplicationEvent>::empty());
            assert(app@.pending =~= Seq::<ApplicationEvent>::empty());
        }
        app
    }

    /// Tells whether the state is one that the application can be in.
    pub fn is_valid(&self) -> (valid: bool)
        ensures
            valid == self.wf(),
    {
        let entries = self.current_directory_contents.len();
        let last = if entries > 0 {
            entries - 1
        } else {
            0
        };
        let resting = match self.phase {
            Phase::Idle => true,
            Phase::Sweep => true,
            _ => false,
        };
        self.current_selection <= last && self.debug_messages.len() <= DEBUG_CAPACITY
            && self.width >= MIN_WIDTH && self.height >= MIN_HEIGHT && self.cursor
            <= self.queue.len() && (!resting || self.cursor == self.queue.len())
            && crate::file::in_listing_order(&self.current_directory_contents)
            && crate::file::in_listing_order(&self.parent_directory_contents)
    }

    /// Prepares a fresh application for use: binds the default keys.
    pub fn setup(&mut self)
        requires
            old(self).wf(),
        ensures
            final(self).wf(),
            final(self)@ == (AppView {
                keybindings: crate::input::with_default_bindings(old(self)@.keybindings),
                ..old(self)@
            }),
    {
        self.add_default_keybindings();
    }

    /// Appends `message` to the debug messages; where six are kept already,
    /// the oldest gives way.
    pub fn msg(&mut self, message: &str)
        requires
            old(self).wf(),
        ensures
            final(self).wf(),
            final(self)@ == with_message(old(self)@, message@),
    {
        let ghost before = strings_view(self.debug_messages@);
        if self.debug_messages.len() >= DEBUG_CAPACITY {
            self.debug_messages.remove(0);
            proof {
                assert(strings_view(self.debug_messages@) =~= before.drop_first());
            }
        }
        let ghost middle = strings_view(self.debug_messages@);
        self.debug_messages.push(String::from_str(message));
        proof {
            assert(strings_view(self.debug_messages@) =~= middle.push(message@));
        }
    }

    /// The width that is drawn for, in columns.
    pub fn width(&self) -> (width: usize)
        ensures
            width == self@.width,
    {
        self.width
    }

    /// The height that is drawn for, in rows.
    pub fn height(&self) -> (height: usize)
        ensures
            height == self@.height,
    {
        self.height
    }

    /// The directory in which the application was started.
    pub fn starting_directory(&self) -> (path: &str)
        ensures
            path@ == self@.starting_directory,
    {
        self.starting_directory.as_str()
    }

    /// The directory that the current pane shows.
    pub fn current_directory(&self) -> (path: &str)
        ensures
            path@ == self@.current_directory,
    {
        self.current_directory.as_str()
    }

    /// The index of the selected entry.
    pub fn current_selection(&self) -> (selection: usize)
        ensures
            selection == self@.current_selection,
    {
        self.current_selection
    }

    /// The path of the selected item, if one is selected.
    pub fn selected_item(&self) -> (path: Option<&String>)
        ensures
            match path {
                Some(p) => self@.selected_item == Some(p@),
                None => self@.selected_item is None,
            },
    {
        self.selected_item.as_ref()
    }

    /// The listing of the current directory.
    pub fn current_directory_contents(&self) -> (files: &Vec<File>)
        ensures
            files_view(files@) == self@.current_directory_contents,
    {
        &self.current_directory_contents
    }

    /// The listing of the parent directory.
    pub fn parent_directory_contents(&self) -> (files: &Vec<File>)
        ensures
            files_view(files@) == self@.parent_directory_contents,
    {
        &self.parent_directory_contents
    }

    /// The preview of the selection, if there is one.
    pub fn selection_info(&self) -> (info: Option<&Info>)
        ensures
            match info {
                Some(i) => self@.selection_info == Some(i@),
                None => self@.selection_info is None,
            },
    {
        self.selection_info.as_ref()
    }

    /// Whether the application goes on.
    pub fn should_run(&self) -> (should_run: bool)
        ensures
            should_run == self@.should_run,
    {
        self.should_run
    }

    /// Whether both panes are listed anew at the next tick.
    pub fn directory_changed(&self) -> (changed: bool)
        ensures
            changed == self@.directory_changed,
    {
        self.directory_changed
    }

    /// Whether hidden entries are listed.
    pub fn show_hidden(&self) -> (show_hidden: bool)
        ensures
            show_hidden == self@.show_hidden,
    {
        self.show_hidden
    }

    /// The events that wait for the next tick.
    pub fn new_events(&self) -> (events: &Vec<ApplicationEvent>)
        ensures
            events@ == self@.new_events,
    {
        &self.new_events
    }

    /// The identifiers of the processes that run beside the application.
    pub fn children(&self) -> (ids: Vec<u32>)
        ensures
            ids@ == crate::process::process_ids(self@.children),
    {
        self.children.ids()
    }

    /// The debug messages, oldest first.
    pub fn debug_messages(&self) -> (messages: &Vec<String>)
        ensures
            strings_view(messages@) == self@.debug_messages,
    {
        &self.debug_messages
    }

    /// Where the engine stands within a tick.
    pub fn phase(&self) -> (phase: Phase)
        ensures
            phase == self@.phase,
    {
        self.phase
    }
}

/// Appending a message never makes the messages more than there is room
/// for; the new message is the last; and where there was no room, it is
/// the oldest message that has gone.
pub proof fn lemma_messages_are_bounded(messages: Seq<Seq<char>>, text: Seq<char>)
    requires
        messages.len() <= DEBUG_CAPACITY,
    ensures
        pushed_message(messages, text).len() <= DEBUG_CAPACITY,
        pushed_message(messages, text).last() == text,
        messages.len() < DEBUG_CAPACITY ==> pushed_message(messages, text).drop_last()
            == messages,
        messages.len() == DEBUG_CAPACITY ==> pushed_message(messages, text).drop_last()
            == messages.drop_first(),
{
    if messages.len() < DEBUG_CAPACITY {
        assert(messages.push(text).drop_last() =~= messages);
    } else {
        assert(messages.drop_first().push(text).drop_last() =~= messages.drop_first());
    }
}

} // verus!

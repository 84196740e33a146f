use vstd::prelude::*;
use vstd::string::StringExecFns;

verus! {

/// What the application loop answers after handling an event.
#[derive(Clone, Copy, Debug, PartialEq, Eq, Structural)]
pub enum AppState {
    /// Keep running.
    Run,
    /// Leave the event loop.
    Exit,
}

/// The welcome screen.
pub struct HomeState {}

impl HomeState {
    pub fn new() -> (r: Self) {
        HomeState {}
    }

    /// Title of the window in this state.
    pub fn title(&self) -> (r: &'static str)
        ensures
            r@ == "Welcome"@,
    {
        "Welcome"
    }
}

/// The states the application moves through: the current one, and the one
/// queued to replace it at the next update.
pub struct StateManager<S> {
    pending_state: Option<S>,
    state: S,
}

/// The queued state replaces the current one, if there is one queued.
pub open spec fn spec_switch<S>(m: (Option<S>, S)) -> (Option<S>, S) {
    match m.0 {
        Some(s) => (None, s),
        None => m,
    }
}

/// Queuing a state replaces whatever was queued before.
pub open spec fn spec_enqueue<S>(m: (Option<S>, S), s: S) -> (Option<S>, S) {
    (Some(s), m.1)
}

impl<S> View for StateManager<S> {
    type V = (Option<S>, S);

    closed spec fn view(&self) -> (Option<S>, S) {
        (self.pending_state, self.state)
    }
}

impl<S> StateManager<S> {
    /// A manager showing `initial`, with nothing queued.
    pub fn new(initial: S) -> (r: Self)
        ensures
            r@ == (None::<S>, initial),
    {
        StateManager { pending_state: None, state: initial }
    }

    /// Queues `state` to become the current state at the next update.
    pub fn enqueue(&mut self, state: S)
        ensures
            final(self)@ == spec_enqueue(old(self)@, state),
    {
        self.pending_state = Some(state);
    }

    /// Moves the queued state, if any, into place; returns whether the
    /// current state changed.
    pub fn switch_to_pending(&mut self) -> (switched: bool)
        ensures
            final(self)@ == spec_switch(old(self)@),
            switched == old(self)@.0.is_some(),
    {
        match self.pending_state.take() {
            Some(state) => {
                self.state = state;
                true
            },
            None => false,
        }
    }

    /// The current state.
    pub fn state(&self) -> (r: &S)
        ensures
            *r == self@.1,
    {
        &self.state
    }

    /// The current state, for updating it.
    pub fn state_mut(&mut self) -> (r: &mut S)
        ensures
            *r == old(self)@.1,
            final(self)@ == (old(self)@.0, *final(r)),
    {
        &mut self.state
    }
}

/// Of several states queued before an update, the last one becomes current;
/// an update with nothing queued leaves the current state as it is, so a
/// second update in a row changes nothing.
pub proof fn law_last_enqueued_state_wins<S>(m: (Option<S>, S), a: S, b: S)
    ensures
        spec_switch(spec_enqueue(spec_enqueue(m, a), b)) == (None::<S>, b),
        spec_switch(spec_switch(m)) == spec_switch(m),
        spec_switch((None::<S>, m.1)) == (None::<S>, m.1),
{
}

/// A dialog that may or may not be open.
pub struct Openable<D>(pub Option<D>);

impl<D> Openable<D> {
    /// A closed dialog.
    pub fn new() -> (r: Self)
        ensures
            r.0.is_none(),
    {
        Openable(None)
    }

    /// Opens the dialog, replacing an open one.
    pub fn open(&mut self, dialog: D)
        ensures
            final(self).0 == Some(dialog),
    {
        self.0 = Some(dialog);
    }

    /// Whether the dialog is open.
    pub fn is_open(&self) -> (r: bool)
        ensures
            r == self.0.is_some(),
    {
        self.0.is_some()
    }

    /// After the dialog was shown: it closes when its window was closed or
    /// when showing it returned true.
    pub fn close_after_show(&mut self, window_opened: bool, dialog_result: bool)
        ensures
            (!window_opened || dialog_result) ==> final(self).0.is_none(),
            !(!window_opened || dialog_result) ==> final(self).0 == old(self).0,
    {
        if !window_opened || dialog_result {
            self.0 = None;
        }
    }
}

/// The "File" menu of the menu bar.
pub struct FileMenu {}

impl FileMenu {
    pub fn new() -> (r: Self) {
        FileMenu {}
    }

    /// Whether one of the menu's dialogs is open; none is.
    pub fn is_dialog_open(&self) -> (r: bool)
        ensures
            !r,
    {
        false
    }
}

/// The menu bar at the top of the main window.
pub struct MenuBar {
    pub file: FileMenu,
}

impl MenuBar {
    pub fn new() -> (r: Self) {
        MenuBar { file: FileMenu::new() }
    }

    /// The file menu takes input unless one of its dialogs is open.
    pub fn file_menu_enabled(&self) -> (r: bool)
        ensures
            r,
    {
        !self.file.is_dialog_open()
    }
}

/// The dialog that creates a new document.
pub struct NewDialog {
    /// The name of the document to create.
    pub name: String,
}

impl NewDialog {
    pub fn new() -> (r: Self)
        ensures
            r.name@ == "Untitled"@,
    {
        NewDialog { name: String::from_str("Untitled") }
    }

    /// The title of the dialog.
    pub fn name(&self) -> (r: &'static str)
        ensures
            r@ == "New Document"@,
    {
        "New Document"
    }
}

/// The central panel of the main window.
pub struct MainPanel {}

impl MainPanel {
    pub fn new() -> (r: Self) {
        MainPanel {}
    }
}

/// Which of the miscellaneous windows are shown.
pub struct MiscUi {
    pub show_welcome: bool,
    pub show_metrics: bool,
    pub show_ui_demo: bool,
}

impl MiscUi {
    /// All windows hidden.
    pub fn new() -> (r: Self)
        ensures
            !r.show_welcome,
            !r.show_metrics,
            !r.show_ui_demo,
    {
        MiscUi { show_welcome: false, show_metrics: false, show_ui_demo: false }
    }
}

/// The number of dimensions of a new simulation.
#[derive(Clone, Copy, Debug, PartialEq, Eq, Structural)]
pub enum Dimension {
    One,
    Two,
    Three,
}

/// The settings of the "New Simulation" window.
pub struct NewSimulationUi {
    pub name: String,
    pub dim: Dimension,
}

impl NewSimulationUi {
    pub fn new() -> (r: Self)
        ensures
            r.name@ == "Untitled"@,
            r.dim == Dimension::One,
    {
        NewSimulationUi { name: String::from_str("Untitled"), dim: Dimension::One }
    }
}

/// The file menu of the base user interface, with its "New Simulation" window.
pub struct FileUi {
    enable_menu: bool,
    new: Option<NewSimulationUi>,
}

impl FileUi {
    /// The menu's entries start disabled, with no window open.
    pub fn new() -> (r: Self)
        ensures
            !r.menu_enabled(),
            !r.is_new_open(),
    {
        FileUi { enable_menu: false, new: None }
    }

    /// Whether the menu's entries take input.
    pub closed spec fn menu_enabled(&self) -> bool {
        self.enable_menu
    }

    /// Whether the "New Simulation" window is open.
    pub closed spec fn is_new_open(&self) -> bool {
        self.new.is_some()
    }

    /// The "New Simulation" window, with what the user entered in it, if it
    /// is open.
    pub closed spec fn new_window(&self) -> Option<NewSimulationUi> {
        self.new
    }

    /// The window is open exactly when there is one.
    pub proof fn lemma_open_iff_window(&self)
        ensures
            self.is_new_open() == self.new_window().is_some(),
    {
    }

    /// Whether the menu's entries take input in this frame.
    pub fn is_menu_enabled(&self) -> (r: bool)
        ensures
            r == self.menu_enabled(),
    {
        self.enable_menu
    }

    /// Whether the "New Simulation" window is open.
    pub fn new_window_open(&self) -> (r: bool)
        ensures
            r == self.is_new_open(),
    {
        self.new.is_some()
    }

    /// The "New" entry was clicked: a fresh window opens.
    pub fn click_new(&mut self)
        ensures
            final(self).is_new_open(),
            final(self).new_window() matches Some(w) && w.name@ == "Untitled"@ && w.dim == Dimension::One,
            final(self).menu_enabled() == old(self).menu_enabled(),
    {
        self.new = Some(NewSimulationUi::new());
    }

    /// After the menu was drawn: its entries take input next frame exactly
    /// when no window is open.
    pub fn end_menu(&mut self)
        ensures
            final(self).menu_enabled() == !old(self).is_new_open(),
            final(self).is_new_open() == old(self).is_new_open(),
    {
        self.enable_menu = self.new.is_none();
    }

    /// The open window, for drawing it.
    pub fn new_window_mut(&mut self) -> (r: &mut Option<NewSimulationUi>)
        ensures
            *r == old(self).new_window(),
            final(self).new_window() == *final(r),
            r.is_some() == old(self).is_new_open(),
            final(self).is_new_open() == final(r).is_some(),
            final(self).menu_enabled() == old(self).menu_enabled(),
    {
        &mut self.new
    }

    /// After the window was drawn: it is gone once the user closed it.
    pub fn close_if_dismissed(&mut self, opened: bool)
        ensures
            !opened ==> !final(self).is_new_open(),
            opened ==> final(self).is_new_open() == old(self).is_new_open(),
            final(self).menu_enabled() == old(self).menu_enabled(),
    {
        if !opened {
            self.new = None;
        }
    }
}

/// The base user interface: the menu bar with its file menu.
pub struct BaseUi {
    pub file: FileUi,
}

impl BaseUi {
    pub fn new() -> (r: Self)
        ensures
            !r.file.menu_enabled(),
            !r.file.is_new_open(),
    {
        BaseUi { file: FileUi::new() }
    }
}

/// A message that polling the simulation thread's progress channel gives.
#[derive(Clone, Copy, Debug, PartialEq, Eq, Structural)]
pub enum ProgressMessage<P> {
    /// A progress report.
    Progress(P),
    /// No report is waiting.
    Empty,
    /// The simulation thread is gone: it finished.
    Disconnected,
}

/// What to do after one poll of the progress channel.
#[derive(Clone, Copy, Debug, PartialEq, Eq, Structural)]
pub enum PollStep {
    /// Poll again: more reports may be waiting.
    Continue,
    /// Stop polling this frame; the simulation still runs.
    Running,
    /// The simulation finished: join its thread.
    Finished,
}

/// Handles one message of the progress channel: a report becomes the
/// current progress and polling goes on; an empty channel ends this frame's
/// polling; a disconnected channel means the simulation finished.
pub fn on_progress_message<P>(progress: &mut P, message: ProgressMessage<P>) -> (r: PollStep)
    ensures
        r == match message {
            ProgressMessage::Progress(_) => PollStep::Continue,
            ProgressMessage::Empty => PollStep::Running,
            ProgressMessage::Disconnected => PollStep::Finished,
        },
        *final(progress) == match message {
            ProgressMessage::Progress(p) => p,
            _ => *old(progress),
        },
{
    match message {
        ProgressMessage::Progress(p) => {
            *progress = p;
            PollStep::Continue
        },
        ProgressMessage::Empty => PollStep::Running,
        ProgressMessage::Disconnected => PollStep::Finished,
    }
}

/// Whether a dialog window stays open after a frame: it stays open only if
/// it was open, and, when its contents were shown (the window exists and is
/// not collapsed), they asked to stay open.
pub fn dialog_open_after(open: bool, contents: Option<Option<bool>>) -> (r: bool)
    ensures
        r == match contents {
            Some(Some(keep)) => open && keep,
            _ => open,
        },
{
    match contents {
        Some(Some(keep)) => open && keep,
        _ => open,
    }
}

} // verus!

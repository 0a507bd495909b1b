use vstd::prelude::*;

verus! {

/// Everything the host needs to build a window, with sizes in logical units.
#[derive(Clone, Debug)]
pub struct WindowConfig {
    /// The identifier the host knows the window by.
    pub label: String,
    /// The page the window shows, relative to the application's assets.
    pub path: String,
    pub title: String,
    pub width: u32,
    pub height: u32,
    pub resizable: bool,
    pub minimizable: bool,
    pub maximizable: bool,
    pub centered: bool,
}

pub struct WindowConfigView {
    pub label: Seq<char>,
    pub path: Seq<char>,
    pub title: Seq<char>,
    pub width: u32,
    pub height: u32,
    pub resizable: bool,
    pub minimizable: bool,
    pub maximizable: bool,
    pub centered: bool,
}

impl View for WindowConfig {
    type V = WindowConfigView;

    open spec fn view(&self) -> WindowConfigView {
        WindowConfigView {
            label: self.label@,
            path: self.path@,
            title: self.title@,
            width: self.width,
            height: self.height,
            resizable: self.resizable,
            minimizable: self.minimizable,
            maximizable: self.maximizable,
            centered: self.centered,
        }
    }
}

/// The identifier reserved for the about window.
pub open spec fn about_label() -> Seq<char> {
    "about"@
}

/// The one configuration the about window is ever built with.
pub open spec fn about_config() -> WindowConfigView {
    WindowConfigView {
        label: about_label(),
        path: "about.html"@,
        title: "关于 文颜-rev"@,
        width: 500,
        height: 350,
        resizable: false,
        minimizable: false,
        maximizable: false,
        centered: true,
    }
}

/// Builds the configuration of the about window: fixed size, no resizing,
/// minimizing or maximizing, centered on screen.
pub fn about_window_config() -> (c: WindowConfig)
    ensures
        c@ == about_config(),
{
    WindowConfig {
        label: String::from_str("about"),
        path: String::from_str("about.html"),
        title: String::from_str("关于 文颜-rev"),
        width: 500,
        height: 350,
        resizable: false,
        minimizable: false,
        maximizable: false,
        centered: true,
    }
}

/// Whether an about window is known to exist.
#[derive(Clone, Copy, Debug, PartialEq, Eq, Structural)]
pub enum AboutState {
    Absent,
    Present,
}

/// What the host tells the controller.
#[derive(Clone, Debug)]
pub enum AboutEvent {
    /// The "open-about" event, with the host's answer, taken at that moment,
    /// to whether a window labelled "about" exists.
    OpenAbout { about_exists: bool },
    /// The window that the controller asked for was built.
    Created,
    /// The host could not build the window; the text says why.
    CreationFailed(String),
}

pub enum AboutEventView {
    OpenAbout { about_exists: bool },
    Created,
    CreationFailed(Seq<char>),
}

impl View for AboutEvent {
    type V = AboutEventView;

    open spec fn view(&self) -> AboutEventView {
        match self {
            AboutEvent::OpenAbout { about_exists } => AboutEventView::OpenAbout {
                about_exists: *about_exists,
            },
            AboutEvent::Created => AboutEventView::Created,
            AboutEvent::CreationFailed(e) => AboutEventView::CreationFailed(e@),
        }
    }
}

/// What the controller asks the host to do in answer to an event.
#[derive(Clone, Debug)]
pub enum AboutAction {
    /// Build a window with this configuration.
    CreateWindow(WindowConfig),
    /// Write this line to the diagnostic log.
    Log(String),
    /// Nothing to do.
    Nothing,
}

pub enum AboutActionView {
    CreateWindow(WindowConfigView),
    Log(Seq<char>),
    Nothing,
}

impl View for AboutAction {
    type V = AboutActionView;

    open spec fn view(&self) -> AboutActionView {
        match self {
            AboutAction::CreateWindow(c) => AboutActionView::CreateWindow(c@),
            AboutAction::Log(line) => AboutActionView::Log(line@),
            AboutAction::Nothing => AboutActionView::Nothing,
        }
    }
}

/// The diagnostic line reported when the host cannot build the about window.
pub open spec fn creation_failure_message(error: Seq<char>) -> Seq<char> {
    "Failed to create about window: "@ + error
}

/// One transition of the controller: the next state and the action to take.
///
/// Existence is never taken from the state: an "open-about" event carries the
/// host's own answer, since the user may close the window at any time.
pub open spec fn next(state: AboutState, event: AboutEventView) -> (AboutState, AboutActionView) {
    match event {
        AboutEventView::OpenAbout { about_exists } => if about_exists {
            (AboutState::Present, AboutActionView::Nothing)
        } else {
            (AboutState::Absent, AboutActionView::CreateWindow(about_config()))
        },
        AboutEventView::Created => (AboutState::Present, AboutActionView::Nothing),
        AboutEventView::CreationFailed(e) => (
            AboutState::Absent,
            AboutActionView::Log(creation_failure_message(e)),
        ),
    }
}

/// Keeps at most one about window open, building it lazily on "open-about".
pub struct AboutController {
    state: AboutState,
}

impl AboutController {
    pub closed spec fn spec_state(&self) -> AboutState {
        self.state
    }

    /// A controller that has not seen an about window yet.
    pub fn new() -> (c: AboutController)
        ensures
            c.spec_state() == AboutState::Absent,
    {
        AboutController { state: AboutState::Absent }
    }

    pub fn state(&self) -> (s: AboutState)
        ensures
            s == self.spec_state(),
    {
        self.state
    }

    /// Takes one event from the host and returns what the host must do.
    pub fn handle(&mut self, event: &AboutEvent) -> (a: AboutAction)
        ensures
            (final(self).spec_state(), a@) == next(old(self).spec_state(), event@),
    {
        match event {
            AboutEvent::OpenAbout { about_exists } => {
                if *about_exists {
                    self.state = AboutState::Present;
                    AboutAction::Nothing
                } else {
                    self.state = AboutState::Absent;
                    AboutAction::CreateWindow(about_window_config())
                }
            },
            AboutEvent::Created => {
                self.state = AboutState::Present;
                AboutAction::Nothing
            },
            AboutEvent::CreationFailed(e) => {
                self.state = AboutState::Absent;
                let mut line = String::from_str("Failed to create about window: ");
                line.append(e.as_str());
                AboutAction::Log(line)
            },
        }
    }
}

} // verus!

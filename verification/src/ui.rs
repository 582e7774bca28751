//! The state of the desktop control panel, and the decisions it takes.
//!
//! The panel shows a setup screen until a mappings folder is chosen, then the
//! main screen: a button that starts or stops the server, and the scenarios
//! with their states. Drawing the panel and running the server is the
//! caller's part; [`AppState`] says what to show and what to do.

use vstd::prelude::*;

verus! {

/// The port the panel starts the server on.
pub const SERVER_PORT: i32 = 7070;

/// A scenario as the panel lists it: its name, the state shown as selected,
/// and the states it can take.
pub struct Scenario {
    pub name: String,
    pub selected: String,
    pub states: Vec<String>,
}

impl Scenario {
    /// Whether `state` is the one shown as selected.
    pub fn is_selected(&self, state: &String) -> (b: bool)
        ensures
            b == (self.selected@ == state@),
    {
        self.selected == *state
    }
}

/// Which screen the panel shows.
#[derive(PartialEq, Eq, Debug, Clone, Copy)]
pub enum Screen {
    /// Asks for the folder that holds the mappings and files.
    Setup,
    /// The server controls and the scenarios.
    Main,
}

/// What the server button asks the caller to do.
pub enum ServerAction {
    /// Start a server over the mappings under `root_dir`, on `port`, then
    /// report with [`AppState::record_server_start`] whether a process was spawned.
    Start { root_dir: String, port: i32 },
    /// Stop the running server.
    Stop,
}

/// The state of the control panel.
pub struct AppState {
    /// The folder that holds the mappings and files, once chosen.
    pub mock_path: Option<String>,
    /// Lines of server output.
    pub output: Vec<String>,
    /// The scenarios listed on the main screen.
    pub scenarios: Vec<Scenario>,
    /// Whether a server process is running.
    pub server_running: bool,
}

/// The label of the server button: what pressing it will do.
pub open spec fn button_label(running: bool) -> Seq<char> {
    if running {
        "Stop server"@
    } else {
        "Start server"@
    }
}

impl AppState {
    /// The panel as it opens: the folder chosen is the empty path, there is
    /// no output, one scenario `test` shows `Updated` of `Started` and
    /// `Updated`, and no server runs.
    pub fn new() -> (s: Self)
        ensures
            s.mock_path matches Some(p) && p@ == ""@,
            s.output@.len() == 0,
            s.scenarios@.len() == 1,
            s.scenarios@[0].name@ == "test"@,
            s.scenarios@[0].selected@ == "Updated"@,
            s.scenarios@[0].states@.len() == 2,
            s.scenarios@[0].states@[0]@ == "Started"@,
            s.scenarios@[0].states@[1]@ == "Updated"@,
            !s.server_running,
    {
        let mut states: Vec<String> = Vec::new();
        states.push(String::from_str("Started"));
        states.push(String::from_str("Updated"));
        let mut scenarios: Vec<Scenario> = Vec::new();
        scenarios.push(Scenario {
            name: String::from_str("test"),
            selected: String::from_str("Updated"),
            states,
        });
        AppState {
            mock_path: Some(String::from_str("")),
            output: Vec::new(),
            scenarios,
            server_running: false,
        }
    }

    /// The screen to show: the setup screen until a folder is chosen.
    pub fn screen(&self) -> (r: Screen)
        ensures
            r == (if self.mock_path is None { Screen::Setup } else { Screen::Main }),
    {
        if self.mock_path.is_none() {
            Screen::Setup
        } else {
            Screen::Main
        }
    }

    /// Records the folder chosen on the setup screen.
    pub fn choose_folder(&mut self, path: String)
        ensures
            final(self).mock_path == Some(path),
            final(self).output == old(self).output,
            final(self).scenarios == old(self).scenarios,
            final(self).server_running == old(self).server_running,
    {
        self.mock_path = Some(path);
    }

    /// The label of the server button.
    pub fn server_button_label(&self) -> (r: &'static str)
        ensures
            r@ == button_label(self.server_running),
            self.server_running ==> r@ == "Stop server"@,
            !self.server_running ==> r@ == "Start server"@,
    {
        if self.server_running {
            "Stop server"
        } else {
            "Start server"
        }
    }

    /// Presses the server button on the main screen. With no server running
    /// it asks to start one over the chosen folder on [`SERVER_PORT`] and
    /// leaves the state as it is until the start is recorded; with a server
    /// running it asks to stop it and records that none runs. Either way no
    /// server is recorded as running afterwards.
    pub fn press_server_button(&mut self) -> (a: ServerAction)
        requires
            old(self).mock_path is Some,
        ensures
            !old(self).server_running ==> (a matches ServerAction::Start { root_dir, port }
                && root_dir@ == old(self).mock_path->0@ && port == SERVER_PORT && port == 7070),
            old(self).server_running ==> a is Stop,
            !final(self).server_running,
            final(self).mock_path == old(self).mock_path,
            final(self).output == old(self).output,
            final(self).scenarios == old(self).scenarios,
    {
        if self.server_running {
            self.server_running = false;
            ServerAction::Stop
        } else {
            let root_dir = match &self.mock_path {
                Some(p) => p.clone(),
                None => String::new(),
            };
            ServerAction::Start { root_dir, port: SERVER_PORT }
        }
    }

    /// Records whether starting the server spawned a process.
    pub fn record_server_start(&mut self, spawned: bool)
        ensures
            final(self).server_running == spawned,
            final(self).mock_path == old(self).mock_path,
            final(self).output == old(self).output,
            final(self).scenarios == old(self).scenarios,
    {
        self.server_running = spawned;
    }
}

} // verus!

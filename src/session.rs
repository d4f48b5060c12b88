use vstd::prelude::*;
use crate::request::{normalize_url, pretty_print, pretty_printed, request_target};
use crate::text::{pop_char, push_char};

verus! {

/// How keys are read: as commands, or as text for the URL.
#[derive(PartialEq, Eq, Structural, Clone, Copy, Debug)]
pub enum InputMode {
    Normal,
    Editing,
}

/// A key press, as far as the session tells keys apart.
#[derive(PartialEq, Eq, Structural, Clone, Copy, Debug)]
pub enum Key {
    Char(char),
    Enter,
    Tab,
    Backspace,
    Esc,
    Other,
}

/// What the event loop does after a key has been handled.
#[derive(PartialEq, Eq, Structural, Clone, Copy, Debug)]
pub enum Action {
    /// Redraw and wait for the next key.
    Continue,
    /// Send a GET request to the session's request target, then redraw.
    Fetch,
    /// Leave the loop and restore the terminal.
    Quit,
}

/// The number of panels on the screen.
pub const PANEL_COUNT: usize = 5;

/// The panel that is highlighted when a session starts: the URL field.
pub const FIRST_PANEL: usize = 1;

/// The mathematical state of a session.
pub struct SessionView {
    pub url: Seq<char>,
    pub response: Seq<char>,
    pub logs: Seq<Seq<char>>,
    pub mode: InputMode,
    pub active_panel: nat,
}

/// The log line written when a request starts.
pub open spec fn fetching_msg() -> Seq<char> {
    seq!['F', 'e', 't', 'c', 'h', 'i', 'n', 'g', ' ', 'r', 'e', 's', 'u', 'l', 't', 's', '.', '.', '.']
}

/// The log line written when a request has been answered and shown.
pub open spec fn done_msg() -> Seq<char> {
    seq!['D', 'o', 'n', 'e']
}

/// The log line written when a request has failed.
pub open spec fn failed_msg() -> Seq<char> {
    seq!['F', 'a', 'i', 'l', 'e', 'd']
}

/// What the response panel shows before the message of a failed request.
pub open spec fn request_failed_prefix() -> Seq<char> {
    seq!['R', 'e', 'q', 'u', 'e', 's', 't', ' ', 'f', 'a', 'i', 'l', 'e', 'd', ':', ' ']
}

/// What the response panel shows before the message of a body that could not
/// be formatted.
pub open spec fn format_failed_prefix() -> Seq<char> {
    seq![
        'F', 'o', 'r', 'm', 'a', 't', 't', 'i', 'n', 'g', ' ', 'f', 'a', 'i', 'l', 'e', 'd', ':', ' ',
    ]
}

/// The view of a formatting result.
pub open spec fn text_result(r: Result<String, String>) -> Result<Seq<char>, Seq<char>> {
    match r {
        Ok(t) => Ok(t@),
        Err(e) => Err(e@),
    }
}

/// The state after a response body has been formatted, with the outcome
/// `formatted`: the formatted text is shown, or the reason it could not be.
pub open spec fn after_formatted(s: SessionView, formatted: Result<Seq<char>, Seq<char>>) -> SessionView {
    match formatted {
        Ok(t) => SessionView { response: t, logs: s.logs.push(done_msg()), ..s },
        Err(e) => SessionView {
            response: format_failed_prefix() + e,
            logs: s.logs.push(failed_msg()),
            ..s
        },
    }
}

/// The state after a request failed before a body came back.
pub open spec fn after_request_error(s: SessionView, message: Seq<char>) -> SessionView {
    SessionView {
        response: request_failed_prefix() + message,
        logs: s.logs.push(failed_msg()),
        ..s
    }
}

/// The panel that follows `p`, wrapping after the last one.
pub open spec fn next_panel(p: nat) -> nat {
    (p + 1) % (PANEL_COUNT as nat)
}

/// The state after one key, and what the loop does next.
pub open spec fn transition(s: SessionView, k: Key) -> (SessionView, Action) {
    match s.mode {
        InputMode::Normal => match k {
            Key::Char('i') => (SessionView { mode: InputMode::Editing, ..s }, Action::Continue),
            Key::Char('q') => (s, Action::Quit),
            Key::Enter => (SessionView { logs: s.logs.push(fetching_msg()), ..s }, Action::Fetch),
            Key::Tab => (SessionView { active_panel: next_panel(s.active_panel), ..s }, Action::Continue),
            _ => (s, Action::Continue),
        },
        InputMode::Editing => match k {
            Key::Char(c) => (SessionView { url: s.url.push(c), ..s }, Action::Continue),
            Key::Backspace => (
                SessionView { url: if s.url.len() == 0 { s.url } else { s.url.drop_last() }, ..s },
                Action::Continue,
            ),
            Key::Esc => (SessionView { mode: InputMode::Normal, ..s }, Action::Continue),
            _ => (s, Action::Continue),
        },
    }
}

/// A session: the one piece of state of the client.
pub struct App {
    url: String,
    response: String,
    logs: Vec<String>,
    input_mode: InputMode,
    active_panel: usize,
}

impl App {
    pub closed spec fn view(&self) -> SessionView {
        SessionView {
            url: self.url@,
            response: self.response@,
            logs: self.logs@.map_values(|l: String| l@),
            mode: self.input_mode,
            active_panel: self.active_panel as nat,
        }
    }

    /// The highlighted panel is one of the panels.
    pub open spec fn wf(&self) -> bool {
        self@.active_panel < PANEL_COUNT
    }

    /// The URL typed so far.
    pub fn url(&self) -> (r: &str)
        ensures
            r@ == self@.url,
    {
        self.url.as_str()
    }

    /// The text shown in the response panel.
    pub fn response(&self) -> (r: &str)
        ensures
            r@ == self@.response,
    {
        self.response.as_str()
    }

    /// The log entries, oldest first.
    pub fn logs(&self) -> (r: &Vec<String>)
        ensures
            r@.len() == self@.logs.len(),
            forall|i: int| 0 <= i < r@.len() ==> #[trigger] r@[i]@ == self@.logs[i],
    {
        &self.logs
    }

    /// How keys are read at present.
    pub fn input_mode(&self) -> (r: InputMode)
        ensures
            r == self@.mode,
    {
        self.input_mode
    }

    /// The index of the highlighted panel.
    pub fn active_panel(&self) -> (r: usize)
        ensures
            r == self@.active_panel,
    {
        self.active_panel
    }

    /// A fresh session: empty texts, no logs, normal mode, URL panel highlighted.
    pub fn new() -> (r: App)
        ensures
            r.wf(),
            r@.url.len() == 0,
            r@.response.len() == 0,
            r@.logs.len() == 0,
            r@.mode == InputMode::Normal,
            r@.active_panel == FIRST_PANEL,
    {
        App {
            url: String::new(),
            response: String::new(),
            logs: Vec::new(),
            input_mode: InputMode::Normal,
            active_panel: FIRST_PANEL,
        }
    }

    /// Handles one key press and says what the loop does next.
    pub fn handle_key(&mut self, key: Key) -> (r: Action)
        requires
            old(self).wf(),
        ensures
            final(self).wf(),
            (final(self)@, r) == transition(old(self)@, key),
    {
        match self.input_mode {
            InputMode::Normal => match key {
                Key::Char('i') => {
                    self.input_mode = InputMode::Editing;
                    Action::Continue
                },
                Key::Char('q') => Action::Quit,
                Key::Enter => {
                    self.push_log("Fetching results...");
                    proof {
                        reveal_strlit("Fetching results...");
                        assert("Fetching results..."@ =~= fetching_msg());
                    }
                    Action::Fetch
                },
                Key::Tab => {
                    self.active_panel = if self.active_panel + 1 == PANEL_COUNT {
                        0
                    } else {
                        self.active_panel + 1
                    };
                    Action::Continue
                },
                _ => Action::Continue,
            },
            InputMode::Editing => match key {
                Key::Char(c) => {
                    push_char(&mut self.url, c);
                    Action::Continue
                },
                Key::Backspace => {
                    let _ = pop_char(&mut self.url);
                    Action::Continue
                },
                Key::Esc => {
                    self.input_mode = InputMode::Normal;
                    Action::Continue
                },
                _ => Action::Continue,
            },
        }
    }

    /// The address that a GET request goes to: the URL with `https://` in
    /// front where it names no scheme.
    pub fn request_target(&self) -> (r: String)
        ensures
            r@ == request_target(self@.url),
    {
        normalize_url(self.url.as_str())
    }

    /// Shows the outcome of formatting a response body, and logs it.
    pub fn apply_formatted(&mut self, formatted: Result<String, String>)
        requires
            old(self).wf(),
        ensures
            final(self).wf(),
            final(self)@ == after_formatted(old(self)@, text_result(formatted)),
    {
        match formatted {
            Ok(t) => {
                self.response = t;
                self.push_log("Done");
                proof {
                    reveal_strlit("Done");
                    assert("Done"@ =~= done_msg());
                }
            },
            Err(e) => {
                let mut r = String::from_str("Formatting failed: ");
                proof {
                    reveal_strlit("Formatting failed: ");
                    assert("Formatting failed: "@ =~= format_failed_prefix());
                }
                r.append(e.as_str());
                self.response = r;
                self.push_log("Failed");
                proof {
                    reveal_strlit("Failed");
                    assert("Failed"@ =~= failed_msg());
                }
            },
        }
    }

    /// Formats a response body as JSON and shows the outcome.
    pub fn receive_body(&mut self, body: &str)
        requires
            old(self).wf(),
        ensures
            final(self).wf(),
            final(self)@ == after_formatted(old(self)@, pretty_printed(body@)),
    {
        let formatted = pretty_print(body);
        self.apply_formatted(formatted);
    }

    /// Shows that a request failed with `message`, and logs it.
    pub fn receive_error(&mut self, message: &str)
        requires
            old(self).wf(),
        ensures
            final(self).wf(),
            final(self)@ == after_request_error(old(self)@, message@),
    {
        let mut r = String::from_str("Request failed: ");
        proof {
            reveal_strlit("Request failed: ");
            assert("Request failed: "@ =~= request_failed_prefix());
        }
        r.append(message);
        self.response = r;
        self.push_log("Failed");
        proof {
            reveal_strlit("Failed");
            assert("Failed"@ =~= failed_msg());
        }
    }

    fn push_log(&mut self, msg: &str)
        ensures
            final(self)@ == (SessionView { logs: old(self)@.logs.push(msg@), ..old(self)@ }),
    {
        self.logs.push(String::from_str(msg));
        proof {
            assert(self@.logs =~= old(self)@.logs.push(msg@));
        }
    }
}

} // verus!

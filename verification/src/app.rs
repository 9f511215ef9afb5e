//! Session state and the keystroke dispatch state machine.

use vstd::prelude::*;

verus! {

use vstd::utf8::valid_utf8;
use vstd::utf8::decode_utf8;

/// The two input modes of the session.
#[derive(Clone, Copy, Debug, PartialEq, Eq, Structural)]
pub enum InputMode {
    Normal,
    Editing,
}

/// A single discrete key event, as the control loop hands it in.
/// Enter arrives as `Char('\n')`.
#[derive(Clone, Copy, Debug, PartialEq, Eq, Structural)]
pub enum Key {
    Char(char),
    Backspace,
    Esc,
    Other,
}

/// What the control loop must do after a key was applied.
#[derive(Clone, Copy, Debug, PartialEq, Eq, Structural)]
pub enum Action {
    /// Nothing beyond the state change already applied.
    Idle,
    /// Edit mode was entered: suppress the global exit shortcut.
    SuppressExitKey,
    /// Edit mode was left: re-enable the global exit shortcut.
    RestoreExitKey,
    /// Run the external lookup with the current buffer and hand the
    /// outcome back through [`App::submit`].
    Submit,
    /// Terminate the process immediately.
    Exit,
}

/// The mathematical model of the session state.
#[verifier::ext_equal]
pub struct AppModel {
    pub mode: InputMode,
    pub input: Seq<char>,
    pub output: Seq<char>,
    pub messages: Seq<Seq<char>>,
}

/// App holds the state of the application: the current input mode, the
/// unsubmitted text buffer, the most recent lookup output, and a history
/// of recorded messages (declared in the data model but never populated).
pub struct App {
    input: Vec<char>,
    output: String,
    input_mode: InputMode,
    messages: Vec<String>,
}

impl View for App {
    type V = AppModel;

    closed spec fn view(&self) -> AppModel {
        AppModel {
            mode: self.input_mode,
            input: self.input@,
            output: self.output@,
            messages: self.messages.deep_view(),
        }
    }
}

/// The state after one key event: the transition table of the input
/// controller. State changes happen here and nowhere else.
pub open spec fn step_spec(m: AppModel, key: Key) -> AppModel {
    match m.mode {
        InputMode::Normal => match key {
            Key::Char(c) => {
                if c == 'i' {
                    AppModel { mode: InputMode::Editing, ..m }
                } else {
                    m
                }
            },
            _ => m,
        },
        InputMode::Editing => match key {
            Key::Char(c) => {
                if c == '\n' {
                    m
                } else {
                    AppModel { input: m.input.push(c), ..m }
                }
            },
            Key::Backspace => {
                if m.input.len() == 0 {
                    m
                } else {
                    AppModel { input: m.input.drop_last(), ..m }
                }
            },
            Key::Esc => AppModel { mode: InputMode::Normal, ..m },
            Key::Other => m,
        },
    }
}

/// The action owed to the control loop after one key event.
pub open spec fn action_spec(m: AppModel, key: Key) -> Action {
    match m.mode {
        InputMode::Normal => match key {
            Key::Char(c) => {
                if c == 'i' {
                    Action::SuppressExitKey
                } else if c == 'q' {
                    Action::Exit
                } else {
                    Action::Idle
                }
            },
            _ => Action::Idle,
        },
        InputMode::Editing => match key {
            Key::Char(c) => {
                if c == '\n' {
                    Action::Submit
                } else {
                    Action::Idle
                }
            },
            Key::Backspace => Action::Idle,
            Key::Esc => Action::RestoreExitKey,
            Key::Other => Action::Idle,
        },
    }
}

/// Relies on `String::from_utf8`: it succeeds exactly on valid UTF-8
/// input and returns the decoded text. The failure message built here
/// starts with a literal prefix, so it is never empty.
#[verifier::external_body]
fn decode_output(bytes: Vec<u8>) -> (r: Result<String, String>)
    ensures
        match r {
            Ok(s) => valid_utf8(bytes@) && s@ == decode_utf8(bytes@),
            Err(e) => !valid_utf8(bytes@) && e@.len() > 0,
        },
{
    String::from_utf8(bytes).map_err(|error| format!("invalid output text: {:?}", error))
}

/// Relies on `String::from_iter`: the string holds exactly the
/// characters of the iterator, in order.
#[verifier::external_body]
pub(crate) fn chars_to_string(chars: &Vec<char>) -> (s: String)
    ensures
        s@ == chars@,
{
    chars.iter().collect()
}

impl Default for App {
    /// The initial session state: edit mode, empty buffer, empty output.
    fn default() -> (a: App)
        ensures
            a@.mode == InputMode::Editing,
            a@.input == Seq::<char>::empty(),
            a@.output == Seq::<char>::empty(),
            a@.messages == Seq::<Seq<char>>::empty(),
    {
        let a = App {
            input: Vec::new(),
            output: String::new(),
            input_mode: InputMode::Editing,
            messages: Vec::new(),
        };
        proof {
            assert(a.messages.deep_view() =~= Seq::<Seq<char>>::empty());
        }
        a
    }
}

impl App {
    /// Apply one key event to the state and say what the control loop
    /// must do next, exactly as the transition table prescribes.
    pub fn handle_input(&mut self, key: Key) -> (action: Action)
        ensures
            final(self)@ == step_spec(old(self)@, key),
            action == action_spec(old(self)@, key),
    {
        match self.input_mode {
            InputMode::Normal => match key {
                Key::Char(c) => {
                    if c == 'i' {
                        self.input_mode = InputMode::Editing;
                        Action::SuppressExitKey
                    } else if c == 'q' {
                        Action::Exit
                    } else {
                        Action::Idle
                    }
                },
                _ => Action::Idle,
            },
            InputMode::Editing => match key {
                Key::Char(c) => {
                    if c == '\n' {
                        Action::Submit
                    } else {
                        self.input.push(c);
                        Action::Idle
                    }
                },
                Key::Backspace => {
                    if self.input.len() > 0 {
                        self.input.pop();
                    }
                    Action::Idle
                },
                Key::Esc => {
                    self.input_mode = InputMode::Normal;
                    Action::RestoreExitKey
                },
                Key::Other => Action::Idle,
            },
        }
    }

    /// Record the outcome of one external lookup invocation: the decoded
    /// standard output on success, error text on a launch or decode
    /// failure. The mode, the buffer and the history are untouched.
    ///
    /// `outcome` is `Ok` with the captured standard-output bytes where the
    /// external tool could be started, and `Err` with formatted error text
    /// where it could not be launched.
    pub fn submit(&mut self, outcome: Result<Vec<u8>, String>)
        ensures
            final(self)@.mode == old(self)@.mode,
            final(self)@.input == old(self)@.input,
            final(self)@.messages == old(self)@.messages,
            (match outcome {
                Ok(bytes) => {
                    if valid_utf8(bytes@) {
                        final(self)@.output == decode_utf8(bytes@)
                    } else {
                        final(self)@.output.len() > 0
                    }
                },
                Err(e) => final(self)@.output == e@,
            }),
    {
        let text = match outcome {
            Ok(bytes) => match decode_output(bytes) {
                Ok(value) => value,
                Err(error) => error,
            },
            Err(error) => error,
        };
        self.output = text;
    }

    /// The startup prefetch: record the outcome of listing all known
    /// resource names, exactly as a submission records its outcome. A
    /// failure is non-fatal; its error text becomes the initial output.
    pub fn initialize(&mut self, outcome: Result<Vec<u8>, String>)
        ensures
            final(self)@.mode == old(self)@.mode,
            final(self)@.input == old(self)@.input,
            final(self)@.messages == old(self)@.messages,
            (match outcome {
                Ok(bytes) => {
                    if valid_utf8(bytes@) {
                        final(self)@.output == decode_utf8(bytes@)
                    } else {
                        final(self)@.output.len() > 0
                    }
                },
                Err(e) => final(self)@.output == e@,
            }),
    {
        self.submit(outcome);
    }

    /// The current input mode.
    pub fn mode(&self) -> (m: InputMode)
        ensures
            m == self@.mode,
    {
        self.input_mode
    }

    /// The most recent lookup output (or error text), verbatim.
    pub fn output_text(&self) -> (s: &String)
        ensures
            s@ == self@.output,
    {
        &self.output
    }

    /// The unsubmitted buffer, character by character.
    pub(crate) fn input_chars(&self) -> (chars: &Vec<char>)
        ensures
            chars@ == self@.input,
    {
        &self.input
    }

    /// The unsubmitted buffer contents as text.
    pub fn input_text(&self) -> (s: String)
        ensures
            s@ == self@.input,
    {
        chars_to_string(&self.input)
    }
}

/// Repeated application of the transition table to a sequence of
/// character keys, first key first.
pub open spec fn apply_chars(m: AppModel, cs: Seq<char>) -> AppModel
    decreases cs.len(),
{
    if cs.len() == 0 {
        m
    } else {
        apply_chars(step_spec(m, Key::Char(cs[0])), cs.subrange(1, cs.len() as int))
    }
}

/// Law: while in edit mode, a sequence of printable character keys
/// (every character but the Enter key `'\n'`) appends exactly those
/// characters to the buffer, in order; the mode, the last output and
/// the history do not change.
pub proof fn lemma_printable_chars_append(m: AppModel, cs: Seq<char>)
    requires
        m.mode is Editing,
        forall|i: int| 0 <= i < cs.len() ==> cs[i] != '\n',
    ensures
        apply_chars(m, cs) == (AppModel { input: m.input + cs, ..m }),
    decreases cs.len(),
{
    if cs.len() == 0 {
        assert(m.input + cs =~= m.input);
    } else {
        let m1 = step_spec(m, Key::Char(cs[0]));
        let rest = cs.subrange(1, cs.len() as int);
        lemma_printable_chars_append(m1, rest);
        assert(m.input.push(cs[0]) + rest =~= m.input + cs);
    }
}

/// Law: Backspace on an empty buffer is a no-op; the state is unchanged.
pub proof fn lemma_backspace_empty_noop(m: AppModel)
    requires
        m.mode is Editing,
        m.input.len() == 0,
    ensures
        step_spec(m, Key::Backspace) == m,
{
}

/// Law: in normal mode, "i" enters edit mode and changes nothing else
/// while suppressing the exit shortcut, and "q" demands immediate
/// process exit with the state untouched.
pub proof fn lemma_normal_shortcuts(m: AppModel)
    requires
        m.mode is Normal,
    ensures
        step_spec(m, Key::Char('i')) == (AppModel { mode: InputMode::Editing, ..m }),
        action_spec(m, Key::Char('i')) == Action::SuppressExitKey,
        step_spec(m, Key::Char('q')) == m,
        action_spec(m, Key::Char('q')) == Action::Exit,
{
}

/// Law: while editing, "i" and "q" are literal input, not shortcuts:
/// each is appended to the buffer and no further action is demanded.
pub proof fn lemma_editing_inserts_shortcut_letters(m: AppModel)
    requires
        m.mode is Editing,
    ensures
        step_spec(m, Key::Char('i')) == (AppModel { input: m.input.push('i'), ..m }),
        action_spec(m, Key::Char('i')) == Action::Idle,
        step_spec(m, Key::Char('q')) == (AppModel { input: m.input.push('q'), ..m }),
        action_spec(m, Key::Char('q')) == Action::Idle,
{
}

/// Law: Esc from edit mode returns to normal mode and leaves the
/// buffer, the last output and the history unchanged.
pub proof fn lemma_esc_leaves_editing(m: AppModel)
    requires
        m.mode is Editing,
    ensures
        step_spec(m, Key::Esc) == (AppModel { mode: InputMode::Normal, ..m }),
        action_spec(m, Key::Esc) == Action::RestoreExitKey,
{
}

/// Law: outside edit mode no key event changes the buffer.
pub proof fn lemma_input_stable_in_normal_mode(m: AppModel, key: Key)
    requires
        m.mode is Normal,
    ensures
        step_spec(m, key).input == m.input,
{
}

/// Law: no key event by itself changes the last output or the history;
/// only a recorded submission or the startup prefetch overwrites the
/// output.
pub proof fn lemma_keys_preserve_output(m: AppModel, key: Key)
    ensures
        step_spec(m, key).output == m.output,
        step_spec(m, key).messages == m.messages,
{
}

} // verus!

//! The capture session: the current line, what it derives to, and the
//! reactions to Enter, to the outcome of a save, and to window events.

use vstd::prelude::*;
use vstd::string::StringExecFns;
use crate::command::{classify, command_of, is_command, is_command_line, Command};
use crate::lifecycle::{
    event_ok, is_showing, next_visibility, step, window_commands, Event, Visibility, WindowCommand,
    AUTO_HIDE_MS,
};
use vstd::utf8::encode_utf8;
use crate::scanner::{assemble, content_of, scan, topic_of, Note, SplitPoint};

verus! {

/// How long a validation warning shows, in milliseconds.
pub const WARNING_MS: u64 = 1250;

/// How long the confirmation of a save shows, in milliseconds.
pub const SAVED_MS: u64 = 750;

/// How long a failed save is reported, in milliseconds.
pub const SAVE_ERROR_MS: u64 = 4000;

/// How long an unknown command is reported, in milliseconds.
pub const NOT_A_COMMAND_MS: u64 = 750;

/// The separator between content and topic, as characters.
pub open spec fn separator() -> Seq<char> {
    seq![':', ':', ':']
}

/// How prominent a feedback message is.
#[derive(Clone, Copy, Debug, PartialEq, Eq, Structural)]
pub enum Severity {
    Info,
    Success,
    Warning,
    Error,
}

/// A short message shown to the user for a while.
#[derive(Clone, Debug)]
pub struct Feedback {
    pub text: String,
    pub severity: Severity,
    pub duration_ms: u64,
}

/// `f` carries `text` at `severity` for `duration_ms`.
pub open spec fn feedback_is(f: Feedback, text: Seq<char>, severity: Severity, duration_ms: u64) -> bool {
    f.text@ == text && f.severity == severity && f.duration_ms == duration_ms
}

/// What pressing Enter asks of the outside: a message, window commands, and a
/// note to write to the store.
pub struct Reaction {
    pub feedback: Option<Feedback>,
    pub window: Vec<WindowCommand>,
    pub persist: Option<Note>,
}

/// The state of the capture window that the frames share.
pub struct Session {
    /// The text field's contents.
    pub raw: String,
    /// Where the line splits at the separator; no split in command mode.
    pub split: SplitPoint,
    /// The note that the split gives.
    pub note: Note,
    /// The line begins with the command marker.
    pub cmd_mode: bool,
    /// The command the line names; `Command::Unknown` outside command mode.
    pub cmd: Command,
    pub visibility: Visibility,
    /// The text field is to take keyboard focus at the next frame.
    pub focus_requested: bool,
}

/// A feedback message with the text of a literal.
fn message(text: &str, severity: Severity, duration_ms: u64) -> (f: Feedback)
    ensures
        feedback_is(f, text@, severity, duration_ms),
{
    Feedback { text: text.to_owned(), severity, duration_ms }
}

impl Session {
    /// Split, note and command are what `raw` gives.
    pub open spec fn derived_from(&self, raw: Seq<char>) -> bool {
        &&& self.raw@ == raw
        &&& self.cmd_mode == is_command_line(raw)
        &&& if self.cmd_mode {
            &&& self.split == SplitPoint::none_spec()
            &&& self.cmd == command_of(raw)
        } else {
            &&& self.split.locates(encode_utf8(raw), encode_utf8(separator()))
            &&& self.cmd == Command::Unknown
        }
        &&& self.note.topic@ == topic_of(raw, self.split)
        &&& self.note.content@ == content_of(raw, self.split)
    }

    /// The derived fields agree with the line.
    pub open spec fn wf(&self) -> bool {
        self.derived_from(self.raw@)
    }

    /// `self` and `other` hold the same line and what it derives to.
    pub open spec fn same_line(&self, other: &Session) -> bool {
        &&& self.raw@ == other.raw@
        &&& self.split == other.split
        &&& self.note.topic@ == other.note.topic@
        &&& self.note.content@ == other.note.content@
        &&& self.cmd_mode == other.cmd_mode
        &&& self.cmd == other.cmd
    }

    /// An empty line in a visible window whose field is to take focus.
    pub fn new() -> (s: Session)
        ensures
            s.wf(),
            s.raw@ == Seq::<char>::empty(),
            s.visibility == Visibility::Visible,
            s.focus_requested,
    {
        let mut s = Session {
            raw: String::new(),
            split: SplitPoint::none(),
            note: Note::empty(),
            cmd_mode: false,
            cmd: Command::Unknown,
            visibility: Visibility::Visible,
            focus_requested: true,
        };
        s.set_input(String::new());
        s
    }

    /// Replaces the line and derives split, note and command from it: a
    /// command line is classified and never split.
    pub fn set_input(&mut self, raw: String)
        ensures
            final(self).derived_from(raw@),
            final(self).visibility == old(self).visibility,
            final(self).focus_requested == old(self).focus_requested,
    {
        proof {
            reveal_strlit(":::");
        }
        assert(":::"@ =~= separator());
        if is_command(raw.as_str()) {
            self.cmd_mode = true;
            self.split = SplitPoint::none();
            self.note = Note::empty();
            self.cmd = classify(raw.as_str());
        } else {
            self.cmd_mode = false;
            self.split = scan(raw.as_str(), ":::");
            self.note = assemble(raw.as_str(), self.split);
            self.cmd = Command::Unknown;
        }
        self.raw = raw;
    }

    /// Reacts to Enter. On a command line the command is dispatched: exit
    /// closes the window, show does nothing yet, an unknown one is reported and
    /// focus is asked back. Otherwise a note that lacks its topic or content is
    /// refused with a warning (the missing topic named first), and a valid one
    /// is handed out to be written; the line is kept either way.
    pub fn press_enter(&mut self) -> (r: Reaction)
        requires
            old(self).wf(),
        ensures
            final(self).wf(),
            final(self).same_line(old(self)),
            old(self).cmd_mode ==> r.persist is None,
            !old(self).note.valid_spec() ==> r.persist is None,
            !old(self).cmd_mode && !old(self).note.valid_spec() ==> {
                &&& r.feedback matches Some(f) && f.severity == Severity::Warning
                &&& final(self).focus_requested
            },
            old(self).cmd_mode && old(self).cmd == Command::Exit ==> {
                &&& final(self).visibility == next_visibility(old(self).visibility, Event::Exit)
                &&& r.window@ == window_commands(old(self).visibility, Event::Exit)
                &&& r.feedback is None
                &&& final(self).focus_requested == old(self).focus_requested
            },
            old(self).cmd_mode && old(self).cmd == Command::Show ==> {
                &&& final(self).visibility == old(self).visibility
                &&& r.window@.len() == 0
                &&& r.feedback is None
                &&& final(self).focus_requested == old(self).focus_requested
            },
            old(self).cmd_mode && old(self).cmd == Command::Unknown ==> {
                &&& final(self).visibility == old(self).visibility
                &&& r.window@.len() == 0
                &&& r.feedback matches Some(f) && feedback_is(
                    f,
                    "Not a cmd"@,
                    Severity::Error,
                    NOT_A_COMMAND_MS,
                )
                &&& final(self).focus_requested
            },
            !old(self).cmd_mode ==> {
                &&& final(self).visibility == old(self).visibility
                &&& r.window@.len() == 0
            },
            !old(self).cmd_mode && old(self).note.topic@.len() == 0 ==> {
                &&& r.persist is None
                &&& r.feedback matches Some(f) && feedback_is(
                    f,
                    "Provide a topic!"@,
                    Severity::Warning,
                    WARNING_MS,
                )
                &&& final(self).focus_requested
            },
            !old(self).cmd_mode && old(self).note.topic@.len() > 0 && old(
                self,
            ).note.content@.len() == 0 ==> {
                &&& r.persist is None
                &&& r.feedback matches Some(f) && feedback_is(
                    f,
                    "Your note needs content!"@,
                    Severity::Warning,
                    WARNING_MS,
                )
                &&& final(self).focus_requested
            },
            !old(self).cmd_mode && old(self).note.topic@.len() > 0 && old(
                self,
            ).note.content@.len() > 0 ==> {
                &&& r.persist matches Some(n) && n.topic@ == old(self).note.topic@
                    && n.content@ == old(self).note.content@
                &&& r.feedback is None
                &&& final(self).focus_requested == old(self).focus_requested
            },
    {
        let mut window: Vec<WindowCommand> = Vec::new();
        if self.cmd_mode {
            match self.cmd {
                Command::Exit => {
                    let (v, cmds) = step(self.visibility, Event::Exit);
                    self.visibility = v;
                    window = cmds;
                    Reaction { feedback: None, window, persist: None }
                },
                Command::Show => Reaction { feedback: None, window, persist: None },
                Command::Unknown => {
                    self.focus_requested = true;
                    let f = message("Not a cmd", Severity::Error, NOT_A_COMMAND_MS);
                    Reaction { feedback: Some(f), window, persist: None }
                },
            }
        } else if self.note.topic.as_str().is_empty() {
            self.focus_requested = true;
            let f = message("Provide a topic!", Severity::Warning, WARNING_MS);
            Reaction { feedback: Some(f), window, persist: None }
        } else if self.note.content.as_str().is_empty() {
            self.focus_requested = true;
            let f = message("Your note needs content!", Severity::Warning, WARNING_MS);
            Reaction { feedback: Some(f), window, persist: None }
        } else {
            let n = Note { topic: self.note.topic.clone(), content: self.note.content.clone() };
            Reaction { feedback: None, window, persist: Some(n) }
        }
    }

    /// Reacts to the outcome of writing the note handed out by `press_enter`.
    /// Success clears the line and schedules the window to hide
    /// `AUTO_HIDE_MS` after `now_ms`; failure reports the reason and keeps the
    /// line. Focus is asked back either way.
    pub fn save_finished(&mut self, outcome: Result<(), String>, now_ms: u64) -> (f: Feedback)
        requires
            old(self).wf(),
            now_ms <= u64::MAX - AUTO_HIDE_MS,
        ensures
            final(self).wf(),
            final(self).focus_requested,
            outcome is Ok ==> {
                &&& final(self).raw@ == Seq::<char>::empty()
                &&& final(self).visibility == next_visibility(
                    old(self).visibility,
                    Event::Saved(now_ms),
                )
                &&& is_showing(old(self).visibility) ==> final(self).visibility
                    == Visibility::PendingAutoHide((now_ms + AUTO_HIDE_MS) as u64)
                &&& is_showing(old(self).visibility) ==> (final(self).visibility matches Visibility::PendingAutoHide(d)
                    && d > now_ms)
                &&& feedback_is(f, "Saved"@, Severity::Success, SAVED_MS)
            },
            outcome matches Err(reason) ==> {
                &&& final(self).same_line(old(self))
                &&& final(self).visibility == old(self).visibility
                &&& feedback_is(f, "Error: "@ + reason@, Severity::Error, SAVE_ERROR_MS)
            },
    {
        self.focus_requested = true;
        match outcome {
            Ok(()) => {
                let (v, _cmds) = step(self.visibility, Event::Saved(now_ms));
                self.visibility = v;
                self.set_input(String::new());
                message("Saved", Severity::Success, SAVED_MS)
            },
            Err(reason) => {
                let text = "Error: ".to_owned().concat(reason.as_str());
                Feedback { text, severity: Severity::Error, duration_ms: SAVE_ERROR_MS }
            },
        }
    }

    /// Applies a window event: the visibility moves as the lifecycle says, and
    /// a hotkey signal also asks focus for the field.
    pub fn handle(&mut self, e: Event) -> (cmds: Vec<WindowCommand>)
        requires
            event_ok(e),
        ensures
            final(self).same_line(old(self)),
            final(self).visibility == next_visibility(old(self).visibility, e),
            cmds@ == window_commands(old(self).visibility, e),
            final(self).focus_requested == (old(self).focus_requested || (e == Event::Hotkey
                && old(self).visibility != Visibility::Closed)),
    {
        let (v, cmds) = step(self.visibility, e);
        self.visibility = v;
        if e == Event::Hotkey && self.visibility != Visibility::Closed {
            self.focus_requested = true;
        }
        cmds
    }

    /// Takes in the hotkey signals drained from the queue in one frame. Any
    /// number of them brings the window to front exactly once; none changes
    /// nothing, and neither does any number once the window is closed.
    pub fn drain_hotkey(&mut self, signals: usize) -> (cmds: Vec<WindowCommand>)
        ensures
            final(self).same_line(old(self)),
            signals > 0 && old(self).visibility == Visibility::Closed ==> {
                &&& final(self).visibility == Visibility::Closed
                &&& cmds@.len() == 0
                &&& final(self).focus_requested == old(self).focus_requested
            },
            signals > 0 && old(self).visibility != Visibility::Closed ==> {
                &&& final(self).visibility == Visibility::Visible
                &&& final(self).visibility == next_visibility(old(self).visibility, Event::Hotkey)
                &&& cmds@ == window_commands(old(self).visibility, Event::Hotkey)
                &&& cmds@ == seq![WindowCommand::Restore, WindowCommand::Focus]
                &&& final(self).focus_requested
            },
            signals == 0 ==> {
                &&& final(self).visibility == old(self).visibility
                &&& cmds@.len() == 0
                &&& final(self).focus_requested == old(self).focus_requested
            },
    {
        if signals == 0 {
            Vec::new()
        } else {
            self.handle(Event::Hotkey)
        }
    }

    /// Consumes the one-shot focus request: whether the field is to take
    /// focus now; the request is cleared.
    pub fn take_focus_request(&mut self) -> (r: bool)
        ensures
            r == old(self).focus_requested,
            !final(self).focus_requested,
            final(self).same_line(old(self)),
            final(self).visibility == old(self).visibility,
    {
        let r = self.focus_requested;
        self.focus_requested = false;
        r
    }
}

} // verus!

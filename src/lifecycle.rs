//! Window visibility as a state machine over external events.

use vstd::prelude::*;

verus! {

/// How long after a successful save the window hides itself, in milliseconds.
pub const AUTO_HIDE_MS: u64 = 750;

/// Whether the capture window shows, and when it is due to hide.
#[derive(Clone, Copy, Debug, PartialEq, Eq, Structural)]
pub enum Visibility {
    Hidden,
    Visible,
    /// Visible until the monotonic deadline, in milliseconds.
    PendingAutoHide(u64),
    /// The window was closed for good.
    Closed,
}

/// What the windowing side is asked to do.
#[derive(Clone, Copy, Debug, PartialEq, Eq, Structural)]
pub enum WindowCommand {
    Minimize,
    Restore,
    Focus,
    Close,
}

/// What happens to the window from outside the text field.
#[derive(Clone, Copy, Debug, PartialEq, Eq, Structural)]
pub enum Event {
    /// A global hotkey signal was drained.
    Hotkey,
    /// The escape key was pressed.
    Escape,
    /// The platform asked the window to close.
    CloseRequested,
    /// A note was saved at the given time.
    Saved(u64),
    /// A frame began at the given time.
    Tick(u64),
    /// The exit command was dispatched.
    Exit,
}

/// An event whose time leaves room for the auto-hide delay.
pub open spec fn event_ok(e: Event) -> bool {
    match e {
        Event::Saved(now) => now <= u64::MAX - AUTO_HIDE_MS,
        _ => true,
    }
}

/// The window shows: visible, possibly with a hide deadline.
pub open spec fn is_showing(v: Visibility) -> bool {
    v == Visibility::Visible || v is PendingAutoHide
}

/// The visibility after `e` in state `v`. A closed window stays closed.
pub open spec fn next_visibility(v: Visibility, e: Event) -> Visibility {
    if v == Visibility::Closed {
        Visibility::Closed
    } else {
        match e {
            Event::Hotkey => Visibility::Visible,
            Event::Escape => Visibility::Hidden,
            Event::CloseRequested => Visibility::Hidden,
            Event::Saved(now) => if is_showing(v) {
                Visibility::PendingAutoHide((now + AUTO_HIDE_MS) as u64)
            } else {
                v
            },
            Event::Tick(now) => match v {
                Visibility::PendingAutoHide(deadline) => if now >= deadline {
                    Visibility::Hidden
                } else {
                    v
                },
                _ => v,
            },
            Event::Exit => Visibility::Closed,
        }
    }
}

/// The window commands that `e` in state `v` issues; none once closed.
pub open spec fn window_commands(v: Visibility, e: Event) -> Seq<WindowCommand> {
    if v == Visibility::Closed {
        Seq::empty()
    } else {
        match e {
            Event::Hotkey => seq![WindowCommand::Restore, WindowCommand::Focus],
            Event::Escape => seq![WindowCommand::Minimize],
            Event::CloseRequested => seq![WindowCommand::Minimize],
            Event::Saved(_) => Seq::empty(),
            Event::Tick(now) => match v {
                Visibility::PendingAutoHide(deadline) => if now >= deadline {
                    seq![WindowCommand::Minimize]
                } else {
                    Seq::empty()
                },
                _ => Seq::empty(),
            },
            Event::Exit => seq![WindowCommand::Close],
        }
    }
}

/// One transition: the next visibility and the window commands to issue.
pub fn step(v: Visibility, e: Event) -> (r: (Visibility, Vec<WindowCommand>))
    requires
        event_ok(e),
    ensures
        r.0 == next_visibility(v, e),
        r.1@ == window_commands(v, e),
{
    let mut cmds: Vec<WindowCommand> = Vec::new();
    if v == Visibility::Closed {
        assert(cmds@ =~= window_commands(v, e));
        return (v, cmds);
    }
    let next = match e {
        Event::Hotkey => {
            cmds.push(WindowCommand::Restore);
            cmds.push(WindowCommand::Focus);
            Visibility::Visible
        },
        Event::Escape | Event::CloseRequested => {
            cmds.push(WindowCommand::Minimize);
            Visibility::Hidden
        },
        Event::Saved(now) => match v {
            Visibility::Visible | Visibility::PendingAutoHide(_) => Visibility::PendingAutoHide(
                now + AUTO_HIDE_MS,
            ),
            _ => v,
        },
        Event::Tick(now) => match v {
            Visibility::PendingAutoHide(deadline) => if now >= deadline {
                cmds.push(WindowCommand::Minimize);
                Visibility::Hidden
            } else {
                v
            },
            _ => v,
        },
        Event::Exit => {
            cmds.push(WindowCommand::Close);
            Visibility::Closed
        },
    };
    assert(cmds@ =~= window_commands(v, e));
    (next, cmds)
}

/// Bringing the window to front is idempotent: a second hotkey signal after
/// the first changes nothing and issues the same commands.
pub proof fn lemma_hotkey_idempotent(v: Visibility)
    ensures
        next_visibility(next_visibility(v, Event::Hotkey), Event::Hotkey) == next_visibility(
            v,
            Event::Hotkey,
        ),
        window_commands(next_visibility(v, Event::Hotkey), Event::Hotkey) == window_commands(
            v,
            Event::Hotkey,
        ),
        v != Visibility::Closed ==> next_visibility(v, Event::Hotkey) == Visibility::Visible,
{
}

/// After a save in a showing window the window is due to hide strictly later
/// than the save.
pub proof fn lemma_saved_deadline_in_future(v: Visibility, now: u64)
    requires
        event_ok(Event::Saved(now)),
        is_showing(v),
    ensures
        next_visibility(v, Event::Saved(now)) matches Visibility::PendingAutoHide(d) && d > now,
{
}

} // verus!

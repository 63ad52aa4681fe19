use topic::command::{classify, classify_folded, is_command, Command};
use topic::lifecycle::{step, Event, Visibility, WindowCommand, AUTO_HIDE_MS};
use topic::scanner::{assemble, scan, SplitPoint};
use topic::session::{Session, Severity, NOT_A_COMMAND_MS, SAVED_MS, SAVE_ERROR_MS, WARNING_MS};
use topic::store::db_path;
use topic::text::{chars_of, string_of_range};

fn session_with(line: &str) -> Session {
    let mut s = Session::new();
    s.set_input(line.to_string());
    s
}

#[test]
fn splits_content_and_topic() {
    let sp = scan("Buy milk::: groceries", ":::");
    assert_eq!(sp, SplitPoint { found: true, content_end: 8, topic_start: 11 });
    let n = assemble("Buy milk::: groceries", sp);
    assert_eq!(n.content, "Buy milk");
    assert_eq!(n.topic, "groceries");
}

#[test]
fn no_separator_gives_no_split() {
    let sp = scan("just some words: here", ":::");
    assert_eq!(sp, SplitPoint { found: false, content_end: 0, topic_start: 0 });
    let n = assemble("just some words: here", sp);
    assert_eq!(n.topic, "");
    assert_eq!(n.content, "");
}

#[test]
fn empty_line_gives_no_split() {
    let sp = scan("", ":::");
    assert!(!sp.found);
    assert_eq!(assemble("", sp).topic, "");
}

#[test]
fn first_occurrence_wins() {
    let sp = scan("a:::b:::c", ":::");
    assert_eq!(sp, SplitPoint { found: true, content_end: 1, topic_start: 4 });
    let n = assemble("a:::b:::c", sp);
    assert_eq!(n.content, "a");
    assert_eq!(n.topic, "b:::c");
}

#[test]
fn separator_at_start_is_a_split() {
    let sp = scan("::: topic", ":::");
    assert_eq!(sp, SplitPoint { found: true, content_end: 0, topic_start: 3 });
    let n = assemble("::: topic", sp);
    assert_eq!(n.content, "");
    assert_eq!(n.topic, "topic");
}

#[test]
fn other_tokens() {
    let sp = scan("one. two", ".");
    assert_eq!(sp, SplitPoint { found: true, content_end: 3, topic_start: 4 });
    let n = assemble("one, two, three", scan("one, two, three", ", "));
    assert_eq!(n.content, "one");
    assert_eq!(n.topic, "two, three");
    assert_eq!(scan("abc", ""), SplitPoint { found: true, content_end: 0, topic_start: 0 });
    assert!(!scan("ab", "abc").found);
}

#[test]
fn trims_both_sides() {
    let n = assemble("  \tcontent  :::\n  topic   ", scan("  \tcontent  :::\n  topic   ", ":::"));
    assert_eq!(n.content, "content");
    assert_eq!(n.topic, "topic");
}

#[test]
fn offsets_count_bytes() {
    let sp = scan("café:::thé", ":::");
    assert_eq!(sp, SplitPoint { found: true, content_end: 5, topic_start: 8 });
    let n = assemble("café:::thé", sp);
    assert_eq!(n.content, "café");
    assert_eq!(n.topic, "thé");
    let line = "ééé:::x";
    let sp = scan(line, ":::");
    assert_eq!(sp, SplitPoint { found: true, content_end: 6, topic_start: 9 });
    assert!(line.is_char_boundary(sp.content_end) && line.is_char_boundary(sp.topic_start));
    assert_eq!(&line[..sp.content_end], "ééé");
    let sp = scan("é:::x", ":::");
    assert_eq!(sp, SplitPoint { found: true, content_end: 2, topic_start: 5 });
}

#[test]
fn multibyte_token() {
    let line = "note → topic";
    let sp = scan(line, "→");
    assert_eq!(sp, SplitPoint { found: true, content_end: 5, topic_start: 8 });
    let n = assemble(line, sp);
    assert_eq!(n.content, "note");
    assert_eq!(n.topic, "topic");
}

#[test]
fn trims_unicode_white_space_only() {
    let line = "\u{3000}a\u{00a0}::: b\u{2009}\u{200b}";
    let n = assemble(line, scan(line, ":::"));
    assert_eq!(n.content, "a");
    assert_eq!(n.topic, "b\u{2009}\u{200b}");
}

#[test]
fn scanning_twice_gives_the_same_note() {
    let line = " a note ::: a topic ";
    let n1 = assemble(line, scan(line, ":::"));
    let n2 = assemble(line, scan(line, ":::"));
    assert_eq!(n1.topic, n2.topic);
    assert_eq!(n1.content, n2.content);
    assert_eq!(scan(line, ":::"), scan(line, ":::"));
}

#[test]
fn classifies_known_commands() {
    assert_eq!(classify(":exit"), Command::Exit);
    assert_eq!(classify(":show"), Command::Show);
    assert_eq!(classify(":EXIT"), Command::Exit);
    assert_eq!(classify(":ShOw"), Command::Show);
    assert_eq!(classify(":showing"), Command::Show);
}

#[test]
fn classifies_unknown_and_short_lines() {
    assert_eq!(classify(":zzzz"), Command::Unknown);
    assert_eq!(classify(":"), Command::Unknown);
    assert_eq!(classify(":exi"), Command::Unknown);
    assert_eq!(classify(""), Command::Unknown);
    assert_eq!(classify(":éxit"), Command::Unknown);
}

#[test]
fn classify_folded_looks_up_exactly() {
    assert_eq!(classify_folded("exit"), Command::Exit);
    assert_eq!(classify_folded("show"), Command::Show);
    assert_eq!(classify_folded("EXIT"), Command::Unknown);
    assert_eq!(classify_folded("exits"), Command::Unknown);
}

#[test]
fn marker_starts_command_mode() {
    assert!(is_command(":exit"));
    assert!(!is_command("exit:"));
    assert!(!is_command(""));
    let s = session_with(":exit::: topic");
    assert!(s.cmd_mode);
    assert!(!s.split.found);
    assert_eq!(s.note.topic, "");
}

#[test]
fn exit_command_closes_the_window() {
    let mut s = session_with(":exit");
    assert_eq!(s.cmd, Command::Exit);
    let r = s.press_enter();
    assert_eq!(r.window, vec![WindowCommand::Close]);
    assert!(r.feedback.is_none());
    assert!(r.persist.is_none());
    assert_eq!(s.visibility, Visibility::Closed);
}

#[test]
fn show_command_does_nothing() {
    let mut s = session_with(":show");
    let r = s.press_enter();
    assert!(r.window.is_empty());
    assert!(r.feedback.is_none());
    assert!(r.persist.is_none());
    assert_eq!(s.visibility, Visibility::Visible);
}

#[test]
fn unknown_command_is_reported_and_focus_asked_back() {
    let mut s = session_with(":zzzz");
    assert_eq!(s.cmd, Command::Unknown);
    assert!(s.take_focus_request());
    let r = s.press_enter();
    let f = r.feedback.unwrap();
    assert_eq!(f.text, "Not a cmd");
    assert_eq!(f.severity, Severity::Error);
    assert_eq!(f.duration_ms, NOT_A_COMMAND_MS);
    assert!(r.persist.is_none());
    assert!(s.focus_requested);
    assert_eq!(s.raw, ":zzzz");
}

#[test]
fn empty_line_names_the_missing_topic() {
    let mut s = Session::new();
    let r = s.press_enter();
    let f = r.feedback.unwrap();
    assert_eq!(f.text, "Provide a topic!");
    assert_eq!(f.severity, Severity::Warning);
    assert_eq!(f.duration_ms, WARNING_MS);
    assert!(r.persist.is_none());
}

#[test]
fn missing_content_is_refused() {
    let mut s = session_with("   ::: topic");
    let r = s.press_enter();
    assert_eq!(r.feedback.unwrap().text, "Your note needs content!");
    assert!(r.persist.is_none());
    assert_eq!(s.raw, "   ::: topic");
}

#[test]
fn missing_topic_is_refused() {
    let mut s = session_with("content :::   ");
    let r = s.press_enter();
    assert_eq!(r.feedback.unwrap().text, "Provide a topic!");
    assert!(r.persist.is_none());
}

#[test]
fn valid_note_is_handed_out_once() {
    let mut s = session_with("Buy milk::: groceries");
    assert!(s.take_focus_request());
    let r = s.press_enter();
    let n = r.persist.unwrap();
    assert_eq!(n.topic, "groceries");
    assert_eq!(n.content, "Buy milk");
    assert!(r.feedback.is_none());
    assert!(r.window.is_empty());
    assert!(!s.focus_requested);
}

#[test]
fn save_success_clears_and_schedules_hide() {
    let mut s = session_with("Buy milk::: groceries");
    let f = s.save_finished(Ok(()), 1000);
    assert_eq!(f.text, "Saved");
    assert_eq!(f.severity, Severity::Success);
    assert_eq!(f.duration_ms, SAVED_MS);
    assert_eq!(s.raw, "");
    assert_eq!(s.note.topic, "");
    assert_eq!(s.note.content, "");
    assert_eq!(s.visibility, Visibility::PendingAutoHide(1000 + AUTO_HIDE_MS));
    assert!(s.focus_requested);
}

#[test]
fn save_failure_keeps_the_draft() {
    let mut s = session_with("Buy milk::: groceries");
    let f = s.save_finished(Err("database is locked".to_string()), 1000);
    assert_eq!(f.text, "Error: database is locked");
    assert_eq!(f.severity, Severity::Error);
    assert_eq!(f.duration_ms, SAVE_ERROR_MS);
    assert_eq!(s.raw, "Buy milk::: groceries");
    assert_eq!(s.note.topic, "groceries");
    assert_eq!(s.visibility, Visibility::Visible);
}

#[test]
fn deadline_hides_the_window() {
    let mut s = session_with("a ::: b");
    s.save_finished(Ok(()), 5000);
    assert!(s.handle(Event::Tick(5749)).is_empty());
    assert_eq!(s.visibility, Visibility::PendingAutoHide(5750));
    assert_eq!(s.handle(Event::Tick(5750)), vec![WindowCommand::Minimize]);
    assert_eq!(s.visibility, Visibility::Hidden);
    assert!(s.handle(Event::Tick(9000)).is_empty());
}

#[test]
fn queued_hotkeys_bring_to_front_once() {
    let mut s = Session::new();
    s.handle(Event::Escape);
    s.take_focus_request();
    assert_eq!(s.visibility, Visibility::Hidden);
    let cmds = s.drain_hotkey(5);
    assert_eq!(cmds, vec![WindowCommand::Restore, WindowCommand::Focus]);
    assert_eq!(s.visibility, Visibility::Visible);
    assert!(s.take_focus_request());
    assert!(!s.take_focus_request());
    assert!(s.drain_hotkey(0).is_empty());
    assert_eq!(s.visibility, Visibility::Visible);
}

#[test]
fn escape_and_close_request_minimize() {
    let mut s = Session::new();
    assert_eq!(s.handle(Event::Escape), vec![WindowCommand::Minimize]);
    assert_eq!(s.visibility, Visibility::Hidden);
    s.drain_hotkey(1);
    assert_eq!(s.handle(Event::CloseRequested), vec![WindowCommand::Minimize]);
    assert_eq!(s.visibility, Visibility::Hidden);
}

#[test]
fn lifecycle_steps() {
    assert_eq!(step(Visibility::Hidden, Event::Hotkey), (Visibility::Visible, vec![WindowCommand::Restore, WindowCommand::Focus]));
    assert_eq!(step(Visibility::Visible, Event::Saved(10)), (Visibility::PendingAutoHide(760), vec![]));
    assert_eq!(step(Visibility::PendingAutoHide(760), Event::Hotkey).0, Visibility::Visible);
    assert_eq!(step(Visibility::Visible, Event::Exit), (Visibility::Closed, vec![WindowCommand::Close]));
    assert_eq!(step(Visibility::Visible, Event::Tick(u64::MAX)), (Visibility::Visible, vec![]));
    assert_eq!(step(Visibility::PendingAutoHide(5), Event::Saved(10)), (Visibility::PendingAutoHide(760), vec![]));
    assert_eq!(step(Visibility::Hidden, Event::Saved(10)), (Visibility::Hidden, vec![]));
}

#[test]
fn closed_window_stays_closed() {
    for e in [Event::Hotkey, Event::Escape, Event::CloseRequested, Event::Saved(1), Event::Tick(u64::MAX), Event::Exit] {
        assert_eq!(step(Visibility::Closed, e), (Visibility::Closed, vec![]));
    }
    let mut s = session_with(":exit");
    s.press_enter();
    s.take_focus_request();
    assert!(s.drain_hotkey(3).is_empty());
    assert_eq!(s.visibility, Visibility::Closed);
    assert!(!s.focus_requested);
}

#[test]
fn store_path() {
    assert_eq!(db_path(), "data_test.db");
}

#[test]
fn character_helpers() {
    assert_eq!(chars_of("hé!"), vec!['h', 'é', '!']);
    let v = chars_of("abcdef");
    assert_eq!(string_of_range(&v, 1, 4), "bcd");
    assert_eq!(string_of_range(&v, 2, 2), "");
}

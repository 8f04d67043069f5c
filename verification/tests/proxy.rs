use texas::buffer::{backup_extension, load_file, Buffer, DeltaElement, LoadFailure, SaveError, TextDelta};
use texas::doc::{
    edit_allowed, save_marks_pristine, DocHistory, find_rev_update, find_should_start, FindRevUpdate, autosave_due, autosave_scheduled, should_blink, sticky_header_lines, update_revisions, BufferId, DocContent,
};
use texas::panel::PanelKind;
use texas::rpc::{
    frame_message, is_blank_line, read_ipc_line, read_rpc_line, route_core_notification, IpcLine, NotificationRoute,
    PendingRequests, RpcKind, RpcObject,
};
use serde_json::Value;
use texas::style::{line_styles, styles_in_range, RopeText, Style, StyleSpans};
use texas::watcher::{WatchEvent, WatchEventKind, WatchToken, Watchee, WatcherState};
use texas::window_tab::Focus;

fn buffer(text: &str) -> Buffer {
    Buffer::new(BufferId(1), "/w/a.txt".to_string(), Ok(text.to_string()), None)
}

#[test]
fn new_buffer_starts_at_revision_one_unless_empty() {
    let b = buffer("hello");
    assert_eq!(b.text, b"hello".to_vec());
    assert_eq!(b.rev, 1);
    assert!(!b.read_only);
    assert_eq!(buffer("").rev, 0);
}

#[test]
fn unreadable_files_are_shown_with_a_message() {
    let b = Buffer::new(BufferId(2), "/w/x".to_string(), Err(LoadFailure::PermissionDenied), None);
    assert_eq!(b.text, b"Permission Denied".to_vec());
    assert!(b.read_only);
    let b = Buffer::new(BufferId(2), "/w/x".to_string(), Err(LoadFailure::NotFound), None);
    assert!(b.text.is_empty());
    assert_eq!(b.rev, 0);
    assert!(!b.read_only);
    let b = Buffer::new(BufferId(2), "/w/x".to_string(), Err(LoadFailure::OutOfMemory), None);
    assert_eq!(b.text, b"File too big (out of memory)".to_vec());
    assert!(!b.read_only);
    let b = Buffer::new(BufferId(2), "/w/x".to_string(), Err(LoadFailure::Other("bad".to_string())), None);
    assert_eq!(b.text, b"Not supported: bad".to_vec());
    assert!(b.read_only);
}

#[test]
fn file_content_is_decoded_as_utf8() {
    assert_eq!(load_file(Ok("héllo".as_bytes().to_vec())).unwrap(), "héllo");
    match load_file(Ok(vec![0x66, 0xff, 0x6f])) {
        Err(LoadFailure::Other(m)) => assert_eq!(m, "invalid utf-8 sequence of 1 bytes from index 1"),
        other => panic!("unexpected {:?}", other),
    }
    assert!(matches!(load_file(Err(LoadFailure::NotFound)), Err(LoadFailure::NotFound)));
}

#[test]
fn saving_checks_read_only_and_revision() {
    let b = buffer("x");
    assert_eq!(b.check_save(1), Ok(()));
    assert_eq!(b.check_save(2), Err(SaveError::WrongRevision));
    let ro = Buffer::new(BufferId(2), "/w/x".to_string(), Err(LoadFailure::PermissionDenied), None);
    assert_eq!(ro.check_save(1), Err(SaveError::ReadOnly));
    assert_eq!(SaveError::ReadOnly.message(), "can't save to read only file");
    assert_eq!(SaveError::WrongRevision.message(), "not the right rev");
    assert_eq!(backup_extension(Some("rs")), "rs.bak");
    assert_eq!(backup_extension(None), "bak");
}

#[test]
fn only_the_next_revision_is_applied() {
    let mut b = buffer("hello world");
    let delta = TextDelta {
        els: vec![DeltaElement::Copy(0, 5), DeltaElement::Insert(b", dear".to_vec()), DeltaElement::Copy(5, 11)],
        base_len: 11,
    };
    b.update(&delta, 3);
    assert_eq!(b.rev, 1);
    assert_eq!(b.text, b"hello world".to_vec());
    b.update(&delta, 2);
    assert_eq!(b.rev, 2);
    assert_eq!(b.text, b"hello, dear world".to_vec());
}

#[test]
fn batch_updates_are_numbered_in_turn() {
    assert_eq!(update_revisions(7, 3), vec![5, 6, 7]);
    assert_eq!(update_revisions(7, 0), Vec::<u64>::new());
    let mut b = buffer("ab");
    for rev in update_revisions(b.rev + 2, 2) {
        let delta = TextDelta { els: vec![DeltaElement::Copy(0, b.text.len()), DeltaElement::Insert(b"!".to_vec())], base_len: b.text.len() };
        b.update(&delta, rev);
    }
    assert_eq!(b.rev, 3);
    assert_eq!(b.text, b"ab!!".to_vec());
}

#[test]
fn cursor_blinks_where_typing_goes() {
    assert!(should_blink(Some(Focus::Workbench), false));
    assert!(should_blink(Some(Focus::Panel(PanelKind::Search)), false));
    assert!(!should_blink(Some(Focus::Panel(PanelKind::Terminal)), false));
    assert!(should_blink(Some(Focus::Panel(PanelKind::Terminal)), true));
    assert!(!should_blink(None, true));
}

#[test]
fn autosave_only_for_unchanged_dirty_files() {
    assert!(autosave_due(4, 4, false));
    assert!(!autosave_due(4, 5, false));
    assert!(!autosave_due(4, 4, true));
    let file = DocContent::File { path: "/w/a".to_string(), read_only: false };
    assert!(autosave_scheduled(1000, &file));
    assert!(!autosave_scheduled(0, &file));
    assert!(!autosave_scheduled(1000, &DocContent::Local));
}

#[test]
fn sticky_headers_are_sorted_without_repeats() {
    assert_eq!(sticky_header_lines(&vec![3, 3, 10, 1, 12], 10), vec![1, 3, 10]);
    assert_eq!(sticky_header_lines(&vec![], 4), Vec::<usize>::new());
}

#[test]
fn responses_are_classified() {
    let obj = RpcObject { id: Some(4), has_id: true, has_method: false, result: Some("ok"), error: None, value: "{}" };
    assert!(obj.is_response());
    assert!(matches!(obj.classify(), Some(RpcKind::Response(4, Ok("ok")))));
    let obj = RpcObject { id: Some(4), has_id: true, has_method: false, result: None, error: Some("e"), value: "{}" };
    assert!(matches!(obj.classify(), Some(RpcKind::Response(4, Err("e")))));
    let both = RpcObject { id: Some(4), has_id: true, has_method: false, result: Some("a"), error: Some("b"), value: "{}" };
    assert_eq!(
        both.into_response().unwrap_err(),
        "RPC response must contain exactly one of'error' or 'result' fields."
    );
    let no_id = RpcObject { id: None, has_id: true, has_method: false, result: Some("a"), error: None, value: "{}" };
    assert_eq!(no_id.into_response().unwrap_err(), "Response requires 'id' field.");
    let no_id = RpcObject { id: None, has_id: true, has_method: false, result: Some("a"), error: None, value: "{}" };
    assert!(no_id.classify().is_none());
}

#[test]
fn requests_and_notifications_are_classified() {
    let req = RpcObject { id: Some(9), has_id: true, has_method: true, result: None, error: None, value: "req" };
    assert!(matches!(req.classify(), Some(RpcKind::Request(9, "req"))));
    let notif = RpcObject::<&str> { id: None, has_id: false, has_method: true, result: None, error: None, value: "n" };
    assert_eq!(notif.get_id(), None);
    assert!(matches!(notif.classify(), Some(RpcKind::Notification("n"))));
}

#[test]
fn responses_reach_their_handlers_once() {
    let mut pending: PendingRequests<&str> = PendingRequests::new();
    let a = pending.register("a");
    let b = pending.register("b");
    assert_eq!((a, b), (0, 1));
    assert_eq!(pending.take(b), Some("b"));
    assert_eq!(pending.take(b), None);
    assert_eq!(pending.take(a), Some("a"));
    let mut wrap: PendingRequests<&str> = PendingRequests { next_id: u64::MAX, pending: Default::default() };
    assert_eq!(wrap.register("x"), u64::MAX);
    assert_eq!(wrap.next_id, 0);
}

fn watchee(path: &str, recursive: bool, token: usize) -> Watchee {
    Watchee { path: path.to_string(), recursive, token: WatchToken(token) }
}

fn event(kind: WatchEventKind, paths: &[&str]) -> WatchEvent {
    WatchEvent { kind, paths: paths.iter().map(|p| p.to_string()).collect() }
}

#[test]
fn watches_receive_the_events_under_their_path() {
    let mut state = WatcherState::new();
    assert!(state.add(watchee("/w", false, 1)));
    assert!(state.add(watchee("/w/src", true, 2)));
    assert!(!state.add(watchee("/w", true, 3)));
    let tokens = state.tokens_for(&event(WatchEventKind::Modify, &["/w/src/deep/a.rs"]));
    assert_eq!(tokens, vec![WatchToken(2), WatchToken(3)]);
    let tokens = state.tokens_for(&event(WatchEventKind::Create, &["/w/a.rs"]));
    assert_eq!(tokens, vec![WatchToken(1), WatchToken(3)]);
    let tokens = state.tokens_for(&event(WatchEventKind::RenameBoth, &["/x/a", "/w/src/b"]));
    assert_eq!(tokens, vec![WatchToken(2), WatchToken(3)]);
    let tokens = state.tokens_for(&event(WatchEventKind::RenameBoth, &["/w/b", "/x/a"]));
    assert_eq!(tokens, vec![WatchToken(1), WatchToken(3)]);
    assert!(state.tokens_for(&event(WatchEventKind::RenameBoth, &["/w/b"])).is_empty());
    assert!(state.tokens_for(&event(WatchEventKind::Other, &["/w/a.rs"])).is_empty());
    assert!(state.tokens_for(&event(WatchEventKind::Remove, &["/elsewhere"])).is_empty());
    assert!(watchee("/w", false, 1).applies_to_path("/w"));
    assert!(!watchee("/w", false, 1).applies_to_path("/w/a/b"));
}

#[test]
fn line_styles_are_relative_to_the_line() {
    let red = Style { fg_color: Some("red".to_string()) };
    let blue = Style { fg_color: Some("blue".to_string()) };
    let styles = styles_in_range(vec![(5, 12, red.clone()), (12, 30, blue.clone()), (40, 45, red.clone())], 10, 20);
    assert_eq!(styles.len(), 2);
    assert_eq!((styles[0].start, styles[0].end, styles[0].style.clone()), (0, 2, red));
    assert_eq!((styles[1].start, styles[1].end, styles[1].style.clone()), (2, 20, blue));
}

#[test]
fn line_styles_of_a_rope() {
    let red = Style { fg_color: Some("red".to_string()) };
    let blue = Style { fg_color: Some("blue".to_string()) };
    let text = RopeText::from_text("ab\ncdef\ngh".to_string());
    let spans = StyleSpans::new(10, vec![(0, 2, red.clone()), (3, 7, blue.clone()), (8, 10, red.clone())]);
    let view = |styles: Vec<texas::style::LineStyle>| {
        styles.into_iter().map(|l| (l.start, l.end, l.style)).collect::<Vec<_>>()
    };
    assert_eq!(view(line_styles(&text, 0, &spans)), vec![(0, 2, red.clone()), (3, 7, blue.clone())]);
    assert_eq!(view(line_styles(&text, 1, &spans)), vec![(0, 4, blue.clone()), (5, 7, red.clone())]);
    assert_eq!(view(line_styles(&text, 2, &spans)), vec![(0, 2, red.clone())]);
    assert!(line_styles(&text, 3, &spans).is_empty());
    assert!(line_styles(&text, 100, &spans).is_empty());
}

#[test]
fn find_results_follow_the_search() {
    assert_eq!(find_rev_update(3, 3, Some("x")), FindRevUpdate { reset: false, clear_occurrences: false });
    assert_eq!(find_rev_update(4, 3, Some("x")), FindRevUpdate { reset: true, clear_occurrences: false });
    assert_eq!(find_rev_update(4, 3, Some("")), FindRevUpdate { reset: true, clear_occurrences: true });
    assert_eq!(find_rev_update(4, 3, None), FindRevUpdate { reset: true, clear_occurrences: true });
    assert!(find_should_start(true, Some("x")));
    assert!(!find_should_start(true, Some("")));
    assert!(!find_should_start(false, Some("x")));
    assert!(!find_should_start(true, None));
}

#[test]
fn messages_are_framed_one_per_line() {
    assert_eq!(frame_message("{\"id\":1}"), "{\"id\":1}\n");
    assert!(is_blank_line(""));
    assert!(is_blank_line(" \t\r\n"));
    assert!(!is_blank_line(" {} \n"));
}

#[test]
fn watches_describe_themselves() {
    assert_eq!(watchee("/w/src", true, 7).description(), "Watchee path: \"/w/src\", r true, t 7");
    assert_eq!(watchee("/w", false, 0).description(), "Watchee path: \"/w\", r false, t 0");
}

#[test]
fn sticky_headers_stay_at_or_above_the_line() {
    let lines = sticky_header_lines(&vec![3, 9, 3, 12, 1], 9);
    assert_eq!(lines, vec![1, 3, 3, 9]);
    assert!(lines.iter().all(|l| *l <= 9));
}

#[test]
fn many_spans_keep_their_ranges() {
    let red = Style { fg_color: Some("red".to_string()) };
    let mut ranges = Vec::new();
    for i in 0..70usize {
        ranges.push((i, i + 1, red.clone()));
    }
    let text = RopeText::from_text("x".repeat(70));
    let spans = StyleSpans::new(70, ranges);
    let styles = line_styles(&text, 0, &spans);
    assert_eq!(styles.len(), 70);
    assert_eq!((styles[69].start, styles[69].end), (69, 70));
    assert!(line_styles(&text, usize::MAX, &spans).is_empty());
}

#[test]
fn rpc_lines_are_read_by_kind() {
    match read_rpc_line("{\"id\":3,\"result\":{\"a\":1}}\n") {
        Ok(Some(RpcKind::Response(3, Ok(v)))) => assert_eq!(v["a"], Value::from(1)),
        other => panic!("unexpected {:?}", other),
    }
    match read_rpc_line("{\"id\":5,\"error\":\"bad\"}") {
        Ok(Some(RpcKind::Response(5, Err(v)))) => assert_eq!(v, Value::from("bad")),
        other => panic!("unexpected {:?}", other),
    }
    match read_rpc_line("{\"id\":7,\"method\":\"save\",\"params\":{}}") {
        Ok(Some(RpcKind::Request(7, v))) => assert_eq!(v["method"], Value::from("save")),
        other => panic!("unexpected {:?}", other),
    }
    match read_rpc_line("{\"method\":\"ping\"}") {
        Ok(Some(RpcKind::Notification(v))) => assert_eq!(v["method"], Value::from("ping")),
        other => panic!("unexpected {:?}", other),
    }
    assert!(matches!(read_rpc_line("{\"id\":5,\"result\":1,\"error\":2}"), Ok(None)));
    assert!(matches!(read_rpc_line("{\"id\":\"x\",\"result\":1}"), Ok(None)));
    assert!(read_rpc_line("not json").is_err());
    assert!(read_rpc_line("").is_err());
}

#[test]
fn ipc_lines_are_blank_or_values() {
    assert!(matches!(read_ipc_line(""), Ok(IpcLine::Blank)));
    assert!(matches!(read_ipc_line("  \n"), Ok(IpcLine::Blank)));
    match read_ipc_line("{\"id\":1}\n") {
        Ok(IpcLine::Value(v)) => assert_eq!(v["id"], Value::from(1)),
        other => panic!("unexpected {:?}", other),
    }
    assert!(read_ipc_line("{").is_err());
}

#[test]
fn read_only_content_refuses_changes() {
    let ro = DocContent::File { path: "/w/a".to_string(), read_only: true };
    let rw = DocContent::File { path: "/w/a".to_string(), read_only: false };
    let history = DocContent::History(DocHistory { path: "/w/a".to_string(), version: "head".to_string() });
    assert!(!edit_allowed(&ro, true));
    assert!(edit_allowed(&ro, false));
    assert!(edit_allowed(&rw, true));
    assert!(!edit_allowed(&history, true));
    assert!(edit_allowed(&DocContent::Local, true));
}

#[test]
fn a_save_reply_marks_the_saved_revision_pristine() {
    assert!(save_marks_pristine(true, 4, 4));
    assert!(!save_marks_pristine(true, 4, 5));
    assert!(!save_marks_pristine(false, 4, 4));
}

#[test]
fn terminal_updates_go_to_the_terminals() {
    assert_eq!(
        route_core_notification(Some((2, b"ls".to_vec()))),
        NotificationRoute::Terminal { term_id: 2, content: b"ls".to_vec() }
    );
    assert_eq!(route_core_notification(None), NotificationRoute::Window);
}

#[test]
fn empty_spans_are_accepted() {
    let red = Style { fg_color: Some("red".to_string()) };
    let text = RopeText::from_text("0123456789".to_string());
    let spans = StyleSpans::new(10, vec![(2, 2, red.clone()), (3, 5, red.clone())]);
    let styles = line_styles(&text, 0, &spans);
    assert_eq!(styles.len(), 2);
    assert_eq!((styles[1].start, styles[1].end), (3, 5));
}

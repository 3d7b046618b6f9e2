use vibe_cast::dispatch::{handle_command, RemoteCommand};
use vibe_cast::document::Document;
use vibe_cast::json::parse_document;
use vibe_cast::playback::{
    advance_queue, lookup_message, start_queue, FolderPlaybackQueue,
};
use vibe_cast::store::AppStateSync;

fn doc(text: &str) -> Document {
    parse_document(text).expect("valid JSON")
}

fn command(name: &str, payload: &str) -> RemoteCommand {
    RemoteCommand { command: name.to_string(), payload: Some(doc(payload)) }
}

fn bare(name: &str) -> RemoteCommand {
    RemoteCommand { command: name.to_string(), payload: None }
}

fn texts(items: &[&str]) -> Vec<String> {
    items.iter().map(|s| s.to_string()).collect()
}

const TREE: &str = r#"[
  {"type": "folder", "id": "F", "name": "Folder", "children": [
    {"type": "message", "id": "a", "message": {"id": "a", "text": "One", "textStyle": "s"}},
    {"type": "message", "id": "b", "message": {"id": "b", "text": "Two", "textStyle": "s"}},
    {"type": "message", "id": "c", "message": {"id": "c", "text": "Three", "textStyle": "s"}}
  ]},
  {"type": "folder", "id": "G", "name": "Other", "children": [
    {"type": "message", "id": "d", "message": {"id": "d", "text": "Four", "textStyle": "s"}}
  ]},
  {"type": "folder", "id": "E", "name": "Empty", "children": []}
]"#;

fn store_with_tree() -> AppStateSync {
    let mut store = AppStateSync::new();
    handle_command(&mut store, &command("set-message-tree", TREE), 0);
    store
}

#[test]
fn play_folder_then_completions_walk_the_queue() {
    let mut store = store_with_tree();

    let outcome = handle_command(&mut store, &command("play-folder", r#"{"folderId": "F"}"#), 1);
    assert_eq!(
        store.folder_playback_queue,
        Some(FolderPlaybackQueue {
            folder_id: "F".to_string(),
            message_ids: texts(&["a", "b", "c"]),
            current_index: 0,
        })
    );
    assert_eq!(outcome.triggered_message.as_ref().map(|m| m.id.as_str()), Some("a"));
    assert_eq!(outcome.signals.len(), 1);
    assert_eq!(outcome.signals[0].command, "trigger-message");
    assert_eq!(
        outcome.signals[0].payload,
        Some(doc(r#"{"id": "a", "text": "One", "textStyle": "s"}"#))
    );
    assert_eq!(outcome.state.folder_playback_queue, store.folder_playback_queue);
    assert_eq!(outcome.state.triggered_message.as_ref().map(|m| m.id.as_str()), Some("a"));

    let outcome =
        handle_command(&mut store, &command("message-complete", r#"{"messageId": "a"}"#), 2);
    assert_eq!(store.folder_playback_queue.as_ref().map(|q| q.current_index), Some(1));
    assert_eq!(outcome.triggered_message.as_ref().map(|m| m.id.as_str()), Some("b"));
    assert_eq!(outcome.signals.len(), 1);
    assert_eq!(outcome.signals[0].command, "trigger-message");

    let before = store.folder_playback_queue.clone();
    let outcome =
        handle_command(&mut store, &command("message-complete", r#"{"messageId": "a"}"#), 3);
    assert_eq!(store.folder_playback_queue, before);
    assert_eq!(outcome.triggered_message, None);
    assert!(outcome.signals.is_empty());
    assert_eq!(outcome.state.triggered_message.as_ref().map(|m| m.id.as_str()), Some("b"));

    let outcome =
        handle_command(&mut store, &command("message-complete", r#"{"messageId": "b"}"#), 4);
    assert_eq!(store.folder_playback_queue.as_ref().map(|q| q.current_index), Some(2));
    assert_eq!(outcome.triggered_message.as_ref().map(|m| m.id.as_str()), Some("c"));

    let outcome =
        handle_command(&mut store, &command("message-complete", r#"{"messageId": "c"}"#), 5);
    assert_eq!(store.folder_playback_queue, None);
    assert_eq!(outcome.triggered_message, None);
    assert!(outcome.signals.is_empty());
    assert_eq!(outcome.state.folder_playback_queue, None);

    let outcome =
        handle_command(&mut store, &command("message-complete", r#"{"messageId": "c"}"#), 6);
    assert_eq!(store.folder_playback_queue, None);
    assert_eq!(outcome.triggered_message, None);
}

#[test]
fn the_index_never_goes_back_and_never_reaches_the_length() {
    let mut store = store_with_tree();
    handle_command(&mut store, &command("play-folder", r#"{"folderId": "F"}"#), 0);
    let mut last = 0usize;
    let mut ended = false;
    for id in ["b", "a", "a", "c", "b", "x", "b", "a", "c", "c"] {
        let payload = format!("{{\"messageId\": \"{}\"}}", id);
        handle_command(&mut store, &command("message-complete", &payload), 0);
        match &store.folder_playback_queue {
            Some(q) => {
                assert!(!ended);
                assert!(q.current_index >= last);
                assert!(q.current_index <= last + 1);
                assert!(q.current_index < q.message_ids.len());
                last = q.current_index;
            }
            None => {
                assert_eq!(last, 2);
                ended = true;
            }
        }
    }
    assert!(ended);
    assert_eq!(store.folder_playback_queue, None);
}

#[test]
fn a_stale_completion_changes_nothing() {
    let mut store = store_with_tree();
    handle_command(&mut store, &command("play-folder", r#"{"folderId": "F"}"#), 0);
    for id in ["b", "c", "d", "", "A"] {
        let payload = format!("{{\"messageId\": \"{}\"}}", id);
        let outcome = handle_command(&mut store, &command("message-complete", &payload), 0);
        assert_eq!(store.folder_playback_queue.as_ref().map(|q| q.current_index), Some(0));
        assert!(outcome.signals.is_empty());
        assert_eq!(outcome.triggered_message, None);
    }
}

#[test]
fn a_completion_without_a_message_id_changes_nothing() {
    let mut store = store_with_tree();
    handle_command(&mut store, &command("play-folder", r#"{"folderId": "F"}"#), 0);
    let before = store.folder_playback_queue.clone();
    handle_command(&mut store, &bare("message-complete"), 0);
    handle_command(&mut store, &command("message-complete", r#"{"messageId": 5}"#), 0);
    handle_command(&mut store, &command("message-complete", r#""a""#), 0);
    handle_command(&mut store, &command("message-complete", r#"{"id": "a"}"#), 0);
    assert_eq!(store.folder_playback_queue, before);
}

#[test]
fn a_manual_stop_advances_like_a_completion() {
    let mut store = store_with_tree();
    handle_command(&mut store, &command("play-folder", r#"{"folderId": "F"}"#), 0);
    let outcome =
        handle_command(&mut store, &command("clear-active-message", r#"{"messageId": "a"}"#), 0);
    assert_eq!(store.folder_playback_queue.as_ref().map(|q| q.current_index), Some(1));
    assert_eq!(outcome.triggered_message.as_ref().map(|m| m.id.as_str()), Some("b"));
    let outcome =
        handle_command(&mut store, &command("message-complete", r#"{"messageId": "a"}"#), 0);
    assert_eq!(store.folder_playback_queue.as_ref().map(|q| q.current_index), Some(1));
    assert_eq!(outcome.triggered_message, None);
}

#[test]
fn clear_active_message_without_payload_is_only_acknowledged() {
    let mut store = store_with_tree();
    handle_command(&mut store, &command("play-folder", r#"{"folderId": "F"}"#), 0);
    let before = store.get_state();
    let outcome = handle_command(&mut store, &bare("clear-active-message"), 0);
    assert_eq!(outcome.state, before);
    assert!(outcome.signals.is_empty());
}

#[test]
fn an_empty_or_unknown_folder_leaves_the_queue() {
    let mut store = store_with_tree();
    handle_command(&mut store, &command("play-folder", r#"{"folderId": "G"}"#), 0);
    let before = store.folder_playback_queue.clone();
    assert_eq!(before.as_ref().map(|q| q.folder_id.as_str()), Some("G"));
    for payload in [r#"{"folderId": "E"}"#, r#"{"folderId": "nowhere"}"#, r#"{"folder": "F"}"#, "7"] {
        let outcome = handle_command(&mut store, &command("play-folder", payload), 0);
        assert_eq!(store.folder_playback_queue, before);
        assert!(outcome.signals.is_empty());
        assert_eq!(outcome.triggered_message, None);
    }
    handle_command(&mut store, &bare("play-folder"), 0);
    assert_eq!(store.folder_playback_queue, before);
}

#[test]
fn starting_a_folder_replaces_the_queue() {
    let mut store = store_with_tree();
    handle_command(&mut store, &command("play-folder", r#"{"folderId": "F"}"#), 0);
    handle_command(&mut store, &command("message-complete", r#"{"messageId": "a"}"#), 0);
    let outcome = handle_command(&mut store, &command("play-folder", r#"{"folderId": "G"}"#), 0);
    assert_eq!(
        store.folder_playback_queue,
        Some(FolderPlaybackQueue {
            folder_id: "G".to_string(),
            message_ids: texts(&["d"]),
            current_index: 0,
        })
    );
    assert_eq!(outcome.triggered_message.as_ref().map(|m| m.id.as_str()), Some("d"));
}

#[test]
fn cancel_ends_the_queue_and_clears_the_display() {
    let mut store = store_with_tree();
    handle_command(&mut store, &command("play-folder", r#"{"folderId": "F"}"#), 0);
    let outcome = handle_command(&mut store, &bare("cancel-folder-playback"), 0);
    assert_eq!(store.folder_playback_queue, None);
    assert_eq!(
        outcome.signals,
        vec![RemoteCommand { command: "clear-message".to_string(), payload: None }]
    );
    assert_eq!(outcome.triggered_message, None);

    let outcome = handle_command(&mut store, &bare("cancel-folder-playback"), 0);
    assert_eq!(store.folder_playback_queue, None);
    assert_eq!(outcome.signals.len(), 1);
    assert_eq!(outcome.signals[0].command, "clear-message");
}

#[test]
fn a_queue_starts_even_if_the_flat_list_lacks_the_message() {
    let mut store = AppStateSync::new();
    let tree = r#"[{"type": "folder", "id": "F", "children": [
        {"type": "message", "message": {"id": "ghost"}},
        {"type": "message", "message": {"id": "real", "text": "t", "textStyle": "s"}}
    ]}]"#;
    handle_command(&mut store, &command("set-message-tree", tree), 0);
    assert_eq!(store.messages.len(), 1);
    let outcome = handle_command(&mut store, &command("play-folder", r#"{"folderId": "F"}"#), 0);
    assert_eq!(
        store.folder_playback_queue.as_ref().map(|q| q.message_ids.clone()),
        Some(texts(&["ghost", "real"]))
    );
    assert_eq!(outcome.triggered_message, None);
    assert!(outcome.signals.is_empty());
    let outcome =
        handle_command(&mut store, &command("message-complete", r#"{"messageId": "ghost"}"#), 0);
    assert_eq!(outcome.triggered_message.as_ref().map(|m| m.id.as_str()), Some("real"));
}

#[test]
fn queue_functions_by_themselves() {
    let mut queue: Option<FolderPlaybackQueue> = None;
    assert_eq!(start_queue(&mut queue, "F", Vec::new()), None);
    assert_eq!(queue, None);
    assert_eq!(start_queue(&mut queue, "F", texts(&["x", "x", "y"])), Some("x".to_string()));
    assert_eq!(advance_queue(&mut queue, "y"), None);
    assert_eq!(queue.as_ref().map(|q| q.current_index), Some(0));
    assert_eq!(advance_queue(&mut queue, "x"), Some("x".to_string()));
    assert_eq!(advance_queue(&mut queue, "x"), Some("y".to_string()));
    assert_eq!(queue.as_ref().map(|q| q.current_index), Some(2));
    assert_eq!(advance_queue(&mut queue, "x"), None);
    assert_eq!(queue.as_ref().map(|q| q.current_index), Some(2));
    assert_eq!(advance_queue(&mut queue, "y"), None);
    assert_eq!(queue, None);
    assert_eq!(advance_queue(&mut queue, "y"), None);
}

#[test]
fn a_queue_whose_index_is_out_of_range_is_left_alone() {
    let mut queue = Some(FolderPlaybackQueue {
        folder_id: "F".to_string(),
        message_ids: texts(&["a"]),
        current_index: 5,
    });
    assert_eq!(advance_queue(&mut queue, "a"), None);
    assert_eq!(queue.as_ref().map(|q| q.current_index), Some(5));
}

#[test]
fn lookup_message_takes_the_first_with_the_id() {
    let store = store_with_tree();
    assert_eq!(lookup_message(&store.messages, "c").map(|m| m.text), Some("Three".to_string()));
    assert_eq!(lookup_message(&store.messages, "zzz"), None);
    let mut twice = store.messages.clone();
    let mut copy = twice[0].clone();
    copy.text = "Shadowed".to_string();
    twice.push(copy);
    assert_eq!(lookup_message(&twice, "a").map(|m| m.text), Some("One".to_string()));
}

use vibe_cast::dispatch::{
    classify_command, handle_command, handle_command_now, read_legacy_messages, CommandKind,
    RemoteCommand,
};
use vibe_cast::document::{Document, Numeral};
use vibe_cast::json::parse_document;
use vibe_cast::models::{CommonSettings, MessageConfig};
use vibe_cast::stats::read_message_stats;
use vibe_cast::store::AppStateSync;
use vibe_cast::tree::flatten_message_tree_value;

fn doc(text: &str) -> Document {
    parse_document(text).expect("valid JSON")
}

fn command(name: &str, payload: &str) -> RemoteCommand {
    RemoteCommand { command: name.to_string(), payload: Some(doc(payload)) }
}

fn bare(name: &str) -> RemoteCommand {
    RemoteCommand { command: name.to_string(), payload: None }
}

fn half() -> Numeral {
    Numeral::Real(0.5f64.to_bits())
}

#[test]
fn command_names_are_matched_letter_for_letter() {
    assert_eq!(classify_command("set-mode"), CommandKind::SetActiveVisualization);
    assert_eq!(classify_command("set-active-visualization"), CommandKind::SetActiveVisualization);
    assert_eq!(classify_command("set-enabled-visualizations"), CommandKind::SetEnabledVisualizations);
    assert_eq!(classify_command("set-common-settings"), CommandKind::SetCommonSettings);
    assert_eq!(classify_command("set-visualization-settings"), CommandKind::SetVisualizationSettings);
    assert_eq!(classify_command("trigger-message"), CommandKind::TriggerMessage);
    assert_eq!(classify_command("set-messages"), CommandKind::SetMessages);
    assert_eq!(classify_command("set-message-tree"), CommandKind::SetMessageTree);
    assert_eq!(classify_command("set-default-text-style"), CommandKind::SetDefaultTextStyle);
    assert_eq!(classify_command("set-text-style-settings"), CommandKind::SetTextStyleSettings);
    assert_eq!(classify_command("set-visualization-presets"), CommandKind::SetVisualizationPresets);
    assert_eq!(
        classify_command("set-active-visualization-preset"),
        CommandKind::SetActiveVisualizationPreset
    );
    assert_eq!(classify_command("set-text-style-presets"), CommandKind::SetTextStylePresets);
    assert_eq!(classify_command("clear-active-message"), CommandKind::ClearActiveMessage);
    assert_eq!(classify_command("message-complete"), CommandKind::MessageComplete);
    assert_eq!(classify_command("play-folder"), CommandKind::PlayFolder);
    assert_eq!(classify_command("cancel-folder-playback"), CommandKind::CancelFolderPlayback);
    assert_eq!(classify_command("reset-message-stats"), CommandKind::ResetMessageStats);
    assert_eq!(classify_command("load-configuration"), CommandKind::LoadConfiguration);
    assert_eq!(classify_command("Set-Mode"), CommandKind::Unknown);
    assert_eq!(classify_command("SET_MODE"), CommandKind::Unknown);
    assert_eq!(classify_command("set-mode "), CommandKind::Unknown);
    assert_eq!(classify_command(""), CommandKind::Unknown);
    assert_eq!(classify_command("report-status"), CommandKind::Unknown);
}

#[test]
fn an_unknown_command_changes_nothing_and_is_answered() {
    let mut store = AppStateSync::new();
    let before = store.get_state();
    let outcome = handle_command(&mut store, &command("report-status", r#"{"x": 1}"#), 5);
    assert_eq!(outcome.state, before);
    assert_eq!(outcome.echo, command("report-status", r#"{"x": 1}"#));
    assert_eq!(outcome.triggered_message, None);
    assert!(outcome.signals.is_empty());
    assert_eq!(store.get_state(), before);
}

#[test]
fn set_active_visualization_and_its_older_name() {
    let mut store = AppStateSync::new();
    let outcome = handle_command(&mut store, &command("set-active-visualization", r#""techno""#), 0);
    assert_eq!(store.active_visualization, "techno");
    assert_eq!(outcome.state.active_visualization, "techno");
    assert_eq!(outcome.state.mode, "techno");
    handle_command(&mut store, &command("set-mode", r#""particles""#), 0);
    assert_eq!(store.active_visualization, "particles");
    for payload in ["7", "null", r#"["techno"]"#, r#"{"id": "techno"}"#] {
        handle_command(&mut store, &command("set-active-visualization", payload), 0);
        assert_eq!(store.active_visualization, "particles");
    }
    handle_command(&mut store, &bare("set-mode"), 0);
    assert_eq!(store.active_visualization, "particles");
}

#[test]
fn set_enabled_visualizations_keeps_the_texts() {
    let mut store = AppStateSync::new();
    handle_command(
        &mut store,
        &command("set-enabled-visualizations", r#"["a", 1, "b", null, ["c"], "a"]"#),
        0,
    );
    assert_eq!(store.enabled_visualizations, vec!["a", "b", "a"]);
    handle_command(&mut store, &command("set-enabled-visualizations", r#""a""#), 0);
    assert_eq!(store.enabled_visualizations, vec!["a", "b", "a"]);
    handle_command(&mut store, &command("set-enabled-visualizations", "[]"), 0);
    assert!(store.enabled_visualizations.is_empty());
}

#[test]
fn set_common_settings_needs_both_numbers() {
    let mut store = AppStateSync::new();
    assert_eq!(store.common_settings, CommonSettings::default());
    handle_command(&mut store, &command("set-common-settings", r#"{"intensity": 0.5, "dim": 2}"#), 0);
    let expected = CommonSettings { intensity: half(), dim: Numeral::Unsigned(2) };
    assert_eq!(store.common_settings, expected);
    for payload in [
        r#"{"intensity": 0.1}"#,
        r#"{"dim": 0.1}"#,
        r#"{"intensity": "0.1", "dim": 1}"#,
        r#"{"intensity": 1, "dim": null}"#,
        "null",
        "3",
    ] {
        handle_command(&mut store, &command("set-common-settings", payload), 0);
        assert_eq!(store.common_settings, expected);
    }
    handle_command(&mut store, &bare("set-common-settings"), 0);
    assert_eq!(store.common_settings, expected);
    handle_command(
        &mut store,
        &command("set-common-settings", r#"{"intensity": -1, "dim": 0, "more": true}"#),
        0,
    );
    assert_eq!(
        store.common_settings,
        CommonSettings { intensity: Numeral::Negative(-1), dim: Numeral::Unsigned(0) }
    );
}

#[test]
fn settings_documents_are_taken_as_they_are() {
    let mut store = AppStateSync::new();
    let payload = r#"{"fireplace": {"emberCount": 3, "nested": [1, "two", null]}}"#;
    handle_command(&mut store, &command("set-visualization-settings", payload), 0);
    assert_eq!(store.visualization_settings, doc(payload));
    handle_command(&mut store, &command("set-visualization-settings", "17"), 0);
    assert_eq!(store.visualization_settings, doc("17"));
    handle_command(&mut store, &bare("set-visualization-settings"), 0);
    assert_eq!(store.visualization_settings, doc("17"));

    handle_command(&mut store, &command("set-text-style-settings", payload), 0);
    assert_eq!(store.text_style_settings, doc(payload));
    handle_command(&mut store, &bare("set-text-style-settings"), 0);
    assert_eq!(store.text_style_settings, doc(payload));
}

#[test]
fn set_default_text_style_takes_a_text() {
    let mut store = AppStateSync::new();
    handle_command(&mut store, &command("set-default-text-style", r#""bounce""#), 0);
    assert_eq!(store.default_text_style, "bounce");
    handle_command(&mut store, &command("set-default-text-style", "false"), 0);
    assert_eq!(store.default_text_style, "bounce");
}

#[test]
fn trigger_message_with_a_full_message() {
    let mut store = AppStateSync::new();
    let payload = r#"{"id": "brand-new", "text": "Hello", "textStyle": "typewriter", "speed": 0.5}"#;
    let outcome = handle_command(&mut store, &command("trigger-message", payload), 1234);
    let message = outcome.triggered_message.expect("triggered");
    assert_eq!(message.id, "brand-new");
    assert_eq!(message.text, "Hello");
    assert_eq!(message.text_style, "typewriter");
    assert_eq!(message.speed, Some(half()));
    assert_eq!(store.triggered_message, Some(message.clone()));
    assert_eq!(outcome.state.triggered_message, Some(message));
    assert!(outcome.signals.is_empty());
    assert_eq!(
        store.message_stats,
        doc(r#"{"brand-new": {"history": [{"timestamp": 1234}], "lastTriggered": 1234,
                               "messageId": "brand-new", "triggerCount": 1}}"#)
    );
    let stats = read_message_stats(&store.message_stats, "brand-new").expect("stats");
    assert_eq!(stats.trigger_count, 1);
    assert_eq!(stats.history.len(), 1);
    assert_eq!(stats.history[0].timestamp, 1234);
}

#[test]
fn trigger_message_with_a_bare_text() {
    let mut store = AppStateSync::new();
    let outcome = handle_command(&mut store, &command("trigger-message", r#""Hi there""#), 7);
    assert_eq!(
        outcome.triggered_message,
        Some(MessageConfig {
            id: "triggered".to_string(),
            text: "Hi there".to_string(),
            text_file: None,
            text_style: "scrolling-capitals".to_string(),
            text_style_preset: None,
            style_overrides: None,
            repeat_count: None,
            speed: None,
            split_enabled: None,
            split_separator: None,
        })
    );
    assert_eq!(read_message_stats(&store.message_stats, "triggered").map(|s| s.trigger_count), Some(1));
}

#[test]
fn trigger_message_that_cannot_be_read_changes_nothing() {
    let mut store = AppStateSync::new();
    let before = store.get_state();
    for payload in [r#"{"id": "x", "text": "no style"}"#, "12", "[]", r#"{"id": 1, "text": "t", "textStyle": "s"}"#] {
        let outcome = handle_command(&mut store, &command("trigger-message", payload), 7);
        assert_eq!(outcome.triggered_message, None);
        assert_eq!(outcome.state, before);
    }
    let outcome = handle_command(&mut store, &bare("trigger-message"), 7);
    assert_eq!(outcome.state, before);
}

#[test]
fn the_triggered_message_stays_until_it_is_cleared() {
    let mut store = AppStateSync::new();
    handle_command(&mut store, &command("trigger-message", r#""first""#), 1);
    let outcome = handle_command(&mut store, &command("set-mode", r#""techno""#), 2);
    assert_eq!(outcome.triggered_message, None);
    assert_eq!(outcome.state.triggered_message.as_ref().map(|m| m.text.as_str()), Some("first"));
    handle_command(&mut store, &command("trigger-message", r#""second""#), 3);
    assert_eq!(store.triggered_message.as_ref().map(|m| m.text.as_str()), Some("second"));
    let cleared = store.clear_triggered_message();
    assert_eq!(cleared.triggered_message, None);
    assert_eq!(store.triggered_message, None);
    assert_eq!(cleared, store.get_state());
}

#[test]
fn repeated_triggers_count_up() {
    let mut store = AppStateSync::new();
    for now in 1..=55u64 {
        handle_command(&mut store, &command("trigger-message", r#""again""#), now);
    }
    let stats = read_message_stats(&store.message_stats, "triggered").expect("stats");
    assert_eq!(stats.trigger_count, 55);
    assert_eq!(stats.history.len(), 50);
    assert_eq!(stats.history[0].timestamp, 6);
    assert_eq!(stats.last_triggered, 55);
}

#[test]
fn set_messages_with_messages_rebuilds_the_tree() {
    let mut store = AppStateSync::new();
    let payload = r#"[
        {"id": "x", "text": "X", "textStyle": "s"},
        {"id": "y", "text": "Y", "textStyle": "t", "repeatCount": 2}
    ]"#;
    handle_command(&mut store, &command("set-messages", payload), 0);
    assert_eq!(store.messages.len(), 2);
    assert_eq!(store.messages[1].repeat_count, Some(2));
    assert_eq!(
        store.message_tree,
        doc(r#"[
            {"id": "x", "message": {"id": "x", "text": "X", "textStyle": "s"}, "type": "message"},
            {"id": "y", "message": {"id": "y", "repeatCount": 2, "text": "Y", "textStyle": "t"}, "type": "message"}
        ]"#)
    );
    assert_eq!(flatten_message_tree_value(&store.message_tree), store.messages);
}

#[test]
fn set_messages_with_bare_texts_numbers_them_by_position() {
    let mut store = AppStateSync::new();
    handle_command(&mut store, &command("set-messages", r#"["zero", 1, "two", null, "four"]"#), 0);
    let ids: Vec<&str> = store.messages.iter().map(|m| m.id.as_str()).collect();
    let texts: Vec<&str> = store.messages.iter().map(|m| m.text.as_str()).collect();
    assert_eq!(ids, vec!["0", "2", "4"]);
    assert_eq!(texts, vec!["zero", "two", "four"]);
    assert!(store.messages.iter().all(|m| m.text_style == "scrolling-capitals"));
    assert_eq!(flatten_message_tree_value(&store.message_tree), store.messages);
}

#[test]
fn legacy_ids_are_decimal() {
    let items: Vec<Document> = (0..112).map(|i| Document::text(&format!("t{}", i))).collect();
    let messages = read_legacy_messages(&items);
    assert_eq!(messages.len(), 112);
    assert_eq!(messages[0].id, "0");
    assert_eq!(messages[9].id, "9");
    assert_eq!(messages[10].id, "10");
    assert_eq!(messages[99].id, "99");
    assert_eq!(messages[100].id, "100");
    assert_eq!(messages[111].id, "111");
    assert_eq!(messages[111].text, "t111");
}

#[test]
fn set_messages_with_one_bad_message_falls_back_to_texts() {
    let mut store = AppStateSync::new();
    handle_command(
        &mut store,
        &command("set-messages", r#"[{"id": "x", "text": "X", "textStyle": "s"}, {"id": "bad"}]"#),
        0,
    );
    assert!(store.messages.is_empty());
    assert_eq!(store.message_tree, doc("[]"));
}

#[test]
fn set_messages_with_no_list_changes_nothing() {
    let mut store = AppStateSync::new();
    let before = store.get_state();
    for payload in [r#"{"id": "x", "text": "X", "textStyle": "s"}"#, r#""text""#, "null"] {
        let outcome = handle_command(&mut store, &command("set-messages", payload), 0);
        assert_eq!(outcome.state, before);
    }
    assert_eq!(handle_command(&mut store, &bare("set-messages"), 0).state, before);
}

#[test]
fn set_messages_with_an_empty_list_empties_both() {
    let mut store = AppStateSync::new();
    handle_command(&mut store, &command("set-messages", "[]"), 0);
    assert!(store.messages.is_empty());
    assert_eq!(store.message_tree, doc("[]"));
}

#[test]
fn set_message_tree_rederives_the_flat_list() {
    let mut store = AppStateSync::new();
    let tree = r#"[{"type": "folder", "id": "f", "name": "F", "collapsed": true, "children": [
        {"type": "message", "id": "a", "message": {"id": "a", "text": "A", "textStyle": "s"}},
        {"type": "junk"},
        {"type": "message", "id": "b", "message": {"id": "b", "text": "B", "textStyle": "s"}}
    ]}]"#;
    handle_command(&mut store, &command("set-message-tree", tree), 0);
    assert_eq!(store.message_tree, doc(tree));
    let ids: Vec<&str> = store.messages.iter().map(|m| m.id.as_str()).collect();
    assert_eq!(ids, vec!["a", "b"]);
    handle_command(&mut store, &command("set-message-tree", r#""not a tree""#), 0);
    assert_eq!(store.message_tree, doc(r#""not a tree""#));
    assert!(store.messages.is_empty());
}

#[test]
fn set_visualization_presets_replaces_the_list() {
    let mut store = AppStateSync::new();
    let payload = r#"[
        {"id": "pr-1", "name": "One", "visualizationId": "techno", "settings": {"a": 1}},
        {"id": "pr-2", "name": "Two", "visualizationId": "particles", "settings": null,
         "enabled": false, "order": 3, "icon": "star"}
    ]"#;
    handle_command(&mut store, &command("set-visualization-presets", payload), 0);
    assert_eq!(store.visualization_presets.len(), 2);
    assert_eq!(store.visualization_presets[0].settings, doc(r#"{"a": 1}"#));
    assert_eq!(store.visualization_presets[0].enabled, None);
    assert_eq!(store.visualization_presets[1].settings, Document::Null);
    assert_eq!(store.visualization_presets[1].enabled, Some(false));
    assert_eq!(store.visualization_presets[1].order, Some(3));
    assert_eq!(store.visualization_presets[1].icon.as_deref(), Some("star"));
    for bad in [
        r#"[{"id": "pr-1", "name": "One", "visualizationId": "techno"}]"#,
        r#"[{"id": "pr-1", "name": "One", "settings": {}}]"#,
        r#"[{"id": "pr-1", "name": "One", "visualizationId": "techno", "settings": {}, "order": -1}]"#,
        r#"{"id": "pr-1"}"#,
    ] {
        handle_command(&mut store, &command("set-visualization-presets", bad), 0);
        assert_eq!(store.visualization_presets.len(), 2);
    }
    handle_command(&mut store, &command("set-visualization-presets", "[]"), 0);
    assert!(store.visualization_presets.is_empty());
}

#[test]
fn set_text_style_presets_replaces_the_list() {
    let mut store = AppStateSync::new();
    let payload = r#"[{"id": "t1", "name": "One", "textStyleId": "bounce", "settings": {"x": true}}]"#;
    handle_command(&mut store, &command("set-text-style-presets", payload), 0);
    assert_eq!(store.text_style_presets.len(), 1);
    assert_eq!(store.text_style_presets[0].id, "t1");
    assert_eq!(store.text_style_presets[0].text_style_id, "bounce");
    assert_eq!(store.text_style_presets[0].settings, doc(r#"{"x": true}"#));
    handle_command(&mut store, &command("set-text-style-presets", r#"[{"id": "t2"}]"#), 0);
    assert_eq!(store.text_style_presets[0].id, "t1");
}

#[test]
fn selecting_a_preset_selects_its_visualization() {
    let mut store = AppStateSync::new();
    assert_eq!(store.active_visualization, "fireplace");
    handle_command(&mut store, &command("set-active-visualization-preset", r#""techno-default""#), 0);
    assert_eq!(store.active_visualization_preset.as_deref(), Some("techno-default"));
    assert_eq!(store.active_visualization, "techno");

    handle_command(&mut store, &command("set-active-visualization-preset", r#""no-such-preset""#), 0);
    assert_eq!(store.active_visualization_preset.as_deref(), Some("no-such-preset"));
    assert_eq!(store.active_visualization, "techno");

    handle_command(&mut store, &command("set-active-visualization-preset", "null"), 0);
    assert_eq!(store.active_visualization_preset, None);
    assert_eq!(store.active_visualization, "techno");

    handle_command(&mut store, &command("set-active-visualization-preset", r#""particles-default""#), 0);
    handle_command(&mut store, &command("set-active-visualization-preset", "5"), 0);
    handle_command(&mut store, &bare("set-active-visualization-preset"), 0);
    assert_eq!(store.active_visualization_preset.as_deref(), Some("particles-default"));
    assert_eq!(store.active_visualization, "particles");
}

#[test]
fn of_two_presets_with_one_id_the_first_counts() {
    let mut store = AppStateSync::new();
    let payload = r#"[
        {"id": "dup", "name": "One", "visualizationId": "first", "settings": {}},
        {"id": "dup", "name": "Two", "visualizationId": "second", "settings": {}}
    ]"#;
    handle_command(&mut store, &command("set-visualization-presets", payload), 0);
    handle_command(&mut store, &command("set-active-visualization-preset", r#""dup""#), 0);
    assert_eq!(store.active_visualization, "first");
}

#[test]
fn reset_message_stats_empties_them() {
    let mut store = AppStateSync::new();
    handle_command(&mut store, &command("trigger-message", r#""x""#), 1);
    assert_ne!(store.message_stats, doc("{}"));
    handle_command(&mut store, &bare("reset-message-stats"), 2);
    assert_eq!(store.message_stats, doc("{}"));
    handle_command(&mut store, &command("reset-message-stats", r#"{"keep": true}"#), 2);
    assert_eq!(store.message_stats, doc("{}"));
}

#[test]
fn every_command_is_followed_by_the_current_snapshot() {
    let mut store = AppStateSync::new();
    for (name, payload) in [
        ("set-mode", r#""techno""#),
        ("trigger-message", r#""x""#),
        ("set-messages", r#"["a", "b"]"#),
        ("nonsense", "1"),
        ("cancel-folder-playback", "null"),
    ] {
        let outcome = handle_command(&mut store, &command(name, payload), 3);
        assert_eq!(outcome.state, store.get_state());
        assert_eq!(outcome.state.mode, outcome.state.active_visualization);
    }
}

#[test]
fn handle_command_now_stamps_the_trigger_with_the_clock() {
    let mut store = AppStateSync::new();
    let outcome = handle_command_now(&mut store, &command("trigger-message", r#""x""#));
    assert_eq!(outcome.triggered_message.as_ref().map(|m| m.id.as_str()), Some("triggered"));
    let stats = read_message_stats(&store.message_stats, "triggered").expect("stats");
    assert_eq!(stats.trigger_count, 1);
    assert_eq!(stats.history.len(), 1);
    assert_eq!(stats.history[0].timestamp, stats.last_triggered);
    assert!(stats.last_triggered > 1_600_000_000_000);
}

#[test]
fn handle_command_now_is_handle_command_for_other_commands() {
    let mut at_clock = AppStateSync::new();
    let mut at_zero = AppStateSync::new();
    let c = command("set-messages", r#"["a", "b"]"#);
    let first = handle_command_now(&mut at_clock, &c);
    let second = handle_command(&mut at_zero, &c, 0);
    assert_eq!(first, second);
}

use vibe_cast::document::Document;
use vibe_cast::events::{apply_state_change, classify_event, emit_state_change, EventKind};
use vibe_cast::json::parse_document;
use vibe_cast::store::AppStateSync;
use vibe_cast::tree::flatten_message_tree_value;

fn doc(text: &str) -> Document {
    parse_document(text).expect("valid JSON")
}

#[test]
fn event_names_are_matched_letter_for_letter() {
    assert_eq!(classify_event("SET_ACTIVE_VISUALIZATION"), EventKind::SetActiveVisualization);
    assert_eq!(classify_event("SET_MODE"), EventKind::SetActiveVisualization);
    assert_eq!(classify_event("SET_ENABLED_VISUALIZATIONS"), EventKind::SetEnabledVisualizations);
    assert_eq!(classify_event("SET_COMMON_SETTINGS"), EventKind::SetCommonSettings);
    assert_eq!(classify_event("SET_VISUALIZATION_SETTINGS"), EventKind::SetVisualizationSettings);
    assert_eq!(classify_event("SET_MESSAGES"), EventKind::SetMessages);
    assert_eq!(classify_event("SET_MESSAGE_TREE"), EventKind::SetMessageTree);
    assert_eq!(classify_event("RESET_MESSAGE_STATS"), EventKind::ResetMessageStats);
    assert_eq!(classify_event("TRIGGER_MESSAGE"), EventKind::TriggerMessage);
    assert_eq!(classify_event("SET_DEFAULT_TEXT_STYLE"), EventKind::SetDefaultTextStyle);
    assert_eq!(classify_event("SET_TEXT_STYLE_SETTINGS"), EventKind::SetTextStyleSettings);
    assert_eq!(classify_event("SET_CONFIG_BASE_PATH"), EventKind::SetConfigBasePath);
    assert_eq!(classify_event("SET_VISUALIZATION_PRESETS"), EventKind::SetVisualizationPresets);
    assert_eq!(
        classify_event("SET_ACTIVE_VISUALIZATION_PRESET"),
        EventKind::SetActiveVisualizationPreset
    );
    assert_eq!(classify_event("SET_TEXT_STYLE_PRESETS"), EventKind::SetTextStylePresets);
    assert_eq!(classify_event("CLEAR_ACTIVE_MESSAGE"), EventKind::ClearActiveMessage);
    assert_eq!(classify_event("LOAD_CONFIGURATION"), EventKind::LoadConfiguration);
    assert_eq!(classify_event("set-mode"), EventKind::Unknown);
    assert_eq!(classify_event("set_mode"), EventKind::Unknown);
    assert_eq!(classify_event(""), EventKind::Unknown);
}

#[test]
fn a_reported_change_is_applied_and_published() {
    let mut store = AppStateSync::new();
    let outcome = emit_state_change(&mut store, "SET_ACTIVE_VISUALIZATION", r#""techno""#);
    assert_eq!(store.active_visualization, "techno");
    assert_eq!(outcome.state, store.get_state());
    assert_eq!(outcome.state.mode, "techno");
    assert_eq!(outcome.payload, doc(r#""techno""#));
    assert_eq!(outcome.triggered_message, None);
    emit_state_change(&mut store, "SET_MODE", r#""particles""#);
    assert_eq!(store.active_visualization, "particles");
}

#[test]
fn a_payload_that_is_not_json_counts_as_null() {
    let mut store = AppStateSync::new();
    let outcome = emit_state_change(&mut store, "SET_VISUALIZATION_SETTINGS", "{oops");
    assert_eq!(outcome.payload, Document::Null);
    assert_eq!(store.visualization_settings, Document::Null);
    let outcome = emit_state_change(&mut store, "SET_ACTIVE_VISUALIZATION", "techno");
    assert_eq!(outcome.payload, Document::Null);
    assert_eq!(store.active_visualization, "fireplace");
}

#[test]
fn settings_take_any_payload() {
    let mut store = AppStateSync::new();
    emit_state_change(&mut store, "SET_VISUALIZATION_SETTINGS", r#"{"a": [1]}"#);
    assert_eq!(store.visualization_settings, doc(r#"{"a": [1]}"#));
    emit_state_change(&mut store, "SET_TEXT_STYLE_SETTINGS", "null");
    assert_eq!(store.text_style_settings, Document::Null);
    emit_state_change(&mut store, "SET_COMMON_SETTINGS", r#"{"intensity": 3, "dim": 4}"#);
    assert_eq!(store.common_settings.dim, vibe_cast::document::Numeral::Unsigned(4));
    emit_state_change(&mut store, "SET_ENABLED_VISUALIZATIONS", r#"["x", 1]"#);
    assert_eq!(store.enabled_visualizations, vec!["x"]);
    emit_state_change(&mut store, "SET_DEFAULT_TEXT_STYLE", r#""bounce""#);
    assert_eq!(store.default_text_style, "bounce");
}

#[test]
fn a_reported_trigger_does_not_touch_the_statistics() {
    let mut store = AppStateSync::new();
    let outcome = emit_state_change(
        &mut store,
        "TRIGGER_MESSAGE",
        r#"{"id": "m", "text": "t", "textStyle": "s"}"#,
    );
    assert_eq!(outcome.triggered_message.as_ref().map(|m| m.id.as_str()), Some("m"));
    assert_eq!(store.triggered_message, outcome.triggered_message);
    assert_eq!(outcome.state.triggered_message, outcome.triggered_message);
    assert_eq!(store.message_stats, doc("{}"));
    let outcome = emit_state_change(&mut store, "TRIGGER_MESSAGE", r#""bare text""#);
    assert_eq!(outcome.triggered_message, None);
    assert_eq!(store.triggered_message.as_ref().map(|m| m.id.as_str()), Some("m"));
}

#[test]
fn reported_messages_keep_list_and_tree_together() {
    let mut store = AppStateSync::new();
    emit_state_change(&mut store, "SET_MESSAGES", r#"[{"id": "x", "text": "X", "textStyle": "s"}]"#);
    assert_eq!(store.messages.len(), 1);
    assert_eq!(flatten_message_tree_value(&store.message_tree), store.messages);
    emit_state_change(&mut store, "SET_MESSAGES", r#"["bare"]"#);
    assert_eq!(store.messages.len(), 1);
    assert_eq!(store.messages[0].id, "x");
    emit_state_change(
        &mut store,
        "SET_MESSAGE_TREE",
        r#"[{"type": "folder", "id": "f", "children": [
            {"type": "message", "message": {"id": "y", "text": "Y", "textStyle": "s"}}]}]"#,
    );
    assert_eq!(store.messages.len(), 1);
    assert_eq!(store.messages[0].id, "y");
    assert_eq!(flatten_message_tree_value(&store.message_tree), store.messages);
}

#[test]
fn the_base_path_is_set_by_a_text_and_cleared_by_anything_else() {
    let mut store = AppStateSync::new();
    emit_state_change(&mut store, "SET_CONFIG_BASE_PATH", r#""/home/me/show""#);
    assert_eq!(store.config_base_path.as_deref(), Some("/home/me/show"));
    emit_state_change(&mut store, "SET_CONFIG_BASE_PATH", "null");
    assert_eq!(store.config_base_path, None);
    emit_state_change(&mut store, "SET_CONFIG_BASE_PATH", r#""/a""#);
    emit_state_change(&mut store, "SET_CONFIG_BASE_PATH", "17");
    assert_eq!(store.config_base_path, None);
}

#[test]
fn reported_presets_and_their_selection() {
    let mut store = AppStateSync::new();
    emit_state_change(
        &mut store,
        "SET_VISUALIZATION_PRESETS",
        r#"[{"id": "p", "name": "P", "visualizationId": "particles", "settings": {}}]"#,
    );
    emit_state_change(&mut store, "SET_ACTIVE_VISUALIZATION_PRESET", r#""p""#);
    assert_eq!(store.active_visualization_preset.as_deref(), Some("p"));
    assert_eq!(store.active_visualization, "particles");
    emit_state_change(&mut store, "SET_ACTIVE_VISUALIZATION_PRESET", "null");
    assert_eq!(store.active_visualization_preset, None);
    emit_state_change(
        &mut store,
        "SET_TEXT_STYLE_PRESETS",
        r#"[{"id": "t", "name": "T", "textStyleId": "s", "settings": 1}]"#,
    );
    assert_eq!(store.text_style_presets.len(), 1);
    assert_eq!(store.text_style_presets[0].id, "t");
}

#[test]
fn reported_reset_and_acknowledged_events() {
    let mut store = AppStateSync::new();
    store.message_stats = doc(r#"{"m": {"triggerCount": 1}}"#);
    let before = store.get_state();
    assert_eq!(emit_state_change(&mut store, "CLEAR_ACTIVE_MESSAGE", "null").state, before);
    assert_eq!(emit_state_change(&mut store, "SOMETHING_ELSE", "1").state, before);
    emit_state_change(&mut store, "RESET_MESSAGE_STATS", "null");
    assert_eq!(store.message_stats, doc("{}"));
}

#[test]
fn a_reported_configuration_is_loaded() {
    let mut store = AppStateSync::new();
    emit_state_change(
        &mut store,
        "LOAD_CONFIGURATION",
        r#"{"activeVisualization": "techno", "messages": [{"id": "x", "text": "X", "textStyle": "s"}]}"#,
    );
    assert_eq!(store.active_visualization, "techno");
    assert_eq!(store.messages.len(), 1);
    assert_eq!(flatten_message_tree_value(&store.message_tree), store.messages);
}

#[test]
fn apply_state_change_takes_the_payload_as_a_document() {
    let mut first = AppStateSync::new();
    let mut second = AppStateSync::new();
    let by_text = emit_state_change(&mut first, "SET_MESSAGE_TREE", "[]");
    let by_document = apply_state_change(&mut second, "SET_MESSAGE_TREE", doc("[]"));
    assert_eq!(by_text, by_document);
    assert!(first.messages.is_empty());
}

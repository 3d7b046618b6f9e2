use vibe_cast::config::ConfigError;
use vibe_cast::dispatch::{handle_command, RemoteCommand};
use vibe_cast::document::{Document, Numeral};
use vibe_cast::json::parse_document;
use vibe_cast::models::CommonSettings;
use vibe_cast::store::AppStateSync;
use vibe_cast::tree::flatten_message_tree_value;

fn doc(text: &str) -> Document {
    parse_document(text).expect("valid JSON")
}

fn load(store: &mut AppStateSync, config: &str) {
    let command =
        RemoteCommand { command: "load-configuration".to_string(), payload: Some(doc(config)) };
    handle_command(store, &command, 0);
}

#[test]
fn load_config_with_messages_and_tree() {
    // Sample config with messages and nested messageTree
    let config_json = r#"
    {
      "version": 1,
      "activeVisualization": "fireplace",
      "enabledVisualizations": ["fireplace", "techno"],
      "commonSettings": { "intensity": 1, "dim": 1 },
      "visualizationSettings": {},
      "visualizationPresets": [],
      "messages": [
        { "id": "a", "text": "One", "textStyle": "scrolling-capitals" },
        { "id": "b", "text": "Two", "textStyle": "scrolling-capitals" },
        { "id": "c", "text": "Three", "textStyle": "scrolling-capitals" }
      ],
      "messageTree": [
        {
          "type": "folder",
          "id": "folder-1",
          "name": "Folder",
          "collapsed": false,
          "children": [
            { "type": "message", "id": "a", "message": { "id": "a", "text": "One", "textStyle": "scrolling-capitals" } },
            { "type": "message", "id": "b", "message": { "id": "b", "text": "Two", "textStyle": "scrolling-capitals" } },
            { "type": "message", "id": "c", "message": { "id": "c", "text": "Three", "textStyle": "scrolling-capitals" } }
          ]
        }
      ],
      "defaultTextStyle": "scrolling-capitals",
      "textStyleSettings": {},
      "textStylePresets": [],
      "messageStats": {}
    }
    "#;

    let mut state = AppStateSync::new();
    state
        .load_config_from_file("/tmp/vibecast/config.json", config_json)
        .expect("load config");

    let messages = &state.messages;
    assert_eq!(messages.len(), 3, "messages should be loaded");

    let tree = &state.message_tree;
    let tree_arr = tree.as_array().expect("tree should be array");
    assert_eq!(tree_arr.len(), 1, "tree root node count");
}

#[test]
fn load_config_from_file_notes_the_directory() {
    let mut state = AppStateSync::new();
    let loaded = state.load_config_from_file("/tmp/vibecast/config.json", "{}");
    assert_eq!(loaded.as_ref().ok(), Some(&state.get_state()));
    assert_eq!(state.config_base_path.as_deref(), Some("/tmp/vibecast"));
}

#[test]
fn load_config_that_is_not_json_fails_and_changes_only_the_base() {
    let mut state = AppStateSync::new();
    let before = state.get_state();
    let loaded = state.load_config_from_file("/etc/vibecast/broken.json", "{ not json");
    match loaded {
        Err(ConfigError::Malformed(reason)) => assert!(!reason.is_empty()),
        other => panic!("expected a malformed configuration, got {:?}", other),
    }
    assert_eq!(state.get_state(), before);
    assert_eq!(state.config_base_path.as_deref(), Some("/etc/vibecast"));
}

#[test]
fn load_config_text_does_not_touch_the_base() {
    let mut state = AppStateSync::new();
    let loaded = state.load_config_text(r#"{"activeVisualization": "techno"}"#).expect("loaded");
    assert_eq!(loaded.active_visualization, "techno");
    assert_eq!(state.config_base_path, None);
    assert!(state.load_config_text("").is_err());
    assert_eq!(state.active_visualization, "techno");
}

#[test]
fn adopt_config_path_of_a_bare_name() {
    let mut state = AppStateSync::new();
    state.adopt_config_path("config.json");
    assert_eq!(state.config_base_path.as_deref(), Some(""));
    state.adopt_config_path("/");
    assert_eq!(state.config_base_path.as_deref(), Some(""));
    state.adopt_config_path("/a/b/c.json");
    assert_eq!(state.config_base_path.as_deref(), Some("/a/b"));
}

#[test]
fn config_errors_in_words() {
    assert_eq!(
        ConfigError::Missing("/x/y.json".to_string()).describe(),
        "Config file does not exist: /x/y.json"
    );
    assert_eq!(
        ConfigError::Unreadable("permission denied".to_string()).describe(),
        "Failed to read config file: permission denied"
    );
    assert_eq!(
        ConfigError::Malformed("expected value".to_string()).describe(),
        "Failed to parse config JSON: expected value"
    );
}

#[test]
fn a_configuration_applies_every_recognised_entry() {
    let mut state = AppStateSync::new();
    load(
        &mut state,
        r##"{
          "activeVisualization": "techno",
          "enabledVisualizations": ["techno", 4, "particles"],
          "commonSettings": {"intensity": 2, "dim": 3},
          "visualizationSettings": {"techno": {"barCount": 8}},
          "defaultTextStyle": "bounce",
          "textStyleSettings": {"bounce": {"height": 2}},
          "visualizationPresets": [{"id": "p", "name": "P", "visualizationId": "particles", "settings": {}}],
          "activeVisualizationPreset": "p",
          "textStylePresets": [{"id": "t", "name": "T", "textStyleId": "bounce", "settings": {}}],
          "messageStats": {"a": {"triggerCount": 4}},
          "unknownKey": "ignored"
        }"##,
    );
    assert_eq!(state.active_visualization, "techno");
    assert_eq!(state.enabled_visualizations, vec!["techno", "particles"]);
    assert_eq!(
        state.common_settings,
        CommonSettings { intensity: Numeral::Unsigned(2), dim: Numeral::Unsigned(3) }
    );
    assert_eq!(state.visualization_settings, doc(r#"{"techno": {"barCount": 8}}"#));
    assert_eq!(state.default_text_style, "bounce");
    assert_eq!(state.text_style_settings, doc(r#"{"bounce": {"height": 2}}"#));
    assert_eq!(state.visualization_presets.len(), 1);
    assert_eq!(state.active_visualization_preset.as_deref(), Some("p"));
    assert_eq!(state.text_style_presets.len(), 1);
    assert_eq!(state.message_stats, doc(r#"{"a": {"triggerCount": 4}}"#));
}

#[test]
fn the_preset_of_a_configuration_does_not_select_a_visualization() {
    let mut state = AppStateSync::new();
    load(&mut state, r#"{"activeVisualization": "techno", "activeVisualizationPreset": "youtube-default"}"#);
    assert_eq!(state.active_visualization_preset.as_deref(), Some("youtube-default"));
    assert_eq!(state.active_visualization, "techno");
    load(&mut state, r#"{"activeVisualizationPreset": null}"#);
    assert_eq!(state.active_visualization_preset.as_deref(), Some("youtube-default"));
}

#[test]
fn one_malformed_entry_does_not_stop_the_others() {
    let mut state = AppStateSync::new();
    let presets_before = state.visualization_presets.clone();
    load(
        &mut state,
        r#"{
          "activeVisualization": 17,
          "enabledVisualizations": "all",
          "commonSettings": {"intensity": "high"},
          "messages": [{"id": "broken"}],
          "visualizationPresets": [{"id": "p"}],
          "textStylePresets": {"id": "t"},
          "defaultTextStyle": "bounce",
          "visualizationSettings": {"ok": true}
        }"#,
    );
    assert_eq!(state.active_visualization, "fireplace");
    assert_eq!(state.enabled_visualizations, vec!["fireplace", "techno"]);
    assert_eq!(state.common_settings, CommonSettings::default());
    assert_eq!(state.messages.len(), 3);
    assert_eq!(state.visualization_presets, presets_before);
    assert_eq!(state.text_style_presets.len(), 1);
    assert_eq!(state.default_text_style, "bounce");
    assert_eq!(state.visualization_settings, doc(r#"{"ok": true}"#));
}

#[test]
fn the_tree_of_a_configuration_decides_the_flat_list() {
    let mut state = AppStateSync::new();
    load(
        &mut state,
        r#"{
          "messages": [{"id": "from-list", "text": "L", "textStyle": "s"}],
          "messageTree": [
            {"type": "message", "message": {"id": "from-tree", "text": "T", "textStyle": "s"}},
            {"type": "folder", "id": "f", "children": [
              {"type": "message", "message": {"id": "nested", "text": "N", "textStyle": "s"}}
            ]}
          ]
        }"#,
    );
    let ids: Vec<&str> = state.messages.iter().map(|m| m.id.as_str()).collect();
    assert_eq!(ids, vec!["from-tree", "nested"]);
    assert_eq!(state.message_tree.as_array().map(|a| a.len()), Some(2));
}

#[test]
fn a_configuration_without_tree_gets_a_flat_tree() {
    let mut state = AppStateSync::new();
    load(&mut state, r#"{"messages": [
        {"id": "x", "text": "X", "textStyle": "s"},
        {"id": "y", "text": "Y", "textStyle": "s"}
    ]}"#);
    assert_eq!(
        state.message_tree,
        doc(r#"[
            {"id": "x", "message": {"id": "x", "text": "X", "textStyle": "s"}, "type": "message"},
            {"id": "y", "message": {"id": "y", "text": "Y", "textStyle": "s"}, "type": "message"}
        ]"#)
    );
    assert_eq!(flatten_message_tree_value(&state.message_tree), state.messages);
}

#[test]
fn a_configuration_with_neither_flattens_the_current_tree() {
    let mut state = AppStateSync::new();
    assert_eq!(state.message_tree.as_array().map(|a| a.len()), Some(1));
    load(&mut state, "{}");
    assert_eq!(state.messages.len(), 3);
    assert_eq!(state.message_tree.as_array().map(|a| a.len()), Some(3));
    assert_eq!(flatten_message_tree_value(&state.message_tree), state.messages);
}

#[test]
fn a_configuration_that_is_no_record_changes_nothing() {
    let mut state = AppStateSync::new();
    let before = state.get_state();
    for config in ["[]", "null", r#""config""#, "3"] {
        load(&mut state, config);
        assert_eq!(state.get_state(), before);
    }
    let command = RemoteCommand { command: "load-configuration".to_string(), payload: None };
    assert_eq!(handle_command(&mut state, &command, 0).state, before);
}

#[test]
fn the_legacy_texts_are_not_read_from_a_configuration() {
    let mut state = AppStateSync::new();
    load(&mut state, r#"{"messages": ["one", "two"]}"#);
    assert_eq!(state.messages.len(), 3);
}

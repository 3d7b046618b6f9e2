use vibe_cast::document::Document;
use vibe_cast::json::parse_document;
use vibe_cast::models::MessageConfig;
use vibe_cast::tree::{
    build_flat_message_tree, collect_messages_from_folder, flatten_message_tree,
    flatten_message_tree_value,
};

fn doc(text: &str) -> Document {
    parse_document(text).expect("valid JSON")
}

fn ids(messages: &[MessageConfig]) -> Vec<String> {
    messages.iter().map(|m| m.id.clone()).collect()
}

const NESTED: &str = r#"[
  {"type": "message", "id": "m0", "message": {"id": "m0", "text": "zero", "textStyle": "s"}},
  {"type": "folder", "id": "outer", "name": "Outer", "children": [
    {"type": "message", "id": "m1", "message": {"id": "m1", "text": "one", "textStyle": "s"}},
    {"type": "folder", "id": "inner", "name": "Inner", "children": [
      {"type": "message", "id": "m2", "message": {"id": "m2", "text": "two", "textStyle": "s"}}
    ]},
    {"type": "message", "id": "m3", "message": {"id": "m3", "text": "three", "textStyle": "s"}}
  ]},
  {"type": "message", "id": "m4", "message": {"id": "m4", "text": "four", "textStyle": "s"}}
]"#;

#[test]
fn flatten_walks_folders_in_encounter_order() {
    let flat = flatten_message_tree_value(&doc(NESTED));
    assert_eq!(ids(&flat), vec!["m0", "m1", "m2", "m3", "m4"]);
    assert_eq!(flat[2].text, "two");
    assert_eq!(flat[2].text_style, "s");
    assert_eq!(flat[2].text_file, None);
}

#[test]
fn flatten_message_tree_is_the_same_walk() {
    let tree = doc(NESTED);
    assert_eq!(flatten_message_tree(&tree), flatten_message_tree_value(&tree));
}

#[test]
fn flatten_skips_nodes_of_unrecognised_shape() {
    let tree = doc(
        r#"[
          17,
          "text",
          null,
          {"id": "no-type", "message": {"id": "x", "text": "x", "textStyle": "s"}},
          {"type": "separator"},
          {"type": 3, "message": {"id": "x", "text": "x", "textStyle": "s"}},
          {"type": "message", "id": "no-message"},
          {"type": "message", "message": {"id": "bad", "text": "no style"}},
          {"type": "message", "message": {"id": "bad2", "text": "t", "textStyle": "s", "repeatCount": 1.5}},
          {"type": "folder", "id": "no-children"},
          {"type": "folder", "children": {"type": "message", "message": {"id": "single", "text": "t", "textStyle": "s"}}},
          {"type": "message", "message": {"id": "good", "text": "t", "textStyle": "s"}}
        ]"#,
    );
    let flat = flatten_message_tree_value(&tree);
    assert_eq!(ids(&flat), vec!["single", "good"]);
}

#[test]
fn flatten_of_a_single_node_and_of_a_scalar() {
    let node = doc(r#"{"type": "message", "message": {"id": "a", "text": "t", "textStyle": "s"}}"#);
    assert_eq!(ids(&flatten_message_tree_value(&node)), vec!["a"]);
    assert!(flatten_message_tree_value(&doc("42")).is_empty());
    assert!(flatten_message_tree_value(&doc("[]")).is_empty());
}

#[test]
fn flatten_reads_every_field_of_a_message() {
    let tree = doc(
        r##"[{"type": "message", "message": {
            "id": "full", "text": "a,b", "textFile": "notes.txt", "textStyle": "bounce",
            "textStylePreset": "pr-1", "styleOverrides": {"color": "#fff"}, "repeatCount": 3,
            "speed": 2, "splitEnabled": true, "splitSeparator": ",", "extra": "ignored"
        }}]"##,
    );
    let flat = flatten_message_tree_value(&tree);
    assert_eq!(flat.len(), 1);
    let m = &flat[0];
    assert_eq!(m.id, "full");
    assert_eq!(m.text, "a,b");
    assert_eq!(m.text_file.as_deref(), Some("notes.txt"));
    assert_eq!(m.text_style, "bounce");
    assert_eq!(m.text_style_preset.as_deref(), Some("pr-1"));
    assert_eq!(m.style_overrides, Some(doc(r##"{"color": "#fff"}"##)));
    assert_eq!(m.repeat_count, Some(3));
    assert_eq!(m.speed, Some(vibe_cast::document::Numeral::Unsigned(2)));
    assert_eq!(m.split_enabled, Some(true));
    assert_eq!(m.split_separator.as_deref(), Some(","));
}

#[test]
fn build_flat_tree_has_one_leaf_per_message_in_order() {
    let flat = flatten_message_tree_value(&doc(NESTED));
    let tree = build_flat_message_tree(&flat);
    let expected = doc(
        r#"[
          {"id": "m0", "message": {"id": "m0", "text": "zero", "textStyle": "s"}, "type": "message"},
          {"id": "m1", "message": {"id": "m1", "text": "one", "textStyle": "s"}, "type": "message"},
          {"id": "m2", "message": {"id": "m2", "text": "two", "textStyle": "s"}, "type": "message"},
          {"id": "m3", "message": {"id": "m3", "text": "three", "textStyle": "s"}, "type": "message"},
          {"id": "m4", "message": {"id": "m4", "text": "four", "textStyle": "s"}, "type": "message"}
        ]"#,
    );
    assert_eq!(tree, expected);
}

#[test]
fn build_flat_tree_of_nothing_is_the_empty_list() {
    assert_eq!(build_flat_message_tree(&Vec::new()), Document::List(Vec::new()));
}

#[test]
fn flat_projection_is_stable_under_rebuilding() {
    let first = flatten_message_tree_value(&doc(NESTED));
    let rebuilt = build_flat_message_tree(&first);
    let second = flatten_message_tree_value(&rebuilt);
    assert_eq!(second, first);
}

#[test]
fn flat_projection_is_stable_with_optional_fields() {
    let tree = doc(
        r#"[{"type": "folder", "id": "f", "children": [
          {"type": "message", "message": {"id": "a", "text": "t", "textStyle": "s",
            "styleOverrides": null, "speed": 1.5, "repeatCount": 2, "textFile": null}},
          {"type": "message", "message": {"id": "b", "text": "u", "textStyle": "s",
            "styleOverrides": [1, {"k": null}], "splitEnabled": false, "splitSeparator": ""}}
        ]}]"#,
    );
    let first = flatten_message_tree_value(&tree);
    assert_eq!(first.len(), 2);
    assert_eq!(first[0].style_overrides, None);
    let second = flatten_message_tree_value(&build_flat_message_tree(&first));
    assert_eq!(second, first);
}

#[test]
fn collect_ids_of_a_nested_folder() {
    let tree = doc(NESTED);
    assert_eq!(collect_messages_from_folder("outer", &tree), vec!["m1", "m2", "m3"]);
    assert_eq!(collect_messages_from_folder("inner", &tree), vec!["m2"]);
}

#[test]
fn collect_ids_of_an_unknown_folder_is_empty() {
    let tree = doc(NESTED);
    assert!(collect_messages_from_folder("nowhere", &tree).is_empty());
    assert!(collect_messages_from_folder("m1", &tree).is_empty());
    assert!(collect_messages_from_folder("outer", &doc("{}")).is_empty());
}

#[test]
fn collect_ids_takes_the_first_folder_with_the_id() {
    let tree = doc(
        r#"[
          {"type": "folder", "id": "a", "children": [
            {"type": "folder", "id": "dup", "children": [
              {"type": "message", "message": {"id": "first"}}
            ]}
          ]},
          {"type": "folder", "id": "dup", "children": [
            {"type": "message", "message": {"id": "second"}}
          ]}
        ]"#,
    );
    assert_eq!(collect_messages_from_folder("dup", &tree), vec!["first"]);
}

#[test]
fn collect_ids_looks_at_a_folder_before_its_children() {
    let tree = doc(
        r#"[{"type": "folder", "id": "dup", "children": [
            {"type": "folder", "id": "dup", "children": [
              {"type": "message", "message": {"id": "deep"}}
            ]},
            {"type": "message", "message": {"id": "shallow"}}
        ]}]"#,
    );
    assert_eq!(collect_messages_from_folder("dup", &tree), vec!["deep", "shallow"]);
}

#[test]
fn collect_ids_reads_only_the_id_of_a_message() {
    let tree = doc(
        r#"[{"type": "folder", "id": "f", "children": [
            {"type": "message", "id": "ignored", "message": {"id": "incomplete"}},
            {"type": "message", "message": {"text": "no id"}},
            {"type": "message", "message": {"id": 7}},
            {"type": "message", "message": "scalar"},
            {"type": "other", "message": {"id": "skipped"}}
        ]}]"#,
    );
    assert_eq!(collect_messages_from_folder("f", &tree), vec!["incomplete"]);
}

#[test]
fn collect_ids_of_a_folder_without_children_is_empty() {
    let tree = doc(r#"[{"type": "folder", "id": "f"}]"#);
    assert!(collect_messages_from_folder("f", &tree).is_empty());
}

#[test]
fn folders_inside_records_of_another_type_are_not_found() {
    let tree = doc(
        r#"[{"type": "group", "children": [
            {"type": "folder", "id": "f", "children": [{"type": "message", "message": {"id": "a"}}]}
        ]}]"#,
    );
    assert!(collect_messages_from_folder("f", &tree).is_empty());
}

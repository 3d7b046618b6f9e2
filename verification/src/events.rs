//! The changes that a window reports: the same state, changed under the names
//! that the windows use.

use vstd::prelude::*;
use crate::dispatch::{
    lemma_decode_messages_canonical, lemma_load_configuration_consistent,
    lemma_with_messages_consistent, load_configuration, quiet, replace_messages,
    reset_message_stats, set_active_visualization,
    set_active_visualization_preset, set_common_settings, set_default_text_style,
    set_enabled_visualizations, set_message_tree, set_text_style_presets,
    set_text_style_settings, set_visualization_presets, set_visualization_settings,
    trigger_reported, Effect, Reaction,
};
use crate::document::{DocView, Document};
use crate::json::{json_text_document, parse_document};
use crate::models::{clone_opt_message, decode_messages, opt_message, MessageConfig};
use crate::store::{AppStateSync, BroadcastState, StoreView};
use crate::text::str_eq;

verus! {

/// The changes that a window can report. A name that is none of them is
/// `Unknown`, and changes nothing.
#[derive(Clone, Copy, Debug, PartialEq, Eq, Structural)]
pub enum EventKind {
    /// `SET_ACTIVE_VISUALIZATION`, or `SET_MODE` as it was called before.
    SetActiveVisualization,
    /// `SET_ENABLED_VISUALIZATIONS`.
    SetEnabledVisualizations,
    /// `SET_COMMON_SETTINGS`.
    SetCommonSettings,
    /// `SET_VISUALIZATION_SETTINGS`.
    SetVisualizationSettings,
    /// `SET_MESSAGES`: a list of messages replaces the flat list, and the
    /// tree is rebuilt from it.
    SetMessages,
    /// `SET_MESSAGE_TREE`.
    SetMessageTree,
    /// `RESET_MESSAGE_STATS`.
    ResetMessageStats,
    /// `TRIGGER_MESSAGE`: the window has triggered a message itself; it is
    /// noted as the one triggered last.
    TriggerMessage,
    /// `SET_DEFAULT_TEXT_STYLE`.
    SetDefaultTextStyle,
    /// `SET_TEXT_STYLE_SETTINGS`.
    SetTextStyleSettings,
    /// `SET_CONFIG_BASE_PATH`: sets or clears the base directory.
    SetConfigBasePath,
    /// `SET_VISUALIZATION_PRESETS`.
    SetVisualizationPresets,
    /// `SET_ACTIVE_VISUALIZATION_PRESET`.
    SetActiveVisualizationPreset,
    /// `SET_TEXT_STYLE_PRESETS`.
    SetTextStylePresets,
    /// `CLEAR_ACTIVE_MESSAGE`: the window clears its display itself; the
    /// report is only acknowledged.
    ClearActiveMessage,
    /// `LOAD_CONFIGURATION`.
    LoadConfiguration,
    /// Any other name.
    Unknown,
}

/// The change that a name stands for. Names are matched letter for letter.
pub open spec fn event_kind(name: Seq<char>) -> EventKind {
    if name == "SET_ACTIVE_VISUALIZATION"@ {
        EventKind::SetActiveVisualization
    } else if name == "SET_ENABLED_VISUALIZATIONS"@ {
        EventKind::SetEnabledVisualizations
    } else if name == "SET_COMMON_SETTINGS"@ {
        EventKind::SetCommonSettings
    } else if name == "SET_VISUALIZATION_SETTINGS"@ {
        EventKind::SetVisualizationSettings
    } else if name == "SET_MESSAGES"@ {
        EventKind::SetMessages
    } else if name == "SET_MESSAGE_TREE"@ {
        EventKind::SetMessageTree
    } else if name == "RESET_MESSAGE_STATS"@ {
        EventKind::ResetMessageStats
    } else if name == "TRIGGER_MESSAGE"@ {
        EventKind::TriggerMessage
    } else if name == "SET_DEFAULT_TEXT_STYLE"@ {
        EventKind::SetDefaultTextStyle
    } else if name == "SET_TEXT_STYLE_SETTINGS"@ {
        EventKind::SetTextStyleSettings
    } else if name == "SET_CONFIG_BASE_PATH"@ {
        EventKind::SetConfigBasePath
    } else if name == "SET_VISUALIZATION_PRESETS"@ {
        EventKind::SetVisualizationPresets
    } else if name == "SET_ACTIVE_VISUALIZATION_PRESET"@ {
        EventKind::SetActiveVisualizationPreset
    } else if name == "SET_TEXT_STYLE_PRESETS"@ {
        EventKind::SetTextStylePresets
    } else if name == "CLEAR_ACTIVE_MESSAGE"@ {
        EventKind::ClearActiveMessage
    } else if name == "LOAD_CONFIGURATION"@ {
        EventKind::LoadConfiguration
    } else if name == "SET_MODE"@ {
        EventKind::SetActiveVisualization
    } else {
        EventKind::Unknown
    }
}

/// The change that a name stands for.
pub fn classify_event(name: &str) -> (kind: EventKind)
    ensures
        kind == event_kind(name@),
{
    if str_eq(name, "SET_ACTIVE_VISUALIZATION") {
        EventKind::SetActiveVisualization
    } else if str_eq(name, "SET_ENABLED_VISUALIZATIONS") {
        EventKind::SetEnabledVisualizations
    } else if str_eq(name, "SET_COMMON_SETTINGS") {
        EventKind::SetCommonSettings
    } else if str_eq(name, "SET_VISUALIZATION_SETTINGS") {
        EventKind::SetVisualizationSettings
    } else if str_eq(name, "SET_MESSAGES") {
        EventKind::SetMessages
    } else if str_eq(name, "SET_MESSAGE_TREE") {
        EventKind::SetMessageTree
    } else if str_eq(name, "RESET_MESSAGE_STATS") {
        EventKind::ResetMessageStats
    } else if str_eq(name, "TRIGGER_MESSAGE") {
        EventKind::TriggerMessage
    } else if str_eq(name, "SET_DEFAULT_TEXT_STYLE") {
        EventKind::SetDefaultTextStyle
    } else if str_eq(name, "SET_TEXT_STYLE_SETTINGS") {
        EventKind::SetTextStyleSettings
    } else if str_eq(name, "SET_CONFIG_BASE_PATH") {
        EventKind::SetConfigBasePath
    } else if str_eq(name, "SET_VISUALIZATION_PRESETS") {
        EventKind::SetVisualizationPresets
    } else if str_eq(name, "SET_ACTIVE_VISUALIZATION_PRESET") {
        EventKind::SetActiveVisualizationPreset
    } else if str_eq(name, "SET_TEXT_STYLE_PRESETS") {
        EventKind::SetTextStylePresets
    } else if str_eq(name, "CLEAR_ACTIVE_MESSAGE") {
        EventKind::ClearActiveMessage
    } else if str_eq(name, "LOAD_CONFIGURATION") {
        EventKind::LoadConfiguration
    } else if str_eq(name, "SET_MODE") {
        EventKind::SetActiveVisualization
    } else {
        EventKind::Unknown
    }
}

/// The state after the base directory of the configuration is set: a text
/// becomes the directory, anything else clears it.
pub open spec fn set_config_base_path(s: StoreView, payload: DocView) -> StoreView {
    match payload {
        DocView::Text(path) => StoreView { config_base_path: Some(path), ..s },
        _ => StoreView { config_base_path: None, ..s },
    }
}

/// What a reported change of the given kind does with its payload. A window
/// always sends a payload, so the settings documents take whatever it is.
pub open spec fn apply_event(s: StoreView, kind: EventKind, payload: DocView) -> Effect {
    match kind {
        EventKind::SetActiveVisualization => quiet(set_active_visualization(s, Some(payload))),
        EventKind::SetEnabledVisualizations => quiet(set_enabled_visualizations(s, Some(payload))),
        EventKind::SetCommonSettings => quiet(set_common_settings(s, Some(payload))),
        EventKind::SetVisualizationSettings => quiet(set_visualization_settings(s, Some(payload))),
        EventKind::SetMessages => quiet(replace_messages(s, Some(payload))),
        EventKind::SetMessageTree => quiet(set_message_tree(s, Some(payload))),
        EventKind::ResetMessageStats => quiet(reset_message_stats(s)),
        EventKind::TriggerMessage => trigger_reported(s, payload),
        EventKind::SetDefaultTextStyle => quiet(set_default_text_style(s, Some(payload))),
        EventKind::SetTextStyleSettings => quiet(set_text_style_settings(s, Some(payload))),
        EventKind::SetConfigBasePath => quiet(set_config_base_path(s, payload)),
        EventKind::SetVisualizationPresets => quiet(set_visualization_presets(s, Some(payload))),
        EventKind::SetActiveVisualizationPreset => quiet(
            set_active_visualization_preset(s, Some(payload)),
        ),
        EventKind::SetTextStylePresets => quiet(set_text_style_presets(s, Some(payload))),
        EventKind::ClearActiveMessage => quiet(s),
        EventKind::LoadConfiguration => quiet(load_configuration(s, Some(payload))),
        EventKind::Unknown => quiet(s),
    }
}

/// What a reported change does: the effect of its kind, with the message it
/// triggered, if any, noted in the state as the one triggered last.
pub open spec fn change(s: StoreView, event_type: Seq<char>, payload: DocView) -> Effect {
    let effect = apply_event(s, event_kind(event_type), payload);
    Effect { store: effect.store.with_triggered(effect.triggered), ..effect }
}

/// The payload that a text stands for: the document it denotes, or null where
/// it denotes none.
pub open spec fn payload_of(text: Seq<char>) -> DocView {
    match json_text_document(text) {
        Some(doc) => doc,
        None => DocView::Null,
    }
}

/// What is to be done after a reported change: the snapshot to publish, the
/// message that the change triggered, and the payload to pass on to the
/// windows beside the name of the change.
#[derive(Debug, PartialEq, Eq)]
pub struct StateChange {
    pub state: BroadcastState,
    pub triggered_message: Option<MessageConfig>,
    pub payload: Document,
}

impl AppStateSync {
    /// Sets the base directory of the configuration: see
    /// [`set_config_base_path`].
    pub fn set_config_base_path(&mut self, payload: &Document)
        ensures
            final(self)@ == set_config_base_path(old(self)@, payload@),
    {
        match payload {
            Document::Text(path) => {
                self.config_base_path = Some(path.clone());
            },
            _ => {
                self.config_base_path = None;
            },
        }
    }

    /// Applies a reported change of the given kind: see [`apply_event`].
    pub fn apply_event(&mut self, kind: EventKind, payload: &Document) -> (reaction: Reaction)
        ensures
            reaction.is_effect(final(self)@, apply_event(old(self)@, kind, payload@)),
    {
        match kind {
            EventKind::SetActiveVisualization => {
                self.set_active_visualization(Some(payload));
                Reaction::quiet()
            },
            EventKind::SetEnabledVisualizations => {
                self.set_enabled_visualizations(Some(payload));
                Reaction::quiet()
            },
            EventKind::SetCommonSettings => {
                self.set_common_settings(Some(payload));
                Reaction::quiet()
            },
            EventKind::SetVisualizationSettings => {
                self.set_visualization_settings(Some(payload));
                Reaction::quiet()
            },
            EventKind::SetMessages => {
                self.replace_messages(Some(payload));
                Reaction::quiet()
            },
            EventKind::SetMessageTree => {
                self.set_message_tree(Some(payload));
                Reaction::quiet()
            },
            EventKind::ResetMessageStats => {
                self.reset_message_stats();
                Reaction::quiet()
            },
            EventKind::TriggerMessage => {
                let mut reaction = Reaction::quiet();
                reaction.triggered_message = MessageConfig::from_document(payload);
                reaction
            },
            EventKind::SetDefaultTextStyle => {
                self.set_default_text_style(Some(payload));
                Reaction::quiet()
            },
            EventKind::SetTextStyleSettings => {
                self.set_text_style_settings(Some(payload));
                Reaction::quiet()
            },
            EventKind::SetConfigBasePath => {
                self.set_config_base_path(payload);
                Reaction::quiet()
            },
            EventKind::SetVisualizationPresets => {
                self.set_visualization_presets(Some(payload));
                Reaction::quiet()
            },
            EventKind::SetActiveVisualizationPreset => {
                self.set_active_visualization_preset(Some(payload));
                Reaction::quiet()
            },
            EventKind::SetTextStylePresets => {
                self.set_text_style_presets(Some(payload));
                Reaction::quiet()
            },
            EventKind::ClearActiveMessage => Reaction::quiet(),
            EventKind::LoadConfiguration => {
                self.load_configuration(Some(payload));
                Reaction::quiet()
            },
            EventKind::Unknown => Reaction::quiet(),
        }
    }
}

/// Every reported change keeps a consistent state consistent.
pub proof fn lemma_change_consistent(s: StoreView, event_type: Seq<char>, payload: DocView)
    requires
        s.consistent(),
    ensures
        change(s, event_type, payload).store.consistent(),
{
    let kind = event_kind(event_type);
    assert(apply_event(s, kind, payload).store.consistent()) by {
        match kind {
            EventKind::SetMessages => {
                lemma_decode_messages_canonical(payload);
                match decode_messages(payload) {
                    Some(messages) => {
                        lemma_with_messages_consistent(s, messages);
                    },
                    None => {},
                }
            },
            EventKind::LoadConfiguration => {
                lemma_load_configuration_consistent(s, Some(payload));
            },
            _ => {},
        }
    }
}

/// Takes the change that a window reports, with its payload already read:
/// changes the state as the change says and returns what is to be published.
pub fn apply_state_change(
    store: &mut AppStateSync,
    event_type: &str,
    payload: Document,
) -> (outcome: StateChange)
    ensures
        final(store)@ == change(old(store)@, event_type@, payload@).store,
        outcome.state@ == final(store)@.snapshot(),
        opt_message(outcome.triggered_message) == change(
            old(store)@,
            event_type@,
            payload@,
        ).triggered,
        outcome.payload@ == payload@,
        old(store)@.consistent() ==> final(store)@.consistent(),
{
    proof {
        if old(store)@.consistent() {
            lemma_change_consistent(old(store)@, event_type@, payload@);
        }
    }
    let kind = classify_event(event_type);
    let reaction = store.apply_event(kind, &payload);
    let state = store.broadcast(clone_opt_message(&reaction.triggered_message));
    StateChange { state, triggered_message: reaction.triggered_message, payload }
}

/// Takes the change that a window reports, with its payload as JSON text. A
/// payload that is not JSON counts as null.
pub fn emit_state_change(store: &mut AppStateSync, event_type: &str, payload: &str) -> (outcome:
    StateChange)
    ensures
        final(store)@ == change(old(store)@, event_type@, payload_of(payload@)).store,
        outcome.state@ == final(store)@.snapshot(),
        opt_message(outcome.triggered_message) == change(
            old(store)@,
            event_type@,
            payload_of(payload@),
        ).triggered,
        outcome.payload@ == payload_of(payload@),
        old(store)@.consistent() ==> final(store)@.consistent(),
{
    let document = match parse_document(payload) {
        Ok(doc) => doc,
        Err(_) => Document::Null,
    };
    apply_state_change(store, event_type, document)
}

} // verus!

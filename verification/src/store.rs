//! The authoritative state and the snapshot that is published of it.

use vstd::prelude::*;
use crate::document::{opt_doc, DocView, Document};
use crate::models::{
    clone_messages, clone_opt_message, clone_text_style_presets, clone_visualization_presets,
    messages_view, opt_message, text_style_presets_view, visualization_presets_view,
    CommonSettings, MessageConfig, MessageView, TextStylePreset, TextStylePresetView,
    VisualizationPreset, VisualizationPresetView,
};
use crate::playback::{clone_opt_queue, opt_queue, valid_queue, FolderPlaybackQueue, QueueView};
use crate::text::{clone_opt_text, clone_texts, opt_text, texts};
use crate::tree::flatten;

verus! {

/// The mathematical value of an [`AppStateSync`].
pub struct StoreView {
    pub active_visualization: Seq<char>,
    pub enabled_visualizations: Seq<Seq<char>>,
    pub common_settings: CommonSettings,
    pub visualization_settings: DocView,
    pub visualization_presets: Seq<VisualizationPresetView>,
    pub active_visualization_preset: Option<Seq<char>>,
    pub messages: Seq<MessageView>,
    pub message_tree: DocView,
    pub default_text_style: Seq<char>,
    pub text_style_settings: DocView,
    pub text_style_presets: Seq<TextStylePresetView>,
    pub message_stats: DocView,
    pub folder_playback_queue: Option<QueueView>,
    pub config_base_path: Option<Seq<char>>,
    pub server_port: u16,
    pub triggered_message: Option<MessageView>,
}

/// The one state that every front-end observes and changes.
#[derive(Debug, PartialEq, Eq)]
pub struct AppStateSync {
    pub active_visualization: String,
    pub enabled_visualizations: Vec<String>,
    pub common_settings: CommonSettings,
    pub visualization_settings: Document,
    pub visualization_presets: Vec<VisualizationPreset>,
    pub active_visualization_preset: Option<String>,
    pub messages: Vec<MessageConfig>,
    pub message_tree: Document,
    pub default_text_style: String,
    pub text_style_settings: Document,
    pub text_style_presets: Vec<TextStylePreset>,
    pub message_stats: Document,
    pub folder_playback_queue: Option<FolderPlaybackQueue>,
    pub config_base_path: Option<String>,
    pub server_port: u16,
    /// The message that was triggered last; it stays until it is cleared.
    pub triggered_message: Option<MessageConfig>,
}

impl View for AppStateSync {
    type V = StoreView;

    open spec fn view(&self) -> StoreView {
        StoreView {
            active_visualization: self.active_visualization@,
            enabled_visualizations: texts(self.enabled_visualizations@),
            common_settings: self.common_settings,
            visualization_settings: self.visualization_settings@,
            visualization_presets: visualization_presets_view(self.visualization_presets@),
            active_visualization_preset: opt_text(self.active_visualization_preset),
            messages: messages_view(self.messages@),
            message_tree: self.message_tree@,
            default_text_style: self.default_text_style@,
            text_style_settings: self.text_style_settings@,
            text_style_presets: text_style_presets_view(self.text_style_presets@),
            message_stats: self.message_stats@,
            folder_playback_queue: opt_queue(self.folder_playback_queue),
            config_base_path: opt_text(self.config_base_path),
            server_port: self.server_port,
            triggered_message: opt_message(self.triggered_message),
        }
    }
}

/// The mathematical value of a [`BroadcastState`].
pub struct StateView {
    pub active_visualization: Seq<char>,
    pub enabled_visualizations: Seq<Seq<char>>,
    pub common_settings: CommonSettings,
    pub visualization_settings: DocView,
    pub visualization_presets: Seq<VisualizationPresetView>,
    pub active_visualization_preset: Option<Seq<char>>,
    pub messages: Seq<MessageView>,
    pub message_tree: DocView,
    pub default_text_style: Seq<char>,
    pub text_style_settings: DocView,
    pub text_style_presets: Seq<TextStylePresetView>,
    pub message_stats: DocView,
    pub triggered_message: Option<MessageView>,
    pub folder_playback_queue: Option<QueueView>,
    pub mode: Seq<char>,
}

/// A snapshot of the state: a copy of every published field at one instant.
#[derive(Debug, PartialEq, Eq)]
pub struct BroadcastState {
    pub active_visualization: String,
    pub enabled_visualizations: Vec<String>,
    pub common_settings: CommonSettings,
    pub visualization_settings: Document,
    pub visualization_presets: Vec<VisualizationPreset>,
    pub active_visualization_preset: Option<String>,
    pub messages: Vec<MessageConfig>,
    /// The message tree. Where it is present it gives the order of the
    /// messages.
    pub message_tree: Document,
    pub default_text_style: String,
    pub text_style_settings: Document,
    pub text_style_presets: Vec<TextStylePreset>,
    pub message_stats: Document,
    pub triggered_message: Option<MessageConfig>,
    pub folder_playback_queue: Option<FolderPlaybackQueue>,
    /// The active visualization under its older name.
    pub mode: String,
}

impl View for BroadcastState {
    type V = StateView;

    open spec fn view(&self) -> StateView {
        StateView {
            active_visualization: self.active_visualization@,
            enabled_visualizations: texts(self.enabled_visualizations@),
            common_settings: self.common_settings,
            visualization_settings: self.visualization_settings@,
            visualization_presets: visualization_presets_view(self.visualization_presets@),
            active_visualization_preset: opt_text(self.active_visualization_preset),
            messages: messages_view(self.messages@),
            message_tree: self.message_tree@,
            default_text_style: self.default_text_style@,
            text_style_settings: self.text_style_settings@,
            text_style_presets: text_style_presets_view(self.text_style_presets@),
            message_stats: self.message_stats@,
            triggered_message: opt_message(self.triggered_message),
            folder_playback_queue: opt_queue(self.folder_playback_queue),
            mode: self.mode@,
        }
    }
}

impl Clone for BroadcastState {
    /// A copy with the same value.
    fn clone(&self) -> (copy: BroadcastState)
        ensures
            copy@ == self@,
    {
        BroadcastState {
            active_visualization: self.active_visualization.clone(),
            enabled_visualizations: clone_texts(&self.enabled_visualizations),
            common_settings: self.common_settings,
            visualization_settings: self.visualization_settings.clone(),
            visualization_presets: clone_visualization_presets(&self.visualization_presets),
            active_visualization_preset: clone_opt_text(&self.active_visualization_preset),
            messages: clone_messages(&self.messages),
            message_tree: self.message_tree.clone(),
            default_text_style: self.default_text_style.clone(),
            text_style_settings: self.text_style_settings.clone(),
            text_style_presets: clone_text_style_presets(&self.text_style_presets),
            message_stats: self.message_stats.clone(),
            triggered_message: clone_opt_message(&self.triggered_message),
            folder_playback_queue: clone_opt_queue(&self.folder_playback_queue),
            mode: self.mode.clone(),
        }
    }
}

impl StoreView {
    /// The snapshot of a state: every published field as it is, and the
    /// active visualization once more under its older name.
    pub open spec fn snapshot(self) -> StateView {
        StateView {
            active_visualization: self.active_visualization,
            enabled_visualizations: self.enabled_visualizations,
            common_settings: self.common_settings,
            visualization_settings: self.visualization_settings,
            visualization_presets: self.visualization_presets,
            active_visualization_preset: self.active_visualization_preset,
            messages: self.messages,
            message_tree: self.message_tree,
            default_text_style: self.default_text_style,
            text_style_settings: self.text_style_settings,
            text_style_presets: self.text_style_presets,
            message_stats: self.message_stats,
            triggered_message: self.triggered_message,
            folder_playback_queue: self.folder_playback_queue,
            mode: self.active_visualization,
        }
    }

    /// The state is consistent when the flat list holds exactly the messages
    /// of the tree, in the tree's order, and the queue, if there is one,
    /// points at one of its messages.
    pub open spec fn consistent(self) -> bool {
        &&& self.messages == flatten(self.message_tree)
        &&& valid_queue(self.folder_playback_queue)
    }

    /// The state with the given message noted as the one triggered last;
    /// without a message nothing changes.
    pub open spec fn with_triggered(self, message: Option<MessageView>) -> StoreView {
        match message {
            Some(m) => StoreView { triggered_message: Some(m), ..self },
            None => self,
        }
    }
}

/// What could be read of each published field at one instant. A field that
/// could not be read, because its guard was unusable, is `None`.
#[derive(Debug, PartialEq, Eq)]
pub struct FieldReads {
    pub active_visualization: Option<String>,
    pub enabled_visualizations: Option<Vec<String>>,
    pub common_settings: Option<CommonSettings>,
    pub visualization_settings: Option<Document>,
    pub visualization_presets: Option<Vec<VisualizationPreset>>,
    pub active_visualization_preset: Option<Option<String>>,
    pub messages: Option<Vec<MessageConfig>>,
    pub message_tree: Option<Document>,
    pub default_text_style: Option<String>,
    pub text_style_settings: Option<Document>,
    pub text_style_presets: Option<Vec<TextStylePreset>>,
    pub message_stats: Option<Document>,
    pub folder_playback_queue: Option<Option<FolderPlaybackQueue>>,
    pub triggered_message: Option<Option<MessageConfig>>,
}

/// The mathematical value of a [`FieldReads`].
pub struct ReadsView {
    pub active_visualization: Option<Seq<char>>,
    pub enabled_visualizations: Option<Seq<Seq<char>>>,
    pub common_settings: Option<CommonSettings>,
    pub visualization_settings: Option<DocView>,
    pub visualization_presets: Option<Seq<VisualizationPresetView>>,
    pub active_visualization_preset: Option<Option<Seq<char>>>,
    pub messages: Option<Seq<MessageView>>,
    pub message_tree: Option<DocView>,
    pub default_text_style: Option<Seq<char>>,
    pub text_style_settings: Option<DocView>,
    pub text_style_presets: Option<Seq<TextStylePresetView>>,
    pub message_stats: Option<DocView>,
    pub folder_playback_queue: Option<Option<QueueView>>,
    pub triggered_message: Option<Option<MessageView>>,
}

impl View for FieldReads {
    type V = ReadsView;

    open spec fn view(&self) -> ReadsView {
        ReadsView {
            active_visualization: opt_text(self.active_visualization),
            enabled_visualizations: match self.enabled_visualizations {
                Some(v) => Some(texts(v@)),
                None => None,
            },
            common_settings: self.common_settings,
            visualization_settings: opt_doc(self.visualization_settings),
            visualization_presets: match self.visualization_presets {
                Some(v) => Some(visualization_presets_view(v@)),
                None => None,
            },
            active_visualization_preset: match self.active_visualization_preset {
                Some(p) => Some(opt_text(p)),
                None => None,
            },
            messages: match self.messages {
                Some(v) => Some(messages_view(v@)),
                None => None,
            },
            message_tree: opt_doc(self.message_tree),
            default_text_style: opt_text(self.default_text_style),
            text_style_settings: opt_doc(self.text_style_settings),
            text_style_presets: match self.text_style_presets {
                Some(v) => Some(text_style_presets_view(v@)),
                None => None,
            },
            message_stats: opt_doc(self.message_stats),
            folder_playback_queue: match self.folder_playback_queue {
                Some(q) => Some(opt_queue(q)),
                None => None,
            },
            triggered_message: match self.triggered_message {
                Some(m) => Some(opt_message(m)),
                None => None,
            },
        }
    }
}

/// The visualization that is reported where the active one cannot be read.
pub open spec fn fallback_visualization() -> Seq<char> {
    "fireplace"@
}

/// The text style that is reported where the default one cannot be read.
pub open spec fn fallback_text_style() -> Seq<char> {
    "scrolling-capitals"@
}

impl ReadsView {
    /// The snapshot that is put together from what could be read. A field
    /// that could not be read is reported with its fallback: the fireplace
    /// as visualization, the scrolling capitals as text style, the common
    /// settings of the start, empty settings and statistics, empty lists,
    /// an empty tree, and nothing for what is optional.
    pub open spec fn assembled(self) -> StateView {
        let active = match self.active_visualization {
            Some(id) => id,
            None => fallback_visualization(),
        };
        StateView {
            active_visualization: active,
            enabled_visualizations: match self.enabled_visualizations {
                Some(v) => v,
                None => Seq::empty(),
            },
            common_settings: match self.common_settings {
                Some(c) => c,
                None => CommonSettings::initial(),
            },
            visualization_settings: match self.visualization_settings {
                Some(d) => d,
                None => DocView::Record(Seq::empty()),
            },
            visualization_presets: match self.visualization_presets {
                Some(v) => v,
                None => Seq::empty(),
            },
            active_visualization_preset: match self.active_visualization_preset {
                Some(p) => p,
                None => None,
            },
            messages: match self.messages {
                Some(v) => v,
                None => Seq::empty(),
            },
            message_tree: match self.message_tree {
                Some(d) => d,
                None => DocView::List(Seq::empty()),
            },
            default_text_style: match self.default_text_style {
                Some(id) => id,
                None => fallback_text_style(),
            },
            text_style_settings: match self.text_style_settings {
                Some(d) => d,
                None => DocView::Record(Seq::empty()),
            },
            text_style_presets: match self.text_style_presets {
                Some(v) => v,
                None => Seq::empty(),
            },
            message_stats: match self.message_stats {
                Some(d) => d,
                None => DocView::Record(Seq::empty()),
            },
            triggered_message: match self.triggered_message {
                Some(m) => m,
                None => None,
            },
            folder_playback_queue: match self.folder_playback_queue {
                Some(q) => q,
                None => None,
            },
            mode: active,
        }
    }

    /// Reads in which no field could be read.
    pub open spec fn nothing() -> ReadsView {
        ReadsView {
            active_visualization: None,
            enabled_visualizations: None,
            common_settings: None,
            visualization_settings: None,
            visualization_presets: None,
            active_visualization_preset: None,
            messages: None,
            message_tree: None,
            default_text_style: None,
            text_style_settings: None,
            text_style_presets: None,
            message_stats: None,
            folder_playback_queue: None,
            triggered_message: None,
        }
    }
}

impl StoreView {
    /// Reads in which every field could be read.
    pub open spec fn all_read(self) -> ReadsView {
        ReadsView {
            active_visualization: Some(self.active_visualization),
            enabled_visualizations: Some(self.enabled_visualizations),
            common_settings: Some(self.common_settings),
            visualization_settings: Some(self.visualization_settings),
            visualization_presets: Some(self.visualization_presets),
            active_visualization_preset: Some(self.active_visualization_preset),
            messages: Some(self.messages),
            message_tree: Some(self.message_tree),
            default_text_style: Some(self.default_text_style),
            text_style_settings: Some(self.text_style_settings),
            text_style_presets: Some(self.text_style_presets),
            message_stats: Some(self.message_stats),
            folder_playback_queue: Some(self.folder_playback_queue),
            triggered_message: Some(self.triggered_message),
        }
    }
}

/// Where every field could be read, the snapshot that is put together is the
/// snapshot of the state.
pub proof fn lemma_assembled_all_read(s: StoreView)
    ensures
        s.all_read().assembled() == s.snapshot(),
{
}

impl FieldReads {
    /// Reads in which no field could be read.
    pub fn nothing() -> (reads: FieldReads)
        ensures
            reads@ == ReadsView::nothing(),
    {
        FieldReads {
            active_visualization: None,
            enabled_visualizations: None,
            common_settings: None,
            visualization_settings: None,
            visualization_presets: None,
            active_visualization_preset: None,
            messages: None,
            message_tree: None,
            default_text_style: None,
            text_style_settings: None,
            text_style_presets: None,
            message_stats: None,
            folder_playback_queue: None,
            triggered_message: None,
        }
    }

    /// Puts the snapshot together: see [`ReadsView::assembled`].
    pub fn assemble(self) -> (state: BroadcastState)
        ensures
            state@ == self@.assembled(),
    {
        let active_visualization = match self.active_visualization {
            Some(id) => id,
            None => String::from_str("fireplace"),
        };
        let mode = active_visualization.clone();
        let enabled_visualizations = match self.enabled_visualizations {
            Some(v) => v,
            None => {
                let v: Vec<String> = Vec::new();
                assert(texts(v@) =~= Seq::empty());
                v
            },
        };
        let visualization_presets = match self.visualization_presets {
            Some(v) => v,
            None => {
                let v: Vec<VisualizationPreset> = Vec::new();
                assert(visualization_presets_view(v@) =~= Seq::empty());
                v
            },
        };
        let messages = match self.messages {
            Some(v) => v,
            None => {
                let v: Vec<MessageConfig> = Vec::new();
                assert(messages_view(v@) =~= Seq::empty());
                v
            },
        };
        let text_style_presets = match self.text_style_presets {
            Some(v) => v,
            None => {
                let v: Vec<TextStylePreset> = Vec::new();
                assert(text_style_presets_view(v@) =~= Seq::empty());
                v
            },
        };
        BroadcastState {
            active_visualization,
            enabled_visualizations,
            common_settings: match self.common_settings {
                Some(c) => c,
                None => CommonSettings::default(),
            },
            visualization_settings: match self.visualization_settings {
                Some(d) => d,
                None => Document::empty_record(),
            },
            visualization_presets,
            active_visualization_preset: match self.active_visualization_preset {
                Some(p) => p,
                None => None,
            },
            messages,
            message_tree: match self.message_tree {
                Some(d) => d,
                None => Document::empty_list(),
            },
            default_text_style: match self.default_text_style {
                Some(id) => id,
                None => String::from_str("scrolling-capitals"),
            },
            text_style_settings: match self.text_style_settings {
                Some(d) => d,
                None => Document::empty_record(),
            },
            text_style_presets,
            message_stats: match self.message_stats {
                Some(d) => d,
                None => Document::empty_record(),
            },
            triggered_message: match self.triggered_message {
                Some(m) => m,
                None => None,
            },
            folder_playback_queue: match self.folder_playback_queue {
                Some(q) => q,
                None => None,
            },
            mode,
        }
    }
}

impl BroadcastState {
    /// The snapshot that is published while the state cannot be read at all:
    /// every field has its fallback.
    pub fn fallback() -> (state: BroadcastState)
        ensures
            state@ == ReadsView::nothing().assembled(),
    {
        FieldReads::nothing().assemble()
    }
}

impl AppStateSync {
    /// What is read of the state when every field can be read.
    pub fn read_fields(&self) -> (reads: FieldReads)
        ensures
            reads@ == self@.all_read(),
    {
        FieldReads {
            active_visualization: Some(self.active_visualization.clone()),
            enabled_visualizations: Some(clone_texts(&self.enabled_visualizations)),
            common_settings: Some(self.common_settings),
            visualization_settings: Some(self.visualization_settings.clone()),
            visualization_presets: Some(clone_visualization_presets(&self.visualization_presets)),
            active_visualization_preset: Some(clone_opt_text(&self.active_visualization_preset)),
            messages: Some(clone_messages(&self.messages)),
            message_tree: Some(self.message_tree.clone()),
            default_text_style: Some(self.default_text_style.clone()),
            text_style_settings: Some(self.text_style_settings.clone()),
            text_style_presets: Some(clone_text_style_presets(&self.text_style_presets)),
            message_stats: Some(self.message_stats.clone()),
            folder_playback_queue: Some(clone_opt_queue(&self.folder_playback_queue)),
            triggered_message: Some(clone_opt_message(&self.triggered_message)),
        }
    }

    /// A snapshot of the current state: every field is read, in a fixed
    /// order, and the snapshot is put together from the reads.
    pub fn get_state(&self) -> (state: BroadcastState)
        ensures
            state@ == self@.snapshot(),
    {
        proof {
            lemma_assembled_all_read(self@);
        }
        self.read_fields().assemble()
    }

    /// Notes the message that a command triggered, if it triggered one, and
    /// returns the snapshot to publish. Without a message the one noted
    /// before stays.
    pub fn broadcast(&mut self, triggered_message: Option<MessageConfig>) -> (state: BroadcastState)
        ensures
            final(self)@ == old(self)@.with_triggered(opt_message(triggered_message)),
            state@ == final(self)@.snapshot(),
    {
        match triggered_message {
            Some(m) => {
                self.triggered_message = Some(m);
            },
            None => {},
        }
        self.get_state()
    }

    /// Forgets the message that was triggered last and returns the snapshot
    /// to publish.
    pub fn clear_triggered_message(&mut self) -> (state: BroadcastState)
        ensures
            final(self)@ == (StoreView { triggered_message: None, ..old(self)@ }),
            state@ == final(self)@.snapshot(),
    {
        self.triggered_message = None;
        self.get_state()
    }
}

} // verus!

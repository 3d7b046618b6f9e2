//! The commands that change the state: what each does to it, and what is to
//! be published afterwards.

use vstd::prelude::*;
use crate::document::{list_view, opt_doc, opt_ref, DocView, Document};
use crate::models::{
    clone_opt_message, decode_messages, decode_text_style_presets,
    decode_visualization_presets, lemma_decode_canonical, messages_view,
    opt_message, read_messages, read_text_items, read_text_style_presets,
    read_visualization_presets, text_items, visualization_presets_view, CommonSettings,
    MessageConfig, MessageView, VisualizationPreset, VisualizationPresetView,
};
use crate::playback::{
    advance_queue, advanced, find_message, lookup_message, next_after, start_queue, started,
    valid_queue,
};
use crate::stats::{
    history_mark, lemma_record_trigger_entry, lemma_record_trigger_get, next_count, note_trigger,
    record_trigger, recorded_count, recorded_history, HISTORY_LIMIT,
};
use crate::store::{AppStateSync, BroadcastState, StoreView};
use crate::text::{decimal, decimal_text, str_eq};
use crate::tree::{
    build_flat, build_flat_message_tree, collect_messages_from_folder, flatten,
    flatten_message_tree, folder_message_ids, lemma_flatten_build_flat, lemma_flatten_canonical,
};

verus! {

/// The state after the active visualization is set: a payload that is a text
/// becomes the active visualization, any other changes nothing.
pub open spec fn set_active_visualization(s: StoreView, payload: Option<DocView>) -> StoreView {
    match payload {
        Some(DocView::Text(id)) => StoreView { active_visualization: id, ..s },
        _ => s,
    }
}

/// The state after the enabled visualizations are set: the texts of a payload
/// that is a list replace them, any other payload changes nothing.
pub open spec fn set_enabled_visualizations(s: StoreView, payload: Option<DocView>) -> StoreView {
    match payload {
        Some(DocView::List(items)) => StoreView { enabled_visualizations: text_items(items), ..s },
        _ => s,
    }
}

/// The state after the common settings are set: a payload that denotes
/// settings replaces them, any other changes nothing.
pub open spec fn set_common_settings(s: StoreView, payload: Option<DocView>) -> StoreView {
    match payload {
        Some(d) => match CommonSettings::decode(d) {
            Some(settings) => StoreView { common_settings: settings, ..s },
            None => s,
        },
        None => s,
    }
}

/// The state after the visualization settings are set: any payload replaces
/// them as it is.
pub open spec fn set_visualization_settings(s: StoreView, payload: Option<DocView>) -> StoreView {
    match payload {
        Some(d) => StoreView { visualization_settings: d, ..s },
        None => s,
    }
}

/// The state after the default text style is set: a payload that is a text
/// becomes the style, any other changes nothing.
pub open spec fn set_default_text_style(s: StoreView, payload: Option<DocView>) -> StoreView {
    match payload {
        Some(DocView::Text(id)) => StoreView { default_text_style: id, ..s },
        _ => s,
    }
}

/// The state after the text-style settings are set: any payload replaces them
/// as it is.
pub open spec fn set_text_style_settings(s: StoreView, payload: Option<DocView>) -> StoreView {
    match payload {
        Some(d) => StoreView { text_style_settings: d, ..s },
        None => s,
    }
}

/// The state after the visualization presets are set: a payload that denotes
/// a list of presets replaces them, any other changes nothing.
pub open spec fn set_visualization_presets(s: StoreView, payload: Option<DocView>) -> StoreView {
    match payload {
        Some(d) => match decode_visualization_presets(d) {
            Some(presets) => StoreView { visualization_presets: presets, ..s },
            None => s,
        },
        None => s,
    }
}

/// The state after the text-style presets are set: a payload that denotes a
/// list of presets replaces them, any other changes nothing.
pub open spec fn set_text_style_presets(s: StoreView, payload: Option<DocView>) -> StoreView {
    match payload {
        Some(d) => match decode_text_style_presets(d) {
            Some(presets) => StoreView { text_style_presets: presets, ..s },
            None => s,
        },
        None => s,
    }
}

/// The state after the statistics are set: any payload replaces them as it
/// is.
pub open spec fn set_message_stats(s: StoreView, payload: Option<DocView>) -> StoreView {
    match payload {
        Some(d) => StoreView { message_stats: d, ..s },
        None => s,
    }
}

/// The state after the statistics are reset: they are the empty record.
pub open spec fn reset_message_stats(s: StoreView) -> StoreView {
    StoreView { message_stats: DocView::Record(Seq::empty()), ..s }
}

/// The position of the first preset with the given id.
pub open spec fn find_preset_index(presets: Seq<VisualizationPresetView>, id: Seq<char>) -> Option<
    int,
>
    decreases presets.len(),
{
    if presets.len() == 0 {
        None
    } else if presets.last().id == id && find_preset_index(presets.drop_last(), id) is None {
        Some(presets.len() - 1)
    } else {
        find_preset_index(presets.drop_last(), id)
    }
}

/// What `find_preset_index` finds: the first position with the id, or nothing
/// where no preset has it.
pub proof fn lemma_find_preset_index(presets: Seq<VisualizationPresetView>, id: Seq<char>)
    ensures
        match find_preset_index(presets, id) {
            Some(i) => 0 <= i < presets.len() && presets[i].id == id && forall|j: int|
                0 <= j < i ==> (#[trigger] presets[j]).id != id,
            None => forall|j: int| 0 <= j < presets.len() ==> (#[trigger] presets[j]).id != id,
        },
    decreases presets.len(),
{
    if presets.len() > 0 {
        let front = presets.drop_last();
        lemma_find_preset_index(front, id);
        assert(forall|j: int| 0 <= j < front.len() ==> front[j] == presets[j]);
    }
}

/// The state after the active preset is set. A null payload clears it. A
/// text becomes the active preset, and where a preset has that id, the
/// visualization of the first such preset becomes the active visualization.
/// Any other payload changes nothing.
pub open spec fn set_active_visualization_preset(
    s: StoreView,
    payload: Option<DocView>,
) -> StoreView {
    match payload {
        Some(DocView::Null) => StoreView { active_visualization_preset: None, ..s },
        Some(DocView::Text(id)) => match find_preset_index(s.visualization_presets, id) {
            Some(i) => StoreView {
                active_visualization_preset: Some(id),
                active_visualization: s.visualization_presets[i].visualization_id,
                ..s
            },
            None => StoreView { active_visualization_preset: Some(id), ..s },
        },
        _ => s,
    }
}

/// The state after the message tree is set: any payload replaces the tree as
/// it is, and the flat list becomes the messages of that tree.
pub open spec fn set_message_tree(s: StoreView, payload: Option<DocView>) -> StoreView {
    match payload {
        Some(tree) => StoreView { message_tree: tree, messages: flatten(tree), ..s },
        None => s,
    }
}

/// The messages that a list of bare texts stands for: each text under its
/// position in the list as id; what is no text is passed over.
pub open spec fn legacy_messages(items: Seq<DocView>) -> Seq<MessageView>
    decreases items.len(),
{
    if items.len() == 0 {
        Seq::empty()
    } else {
        match items.last() {
            DocView::Text(text) => legacy_messages(items.drop_last()).push(
                MessageView::legacy(decimal((items.len() - 1) as nat), text),
            ),
            _ => legacy_messages(items.drop_last()),
        }
    }
}

/// The state with the given flat list, and the tree rebuilt from it without
/// folders.
pub open spec fn with_messages(s: StoreView, messages: Seq<MessageView>) -> StoreView {
    StoreView { messages, message_tree: build_flat(messages), ..s }
}

/// The state after the messages are replaced by a payload that denotes a list
/// of messages; any other payload changes nothing.
pub open spec fn replace_messages(s: StoreView, payload: Option<DocView>) -> StoreView {
    match payload {
        Some(d) => match decode_messages(d) {
            Some(messages) => with_messages(s, messages),
            None => s,
        },
        None => s,
    }
}

/// The state after the messages are set: by a list of messages, or else by a
/// list of bare texts; any other payload changes nothing. The tree is rebuilt
/// from the new list.
pub open spec fn set_messages(s: StoreView, payload: Option<DocView>) -> StoreView {
    match payload {
        Some(d) => match decode_messages(d) {
            Some(messages) => with_messages(s, messages),
            None => match d {
                DocView::List(items) => with_messages(s, legacy_messages(items)),
                _ => s,
            },
        },
        None => s,
    }
}

/// The position of the first preset with the given id.
pub fn find_preset(presets: &Vec<VisualizationPreset>, id: &str) -> (found: Option<usize>)
    ensures
        match found {
            Some(i) => i < presets.len() && find_preset_index(
                visualization_presets_view(presets@),
                id@,
            ) == Some(i as int),
            None => find_preset_index(visualization_presets_view(presets@), id@)
                is None,
        },
{
    let ghost views = visualization_presets_view(presets@);
    let mut i: usize = 0;
    while i < presets.len()
        invariant
            i <= presets.len(),
            views == visualization_presets_view(presets@),
            forall|j: int| 0 <= j < i ==> (#[trigger] views[j]).id != id@,
        decreases presets.len() - i,
    {
        if str_eq(presets[i].id.as_str(), id) {
            proof {
                lemma_find_preset_index(views, id@);
                assert(views[i as int].id == id@);
            }
            return Some(i);
        }
        i += 1;
    }
    proof {
        lemma_find_preset_index(views, id@);
    }
    None
}

fn replace_text(target: &mut String, payload: Option<&Document>)
    ensures
        final(target)@ == (match opt_ref(payload) {
            Some(DocView::Text(id)) => id,
            _ => old(target)@,
        }),
{
    match payload {
        Some(Document::Text(id)) => {
            *target = id.clone();
        },
        _ => {},
    }
}

fn replace_document(target: &mut Document, payload: Option<&Document>)
    ensures
        final(target)@ == (match opt_ref(payload) {
            Some(d) => d,
            None => old(target)@,
        }),
{
    match payload {
        Some(d) => {
            *target = d.clone();
        },
        None => {},
    }
}

impl AppStateSync {
    /// Sets the active visualization: see [`set_active_visualization`].
    pub fn set_active_visualization(&mut self, payload: Option<&Document>)
        ensures
            final(self)@ == set_active_visualization(old(self)@, opt_ref(payload)),
    {
        replace_text(&mut self.active_visualization, payload);
    }

    /// Sets the enabled visualizations: see [`set_enabled_visualizations`].
    pub fn set_enabled_visualizations(&mut self, payload: Option<&Document>)
        ensures
            final(self)@ == set_enabled_visualizations(old(self)@, opt_ref(payload)),
    {
        match payload {
            Some(Document::List(items)) => {
                self.enabled_visualizations = read_text_items(items);
            },
            _ => {},
        }
    }

    /// Sets the common settings: see [`set_common_settings`].
    pub fn set_common_settings(&mut self, payload: Option<&Document>)
        ensures
            final(self)@ == set_common_settings(old(self)@, opt_ref(payload)),
    {
        match payload {
            Some(d) => match CommonSettings::from_document(d) {
                Some(settings) => {
                    self.common_settings = settings;
                },
                None => {},
            },
            None => {},
        }
    }

    /// Sets the visualization settings: see [`set_visualization_settings`].
    pub fn set_visualization_settings(&mut self, payload: Option<&Document>)
        ensures
            final(self)@ == set_visualization_settings(old(self)@, opt_ref(payload)),
    {
        replace_document(&mut self.visualization_settings, payload);
    }

    /// Sets the default text style: see [`set_default_text_style`].
    pub fn set_default_text_style(&mut self, payload: Option<&Document>)
        ensures
            final(self)@ == set_default_text_style(old(self)@, opt_ref(payload)),
    {
        replace_text(&mut self.default_text_style, payload);
    }

    /// Sets the text-style settings: see [`set_text_style_settings`].
    pub fn set_text_style_settings(&mut self, payload: Option<&Document>)
        ensures
            final(self)@ == set_text_style_settings(old(self)@, opt_ref(payload)),
    {
        replace_document(&mut self.text_style_settings, payload);
    }

    /// Sets the visualization presets: see [`set_visualization_presets`].
    pub fn set_visualization_presets(&mut self, payload: Option<&Document>)
        ensures
            final(self)@ == set_visualization_presets(old(self)@, opt_ref(payload)),
    {
        match payload {
            Some(d) => match read_visualization_presets(d) {
                Some(presets) => {
                    self.visualization_presets = presets;
                },
                None => {},
            },
            None => {},
        }
    }

    /// Sets the text-style presets: see [`set_text_style_presets`].
    pub fn set_text_style_presets(&mut self, payload: Option<&Document>)
        ensures
            final(self)@ == set_text_style_presets(old(self)@, opt_ref(payload)),
    {
        match payload {
            Some(d) => match read_text_style_presets(d) {
                Some(presets) => {
                    self.text_style_presets = presets;
                },
                None => {},
            },
            None => {},
        }
    }

    /// Sets the statistics: see [`set_message_stats`].
    pub fn set_message_stats(&mut self, payload: Option<&Document>)
        ensures
            final(self)@ == set_message_stats(old(self)@, opt_ref(payload)),
    {
        replace_document(&mut self.message_stats, payload);
    }

    /// Resets the statistics: see [`reset_message_stats`].
    pub fn reset_message_stats(&mut self)
        ensures
            final(self)@ == reset_message_stats(old(self)@),
    {
        self.message_stats = Document::empty_record();
    }

    /// Sets the active preset: see [`set_active_visualization_preset`].
    pub fn set_active_visualization_preset(&mut self, payload: Option<&Document>)
        ensures
            final(self)@ == set_active_visualization_preset(old(self)@, opt_ref(payload)),
    {
        match payload {
            Some(p) => {
                if p.is_null() {
                    self.active_visualization_preset = None;
                } else {
                    match p.as_str() {
                        Some(id) => {
                            self.active_visualization_preset = Some(String::from_str(id));
                            match find_preset(&self.visualization_presets, id) {
                                Some(i) => {
                                    self.active_visualization =
                                    self.visualization_presets[i].visualization_id.clone();
                                },
                                None => {},
                            }
                        },
                        None => {},
                    }
                }
            },
            None => {},
        }
    }

    /// Sets the message tree: see [`set_message_tree`].
    pub fn set_message_tree(&mut self, payload: Option<&Document>)
        ensures
            final(self)@ == set_message_tree(old(self)@, opt_ref(payload)),
    {
        match payload {
            Some(tree) => {
                self.message_tree = tree.clone();
                self.messages = flatten_message_tree(tree);
            },
            None => {},
        }
    }

    /// Puts a flat list in place and rebuilds the tree from it: see
    /// [`with_messages`].
    pub fn install_messages(&mut self, messages: Vec<MessageConfig>)
        ensures
            final(self)@ == with_messages(old(self)@, messages_view(messages@)),
    {
        self.message_tree = build_flat_message_tree(&messages);
        self.messages = messages;
    }

    /// Replaces the messages by a list of messages: see [`replace_messages`].
    pub fn replace_messages(&mut self, payload: Option<&Document>)
        ensures
            final(self)@ == replace_messages(old(self)@, opt_ref(payload)),
    {
        match payload {
            Some(d) => match read_messages(d) {
                Some(messages) => {
                    self.install_messages(messages);
                },
                None => {},
            },
            None => {},
        }
    }

    /// Sets the messages: see [`set_messages`].
    pub fn set_messages(&mut self, payload: Option<&Document>)
        ensures
            final(self)@ == set_messages(old(self)@, opt_ref(payload)),
    {
        match payload {
            Some(d) => match read_messages(d) {
                Some(messages) => {
                    self.install_messages(messages);
                },
                None => match d {
                    Document::List(items) => {
                        let messages = read_legacy_messages(items);
                        self.install_messages(messages);
                    },
                    _ => {},
                },
            },
            None => {},
        }
    }
}

/// The messages that a list of bare texts stands for: see
/// [`legacy_messages`].
pub fn read_legacy_messages(items: &Vec<Document>) -> (messages: Vec<MessageConfig>)
    ensures
        messages_view(messages@) == legacy_messages(list_view(items@)),
{
    let mut messages: Vec<MessageConfig> = Vec::new();
    let mut i: usize = 0;
    let ghost all = list_view(items@);
    while i < items.len()
        invariant
            i <= items.len(),
            all == list_view(items@),
            messages_view(messages@) == legacy_messages(all.take(i as int)),
        decreases items.len() - i,
    {
        assert(all.take(i as int + 1).drop_last() =~= all.take(i as int));
        match items[i].as_str() {
            Some(text) => {
                let message = MessageConfig::legacy(decimal_text(i), text);
                messages.push(message);
            },
            None => {},
        }
        i += 1;
    }
    assert(all.take(i as int) =~= all);
    messages
}

/// The mathematical value of a [`RemoteCommand`].
pub struct CommandView {
    pub command: Seq<char>,
    pub payload: Option<DocView>,
}

/// A command as it arrives: a name and a payload of any shape.
#[derive(Debug, PartialEq, Eq)]
pub struct RemoteCommand {
    pub command: String,
    pub payload: Option<Document>,
}

impl View for RemoteCommand {
    type V = CommandView;

    open spec fn view(&self) -> CommandView {
        CommandView { command: self.command@, payload: opt_doc(self.payload) }
    }
}

impl Clone for RemoteCommand {
    /// A copy with the same value.
    fn clone(&self) -> (copy: RemoteCommand)
        ensures
            copy@ == self@,
    {
        RemoteCommand {
            command: self.command.clone(),
            payload: match &self.payload {
                Some(d) => Some(d.clone()),
                None => None,
            },
        }
    }
}

/// The values of a list of commands.
pub open spec fn commands_view(items: Seq<RemoteCommand>) -> Seq<CommandView> {
    Seq::new(items.len(), |i: int| items[i]@)
}

/// The signal that tells the windows to play a message.
pub open spec fn trigger_signal(message: MessageView) -> CommandView {
    CommandView { command: "trigger-message"@, payload: Some(message.encode()) }
}

/// The signal that tells the windows to clear what they display.
pub open spec fn clear_signal() -> CommandView {
    CommandView { command: "clear-message"@, payload: None }
}

/// What a command does: the state after it, the message it triggered, and
/// the signals to send to the windows besides the command itself.
pub struct Effect {
    pub store: StoreView,
    pub triggered: Option<MessageView>,
    pub signals: Seq<CommandView>,
}

/// The effect of a command that changes the state at most.
pub open spec fn quiet(s: StoreView) -> Effect {
    Effect { store: s, triggered: None, signals: Seq::empty() }
}

/// The effect of a command that starts a message, where there is one to
/// start: the message is triggered and the windows are told to play it.
pub open spec fn announce(s: StoreView, message: Option<MessageView>) -> Effect {
    match message {
        Some(m) => Effect { store: s, triggered: Some(m), signals: seq![trigger_signal(m)] },
        None => quiet(s),
    }
}

/// The message that a trigger payload denotes: a bare text stands for a
/// message with the id `triggered` in the fixed style; anything else is read
/// as a message.
pub open spec fn triggered_by(payload: DocView) -> Option<MessageView> {
    match payload {
        DocView::Text(text) => Some(MessageView::legacy("triggered"@, text)),
        _ => MessageView::decode(payload),
    }
}

/// The effect of triggering a message at time `now`: where the payload
/// denotes a message, it is triggered and its statistics note the trigger;
/// any other payload changes nothing.
pub open spec fn trigger_message(s: StoreView, payload: Option<DocView>, now: u64) -> Effect {
    match payload {
        Some(p) => match triggered_by(p) {
            Some(m) => Effect {
                store: StoreView {
                    message_stats: record_trigger(s.message_stats, m.id, now),
                    ..s
                },
                triggered: Some(m),
                signals: Seq::empty(),
            },
            None => quiet(s),
        },
        None => quiet(s),
    }
}

/// The effect of a trigger that a window reports: where the payload can be
/// read as a message, it is triggered; the statistics stay as they are.
pub open spec fn trigger_reported(s: StoreView, payload: DocView) -> Effect {
    Effect { store: s, triggered: MessageView::decode(payload), signals: Seq::empty() }
}

/// The effect of starting a folder: the payload names it under `folderId`.
/// Where the folder holds messages, a queue of them replaces any other, and
/// the first message is started if the flat list has it. A payload without a
/// folder id, or a folder without messages, changes nothing.
pub open spec fn play_folder(s: StoreView, payload: Option<DocView>) -> Effect {
    match payload {
        Some(p) => match p.get_text("folderId"@) {
            Some(folder_id) => {
                let ids = folder_message_ids(folder_id, s.message_tree);
                if ids.len() == 0 {
                    quiet(s)
                } else {
                    announce(
                        StoreView {
                            folder_playback_queue: started(s.folder_playback_queue, folder_id, ids),
                            ..s
                        },
                        find_message(s.messages, ids[0]),
                    )
                }
            },
            None => quiet(s),
        },
        None => quiet(s),
    }
}

/// The effect of a report that a message is done, or was stopped by hand: the
/// payload names it under `messageId`. The queue takes the report, and the
/// next message is started if there is one and the flat list has it.
pub open spec fn message_done(s: StoreView, payload: Option<DocView>) -> Effect {
    match payload {
        Some(p) => match p.get_text("messageId"@) {
            Some(message_id) => announce(
                StoreView {
                    folder_playback_queue: advanced(s.folder_playback_queue, message_id),
                    ..s
                },
                match next_after(s.folder_playback_queue, message_id) {
                    Some(next) => find_message(s.messages, next),
                    None => None,
                },
            ),
            None => quiet(s),
        },
        None => quiet(s),
    }
}

/// The effect of cancelling the playback: there is no queue afterwards,
/// whether there was one or not, and the windows are told to clear what they
/// display.
pub open spec fn cancel_folder_playback(s: StoreView) -> Effect {
    Effect {
        store: StoreView { folder_playback_queue: None, ..s },
        triggered: None,
        signals: seq![clear_signal()],
    }
}

/// What a command handler hands back: the message it triggered and the
/// signals for the windows.
#[derive(Debug, PartialEq, Eq)]
pub struct Reaction {
    pub triggered_message: Option<MessageConfig>,
    pub signals: Vec<RemoteCommand>,
}

impl Reaction {
    /// Whether the reaction, with the state it left, is the given effect.
    pub open spec fn is_effect(self, store: StoreView, effect: Effect) -> bool {
        &&& store == effect.store
        &&& opt_message(self.triggered_message) == effect.triggered
        &&& commands_view(self.signals@) == effect.signals
    }

    /// The reaction of a command that changes the state at most.
    pub fn quiet() -> (reaction: Reaction)
        ensures
            opt_message(reaction.triggered_message) is None,
            commands_view(reaction.signals@) == Seq::<CommandView>::empty(),
    {
        let reaction = Reaction { triggered_message: None, signals: Vec::new() };
        reaction
    }

    /// The reaction of a command that starts a message, where there is one.
    pub fn announce(message: Option<MessageConfig>) -> (reaction: Reaction)
        ensures
            opt_message(reaction.triggered_message) == opt_message(message),
            commands_view(reaction.signals@) == (match opt_message(message) {
                Some(m) => seq![trigger_signal(m)],
                None => Seq::empty(),
            }),
    {
        match message {
            Some(m) => {
                let mut signals: Vec<RemoteCommand> = Vec::new();
                signals.push(
                    RemoteCommand {
                        command: String::from_str("trigger-message"),
                        payload: Some(m.to_document()),
                    },
                );
                Reaction { triggered_message: Some(m), signals }
            },
            None => Reaction::quiet(),
        }
    }
}

impl AppStateSync {
    /// Triggers a message at time `now`: see [`trigger_message`].
    pub fn trigger_message(&mut self, payload: Option<&Document>, now: u64) -> (reaction: Reaction)
        ensures
            reaction.is_effect(final(self)@, trigger_message(old(self)@, opt_ref(payload), now)),
    {
        match payload {
            Some(p) => {
                let message = match p.as_str() {
                    Some(text) => Some(MessageConfig::legacy(String::from_str("triggered"), text)),
                    None => MessageConfig::from_document(p),
                };
                match message {
                    Some(m) => {
                        note_trigger(&mut self.message_stats, m.id.as_str(), now);
                        let mut reaction = Reaction::quiet();
                        reaction.triggered_message = Some(m);
                        reaction
                    },
                    None => Reaction::quiet(),
                }
            },
            None => Reaction::quiet(),
        }
    }

    /// Starts a folder: see [`play_folder`].
    pub fn play_folder(&mut self, payload: Option<&Document>) -> (reaction: Reaction)
        ensures
            reaction.is_effect(final(self)@, play_folder(old(self)@, opt_ref(payload))),
    {
        match payload {
            Some(p) => match p.get_str("folderId") {
                Some(folder_id) => {
                    let ids = collect_messages_from_folder(folder_id, &self.message_tree);
                    match start_queue(&mut self.folder_playback_queue, folder_id, ids) {
                        Some(first) => Reaction::announce(
                            lookup_message(&self.messages, first.as_str()),
                        ),
                        None => Reaction::quiet(),
                    }
                },
                None => Reaction::quiet(),
            },
            None => Reaction::quiet(),
        }
    }

    /// Takes a report that a message is done: see [`message_done`].
    pub fn message_done(&mut self, payload: Option<&Document>) -> (reaction: Reaction)
        ensures
            reaction.is_effect(final(self)@, message_done(old(self)@, opt_ref(payload))),
    {
        match payload {
            Some(p) => match p.get_str("messageId") {
                Some(message_id) => {
                    match advance_queue(&mut self.folder_playback_queue, message_id) {
                        Some(next) => Reaction::announce(
                            lookup_message(&self.messages, next.as_str()),
                        ),
                        None => Reaction::quiet(),
                    }
                },
                None => Reaction::quiet(),
            },
            None => Reaction::quiet(),
        }
    }

    /// Cancels the playback: see [`cancel_folder_playback`].
    pub fn cancel_folder_playback(&mut self) -> (reaction: Reaction)
        ensures
            reaction.is_effect(final(self)@, cancel_folder_playback(old(self)@)),
    {
        self.folder_playback_queue = None;
        let mut signals: Vec<RemoteCommand> = Vec::new();
        signals.push(RemoteCommand { command: String::from_str("clear-message"), payload: None });
        assert(commands_view(signals@) =~= seq![clear_signal()]);
        Reaction { triggered_message: None, signals }
    }
}

/// The state after the flat list of a configuration is read: a list of
/// messages replaces the flat list; the tree is dealt with afterwards.
pub open spec fn load_messages(s: StoreView, payload: Option<DocView>) -> StoreView {
    match payload {
        Some(d) => match decode_messages(d) {
            Some(messages) => StoreView { messages, ..s },
            None => s,
        },
        None => s,
    }
}

/// The state after the tree of a configuration is read: a tree replaces the
/// tree and the flat list; without one the tree is rebuilt from the flat
/// list.
pub open spec fn load_message_tree(s: StoreView, payload: Option<DocView>) -> StoreView {
    match payload {
        Some(tree) => set_message_tree(s, Some(tree)),
        None => with_messages(s, s.messages),
    }
}

/// The state after the active preset of a configuration is read: a text
/// becomes the active preset, anything else changes nothing.
pub open spec fn load_active_visualization_preset(
    s: StoreView,
    payload: Option<DocView>,
) -> StoreView {
    match payload {
        Some(DocView::Text(id)) => StoreView { active_visualization_preset: Some(id), ..s },
        _ => s,
    }
}

/// The state after a configuration is loaded. A configuration is a record;
/// each of its entries that is recognised is applied by itself, so that what
/// a part of the state becomes depends on the entry of that part alone, and
/// an entry that cannot be read leaves only its own part as it was. The flat
/// list and the tree go together: where the configuration holds a tree, the
/// tree decides the flat list; where it holds none, the tree is rebuilt from
/// the flat list, which the configuration may have replaced. The active
/// preset of a configuration does not select a visualization. Anything but
/// a record changes nothing.
pub open spec fn load_configuration(s: StoreView, payload: Option<DocView>) -> StoreView {
    match payload {
        Some(DocView::Record(entries)) => {
            let c = DocView::Record(entries);
            let listed = load_message_tree(
                load_messages(s, c.get("messages"@)),
                c.get("messageTree"@),
            );
            StoreView {
                active_visualization: set_active_visualization(
                    s,
                    c.get("activeVisualization"@),
                ).active_visualization,
                enabled_visualizations: set_enabled_visualizations(
                    s,
                    c.get("enabledVisualizations"@),
                ).enabled_visualizations,
                common_settings: set_common_settings(s, c.get("commonSettings"@)).common_settings,
                visualization_settings: set_visualization_settings(
                    s,
                    c.get("visualizationSettings"@),
                ).visualization_settings,
                visualization_presets: set_visualization_presets(
                    s,
                    c.get("visualizationPresets"@),
                ).visualization_presets,
                active_visualization_preset: load_active_visualization_preset(
                    s,
                    c.get("activeVisualizationPreset"@),
                ).active_visualization_preset,
                messages: listed.messages,
                message_tree: listed.message_tree,
                default_text_style: set_default_text_style(
                    s,
                    c.get("defaultTextStyle"@),
                ).default_text_style,
                text_style_settings: set_text_style_settings(
                    s,
                    c.get("textStyleSettings"@),
                ).text_style_settings,
                text_style_presets: set_text_style_presets(
                    s,
                    c.get("textStylePresets"@),
                ).text_style_presets,
                message_stats: set_message_stats(s, c.get("messageStats"@)).message_stats,
                ..s
            }
        },
        _ => s,
    }
}

impl AppStateSync {
    /// Reads the flat list of a configuration: see [`load_messages`].
    pub fn load_messages(&mut self, payload: Option<&Document>)
        ensures
            final(self)@ == load_messages(old(self)@, opt_ref(payload)),
    {
        match payload {
            Some(d) => match read_messages(d) {
                Some(messages) => {
                    self.messages = messages;
                },
                None => {},
            },
            None => {},
        }
    }

    /// Reads the tree of a configuration: see [`load_message_tree`].
    pub fn load_message_tree(&mut self, payload: Option<&Document>)
        ensures
            final(self)@ == load_message_tree(old(self)@, opt_ref(payload)),
    {
        match payload {
            Some(_) => {
                self.set_message_tree(payload);
            },
            None => {
                self.message_tree = build_flat_message_tree(&self.messages);
            },
        }
    }

    /// Reads the active preset of a configuration: see
    /// [`load_active_visualization_preset`].
    pub fn load_active_visualization_preset(&mut self, payload: Option<&Document>)
        ensures
            final(self)@ == load_active_visualization_preset(old(self)@, opt_ref(payload)),
    {
        match payload {
            Some(Document::Text(id)) => {
                self.active_visualization_preset = Some(id.clone());
            },
            _ => {},
        }
    }

    /// Loads a configuration: see [`load_configuration`]. The entries are
    /// applied one after the other; each changes its own part of the state.
    pub fn load_configuration(&mut self, payload: Option<&Document>)
        ensures
            final(self)@ == load_configuration(old(self)@, opt_ref(payload)),
    {
        match payload {
            Some(c) => match c {
                Document::Record(_) => {
                    let ghost s0 = self@;
                    let ghost goal = load_configuration(s0, Some(c@));
                    self.set_active_visualization(c.field("activeVisualization"));
                    self.set_enabled_visualizations(c.field("enabledVisualizations"));
                    self.set_common_settings(c.field("commonSettings"));
                    self.set_visualization_settings(c.field("visualizationSettings"));
                    assert(self@.active_visualization == goal.active_visualization);
                    assert(self@.enabled_visualizations == goal.enabled_visualizations);
                    assert(self@.common_settings == goal.common_settings);
                    assert(self@.visualization_settings == goal.visualization_settings);
                    assert(self@.messages == s0.messages && self@.message_tree == s0.message_tree);
                    let ghost s4 = self@;
                    self.load_messages(c.field("messages"));
                    assert(self@.messages == load_messages(s0, c@.get("messages"@)).messages);
                    self.load_message_tree(c.field("messageTree"));
                    assert(self@.messages == goal.messages);
                    assert(self@.message_tree == goal.message_tree);
                    assert(self@ == (StoreView {
                        messages: goal.messages,
                        message_tree: goal.message_tree,
                        ..s4
                    }));
                    self.set_default_text_style(c.field("defaultTextStyle"));
                    self.set_text_style_settings(c.field("textStyleSettings"));
                    self.set_visualization_presets(c.field("visualizationPresets"));
                    assert(self@.default_text_style == goal.default_text_style);
                    assert(self@.text_style_settings == goal.text_style_settings);
                    assert(self@.visualization_presets == goal.visualization_presets);
                    self.load_active_visualization_preset(c.field("activeVisualizationPreset"));
                    self.set_text_style_presets(c.field("textStylePresets"));
                    self.set_message_stats(c.field("messageStats"));
                    assert(self@.active_visualization_preset == goal.active_visualization_preset);
                    assert(self@.text_style_presets == goal.text_style_presets);
                    assert(self@.message_stats == goal.message_stats);
                    assert(self@ == goal);
                },
                _ => {},
            },
            None => {},
        }
    }
}

/// The commands that the state understands. A name that is none of them is
/// `Unknown`, and does nothing.
#[derive(Clone, Copy, Debug, PartialEq, Eq, Structural)]
pub enum CommandKind {
    /// `set-active-visualization`, or `set-mode` as it was called before:
    /// replaces the active visualization.
    SetActiveVisualization,
    /// `set-enabled-visualizations`: replaces the enabled visualizations.
    SetEnabledVisualizations,
    /// `set-common-settings`: replaces intensity and dim.
    SetCommonSettings,
    /// `set-visualization-settings`: replaces the settings document.
    SetVisualizationSettings,
    /// `trigger-message`: triggers a message and notes it in the statistics.
    TriggerMessage,
    /// `set-messages`: replaces the flat list and rebuilds the tree from it.
    SetMessages,
    /// `set-message-tree`: replaces the tree and takes the flat list from it.
    SetMessageTree,
    /// `set-default-text-style`: replaces the default text style.
    SetDefaultTextStyle,
    /// `set-text-style-settings`: replaces the settings document.
    SetTextStyleSettings,
    /// `set-visualization-presets`: replaces the visualization presets.
    SetVisualizationPresets,
    /// `set-active-visualization-preset`: sets or clears the active preset; a
    /// preset that is set brings its visualization with it.
    SetActiveVisualizationPreset,
    /// `set-text-style-presets`: replaces the text-style presets.
    SetTextStylePresets,
    /// `clear-active-message`: a message was stopped by hand. Where the
    /// payload names the message, the queue takes it as done; without a
    /// name the command is only acknowledged.
    ClearActiveMessage,
    /// `message-complete`: a message was played to its end.
    MessageComplete,
    /// `play-folder`: starts the messages of a folder.
    PlayFolder,
    /// `cancel-folder-playback`: ends the queue.
    CancelFolderPlayback,
    /// `reset-message-stats`: empties the statistics.
    ResetMessageStats,
    /// `load-configuration`: applies a whole configuration.
    LoadConfiguration,
    /// Any other name.
    Unknown,
}

/// The command that a name stands for. Names are matched letter for letter.
pub open spec fn command_kind(name: Seq<char>) -> CommandKind {
    if name == "set-mode"@ || name == "set-active-visualization"@ {
        CommandKind::SetActiveVisualization
    } else if name == "set-enabled-visualizations"@ {
        CommandKind::SetEnabledVisualizations
    } else if name == "set-common-settings"@ {
        CommandKind::SetCommonSettings
    } else if name == "set-visualization-settings"@ {
        CommandKind::SetVisualizationSettings
    } else if name == "trigger-message"@ {
        CommandKind::TriggerMessage
    } else if name == "set-messages"@ {
        CommandKind::SetMessages
    } else if name == "set-message-tree"@ {
        CommandKind::SetMessageTree
    } else if name == "set-default-text-style"@ {
        CommandKind::SetDefaultTextStyle
    } else if name == "set-text-style-settings"@ {
        CommandKind::SetTextStyleSettings
    } else if name == "set-visualization-presets"@ {
        CommandKind::SetVisualizationPresets
    } else if name == "set-active-visualization-preset"@ {
        CommandKind::SetActiveVisualizationPreset
    } else if name == "set-text-style-presets"@ {
        CommandKind::SetTextStylePresets
    } else if name == "clear-active-message"@ {
        CommandKind::ClearActiveMessage
    } else if name == "message-complete"@ {
        CommandKind::MessageComplete
    } else if name == "play-folder"@ {
        CommandKind::PlayFolder
    } else if name == "cancel-folder-playback"@ {
        CommandKind::CancelFolderPlayback
    } else if name == "reset-message-stats"@ {
        CommandKind::ResetMessageStats
    } else if name == "load-configuration"@ {
        CommandKind::LoadConfiguration
    } else {
        CommandKind::Unknown
    }
}

/// The command that a name stands for.
pub fn classify_command(name: &str) -> (kind: CommandKind)
    ensures
        kind == command_kind(name@),
{
    if str_eq(name, "set-mode") || str_eq(name, "set-active-visualization") {
        CommandKind::SetActiveVisualization
    } else if str_eq(name, "set-enabled-visualizations") {
        CommandKind::SetEnabledVisualizations
    } else if str_eq(name, "set-common-settings") {
        CommandKind::SetCommonSettings
    } else if str_eq(name, "set-visualization-settings") {
        CommandKind::SetVisualizationSettings
    } else if str_eq(name, "trigger-message") {
        CommandKind::TriggerMessage
    } else if str_eq(name, "set-messages") {
        CommandKind::SetMessages
    } else if str_eq(name, "set-message-tree") {
        CommandKind::SetMessageTree
    } else if str_eq(name, "set-default-text-style") {
        CommandKind::SetDefaultTextStyle
    } else if str_eq(name, "set-text-style-settings") {
        CommandKind::SetTextStyleSettings
    } else if str_eq(name, "set-visualization-presets") {
        CommandKind::SetVisualizationPresets
    } else if str_eq(name, "set-active-visualization-preset") {
        CommandKind::SetActiveVisualizationPreset
    } else if str_eq(name, "set-text-style-presets") {
        CommandKind::SetTextStylePresets
    } else if str_eq(name, "clear-active-message") {
        CommandKind::ClearActiveMessage
    } else if str_eq(name, "message-complete") {
        CommandKind::MessageComplete
    } else if str_eq(name, "play-folder") {
        CommandKind::PlayFolder
    } else if str_eq(name, "cancel-folder-playback") {
        CommandKind::CancelFolderPlayback
    } else if str_eq(name, "reset-message-stats") {
        CommandKind::ResetMessageStats
    } else if str_eq(name, "load-configuration") {
        CommandKind::LoadConfiguration
    } else {
        CommandKind::Unknown
    }
}

/// What a command of the given kind does with its payload at time `now`.
pub open spec fn apply(
    s: StoreView,
    kind: CommandKind,
    payload: Option<DocView>,
    now: u64,
) -> Effect {
    match kind {
        CommandKind::SetActiveVisualization => quiet(set_active_visualization(s, payload)),
        CommandKind::SetEnabledVisualizations => quiet(set_enabled_visualizations(s, payload)),
        CommandKind::SetCommonSettings => quiet(set_common_settings(s, payload)),
        CommandKind::SetVisualizationSettings => quiet(set_visualization_settings(s, payload)),
        CommandKind::TriggerMessage => trigger_message(s, payload, now),
        CommandKind::SetMessages => quiet(set_messages(s, payload)),
        CommandKind::SetMessageTree => quiet(set_message_tree(s, payload)),
        CommandKind::SetDefaultTextStyle => quiet(set_default_text_style(s, payload)),
        CommandKind::SetTextStyleSettings => quiet(set_text_style_settings(s, payload)),
        CommandKind::SetVisualizationPresets => quiet(set_visualization_presets(s, payload)),
        CommandKind::SetActiveVisualizationPreset => quiet(
            set_active_visualization_preset(s, payload),
        ),
        CommandKind::SetTextStylePresets => quiet(set_text_style_presets(s, payload)),
        CommandKind::ClearActiveMessage => message_done(s, payload),
        CommandKind::MessageComplete => message_done(s, payload),
        CommandKind::PlayFolder => play_folder(s, payload),
        CommandKind::CancelFolderPlayback => cancel_folder_playback(s),
        CommandKind::ResetMessageStats => quiet(reset_message_stats(s)),
        CommandKind::LoadConfiguration => quiet(load_configuration(s, payload)),
        CommandKind::Unknown => quiet(s),
    }
}

/// What a command does at time `now`: the effect of its kind, with the
/// message it triggered, if any, noted in the state as the one triggered
/// last.
pub open spec fn dispatch(s: StoreView, command: CommandView, now: u64) -> Effect {
    let effect = apply(s, command_kind(command.command), command.payload, now);
    Effect { store: effect.store.with_triggered(effect.triggered), ..effect }
}

/// What is to be done after a command: the snapshot to publish to every
/// subscriber, the command itself to publish beside it, the message that the
/// command triggered, and the signals to send to the windows before the
/// command is passed on to them.
#[derive(Debug, PartialEq, Eq)]
pub struct CommandOutcome {
    pub state: BroadcastState,
    pub echo: RemoteCommand,
    pub triggered_message: Option<MessageConfig>,
    pub signals: Vec<RemoteCommand>,
}

impl AppStateSync {
    /// Applies a command of the given kind: see [`apply`].
    pub fn apply(&mut self, kind: CommandKind, payload: Option<&Document>, now: u64) -> (reaction:
        Reaction)
        ensures
            reaction.is_effect(final(self)@, apply(old(self)@, kind, opt_ref(payload), now)),
    {
        match kind {
            CommandKind::SetActiveVisualization => {
                self.set_active_visualization(payload);
                Reaction::quiet()
            },
            CommandKind::SetEnabledVisualizations => {
                self.set_enabled_visualizations(payload);
                Reaction::quiet()
            },
            CommandKind::SetCommonSettings => {
                self.set_common_settings(payload);
                Reaction::quiet()
            },
            CommandKind::SetVisualizationSettings => {
                self.set_visualization_settings(payload);
                Reaction::quiet()
            },
            CommandKind::TriggerMessage => self.trigger_message(payload, now),
            CommandKind::SetMessages => {
                self.set_messages(payload);
                Reaction::quiet()
            },
            CommandKind::SetMessageTree => {
                self.set_message_tree(payload);
                Reaction::quiet()
            },
            CommandKind::SetDefaultTextStyle => {
                self.set_default_text_style(payload);
                Reaction::quiet()
            },
            CommandKind::SetTextStyleSettings => {
                self.set_text_style_settings(payload);
                Reaction::quiet()
            },
            CommandKind::SetVisualizationPresets => {
                self.set_visualization_presets(payload);
                Reaction::quiet()
            },
            CommandKind::SetActiveVisualizationPreset => {
                self.set_active_visualization_preset(payload);
                Reaction::quiet()
            },
            CommandKind::SetTextStylePresets => {
                self.set_text_style_presets(payload);
                Reaction::quiet()
            },
            CommandKind::ClearActiveMessage => self.message_done(payload),
            CommandKind::MessageComplete => self.message_done(payload),
            CommandKind::PlayFolder => self.play_folder(payload),
            CommandKind::CancelFolderPlayback => self.cancel_folder_playback(),
            CommandKind::ResetMessageStats => {
                self.reset_message_stats();
                Reaction::quiet()
            },
            CommandKind::LoadConfiguration => {
                self.load_configuration(payload);
                Reaction::quiet()
            },
            CommandKind::Unknown => Reaction::quiet(),
        }
    }
}

/// Handles one command at time `now`: changes the state as the command says
/// and returns what is to be published. A command that is not understood, or
/// whose payload cannot be read, changes nothing and is answered like any
/// other: the snapshot and the command are published all the same.
pub fn handle_command(store: &mut AppStateSync, command: &RemoteCommand, now: u64) -> (outcome:
    CommandOutcome)
    ensures
        final(store)@ == dispatch(old(store)@, command@, now).store,
        outcome.state@ == final(store)@.snapshot(),
        outcome.echo@ == command@,
        opt_message(outcome.triggered_message) == dispatch(old(store)@, command@, now).triggered,
        commands_view(outcome.signals@) == dispatch(old(store)@, command@, now).signals,
        old(store)@.consistent() ==> final(store)@.consistent(),
{
    proof {
        if old(store)@.consistent() {
            lemma_dispatch_consistent(old(store)@, command@, now);
        }
    }
    let kind = classify_command(command.command.as_str());
    let payload = match &command.payload {
        Some(d) => Some(d),
        None => None,
    };
    let reaction = store.apply(kind, payload, now);
    let state = store.broadcast(clone_opt_message(&reaction.triggered_message));
    CommandOutcome {
        state,
        echo: command.clone(),
        triggered_message: reaction.triggered_message,
        signals: reaction.signals,
    }
}

/// What a trigger that succeeds leaves in the statistics: the count of the
/// message raised by one, as long as it can grow, and a history of at most
/// `HISTORY_LIMIT` entries that ends with this trigger. The statistics of no
/// other message change.
pub proof fn lemma_trigger_message_stats(
    s: StoreView,
    payload: DocView,
    now: u64,
    other: Seq<char>,
)
    requires
        triggered_by(payload) is Some,
    ensures
        ({
            let id = triggered_by(payload)->0.id;
            let before = s.message_stats.get(id);
            let stats = trigger_message(s, Some(payload), now).store.message_stats;
            &&& recorded_count(stats.get(id)) == next_count(recorded_count(before))
            &&& 1 <= recorded_history(stats.get(id)).len() <= HISTORY_LIMIT
            &&& recorded_history(stats.get(id)).last() == history_mark(now)
            &&& other != id ==> stats.get(other) == s.message_stats.get(other)
        }),
{
    let id = triggered_by(payload)->0.id;
    lemma_record_trigger_entry(s.message_stats, id, now);
    lemma_record_trigger_get(s.message_stats, id, now, other);
}

/// Whether every message of a list is in canonical form.
pub open spec fn all_canonical(messages: Seq<MessageView>) -> bool {
    forall|i: int| 0 <= i < messages.len() ==> (#[trigger] messages[i]).canonical()
}

/// The messages that `decode_messages` returns are in canonical form.
pub proof fn lemma_decode_messages_canonical(doc: DocView)
    ensures
        decode_messages(doc) matches Some(messages) ==> all_canonical(messages),
{
    match decode_messages(doc) {
        Some(messages) => {
            let items = doc->List_0;
            assert forall|i: int| 0 <= i < messages.len() implies (
            #[trigger] messages[i]).canonical() by {
                lemma_decode_canonical(items[i]);
            }
        },
        None => {},
    }
}

/// The messages that stand for bare texts are in canonical form.
pub proof fn lemma_legacy_messages_canonical(items: Seq<DocView>)
    ensures
        all_canonical(legacy_messages(items)),
    decreases items.len(),
{
    if items.len() > 0 {
        lemma_legacy_messages_canonical(items.drop_last());
    }
}

/// A state whose flat list was put in place with the tree rebuilt from it is
/// consistent, for messages in canonical form.
pub proof fn lemma_with_messages_consistent(s: StoreView, messages: Seq<MessageView>)
    requires
        all_canonical(messages),
        valid_queue(s.folder_playback_queue),
    ensures
        with_messages(s, messages).consistent(),
{
    lemma_flatten_build_flat(messages);
}

/// Loading a configuration keeps a consistent state consistent.
pub proof fn lemma_load_configuration_consistent(s: StoreView, payload: Option<DocView>)
    requires
        s.consistent(),
    ensures
        load_configuration(s, payload).consistent(),
{
    match payload {
        Some(DocView::Record(entries)) => {
            let c = DocView::Record(entries);
            let listed = load_messages(s, c.get("messages"@));
            lemma_flatten_canonical(s.message_tree);
            match c.get("messages"@) {
                Some(d) => {
                    lemma_decode_messages_canonical(d);
                },
                None => {},
            }
            assert(all_canonical(listed.messages));
            lemma_with_messages_consistent(listed, listed.messages);
            assert(load_message_tree(listed, c.get("messageTree"@)).consistent());
        },
        _ => {},
    }
}

/// Setting the messages keeps a consistent state consistent.
pub proof fn lemma_set_messages_consistent(s: StoreView, payload: Option<DocView>)
    requires
        s.consistent(),
    ensures
        set_messages(s, payload).consistent(),
{
    match payload {
        Some(d) => {
            lemma_decode_messages_canonical(d);
            match decode_messages(d) {
                Some(messages) => {
                    lemma_with_messages_consistent(s, messages);
                },
                None => match d {
                    DocView::List(items) => {
                        lemma_legacy_messages_canonical(items);
                        lemma_with_messages_consistent(s, legacy_messages(items));
                    },
                    _ => {},
                },
            }
        },
        None => {},
    }
}

/// A command of any kind keeps a consistent state consistent.
pub proof fn lemma_apply_consistent(
    s: StoreView,
    kind: CommandKind,
    payload: Option<DocView>,
    now: u64,
)
    requires
        s.consistent(),
    ensures
        apply(s, kind, payload, now).store.consistent(),
{
    match kind {
        CommandKind::SetMessages => {
            lemma_set_messages_consistent(s, payload);
        },
        CommandKind::LoadConfiguration => {
            lemma_load_configuration_consistent(s, payload);
        },
        _ => {},
    }
}

/// Every command keeps a consistent state consistent: after it the flat list
/// still holds exactly the messages of the tree, and a queue that is present
/// still points at one of its messages.
pub proof fn lemma_dispatch_consistent(s: StoreView, command: CommandView, now: u64)
    requires
        s.consistent(),
    ensures
        dispatch(s, command, now).store.consistent(),
{
    lemma_apply_consistent(s, command_kind(command.command), command.payload, now);
}

/// Handles one command at the time that the clock shows: see
/// [`handle_command`]. Only the statistics of a triggered message depend on
/// the time.
pub fn handle_command_now(store: &mut AppStateSync, command: &RemoteCommand) -> (outcome:
    CommandOutcome)
    ensures
        exists|now: u64|
            {
                &&& final(store)@ == dispatch(old(store)@, command@, now).store
                &&& opt_message(outcome.triggered_message) == dispatch(
                    old(store)@,
                    command@,
                    now,
                ).triggered
                &&& commands_view(outcome.signals@) == dispatch(old(store)@, command@, now).signals
            },
        outcome.state@ == final(store)@.snapshot(),
        outcome.echo@ == command@,
        old(store)@.consistent() ==> final(store)@.consistent(),
{
    let now = crate::clock::now_millis();
    let outcome = handle_command(store, command, now);
    outcome
}

} // verus!

//! The typed records of the presentation state, each with the document form
//! it is read from.

use vstd::prelude::*;
use crate::document::{
    build, distinct_names, entries_view, lemma_build_lookup, list_view, opt_doc, put_field,
    DocView, Document, Numeral,
};
use crate::text::{clone_opt_text, opt_text, texts};

verus! {

/// An optional text entry of a record: absent or null is no text, a text is
/// itself, anything else is malformed (the outer `None`).
pub open spec fn optional_text(doc: DocView, key: Seq<char>) -> Option<Option<Seq<char>>> {
    match doc.get(key) {
        None => Some(None),
        Some(DocView::Null) => Some(None),
        Some(DocView::Text(s)) => Some(Some(s)),
        Some(_) => None,
    }
}

/// An optional truth value of a record, read as [`optional_text`] reads a text.
pub open spec fn optional_bool(doc: DocView, key: Seq<char>) -> Option<Option<bool>> {
    match doc.get(key) {
        None => Some(None),
        Some(DocView::Null) => Some(None),
        Some(DocView::Bool(b)) => Some(Some(b)),
        Some(_) => None,
    }
}

/// An optional count of a record: a non-negative integer that fits 32 bits.
pub open spec fn optional_count(doc: DocView, key: Seq<char>) -> Option<Option<u32>> {
    match doc.get(key) {
        None => Some(None),
        Some(DocView::Null) => Some(None),
        Some(DocView::Number(Numeral::Unsigned(n))) => if n <= u32::MAX {
            Some(Some(n as u32))
        } else {
            None
        },
        Some(_) => None,
    }
}

/// An optional number of a record, of any kind.
pub open spec fn optional_number(doc: DocView, key: Seq<char>) -> Option<Option<Numeral>> {
    match doc.get(key) {
        None => Some(None),
        Some(DocView::Null) => Some(None),
        Some(DocView::Number(n)) => Some(Some(n)),
        Some(_) => None,
    }
}

/// An optional free-form entry of a record: absent or null is nothing.
pub open spec fn optional_document(doc: DocView, key: Seq<char>) -> Option<DocView> {
    match doc.get(key) {
        None => None,
        Some(DocView::Null) => None,
        Some(d) => Some(d),
    }
}

/// Reads an optional text entry.
pub fn read_optional_text(doc: &Document, key: &str) -> (read: Option<Option<String>>)
    ensures
        match read {
            Some(t) => optional_text(doc@, key@) == Some(opt_text(t)),
            None => optional_text(doc@, key@) is None,
        },
{
    match doc.get(key) {
        None => Some(None),
        Some(Document::Null) => Some(None),
        Some(Document::Text(s)) => Some(Some(s.clone())),
        Some(_) => None,
    }
}

/// Reads an optional truth value.
pub fn read_optional_bool(doc: &Document, key: &str) -> (read: Option<Option<bool>>)
    ensures
        read == optional_bool(doc@, key@),
{
    match doc.get(key) {
        None => Some(None),
        Some(Document::Null) => Some(None),
        Some(Document::Bool(b)) => Some(Some(*b)),
        Some(_) => None,
    }
}

/// Reads an optional count.
pub fn read_optional_count(doc: &Document, key: &str) -> (read: Option<Option<u32>>)
    ensures
        read == optional_count(doc@, key@),
{
    match doc.get(key) {
        None => Some(None),
        Some(Document::Null) => Some(None),
        Some(Document::Number(Numeral::Unsigned(n))) => if *n <= 0xffff_ffff {
            Some(Some(*n as u32))
        } else {
            None
        },
        Some(_) => None,
    }
}

/// Reads an optional number.
pub fn read_optional_number(doc: &Document, key: &str) -> (read: Option<Option<Numeral>>)
    ensures
        read == optional_number(doc@, key@),
{
    match doc.get(key) {
        None => Some(None),
        Some(Document::Null) => Some(None),
        Some(Document::Number(n)) => Some(Some(*n)),
        Some(_) => None,
    }
}

/// Reads an optional free-form entry.
pub fn read_optional_document(doc: &Document, key: &str) -> (read: Option<Document>)
    ensures
        match read {
            Some(d) => optional_document(doc@, key@) == Some(d@),
            None => optional_document(doc@, key@) is None,
        },
{
    match doc.get(key) {
        None => None,
        Some(Document::Null) => None,
        Some(d) => Some(d.clone()),
    }
}

/// The mathematical value of a [`MessageConfig`].
pub struct MessageView {
    pub id: Seq<char>,
    pub text: Seq<char>,
    pub text_file: Option<Seq<char>>,
    pub text_style: Seq<char>,
    pub text_style_preset: Option<Seq<char>>,
    pub style_overrides: Option<DocView>,
    pub repeat_count: Option<u32>,
    pub speed: Option<Numeral>,
    pub split_enabled: Option<bool>,
    pub split_separator: Option<Seq<char>>,
}

/// A message: a text overlay with its display style.
#[derive(Debug, PartialEq, Eq)]
pub struct MessageConfig {
    pub id: String,
    pub text: String,
    pub text_file: Option<String>,
    pub text_style: String,
    pub text_style_preset: Option<String>,
    pub style_overrides: Option<Document>,
    pub repeat_count: Option<u32>,
    pub speed: Option<Numeral>,
    pub split_enabled: Option<bool>,
    pub split_separator: Option<String>,
}

impl View for MessageConfig {
    type V = MessageView;

    open spec fn view(&self) -> MessageView {
        MessageView {
            id: self.id@,
            text: self.text@,
            text_file: opt_text(self.text_file),
            text_style: self.text_style@,
            text_style_preset: opt_text(self.text_style_preset),
            style_overrides: opt_doc(self.style_overrides),
            repeat_count: self.repeat_count,
            speed: self.speed,
            split_enabled: self.split_enabled,
            split_separator: opt_text(self.split_separator),
        }
    }
}

/// The values of a list of messages.
pub open spec fn messages_view(items: Seq<MessageConfig>) -> Seq<MessageView> {
    Seq::new(items.len(), |i: int| items[i]@)
}

/// The value of an optional message.
pub open spec fn opt_message(item: Option<MessageConfig>) -> Option<MessageView> {
    match item {
        Some(m) => Some(m@),
        None => None,
    }
}

/// The style that a message made from a bare text gets.
pub open spec fn legacy_style() -> Seq<char> {
    "scrolling-capitals"@
}

impl MessageView {
    /// The message that a record denotes. The record must name `id`, `text`
    /// and `textStyle` as texts; every other entry may be absent or null; an
    /// entry of the wrong kind makes the whole record no message.
    pub open spec fn decode(doc: DocView) -> Option<MessageView> {
        if doc.get_text("id"@) is Some && doc.get_text("text"@) is Some && doc.get_text(
            "textStyle"@,
        ) is Some && optional_text(doc, "textFile"@) is Some && optional_text(
            doc,
            "textStylePreset"@,
        ) is Some && optional_count(doc, "repeatCount"@) is Some && optional_number(
            doc,
            "speed"@,
        ) is Some && optional_bool(doc, "splitEnabled"@) is Some && optional_text(
            doc,
            "splitSeparator"@,
        ) is Some {
            Some(
                MessageView {
                    id: doc.get_text("id"@)->0,
                    text: doc.get_text("text"@)->0,
                    text_file: optional_text(doc, "textFile"@)->0,
                    text_style: doc.get_text("textStyle"@)->0,
                    text_style_preset: optional_text(doc, "textStylePreset"@)->0,
                    style_overrides: optional_document(doc, "styleOverrides"@),
                    repeat_count: optional_count(doc, "repeatCount"@)->0,
                    speed: optional_number(doc, "speed"@)->0,
                    split_enabled: optional_bool(doc, "splitEnabled"@)->0,
                    split_separator: optional_text(doc, "splitSeparator"@)->0,
                },
            )
        } else {
            None
        }
    }

    /// The message that a bare text stands for.
    pub open spec fn legacy(id: Seq<char>, text: Seq<char>) -> MessageView {
        MessageView {
            id,
            text,
            text_file: None,
            text_style: legacy_style(),
            text_style_preset: None,
            style_overrides: None,
            repeat_count: None,
            speed: None,
            split_enabled: None,
            split_separator: None,
        }
    }

    /// The names under which a message is written, each with the value to
    /// write: an entry that is not set is not written.
    pub open spec fn fields(self) -> Seq<(Seq<char>, Option<DocView>)> {
        seq![
            ("id"@, Some(DocView::Text(self.id))),
            (
                "repeatCount"@,
                match self.repeat_count {
                    Some(n) => Some(DocView::Number(Numeral::Unsigned(n as u64))),
                    None => None,
                },
            ),
            (
                "speed"@,
                match self.speed {
                    Some(n) => Some(DocView::Number(n)),
                    None => None,
                },
            ),
            (
                "splitEnabled"@,
                match self.split_enabled {
                    Some(b) => Some(DocView::Bool(b)),
                    None => None,
                },
            ),
            (
                "splitSeparator"@,
                match self.split_separator {
                    Some(s) => Some(DocView::Text(s)),
                    None => None,
                },
            ),
            ("styleOverrides"@, self.style_overrides),
            ("text"@, Some(DocView::Text(self.text))),
            (
                "textFile"@,
                match self.text_file {
                    Some(s) => Some(DocView::Text(s)),
                    None => None,
                },
            ),
            ("textStyle"@, Some(DocView::Text(self.text_style))),
            (
                "textStylePreset"@,
                match self.text_style_preset {
                    Some(s) => Some(DocView::Text(s)),
                    None => None,
                },
            ),
        ]
    }

    /// The record that a message is written as.
    pub open spec fn encode(self) -> DocView {
        DocView::Record(build(self.fields()))
    }

    /// A message is in the form in which `decode` returns one when its
    /// free-form overrides, if it has any, are not null.
    pub open spec fn canonical(self) -> bool {
        self.style_overrides != Some(DocView::Null)
    }
}

impl MessageConfig {
    /// Reads a message from its record.
    pub fn from_document(doc: &Document) -> (read: Option<MessageConfig>)
        ensures
            opt_message(read) == MessageView::decode(doc@),
    {
        let id = match doc.get_str("id") {
            Some(s) => String::from_str(s),
            None => { return None; },
        };
        let text = match doc.get_str("text") {
            Some(s) => String::from_str(s),
            None => { return None; },
        };
        let text_style = match doc.get_str("textStyle") {
            Some(s) => String::from_str(s),
            None => { return None; },
        };
        let text_file = match read_optional_text(doc, "textFile") {
            Some(t) => t,
            None => { return None; },
        };
        let text_style_preset = match read_optional_text(doc, "textStylePreset") {
            Some(t) => t,
            None => { return None; },
        };
        let repeat_count = match read_optional_count(doc, "repeatCount") {
            Some(t) => t,
            None => { return None; },
        };
        let speed = match read_optional_number(doc, "speed") {
            Some(t) => t,
            None => { return None; },
        };
        let split_enabled = match read_optional_bool(doc, "splitEnabled") {
            Some(t) => t,
            None => { return None; },
        };
        let split_separator = match read_optional_text(doc, "splitSeparator") {
            Some(t) => t,
            None => { return None; },
        };
        let style_overrides = read_optional_document(doc, "styleOverrides");
        Some(
            MessageConfig {
                id,
                text,
                text_file,
                text_style,
                text_style_preset,
                style_overrides,
                repeat_count,
                speed,
                split_enabled,
                split_separator,
            },
        )
    }

    /// The message that a bare text stands for: the text under the given id,
    /// in the fixed style, with nothing else set.
    pub fn legacy(id: String, text: &str) -> (message: MessageConfig)
        ensures
            message@ == MessageView::legacy(id@, text@),
    {
        MessageConfig {
            id,
            text: String::from_str(text),
            text_file: None,
            text_style: String::from_str("scrolling-capitals"),
            text_style_preset: None,
            style_overrides: None,
            repeat_count: None,
            speed: None,
            split_enabled: None,
            split_separator: None,
        }
    }
}

/// The names under which a message is written are pairwise different.
pub proof fn lemma_message_fields_distinct(m: MessageView)
    ensures
        distinct_names(m.fields()),
{
    reveal_strlit("id");
    reveal_strlit("repeatCount");
    reveal_strlit("speed");
    reveal_strlit("splitEnabled");
    reveal_strlit("splitSeparator");
    reveal_strlit("styleOverrides");
    reveal_strlit("text");
    reveal_strlit("textFile");
    reveal_strlit("textStyle");
    reveal_strlit("textStylePreset");
    assert("id"@.len() == 2 && "repeatCount"@.len() == 11 && "speed"@.len() == 5);
    assert("splitEnabled"@.len() == 12 && "splitSeparator"@.len() == 14);
    assert("styleOverrides"@.len() == 14 && "text"@.len() == 4 && "textFile"@.len() == 8);
    assert("textStyle"@.len() == 9 && "textStylePreset"@.len() == 15);
    assert("splitSeparator"@[1] == 'p' && "styleOverrides"@[1] == 't');
}

/// Reading back what was written gives the message again, for a message in
/// canonical form.
pub proof fn lemma_decode_encode(m: MessageView)
    requires
        m.canonical(),
    ensures
        MessageView::decode(m.encode()) == Some(m),
{
    let f = m.fields();
    lemma_message_fields_distinct(m);
    lemma_build_lookup(f, 0);
    lemma_build_lookup(f, 1);
    lemma_build_lookup(f, 2);
    lemma_build_lookup(f, 3);
    lemma_build_lookup(f, 4);
    lemma_build_lookup(f, 5);
    lemma_build_lookup(f, 6);
    lemma_build_lookup(f, 7);
    lemma_build_lookup(f, 8);
    lemma_build_lookup(f, 9);
}

/// What `decode` returns is in canonical form.
pub proof fn lemma_decode_canonical(doc: DocView)
    ensures
        MessageView::decode(doc) matches Some(m) ==> m.canonical(),
{
}

impl MessageConfig {
    /// Writes the message as a record.
    pub fn to_document(&self) -> (doc: Document)
        ensures
            doc@ == self@.encode(),
    {
        let mut e: Vec<(String, Document)> = Vec::new();
        let ghost mut f: Seq<(Seq<char>, Option<DocView>)> = Seq::empty();
        assert(entries_view(e@) =~= build(f));
        put_field(&mut e, Ghost(f), "id", Some(Document::Text(self.id.clone())));
        proof {
            f = f.push(("id"@, Some(DocView::Text(self.id@))));
        }
        let repeat_count = match self.repeat_count {
            Some(n) => Some(Document::Number(Numeral::Unsigned(n as u64))),
            None => None,
        };
        put_field(&mut e, Ghost(f), "repeatCount", repeat_count);
        proof {
            f = f.push(("repeatCount"@, opt_doc(repeat_count)));
        }
        let speed = match self.speed {
            Some(n) => Some(Document::Number(n)),
            None => None,
        };
        put_field(&mut e, Ghost(f), "speed", speed);
        proof {
            f = f.push(("speed"@, opt_doc(speed)));
        }
        let split_enabled = match self.split_enabled {
            Some(b) => Some(Document::Bool(b)),
            None => None,
        };
        put_field(&mut e, Ghost(f), "splitEnabled", split_enabled);
        proof {
            f = f.push(("splitEnabled"@, opt_doc(split_enabled)));
        }
        let split_separator = match &self.split_separator {
            Some(s) => Some(Document::Text(s.clone())),
            None => None,
        };
        put_field(&mut e, Ghost(f), "splitSeparator", split_separator);
        proof {
            f = f.push(("splitSeparator"@, opt_doc(split_separator)));
        }
        let style_overrides = match &self.style_overrides {
            Some(d) => Some(d.clone()),
            None => None,
        };
        put_field(&mut e, Ghost(f), "styleOverrides", style_overrides);
        proof {
            f = f.push(("styleOverrides"@, opt_doc(style_overrides)));
        }
        put_field(&mut e, Ghost(f), "text", Some(Document::Text(self.text.clone())));
        proof {
            f = f.push(("text"@, Some(DocView::Text(self.text@))));
        }
        let text_file = match &self.text_file {
            Some(s) => Some(Document::Text(s.clone())),
            None => None,
        };
        put_field(&mut e, Ghost(f), "textFile", text_file);
        proof {
            f = f.push(("textFile"@, opt_doc(text_file)));
        }
        put_field(&mut e, Ghost(f), "textStyle", Some(Document::Text(self.text_style.clone())));
        proof {
            f = f.push(("textStyle"@, Some(DocView::Text(self.text_style@))));
        }
        let text_style_preset = match &self.text_style_preset {
            Some(s) => Some(Document::Text(s.clone())),
            None => None,
        };
        put_field(&mut e, Ghost(f), "textStylePreset", text_style_preset);
        proof {
            f = f.push(("textStylePreset"@, opt_doc(text_style_preset)));
            assert(f =~= self@.fields());
        }
        Document::Record(e)
    }
}

impl Clone for MessageConfig {
    /// A copy with the same value.
    fn clone(&self) -> (copy: MessageConfig)
        ensures
            copy@ == self@,
    {
        MessageConfig {
            id: self.id.clone(),
            text: self.text.clone(),
            text_file: clone_opt_text(&self.text_file),
            text_style: self.text_style.clone(),
            text_style_preset: clone_opt_text(&self.text_style_preset),
            style_overrides: match &self.style_overrides {
                Some(d) => Some(d.clone()),
                None => None,
            },
            repeat_count: self.repeat_count,
            speed: self.speed,
            split_enabled: self.split_enabled,
            split_separator: clone_opt_text(&self.split_separator),
        }
    }
}

/// Copies a list of messages.
pub fn clone_messages(items: &Vec<MessageConfig>) -> (copy: Vec<MessageConfig>)
    ensures
        messages_view(copy@) == messages_view(items@),
{
    let mut copy: Vec<MessageConfig> = Vec::new();
    let mut i: usize = 0;
    while i < items.len()
        invariant
            i <= items.len(),
            copy@.len() == i,
            forall|j: int| 0 <= j < i ==> (#[trigger] copy@[j])@ == items@[j]@,
        decreases items.len() - i,
    {
        copy.push(items[i].clone());
        i += 1;
    }
    copy
}

/// Copies an optional message.
pub fn clone_opt_message(item: &Option<MessageConfig>) -> (copy: Option<MessageConfig>)
    ensures
        opt_message(copy) == opt_message(*item),
{
    match item {
        Some(m) => Some(m.clone()),
        None => None,
    }
}

/// The messages that a list of records denotes: all of them, or nothing
/// where the document is no list or one item is no message.
pub open spec fn decode_messages(doc: DocView) -> Option<Seq<MessageView>> {
    match doc {
        DocView::List(items) => if forall|i: int|
            0 <= i < items.len() ==> MessageView::decode(#[trigger] items[i]) is Some {
            Some(Seq::new(items.len(), |i: int| MessageView::decode(items[i])->0))
        } else {
            None
        },
        _ => None,
    }
}

/// Reads a list of messages.
pub fn read_messages(doc: &Document) -> (read: Option<Vec<MessageConfig>>)
    ensures
        match read {
            Some(messages) => decode_messages(doc@) == Some(messages_view(messages@)),
            None => decode_messages(doc@) is None,
        },
{
    match doc.as_array() {
        Some(items) => {
            let mut out: Vec<MessageConfig> = Vec::new();
            let mut i: usize = 0;
            while i < items.len()
                invariant
                    i <= items.len(),
                    *doc == Document::List(*items),
                    out@.len() == i,
                    forall|j: int|
                        0 <= j < i ==> MessageView::decode(#[trigger] list_view(items@)[j]) == Some(
                            out@[j]@,
                        ),
                decreases items.len() - i,
            {
                match MessageConfig::from_document(&items[i]) {
                    Some(message) => {
                        out.push(message);
                    },
                    None => {
                        assert(MessageView::decode(list_view(items@)[i as int]) is None);
                        return None;
                    },
                }
                i += 1;
            }
            Some(out)
        },
        None => None,
    }
}

/// The mathematical value of a [`VisualizationPreset`].
pub struct VisualizationPresetView {
    pub id: Seq<char>,
    pub name: Seq<char>,
    pub visualization_id: Seq<char>,
    pub settings: DocView,
    pub enabled: Option<bool>,
    pub order: Option<u32>,
    pub icon: Option<Seq<char>>,
}

/// A named set of settings for one visualization.
#[derive(Debug, PartialEq, Eq)]
pub struct VisualizationPreset {
    pub id: String,
    pub name: String,
    pub visualization_id: String,
    pub settings: Document,
    pub enabled: Option<bool>,
    pub order: Option<u32>,
    pub icon: Option<String>,
}

impl View for VisualizationPreset {
    type V = VisualizationPresetView;

    open spec fn view(&self) -> VisualizationPresetView {
        VisualizationPresetView {
            id: self.id@,
            name: self.name@,
            visualization_id: self.visualization_id@,
            settings: self.settings@,
            enabled: self.enabled,
            order: self.order,
            icon: opt_text(self.icon),
        }
    }
}

/// The values of a list of visualization presets.
pub open spec fn visualization_presets_view(items: Seq<VisualizationPreset>) -> Seq<
    VisualizationPresetView,
> {
    Seq::new(items.len(), |i: int| items[i]@)
}

impl VisualizationPresetView {
    /// The preset that a record denotes. The record must name `id`, `name`
    /// and `visualizationId` as texts and hold `settings`, of any kind.
    pub open spec fn decode(doc: DocView) -> Option<VisualizationPresetView> {
        if doc.get_text("id"@) is Some && doc.get_text("name"@) is Some && doc.get_text(
            "visualizationId"@,
        ) is Some && doc.get("settings"@) is Some && optional_bool(doc, "enabled"@) is Some
            && optional_count(doc, "order"@) is Some && optional_text(doc, "icon"@) is Some {
            Some(
                VisualizationPresetView {
                    id: doc.get_text("id"@)->0,
                    name: doc.get_text("name"@)->0,
                    visualization_id: doc.get_text("visualizationId"@)->0,
                    settings: doc.get("settings"@)->0,
                    enabled: optional_bool(doc, "enabled"@)->0,
                    order: optional_count(doc, "order"@)->0,
                    icon: optional_text(doc, "icon"@)->0,
                },
            )
        } else {
            None
        }
    }
}

impl VisualizationPreset {
    /// Reads a preset from its record.
    pub fn from_document(doc: &Document) -> (read: Option<VisualizationPreset>)
        ensures
            match read {
                Some(p) => VisualizationPresetView::decode(doc@) == Some(p@),
                None => VisualizationPresetView::decode(doc@) is None,
            },
    {
        let id = match doc.get_str("id") {
            Some(s) => String::from_str(s),
            None => { return None; },
        };
        let name = match doc.get_str("name") {
            Some(s) => String::from_str(s),
            None => { return None; },
        };
        let visualization_id = match doc.get_str("visualizationId") {
            Some(s) => String::from_str(s),
            None => { return None; },
        };
        let settings = match doc.get("settings") {
            Some(d) => d.clone(),
            None => { return None; },
        };
        let enabled = match read_optional_bool(doc, "enabled") {
            Some(t) => t,
            None => { return None; },
        };
        let order = match read_optional_count(doc, "order") {
            Some(t) => t,
            None => { return None; },
        };
        let icon = match read_optional_text(doc, "icon") {
            Some(t) => t,
            None => { return None; },
        };
        Some(VisualizationPreset { id, name, visualization_id, settings, enabled, order, icon })
    }
}

impl Clone for VisualizationPreset {
    /// A copy with the same value.
    fn clone(&self) -> (copy: VisualizationPreset)
        ensures
            copy@ == self@,
    {
        VisualizationPreset {
            id: self.id.clone(),
            name: self.name.clone(),
            visualization_id: self.visualization_id.clone(),
            settings: self.settings.clone(),
            enabled: self.enabled,
            order: self.order,
            icon: clone_opt_text(&self.icon),
        }
    }
}

/// Copies a list of visualization presets.
pub fn clone_visualization_presets(items: &Vec<VisualizationPreset>) -> (copy: Vec<
    VisualizationPreset,
>)
    ensures
        visualization_presets_view(copy@) == visualization_presets_view(items@),
{
    let mut copy: Vec<VisualizationPreset> = Vec::new();
    let mut i: usize = 0;
    while i < items.len()
        invariant
            i <= items.len(),
            copy@.len() == i,
            forall|j: int| 0 <= j < i ==> (#[trigger] copy@[j])@ == items@[j]@,
        decreases items.len() - i,
    {
        copy.push(items[i].clone());
        i += 1;
    }
    copy
}

/// The visualization presets that a list of records denotes: all of them, or
/// nothing where the document is no list or one item is no preset.
pub open spec fn decode_visualization_presets(doc: DocView) -> Option<
    Seq<VisualizationPresetView>,
> {
    match doc {
        DocView::List(items) => if forall|i: int|
            0 <= i < items.len() ==> VisualizationPresetView::decode(#[trigger] items[i]) is Some {
            Some(Seq::new(items.len(), |i: int| VisualizationPresetView::decode(items[i])->0))
        } else {
            None
        },
        _ => None,
    }
}

/// Reads a list of visualization presets.
pub fn read_visualization_presets(doc: &Document) -> (read: Option<Vec<VisualizationPreset>>)
    ensures
        match read {
            Some(presets) => decode_visualization_presets(doc@) == Some(
                visualization_presets_view(presets@),
            ),
            None => decode_visualization_presets(doc@) is None,
        },
{
    match doc.as_array() {
        Some(items) => {
            let mut out: Vec<VisualizationPreset> = Vec::new();
            let mut i: usize = 0;
            while i < items.len()
                invariant
                    i <= items.len(),
                    *doc == Document::List(*items),
                    out@.len() == i,
                    forall|j: int|
                        0 <= j < i ==> VisualizationPresetView::decode(
                            #[trigger] list_view(items@)[j],
                        ) == Some(out@[j]@),
                decreases items.len() - i,
            {
                match VisualizationPreset::from_document(&items[i]) {
                    Some(preset) => {
                        out.push(preset);
                    },
                    None => {
                        assert(VisualizationPresetView::decode(list_view(items@)[i as int])
                            is None);
                        return None;
                    },
                }
                i += 1;
            }
            Some(out)
        },
        None => None,
    }
}

/// The mathematical value of a [`TextStylePreset`].
pub struct TextStylePresetView {
    pub id: Seq<char>,
    pub name: Seq<char>,
    pub text_style_id: Seq<char>,
    pub settings: DocView,
}

/// A named set of settings for one text style.
#[derive(Debug, PartialEq, Eq)]
pub struct TextStylePreset {
    pub id: String,
    pub name: String,
    pub text_style_id: String,
    pub settings: Document,
}

impl View for TextStylePreset {
    type V = TextStylePresetView;

    open spec fn view(&self) -> TextStylePresetView {
        TextStylePresetView {
            id: self.id@,
            name: self.name@,
            text_style_id: self.text_style_id@,
            settings: self.settings@,
        }
    }
}

/// The values of a list of text-style presets.
pub open spec fn text_style_presets_view(items: Seq<TextStylePreset>) -> Seq<TextStylePresetView> {
    Seq::new(items.len(), |i: int| items[i]@)
}

impl TextStylePresetView {
    /// The preset that a record denotes. The record must name `id`, `name`
    /// and `textStyleId` as texts and hold `settings`, of any kind.
    pub open spec fn decode(doc: DocView) -> Option<TextStylePresetView> {
        if doc.get_text("id"@) is Some && doc.get_text("name"@) is Some && doc.get_text(
            "textStyleId"@,
        ) is Some && doc.get("settings"@) is Some {
            Some(
                TextStylePresetView {
                    id: doc.get_text("id"@)->0,
                    name: doc.get_text("name"@)->0,
                    text_style_id: doc.get_text("textStyleId"@)->0,
                    settings: doc.get("settings"@)->0,
                },
            )
        } else {
            None
        }
    }
}

impl TextStylePreset {
    /// Reads a preset from its record.
    pub fn from_document(doc: &Document) -> (read: Option<TextStylePreset>)
        ensures
            match read {
                Some(p) => TextStylePresetView::decode(doc@) == Some(p@),
                None => TextStylePresetView::decode(doc@) is None,
            },
    {
        let id = match doc.get_str("id") {
            Some(s) => String::from_str(s),
            None => { return None; },
        };
        let name = match doc.get_str("name") {
            Some(s) => String::from_str(s),
            None => { return None; },
        };
        let text_style_id = match doc.get_str("textStyleId") {
            Some(s) => String::from_str(s),
            None => { return None; },
        };
        let settings = match doc.get("settings") {
            Some(d) => d.clone(),
            None => { return None; },
        };
        Some(TextStylePreset { id, name, text_style_id, settings })
    }
}

impl Clone for TextStylePreset {
    /// A copy with the same value.
    fn clone(&self) -> (copy: TextStylePreset)
        ensures
            copy@ == self@,
    {
        TextStylePreset {
            id: self.id.clone(),
            name: self.name.clone(),
            text_style_id: self.text_style_id.clone(),
            settings: self.settings.clone(),
        }
    }
}

/// Copies a list of text-style presets.
pub fn clone_text_style_presets(items: &Vec<TextStylePreset>) -> (copy: Vec<TextStylePreset>)
    ensures
        text_style_presets_view(copy@) == text_style_presets_view(items@),
{
    let mut copy: Vec<TextStylePreset> = Vec::new();
    let mut i: usize = 0;
    while i < items.len()
        invariant
            i <= items.len(),
            copy@.len() == i,
            forall|j: int| 0 <= j < i ==> (#[trigger] copy@[j])@ == items@[j]@,
        decreases items.len() - i,
    {
        copy.push(items[i].clone());
        i += 1;
    }
    copy
}

/// The text-style presets that a list of records denotes: all of them, or
/// nothing where the document is no list or one item is no preset.
pub open spec fn decode_text_style_presets(doc: DocView) -> Option<Seq<TextStylePresetView>> {
    match doc {
        DocView::List(items) => if forall|i: int|
            0 <= i < items.len() ==> TextStylePresetView::decode(#[trigger] items[i]) is Some {
            Some(Seq::new(items.len(), |i: int| TextStylePresetView::decode(items[i])->0))
        } else {
            None
        },
        _ => None,
    }
}

/// Reads a list of text-style presets.
pub fn read_text_style_presets(doc: &Document) -> (read: Option<Vec<TextStylePreset>>)
    ensures
        match read {
            Some(presets) => decode_text_style_presets(doc@) == Some(
                text_style_presets_view(presets@),
            ),
            None => decode_text_style_presets(doc@) is None,
        },
{
    match doc.as_array() {
        Some(items) => {
            let mut out: Vec<TextStylePreset> = Vec::new();
            let mut i: usize = 0;
            while i < items.len()
                invariant
                    i <= items.len(),
                    *doc == Document::List(*items),
                    out@.len() == i,
                    forall|j: int|
                        0 <= j < i ==> TextStylePresetView::decode(
                            #[trigger] list_view(items@)[j],
                        ) == Some(out@[j]@),
                decreases items.len() - i,
            {
                match TextStylePreset::from_document(&items[i]) {
                    Some(preset) => {
                        out.push(preset);
                    },
                    None => {
                        assert(TextStylePresetView::decode(list_view(items@)[i as int]) is None);
                        return None;
                    },
                }
                i += 1;
            }
            Some(out)
        },
        None => None,
    }
}

/// The bits of the real number one.
pub const REAL_ONE: u64 = 0x3ff0_0000_0000_0000;

/// The settings that every visualization shares.
#[derive(Clone, Copy, Debug, PartialEq, Eq)]
pub struct CommonSettings {
    pub intensity: Numeral,
    pub dim: Numeral,
}

impl CommonSettings {
    /// The settings that a record denotes: it must hold `intensity` and `dim`
    /// as numbers.
    pub open spec fn decode(doc: DocView) -> Option<CommonSettings> {
        match (doc.get("intensity"@), doc.get("dim"@)) {
            (Some(DocView::Number(intensity)), Some(DocView::Number(dim))) => Some(
                CommonSettings { intensity, dim },
            ),
            _ => None,
        }
    }

    /// The settings at the start: intensity and dim are both one.
    pub open spec fn initial() -> CommonSettings {
        CommonSettings { intensity: Numeral::Real(REAL_ONE), dim: Numeral::Real(REAL_ONE) }
    }

    /// Reads the settings from their record.
    pub fn from_document(doc: &Document) -> (read: Option<CommonSettings>)
        ensures
            read == CommonSettings::decode(doc@),
    {
        let intensity = match doc.get("intensity") {
            Some(Document::Number(n)) => *n,
            _ => { return None; },
        };
        let dim = match doc.get("dim") {
            Some(Document::Number(n)) => *n,
            _ => { return None; },
        };
        Some(CommonSettings { intensity, dim })
    }
}

impl Default for CommonSettings {
    /// Intensity and dim are both one.
    fn default() -> (settings: CommonSettings)
        ensures
            settings == CommonSettings::initial(),
    {
        CommonSettings { intensity: Numeral::Real(REAL_ONE), dim: Numeral::Real(REAL_ONE) }
    }
}

/// The texts among the items of a list, in their order.
pub open spec fn text_items(items: Seq<DocView>) -> Seq<Seq<char>>
    decreases items.len(),
{
    if items.len() == 0 {
        Seq::empty()
    } else {
        match items.last() {
            DocView::Text(s) => text_items(items.drop_last()).push(s),
            _ => text_items(items.drop_last()),
        }
    }
}

/// The texts among the items of a list, in their order; what is no text is
/// passed over.
pub fn read_text_items(items: &Vec<Document>) -> (found: Vec<String>)
    ensures
        texts(found@) == text_items(list_view(items@)),
{
    let mut found: Vec<String> = Vec::new();
    let mut i: usize = 0;
    while i < items.len()
        invariant
            i <= items.len(),
            texts(found@) == text_items(list_view(items@).take(i as int)),
        decreases items.len() - i,
    {
        let ghost all = list_view(items@);
        assert(all.take(i as int + 1).drop_last() =~= all.take(i as int));
        match items[i].as_str() {
            Some(s) => {
                found.push(String::from_str(s));
            },
            None => {},
        }
        i += 1;
    }
    assert(list_view(items@).take(i as int) =~= list_view(items@));
    found
}

} // verus!

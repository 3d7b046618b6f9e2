//! The state at the start: three sample messages in one folder, six
//! visualization presets and one text-style preset.

use vstd::prelude::*;
use crate::document::{
    build, distinct_names, entries_view, lemma_build_lookup, lemma_find_key, list_view, lookup,
    push_entry, put_field, DocView, Document, Numeral,
};
use crate::models::{
    messages_view, text_style_presets_view, visualization_presets_view, CommonSettings,
    MessageConfig, MessageView, TextStylePreset, TextStylePresetView, VisualizationPreset,
    VisualizationPresetView, REAL_ONE,
};
use crate::store::{AppStateSync, StoreView};
use crate::text::texts;
use crate::tree::{build_flat, build_flat_message_tree, flatten, flatten_all};

verus! {

/// The bits of the real number one half.
pub const REAL_HALF: u64 = 0x3fe0_0000_0000_0000;

/// The bits of the real number eight tenths.
pub const REAL_EIGHT_TENTHS: u64 = 0x3fe9_9999_9999_999a;

/// The bits of the real number one and a half.
pub const REAL_ONE_AND_HALF: u64 = 0x3ff8_0000_0000_0000;

/// The port that the server tries first.
pub const DEFAULT_PORT: u16 = 8080;

/// The document of a non-negative integer.
pub open spec fn whole(n: u64) -> DocView {
    DocView::Number(Numeral::Unsigned(n))
}

/// The document of a real number, by its bits.
pub open spec fn fraction(bits: u64) -> DocView {
    DocView::Number(Numeral::Real(bits))
}

/// The document of a text.
pub open spec fn words(text: Seq<char>) -> DocView {
    DocView::Text(text)
}

/// The three sample messages.
pub open spec fn default_messages() -> Seq<MessageView> {
    seq![
        MessageView {
            id: "msg-1"@,
            text: "Countdown initiated..."@,
            text_file: None,
            text_style: "typewriter"@,
            text_style_preset: None,
            style_overrides: None,
            repeat_count: None,
            speed: None,
            split_enabled: None,
            split_separator: None,
        },
        MessageView {
            id: "msg-2"@,
            text: "3, 2, 1"@,
            text_file: None,
            text_style: "bounce"@,
            text_style_preset: None,
            style_overrides: None,
            repeat_count: None,
            speed: Some(Numeral::Real(REAL_ONE)),
            split_enabled: Some(true),
            split_separator: Some(","@),
        },
        MessageView {
            id: "msg-3"@,
            text: "It's time to party 🥳"@,
            text_file: None,
            text_style: "scrolling-capitals"@,
            text_style_preset: Some("scrolling-capitals-centered"@),
            style_overrides: None,
            repeat_count: None,
            speed: None,
            split_enabled: None,
            split_separator: None,
        },
    ]
}

/// The names under which a folder is written, with their values.
pub open spec fn folder_fields(id: Seq<char>, name: Seq<char>, children: DocView) -> Seq<
    (Seq<char>, Option<DocView>),
> {
    seq![
        ("children"@, Some(children)),
        ("id"@, Some(DocView::Text(id))),
        ("name"@, Some(DocView::Text(name))),
        ("type"@, Some(DocView::Text("folder"@))),
    ]
}

/// The node of a folder with the given children.
pub open spec fn folder_node(id: Seq<char>, name: Seq<char>, children: DocView) -> DocView {
    DocView::Record(build(folder_fields(id, name, children)))
}

/// The sample tree: one folder that holds the three sample messages.
pub open spec fn default_message_tree() -> DocView {
    DocView::List(
        seq![folder_node("party-countdown"@, "Party Countdown"@, build_flat(default_messages()))],
    )
}

/// The settings of the six visualization presets, one after the other.
pub open spec fn fireplace_settings() -> DocView {
    DocView::Record(
        seq![
            ("emberCount"@, whole(15)),
            ("flameCount"@, whole(12)),
            ("flameHeight"@, fraction(REAL_ONE)),
            ("glowColor"@, words("#ea580c"@)),
            ("showLogs"@, DocView::Bool(true)),
        ],
    )
}

/// The settings of the preset that shows a blue glow and no fire.
pub open spec fn blue_glow_settings() -> DocView {
    DocView::Record(
        seq![
            ("emberCount"@, whole(0)),
            ("flameCount"@, whole(0)),
            ("flameHeight"@, whole(0)),
            ("glowColor"@, words("#1e3a8a"@)),
            ("showLogs"@, DocView::Bool(false)),
        ],
    )
}

/// The settings of the photo slideshow.
pub open spec fn slideshow_settings() -> DocView {
    DocView::Record(
        seq![
            ("displayDuration"@, whole(5)),
            ("enable3DRotate"@, DocView::Bool(true)),
            ("enableCube"@, DocView::Bool(false)),
            ("enableFade"@, DocView::Bool(true)),
            ("enableFlip"@, DocView::Bool(true)),
            ("enableSlide"@, DocView::Bool(true)),
            ("enableZoom"@, DocView::Bool(true)),
            ("fitMode"@, words("cover"@)),
            ("folderPath"@, words(""@)),
            ("photosAlbumName"@, words(""@)),
            ("randomOrder"@, DocView::Bool(false)),
            ("smartCrop"@, DocView::Bool(true)),
            ("sourceType"@, words("local"@)),
            ("transitionDuration"@, fraction(REAL_EIGHT_TENTHS)),
            ("videoSound"@, DocView::Bool(true)),
            ("videoVolume"@, whole(50)),
        ],
    )
}

/// The settings of the particles.
pub open spec fn particles_settings() -> DocView {
    DocView::Record(
        seq![
            ("colorful"@, DocView::Bool(true)),
            ("particleColor"@, words("#f59e0b"@)),
            ("particleCount"@, whole(80)),
            ("particleSize"@, whole(5)),
            ("speed"@, fraction(REAL_HALF)),
            ("spread"@, fraction(REAL_ONE_AND_HALF)),
        ],
    )
}

/// The settings of the video player.
pub open spec fn youtube_settings() -> DocView {
    DocView::Record(
        seq![
            ("muted"@, DocView::Bool(true)),
            ("showControls"@, DocView::Bool(false)),
            ("videoUrl"@, words("https://youtu.be/uNNk-V08J7k?si=0chlR1UB6XYRxPc3"@)),
            ("volume"@, whole(50)),
        ],
    )
}

/// The settings of the techno visualization.
pub open spec fn techno_settings() -> DocView {
    DocView::Record(
        seq![
            ("barCount"@, whole(48)),
            ("colorScheme"@, words("rainbow"@)),
            ("showBars"@, DocView::Bool(true)),
            ("showSphere"@, DocView::Bool(false)),
            ("sphereDistort"@, fraction(REAL_HALF)),
            ("sphereScale"@, fraction(REAL_ONE)),
        ],
    )
}

/// The settings of the one text-style preset.
pub open spec fn centered_settings() -> DocView {
    DocView::Record(
        seq![
            ("color"@, words("#ffffff"@)),
            ("fontSize"@, whole(12)),
            ("glowIntensity"@, fraction(REAL_HALF)),
            ("position"@, words("center"@)),
        ],
    )
}

/// An enabled visualization preset without order or icon.
pub open spec fn enabled_preset(
    id: Seq<char>,
    name: Seq<char>,
    visualization_id: Seq<char>,
    settings: DocView,
) -> VisualizationPresetView {
    VisualizationPresetView {
        id,
        name,
        visualization_id,
        settings,
        enabled: Some(true),
        order: None,
        icon: None,
    }
}

/// The six visualization presets.
pub open spec fn default_visualization_presets() -> Seq<VisualizationPresetView> {
    seq![
        enabled_preset("fireplace-default"@, "Fireplace"@, "fireplace"@, fireplace_settings()),
        enabled_preset("fireplace-blue-glow"@, "Blue Glow"@, "fireplace"@, blue_glow_settings()),
        enabled_preset(
            "photo-slideshow-default"@,
            "Photo Slideshow"@,
            "photo-slideshow"@,
            slideshow_settings(),
        ),
        enabled_preset("particles-default"@, "Particles"@, "particles"@, particles_settings()),
        enabled_preset("youtube-default"@, "YouTube"@, "youtube"@, youtube_settings()),
        enabled_preset("techno-default"@, "Techno"@, "techno"@, techno_settings()),
    ]
}

/// The one text-style preset.
pub open spec fn default_text_style_presets() -> Seq<TextStylePresetView> {
    seq![
        TextStylePresetView {
            id: "scrolling-capitals-centered"@,
            name: "Scrolling Capitals Centered"@,
            text_style_id: "scrolling-capitals"@,
            settings: centered_settings(),
        },
    ]
}

impl StoreView {
    /// The state at the start.
    pub open spec fn initial() -> StoreView {
        StoreView {
            active_visualization: "fireplace"@,
            enabled_visualizations: seq!["fireplace"@, "techno"@],
            common_settings: CommonSettings::initial(),
            visualization_settings: DocView::Record(Seq::empty()),
            visualization_presets: default_visualization_presets(),
            active_visualization_preset: Some("fireplace-blue-glow"@),
            messages: default_messages(),
            message_tree: default_message_tree(),
            default_text_style: "scrolling-capitals"@,
            text_style_settings: DocView::Record(Seq::empty()),
            text_style_presets: default_text_style_presets(),
            message_stats: DocView::Record(Seq::empty()),
            folder_playback_queue: None,
            config_base_path: None,
            server_port: DEFAULT_PORT,
            triggered_message: None,
        }
    }
}

/// A folder holds what its children hold.
pub proof fn lemma_flatten_folder(id: Seq<char>, name: Seq<char>, children: DocView)
    ensures
        flatten(folder_node(id, name, children)) == flatten(children),
{
    reveal_strlit("children");
    reveal_strlit("id");
    reveal_strlit("name");
    reveal_strlit("type");
    reveal_strlit("folder");
    reveal_strlit("message");
    assert("children"@.len() == 8 && "id"@.len() == 2 && "name"@.len() == 4);
    assert("type"@.len() == 4 && "folder"@.len() == 6 && "message"@.len() == 7);
    assert("name"@[0] == 'n' && "type"@[0] == 't');
    let f = folder_fields(id, name, children);
    assert(distinct_names(f));
    lemma_build_lookup(f, 0);
    lemma_build_lookup(f, 3);
    let entries = build(f);
    lemma_find_key(entries, "children"@);
    assert(lookup(entries, "type"@) == Some(DocView::Text("folder"@)));
    assert(lookup(entries, "children"@) == Some(children));
}

/// The state at the start is consistent: its flat list holds the messages of
/// its tree.
pub proof fn lemma_initial_consistent()
    ensures
        StoreView::initial().consistent(),
{
    let messages = default_messages();
    assert(forall|i: int| 0 <= i < messages.len() ==> (#[trigger] messages[i]).canonical());
    crate::tree::lemma_flatten_build_flat(messages);
    let folder = folder_node("party-countdown"@, "Party Countdown"@, build_flat(messages));
    lemma_flatten_folder("party-countdown"@, "Party Countdown"@, build_flat(messages));
    let roots = seq![folder];
    assert(roots.drop_last() =~= Seq::<DocView>::empty());
    assert(flatten_all(roots) == flatten_all(roots.drop_last()) + flatten(roots.last()));
    assert(flatten_all(Seq::<DocView>::empty()) =~= Seq::<MessageView>::empty());
    assert(flatten_all(roots) =~= messages);
    assert(flatten(default_message_tree()) == flatten_all(roots));
}

fn sample_message(id: &str, text: &str, text_style: &str) -> (message: MessageConfig)
    ensures
        message@ == (MessageView {
            id: id@,
            text: text@,
            text_file: None,
            text_style: text_style@,
            text_style_preset: None,
            style_overrides: None,
            repeat_count: None,
            speed: None,
            split_enabled: None,
            split_separator: None,
        }),
{
    MessageConfig {
        id: String::from_str(id),
        text: String::from_str(text),
        text_file: None,
        text_style: String::from_str(text_style),
        text_style_preset: None,
        style_overrides: None,
        repeat_count: None,
        speed: None,
        split_enabled: None,
        split_separator: None,
    }
}

/// The three sample messages.
pub fn sample_messages() -> (messages: Vec<MessageConfig>)
    ensures
        messages_view(messages@) == default_messages(),
{
    let first = sample_message("msg-1", "Countdown initiated...", "typewriter");
    let mut second = sample_message("msg-2", "3, 2, 1", "bounce");
    second.speed = Some(Numeral::Real(REAL_ONE));
    second.split_enabled = Some(true);
    second.split_separator = Some(String::from_str(","));
    let mut third = sample_message("msg-3", "It's time to party 🥳", "scrolling-capitals");
    third.text_style_preset = Some(String::from_str("scrolling-capitals-centered"));
    let mut messages: Vec<MessageConfig> = Vec::new();
    messages.push(first);
    messages.push(second);
    messages.push(third);
    messages
}

/// The sample tree.
pub fn sample_message_tree(messages: &Vec<MessageConfig>) -> (tree: Document)
    ensures
        tree@ == DocView::List(
            seq![
                folder_node(
                    "party-countdown"@,
                    "Party Countdown"@,
                    build_flat(messages_view(messages@)),
                ),
            ],
        ),
{
    let children = build_flat_message_tree(messages);
    let mut e: Vec<(String, Document)> = Vec::new();
    let ghost mut f: Seq<(Seq<char>, Option<DocView>)> = Seq::empty();
    assert(entries_view(e@) =~= build(f));
    put_field(&mut e, Ghost(f), "children", Some(children));
    proof {
        f = f.push(("children"@, Some(build_flat(messages_view(messages@)))));
    }
    put_field(&mut e, Ghost(f), "id", Some(Document::text("party-countdown")));
    proof {
        f = f.push(("id"@, Some(DocView::Text("party-countdown"@))));
    }
    put_field(&mut e, Ghost(f), "name", Some(Document::text("Party Countdown")));
    proof {
        f = f.push(("name"@, Some(DocView::Text("Party Countdown"@))));
    }
    put_field(&mut e, Ghost(f), "type", Some(Document::text("folder")));
    proof {
        f = f.push(("type"@, Some(DocView::Text("folder"@))));
        assert(f =~= folder_fields(
            "party-countdown"@,
            "Party Countdown"@,
            build_flat(messages_view(messages@)),
        ));
    }
    let mut roots: Vec<Document> = Vec::new();
    roots.push(Document::Record(e));
    assert(list_view(roots@) =~= seq![
        folder_node("party-countdown"@, "Party Countdown"@, build_flat(messages_view(messages@))),
    ]);
    Document::List(roots)
}

fn begin() -> (e: Vec<(String, Document)>)
    ensures
        entries_view(e@) == Seq::<(Seq<char>, DocView)>::empty(),
{
    let e: Vec<(String, Document)> = Vec::new();
    e
}

fn set_whole(e: &mut Vec<(String, Document)>, key: &str, n: u64)
    ensures
        entries_view(final(e)@) == entries_view(old(e)@).push((key@, whole(n))),
{
    push_entry(e, key, Document::Number(Numeral::Unsigned(n)));
}

fn set_real(e: &mut Vec<(String, Document)>, key: &str, bits: u64)
    ensures
        entries_view(final(e)@) == entries_view(old(e)@).push((key@, fraction(bits))),
{
    push_entry(e, key, Document::Number(Numeral::Real(bits)));
}

fn set_words(e: &mut Vec<(String, Document)>, key: &str, text: &str)
    ensures
        entries_view(final(e)@) == entries_view(old(e)@).push((key@, words(text@))),
{
    push_entry(e, key, Document::text(text));
}

fn set_flag(e: &mut Vec<(String, Document)>, key: &str, flag: bool)
    ensures
        entries_view(final(e)@) == entries_view(old(e)@).push((key@, DocView::Bool(flag))),
{
    push_entry(e, key, Document::Bool(flag));
}

fn preset(id: &str, name: &str, visualization_id: &str, settings: Document) -> (p:
    VisualizationPreset)
    ensures
        p@ == enabled_preset(id@, name@, visualization_id@, settings@),
{
    VisualizationPreset {
        id: String::from_str(id),
        name: String::from_str(name),
        visualization_id: String::from_str(visualization_id),
        settings,
        enabled: Some(true),
        order: None,
        icon: None,
    }
}

fn fireplace() -> (doc: Document)
    ensures
        doc@ == fireplace_settings(),
{
    let mut e = begin();
    set_whole(&mut e, "emberCount", 15);
    set_whole(&mut e, "flameCount", 12);
    set_real(&mut e, "flameHeight", REAL_ONE);
    set_words(&mut e, "glowColor", "#ea580c");
    set_flag(&mut e, "showLogs", true);
    assert(entries_view(e@) =~= fireplace_settings()->Record_0);
    Document::Record(e)
}

fn blue_glow() -> (doc: Document)
    ensures
        doc@ == blue_glow_settings(),
{
    let mut e = begin();
    set_whole(&mut e, "emberCount", 0);
    set_whole(&mut e, "flameCount", 0);
    set_whole(&mut e, "flameHeight", 0);
    set_words(&mut e, "glowColor", "#1e3a8a");
    set_flag(&mut e, "showLogs", false);
    assert(entries_view(e@) =~= blue_glow_settings()->Record_0);
    Document::Record(e)
}

fn slideshow() -> (doc: Document)
    ensures
        doc@ == slideshow_settings(),
{
    let mut e = begin();
    set_whole(&mut e, "displayDuration", 5);
    set_flag(&mut e, "enable3DRotate", true);
    set_flag(&mut e, "enableCube", false);
    set_flag(&mut e, "enableFade", true);
    set_flag(&mut e, "enableFlip", true);
    set_flag(&mut e, "enableSlide", true);
    set_flag(&mut e, "enableZoom", true);
    set_words(&mut e, "fitMode", "cover");
    set_words(&mut e, "folderPath", "");
    set_words(&mut e, "photosAlbumName", "");
    set_flag(&mut e, "randomOrder", false);
    set_flag(&mut e, "smartCrop", true);
    set_words(&mut e, "sourceType", "local");
    set_real(&mut e, "transitionDuration", REAL_EIGHT_TENTHS);
    set_flag(&mut e, "videoSound", true);
    set_whole(&mut e, "videoVolume", 50);
    assert(entries_view(e@) =~= slideshow_settings()->Record_0);
    Document::Record(e)
}

fn particles() -> (doc: Document)
    ensures
        doc@ == particles_settings(),
{
    let mut e = begin();
    set_flag(&mut e, "colorful", true);
    set_words(&mut e, "particleColor", "#f59e0b");
    set_whole(&mut e, "particleCount", 80);
    set_whole(&mut e, "particleSize", 5);
    set_real(&mut e, "speed", REAL_HALF);
    set_real(&mut e, "spread", REAL_ONE_AND_HALF);
    assert(entries_view(e@) =~= particles_settings()->Record_0);
    Document::Record(e)
}

fn youtube() -> (doc: Document)
    ensures
        doc@ == youtube_settings(),
{
    let mut e = begin();
    set_flag(&mut e, "muted", true);
    set_flag(&mut e, "showControls", false);
    set_words(&mut e, "videoUrl", "https://youtu.be/uNNk-V08J7k?si=0chlR1UB6XYRxPc3");
    set_whole(&mut e, "volume", 50);
    assert(entries_view(e@) =~= youtube_settings()->Record_0);
    Document::Record(e)
}

fn techno() -> (doc: Document)
    ensures
        doc@ == techno_settings(),
{
    let mut e = begin();
    set_whole(&mut e, "barCount", 48);
    set_words(&mut e, "colorScheme", "rainbow");
    set_flag(&mut e, "showBars", true);
    set_flag(&mut e, "showSphere", false);
    set_real(&mut e, "sphereDistort", REAL_HALF);
    set_real(&mut e, "sphereScale", REAL_ONE);
    assert(entries_view(e@) =~= techno_settings()->Record_0);
    Document::Record(e)
}

fn centered() -> (doc: Document)
    ensures
        doc@ == centered_settings(),
{
    let mut e = begin();
    set_words(&mut e, "color", "#ffffff");
    set_whole(&mut e, "fontSize", 12);
    set_real(&mut e, "glowIntensity", REAL_HALF);
    set_words(&mut e, "position", "center");
    assert(entries_view(e@) =~= centered_settings()->Record_0);
    Document::Record(e)
}

/// The six visualization presets.
pub fn sample_visualization_presets() -> (presets: Vec<VisualizationPreset>)
    ensures
        visualization_presets_view(presets@) == default_visualization_presets(),
{
    let mut presets: Vec<VisualizationPreset> = Vec::new();
    presets.push(preset("fireplace-default", "Fireplace", "fireplace", fireplace()));
    presets.push(preset("fireplace-blue-glow", "Blue Glow", "fireplace", blue_glow()));
    presets.push(
        preset("photo-slideshow-default", "Photo Slideshow", "photo-slideshow", slideshow()),
    );
    presets.push(preset("particles-default", "Particles", "particles", particles()));
    presets.push(preset("youtube-default", "YouTube", "youtube", youtube()));
    presets.push(preset("techno-default", "Techno", "techno", techno()));
    presets
}

/// The one text-style preset.
pub fn sample_text_style_presets() -> (presets: Vec<TextStylePreset>)
    ensures
        text_style_presets_view(presets@) == default_text_style_presets(),
{
    let mut presets: Vec<TextStylePreset> = Vec::new();
    presets.push(
        TextStylePreset {
            id: String::from_str("scrolling-capitals-centered"),
            name: String::from_str("Scrolling Capitals Centered"),
            text_style_id: String::from_str("scrolling-capitals"),
            settings: centered(),
        },
    );
    presets
}

impl AppStateSync {
    /// The state at the start, with the built-in samples. It is consistent.
    pub fn new() -> (store: AppStateSync)
        ensures
            store@ == StoreView::initial(),
            store@.consistent(),
    {
        let messages = sample_messages();
        let message_tree = sample_message_tree(&messages);
        let mut enabled: Vec<String> = Vec::new();
        enabled.push(String::from_str("fireplace"));
        enabled.push(String::from_str("techno"));
        assert(texts(enabled@) =~= seq!["fireplace"@, "techno"@]);
        proof {
            lemma_initial_consistent();
        }
        AppStateSync {
            active_visualization: String::from_str("fireplace"),
            enabled_visualizations: enabled,
            common_settings: CommonSettings::default(),
            visualization_settings: Document::empty_record(),
            visualization_presets: sample_visualization_presets(),
            active_visualization_preset: Some(String::from_str("fireplace-blue-glow")),
            messages,
            message_tree,
            default_text_style: String::from_str("scrolling-capitals"),
            text_style_settings: Document::empty_record(),
            text_style_presets: sample_text_style_presets(),
            message_stats: Document::empty_record(),
            folder_playback_queue: None,
            config_base_path: None,
            server_port: DEFAULT_PORT,
            triggered_message: None,
        }
    }
}

impl Default for AppStateSync {
    /// The state at the start.
    fn default() -> (store: AppStateSync)
        ensures
            store@ == StoreView::initial(),
    {
        AppStateSync::new()
    }
}

} // verus!

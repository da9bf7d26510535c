//! Placement of the settings screen: the status of each module, sliders for
//! brightness, volume and microphone gain, and the voice picker.
//!
//! As with the face, painting is the graphics library's job; this module
//! only decides positions and contents.

use vstd::prelude::*;
use crate::config::{supported_voices, voice_names};
use crate::layout::{Color, Point, Rect, SCREEN_WIDTH};
use crate::module_status::{entries_of, Module, ModuleStatus, ModuleStatuses};
use crate::text::str_eq;

verus! {

/// Outer margin of the list.
pub const MARGIN: i16 = 6;
/// Height of the top band that holds only the close button.
pub const HEADER_HEIGHT: i16 = 20;
/// Height of one module's row. Six rows (no web search) fit the screen.
pub const ROW_HEIGHT: u16 = 34;
/// Side of the square icon.
pub const ICON_SIZE: u16 = 26;
/// Gap between the icon and the text.
pub const ICON_GAP: i16 = 8;
/// Side of the status badge.
pub const BADGE_SIZE: u16 = 14;
/// Thickness of a slider, centred in its row.
pub const SLIDER_HEIGHT: u16 = 12;
/// Range of the speaker volume slider (percent).
pub const SPEAKER_VOLUME_MIN: i32 = 0;
pub const SPEAKER_VOLUME_MAX: i32 = 100;
/// Range of the microphone gain slider (dB).
pub const MIC_GAIN_MIN: i32 = 0;
pub const MIC_GAIN_MAX: i32 = 42;
/// Range of the brightness slider (percent). Below 30 % the screen can
/// hardly be read.
pub const BRIGHTNESS_MIN: i32 = 30;
pub const BRIGHTNESS_MAX: i32 = 100;
/// Size of the voice picker, which shares the speaker's row with the volume
/// slider.
pub const VOICE_COMBO_WIDTH: u16 = 96;
pub const VOICE_COMBO_HEIGHT: u16 = 22;
pub const VOICE_COMBO_GAP: i16 = 6;
/// Side of the close button.
pub const CLOSE_BUTTON_SIZE: u16 = 20;

pub open spec fn rgb_ready() -> Color {
    Color { r: 90, g: 200, b: 120 }
}

pub open spec fn rgb_error() -> Color {
    Color { r: 230, g: 90, b: 70 }
}

pub open spec fn rgb_pending() -> Color {
    Color { r: 120, g: 190, b: 255 }
}

pub open spec fn rgb_settings_background() -> Color {
    Color { r: 12, g: 16, b: 24 }
}

/// The symbol drawn as a row's icon.
#[derive(Debug, Clone, Copy, PartialEq, Eq, Structural)]
pub enum IconSymbol {
    Display,
    SdCard,
    Microphone,
    Speaker,
    Wifi,
    RealtimeSession,
    WebSearch,
}

pub open spec fn icon_for(module: Module) -> IconSymbol {
    match module {
        Module::Display => IconSymbol::Display,
        Module::SdCard => IconSymbol::SdCard,
        Module::Microphone => IconSymbol::Microphone,
        Module::Speaker => IconSymbol::Speaker,
        Module::Wifi => IconSymbol::Wifi,
        Module::RealtimeSession => IconSymbol::RealtimeSession,
        Module::WebSearch => IconSymbol::WebSearch,
    }
}

impl IconSymbol {
    fn of(module: Module) -> (icon: Self)
        ensures
            icon == icon_for(module),
    {
        match module {
            Module::Display => IconSymbol::Display,
            Module::SdCard => IconSymbol::SdCard,
            Module::Microphone => IconSymbol::Microphone,
            Module::Speaker => IconSymbol::Speaker,
            Module::Wifi => IconSymbol::Wifi,
            Module::RealtimeSession => IconSymbol::RealtimeSession,
            Module::WebSearch => IconSymbol::WebSearch,
        }
    }
}

/// The small status badge at the right end of a row.
#[derive(Debug, Clone, Copy, PartialEq, Eq, Structural)]
pub enum BadgeSymbol {
    Checking,
    Good,
    Warning,
}

pub open spec fn badge_for(status: ModuleStatus) -> BadgeSymbol {
    match status {
        ModuleStatus::NotChecked | ModuleStatus::Checking => BadgeSymbol::Checking,
        ModuleStatus::Ready => BadgeSymbol::Good,
        ModuleStatus::Error => BadgeSymbol::Warning,
    }
}

impl BadgeSymbol {
    fn of(status: &ModuleStatus) -> (badge: Self)
        ensures
            badge == badge_for(*status),
    {
        match status {
            ModuleStatus::NotChecked | ModuleStatus::Checking => BadgeSymbol::Checking,
            ModuleStatus::Ready => BadgeSymbol::Good,
            ModuleStatus::Error => BadgeSymbol::Warning,
        }
    }
}

/// A slider placed where the status text would go.
#[derive(Debug, Clone, Copy, PartialEq, Eq, Structural)]
pub struct SliderSpec {
    pub area: Rect,
    pub min: i32,
    pub max: i32,
    pub value: i32,
}

/// One module's row. The icon says which module it is, so only the status
/// text is written next to it.
#[derive(Debug, Clone, PartialEq, Eq)]
pub struct StatusRow {
    pub icon: Rect,
    pub icon_symbol: IconSymbol,
    pub message_area: Rect,
    pub badge: Rect,
    pub badge_symbol: BadgeSymbol,
    /// Empty when ready, or when a slider takes the text's place.
    pub message: String,
    pub color: Color,
    /// Brightness, volume or gain, on the display, speaker and microphone
    /// rows once they are ready.
    pub slider: Option<SliderSpec>,
}

/// The voice picker, shown in the speaker's row once the conversation
/// session is ready. Opening and choosing are left to the graphics library.
#[derive(Debug, Clone, PartialEq, Eq)]
pub struct VoicePicker {
    pub area: Rect,
    pub options: Vec<&'static str>,
    /// Position of the current voice in `options`.
    pub selected_index: usize,
}

/// Placement of one frame of the settings screen.
#[derive(Debug, Clone, PartialEq, Eq)]
pub struct SettingsLayout {
    pub background: Color,
    pub rows: Vec<StatusRow>,
    pub voice_picker: Option<VoicePicker>,
    /// Back to the assistant; always in the top right corner.
    pub close_button: Rect,
}

pub open spec fn row_top(index: int) -> int {
    HEADER_HEIGHT + MARGIN + index * ROW_HEIGHT
}

pub open spec fn text_left() -> int {
    MARGIN + ICON_SIZE + ICON_GAP
}

pub open spec fn text_width() -> int {
    SCREEN_WIDTH - text_left() - MARGIN - BADGE_SIZE - ICON_GAP
}

pub open spec fn icon_rect(index: int) -> Rect {
    Rect {
        x: MARGIN,
        y: (row_top(index) + (ROW_HEIGHT - ICON_SIZE) / 2) as i16,
        width: ICON_SIZE,
        height: ICON_SIZE,
    }
}

pub open spec fn message_rect(index: int) -> Rect {
    Rect {
        x: text_left() as i16,
        y: row_top(index) as i16,
        width: text_width() as u16,
        height: ROW_HEIGHT,
    }
}

pub open spec fn badge_rect(index: int) -> Rect {
    Rect {
        x: (SCREEN_WIDTH - MARGIN - BADGE_SIZE) as i16,
        y: (row_top(index) + (ROW_HEIGHT - BADGE_SIZE) / 2) as i16,
        width: BADGE_SIZE,
        height: BADGE_SIZE,
    }
}

/// The picker's place: the right end of the speaker's text area.
pub open spec fn combo_rect(message_area: Rect) -> Rect {
    Rect {
        x: (message_area.right_edge() - VOICE_COMBO_WIDTH) as i16,
        y: (message_area.y + (message_area.height - VOICE_COMBO_HEIGHT) / 2) as i16,
        width: VOICE_COMBO_WIDTH,
        height: VOICE_COMBO_HEIGHT,
    }
}

pub open spec fn clamped(value: int, min: int, max: int) -> int {
    if value < min {
        min
    } else if value > max {
        max
    } else {
        value
    }
}

pub open spec fn slider_for(
    module: Module,
    message_area: Rect,
    width: int,
    brightness: u8,
    speaker_volume: u8,
    mic_gain_db: u8,
) -> Option<SliderSpec> {
    let area = Rect {
        x: message_area.x,
        y: (message_area.y + (message_area.height - SLIDER_HEIGHT) / 2) as i16,
        width: width as u16,
        height: SLIDER_HEIGHT,
    };
    match module {
        Module::Display => Some(
            SliderSpec {
                area,
                min: BRIGHTNESS_MIN,
                max: BRIGHTNESS_MAX,
                value: clamped(brightness as int, BRIGHTNESS_MIN as int, BRIGHTNESS_MAX as int) as i32,
            },
        ),
        Module::Speaker => Some(
            SliderSpec {
                area,
                min: SPEAKER_VOLUME_MIN,
                max: SPEAKER_VOLUME_MAX,
                value: clamped(
                    speaker_volume as int,
                    SPEAKER_VOLUME_MIN as int,
                    SPEAKER_VOLUME_MAX as int,
                ) as i32,
            },
        ),
        Module::Microphone => Some(
            SliderSpec {
                area,
                min: MIC_GAIN_MIN,
                max: MIC_GAIN_MAX,
                value: clamped(mic_gain_db as int, MIC_GAIN_MIN as int, MIC_GAIN_MAX as int) as i32,
            },
        ),
        _ => None,
    }
}

/// The short English word shown for a status; details stay in the log.
pub open spec fn message_text(status: ModuleStatus) -> Seq<char> {
    match status {
        ModuleStatus::NotChecked => Seq::empty(),
        ModuleStatus::Checking => "Checking..."@,
        ModuleStatus::Ready => "Ready"@,
        ModuleStatus::Error => "Failed"@,
    }
}

pub open spec fn color_for(status: ModuleStatus) -> Color {
    match status {
        ModuleStatus::NotChecked | ModuleStatus::Checking => rgb_pending(),
        ModuleStatus::Ready => rgb_ready(),
        ModuleStatus::Error => rgb_error(),
    }
}

/// The width left for the speaker's slider when the picker shares its row.
pub open spec fn slider_width(module: Module, realtime_ready: bool) -> int {
    if module == Module::Speaker && realtime_ready {
        text_width() - (VOICE_COMBO_WIDTH + VOICE_COMBO_GAP)
    } else {
        text_width()
    }
}

/// What the row of entry `index` holds.
pub open spec fn row_is(
    row: StatusRow,
    index: int,
    module: Module,
    status: ModuleStatus,
    realtime_ready: bool,
    brightness: u8,
    speaker_volume: u8,
    mic_gain_db: u8,
) -> bool {
    let slider = if status == ModuleStatus::Ready {
        slider_for(
            module,
            message_rect(index),
            slider_width(module, realtime_ready),
            brightness,
            speaker_volume,
            mic_gain_db,
        )
    } else {
        None
    };
    &&& row.icon == icon_rect(index)
    &&& row.icon_symbol == icon_for(module)
    &&& row.message_area == message_rect(index)
    &&& row.badge == badge_rect(index)
    &&& row.badge_symbol == badge_for(status)
    &&& row.message@ == (if slider is Some {
        Seq::empty()
    } else {
        message_text(status)
    })
    &&& row.color == color_for(status)
    &&& row.slider == slider
}

/// Position of a voice among the supported ones; the first for an unknown
/// voice.
pub open spec fn voice_index(voice: Seq<char>, from: nat) -> nat
    decreases voice_names().len() - from,
{
    if from >= voice_names().len() {
        0
    } else if voice_names()[from as int] == voice {
        from
    } else {
        voice_index(voice, from + 1)
    }
}

pub open spec fn close_rect() -> Rect {
    Rect {
        x: (SCREEN_WIDTH - MARGIN - CLOSE_BUTTON_SIZE) as i16,
        y: ((HEADER_HEIGHT - CLOSE_BUTTON_SIZE) / 2) as i16,
        width: CLOSE_BUTTON_SIZE,
        height: CLOSE_BUTTON_SIZE,
    }
}

/// Index of the speaker's row, which holds the voice picker.
pub open spec fn speaker_row() -> int {
    3
}

/// What the settings screen shows for the given statuses and settings.
pub open spec fn settings_layout_is(
    layout: SettingsLayout,
    statuses: ModuleStatuses,
    current_voice: Seq<char>,
    brightness: u8,
    speaker_volume: u8,
    mic_gain_db: u8,
) -> bool {
    let entries = entries_of(statuses);
    let realtime_ready = statuses.realtime_session == ModuleStatus::Ready;
    &&& layout.background == rgb_settings_background()
    &&& layout.rows@.len() == entries.len()
    &&& forall|i: int|
        0 <= i < entries.len() ==> row_is(
            #[trigger] layout.rows@[i],
            i,
            entries[i].0,
            entries[i].1,
            realtime_ready,
            brightness,
            speaker_volume,
            mic_gain_db,
        )
    &&& layout.close_button == close_rect()
    &&& (layout.voice_picker is Some <==> realtime_ready)
    &&& (layout.voice_picker matches Some(picker) ==> {
        &&& picker.area == combo_rect(message_rect(speaker_row()))
        &&& picker.options@.len() == voice_names().len()
        &&& (forall|k: int|
            0 <= k < picker.options@.len() ==> (#[trigger] picker.options@[k])@ == voice_names()[k])
        &&& picker.selected_index == voice_index(current_voice, 0)
    })
}

/// Places the settings screen.
///
/// `current_voice` is the chosen voice; an unsupported one (which a checked
/// configuration never holds) selects the first voice. `brightness` and
/// `speaker_volume` (percent) and `mic_gain_db` are the current values given
/// to the sliders of the rows that are ready.
pub fn lay_out_settings(
    statuses: &ModuleStatuses,
    current_voice: &str,
    brightness: u8,
    speaker_volume: u8,
    mic_gain_db: u8,
) -> (layout: SettingsLayout)
    ensures
        settings_layout_is(layout, *statuses, current_voice@, brightness, speaker_volume, mic_gain_db),
{
    let entries = statuses.entries();
    let realtime_ready = statuses.realtime_session.is_ready();
    let mut rows: Vec<StatusRow> = Vec::new();
    let mut voice_picker: Option<VoicePicker> = None;
    let ghost spec_entries = entries_of(*statuses);
    let mut index: usize = 0;
    while index < entries.len()
        invariant
            index <= entries.len(),
            entries@.len() == spec_entries.len(),
            spec_entries == entries_of(*statuses),
            spec_entries.len() <= 7,
            forall|j: int|
                0 <= j < entries@.len() ==> (#[trigger] entries@[j]).0 == spec_entries[j].0
                    && *entries@[j].1 == spec_entries[j].1,
            realtime_ready == (statuses.realtime_session == ModuleStatus::Ready),
            rows@.len() == index,
            forall|j: int|
                0 <= j < index ==> row_is(
                    #[trigger] rows@[j],
                    j,
                    spec_entries[j].0,
                    spec_entries[j].1,
                    realtime_ready,
                    brightness,
                    speaker_volume,
                    mic_gain_db,
                ),
            index <= speaker_row() ==> voice_picker is None,
            index > speaker_row() ==> (voice_picker is Some <==> realtime_ready),
            voice_picker matches Some(picker) ==> {
                &&& picker.area == combo_rect(message_rect(speaker_row()))
                &&& picker.options@.len() == voice_names().len()
                &&& (forall|k: int|
                    0 <= k < picker.options@.len() ==> (#[trigger] picker.options@[k])@
                        == voice_names()[k])
                &&& picker.selected_index == voice_index(current_voice@, 0)
            },
        decreases entries.len() - index,
    {
        let (module, status) = entries[index];
        let y = HEADER_HEIGHT + MARGIN + index as i16 * ROW_HEIGHT as i16;
        let icon = Rect {
            x: MARGIN,
            y: y + (ROW_HEIGHT as i16 - ICON_SIZE as i16) / 2,
            width: ICON_SIZE,
            height: ICON_SIZE,
        };
        let text_x = icon.right() + ICON_GAP;
        let text_width = (SCREEN_WIDTH - text_x - MARGIN - BADGE_SIZE as i16 - ICON_GAP) as u16;
        let message_area = Rect { x: text_x, y, width: text_width, height: ROW_HEIGHT };
        let badge = Rect {
            x: SCREEN_WIDTH - MARGIN - BADGE_SIZE as i16,
            y: y + (ROW_HEIGHT as i16 - BADGE_SIZE as i16) / 2,
            width: BADGE_SIZE,
            height: BADGE_SIZE,
        };
        // The picker shares only the speaker's row with the volume slider.
        let show_combo = module == Module::Speaker && realtime_ready;
        if show_combo {
            voice_picker = Some(
                VoicePicker {
                    area: combo_area(message_area),
                    options: supported_voices(),
                    selected_index: position_of_voice(current_voice),
                },
            );
        }
        let slider_width = if show_combo {
            message_area.width - (VOICE_COMBO_WIDTH + VOICE_COMBO_GAP as u16)
        } else {
            message_area.width
        };
        let slider = if status.is_ready() {
            slider_of(module, message_area, slider_width, brightness, speaker_volume, mic_gain_db)
        } else {
            None
        };
        let message = if slider.is_some() {
            String::new()
        } else {
            message_of(status)
        };
        rows.push(
            StatusRow {
                icon,
                icon_symbol: IconSymbol::of(module),
                message_area,
                badge,
                badge_symbol: BadgeSymbol::of(status),
                message,
                color: color_of(status),
                slider,
            },
        );
        index = index + 1;
    }
    let close_button = Rect {
        x: SCREEN_WIDTH - MARGIN - CLOSE_BUTTON_SIZE as i16,
        y: (HEADER_HEIGHT - CLOSE_BUTTON_SIZE as i16) / 2,
        width: CLOSE_BUTTON_SIZE,
        height: CLOSE_BUTTON_SIZE,
    };
    SettingsLayout {
        background: Color { r: 12, g: 16, b: 24 },
        rows,
        voice_picker,
        close_button,
    }
}

/// Position of `voice` among the supported voices, or 0 when unsupported.
fn position_of_voice(voice: &str) -> (index: usize)
    ensures
        index == voice_index(voice@, 0),
{
    let voices = supported_voices();
    let mut i: usize = 0;
    while i < voices.len()
        invariant
            i <= voices@.len(),
            voices@.len() == voice_names().len(),
            forall|k: int| 0 <= k < voices@.len() ==> (#[trigger] voices@[k])@ == voice_names()[k],
            voice_index(voice@, 0) == voice_index(voice@, i as nat),
        decreases voices.len() - i,
    {
        if str_eq(voices[i], voice) {
            return i;
        }
        i = i + 1;
    }
    0
}

/// Whether a tap hit the close button.
pub fn close_button_at(layout: &SettingsLayout, at: Point) -> (hit: bool)
    requires
        layout.close_button.right_edge() <= i16::MAX,
        layout.close_button.bottom_edge() <= i16::MAX,
        layout.close_button.width <= i16::MAX,
        layout.close_button.height <= i16::MAX,
    ensures
        hit == (layout.close_button.x <= at.x < layout.close_button.right_edge()
            && layout.close_button.y <= at.y < layout.close_button.bottom_edge()),
{
    contains(&layout.close_button, at)
}

fn contains(rect: &Rect, at: Point) -> (hit: bool)
    requires
        rect.right_edge() <= i16::MAX,
        rect.bottom_edge() <= i16::MAX,
        rect.width <= i16::MAX,
        rect.height <= i16::MAX,
    ensures
        hit == (rect.x <= at.x < rect.right_edge() && rect.y <= at.y < rect.bottom_edge()),
{
    rect.x <= at.x && at.x < rect.x + rect.width as i16 && rect.y <= at.y && at.y < rect.y
        + rect.height as i16
}

/// The right end of the speaker's text area goes to the voice picker.
fn combo_area(message_area: Rect) -> (area: Rect)
    requires
        0 <= message_area.x <= 1000,
        0 <= message_area.y <= 1000,
        VOICE_COMBO_WIDTH <= message_area.width <= 1000,
        VOICE_COMBO_HEIGHT <= message_area.height <= 1000,
    ensures
        area == combo_rect(message_area),
{
    Rect {
        x: message_area.x + message_area.width as i16 - VOICE_COMBO_WIDTH as i16,
        y: message_area.y + (message_area.height as i16 - VOICE_COMBO_HEIGHT as i16) / 2,
        width: VOICE_COMBO_WIDTH,
        height: VOICE_COMBO_HEIGHT,
    }
}

/// Only short English words are shown: the device has no Japanese font, and
/// details are written to the serial log instead.
fn message_of(status: &ModuleStatus) -> (message: String)
    ensures
        message@ == message_text(*status),
{
    match status {
        ModuleStatus::NotChecked => String::new(),
        ModuleStatus::Checking => String::from_str("Checking..."),
        ModuleStatus::Ready => String::from_str("Ready"),
        ModuleStatus::Error => String::from_str("Failed"),
    }
}

/// Sliders for the display, speaker and microphone rows; `width` may be
/// narrowed to leave room for the voice picker.
fn slider_of(
    module: Module,
    message_area: Rect,
    width: u16,
    brightness: u8,
    speaker_volume: u8,
    mic_gain_db: u8,
) -> (slider: Option<SliderSpec>)
    requires
        0 <= message_area.y <= 1000,
        SLIDER_HEIGHT <= message_area.height <= 1000,
    ensures
        slider == slider_for(module, message_area, width as int, brightness, speaker_volume, mic_gain_db),
{
    let area = Rect {
        x: message_area.x,
        y: message_area.y + (message_area.height as i16 - SLIDER_HEIGHT as i16) / 2,
        width,
        height: SLIDER_HEIGHT,
    };
    match module {
        Module::Display => Some(
            SliderSpec {
                area,
                min: BRIGHTNESS_MIN,
                max: BRIGHTNESS_MAX,
                value: clamp(brightness as i32, BRIGHTNESS_MIN, BRIGHTNESS_MAX),
            },
        ),
        Module::Speaker => Some(
            SliderSpec {
                area,
                min: SPEAKER_VOLUME_MIN,
                max: SPEAKER_VOLUME_MAX,
                value: clamp(speaker_volume as i32, SPEAKER_VOLUME_MIN, SPEAKER_VOLUME_MAX),
            },
        ),
        Module::Microphone => Some(
            SliderSpec {
                area,
                min: MIC_GAIN_MIN,
                max: MIC_GAIN_MAX,
                value: clamp(mic_gain_db as i32, MIC_GAIN_MIN, MIC_GAIN_MAX),
            },
        ),
        _ => None,
    }
}

fn clamp(value: i32, min: i32, max: i32) -> (c: i32)
    requires
        min <= max,
    ensures
        c == clamped(value as int, min as int, max as int),
{
    if value < min {
        min
    } else if value > max {
        max
    } else {
        value
    }
}

fn color_of(status: &ModuleStatus) -> (c: Color)
    ensures
        c == color_for(*status),
{
    match status {
        ModuleStatus::NotChecked | ModuleStatus::Checking => Color { r: 120, g: 190, b: 255 },
        ModuleStatus::Ready => Color { r: 90, g: 200, b: 120 },
        ModuleStatus::Error => Color { r: 230, g: 90, b: 70 },
    }
}

/// Every row, the picker and the close button lie within the screen's
/// width; without web search the six rows also fit its height (with it the
/// list may scroll).
pub proof fn law_settings_fit_the_screen(
    layout: SettingsLayout,
    statuses: ModuleStatuses,
    current_voice: Seq<char>,
    brightness: u8,
    speaker_volume: u8,
    mic_gain_db: u8,
)
    requires
        settings_layout_is(layout, statuses, current_voice, brightness, speaker_volume, mic_gain_db),
    ensures
        forall|i: int|
            0 <= i < layout.rows@.len() ==> {
                let row = #[trigger] layout.rows@[i];
                &&& 0 <= row.icon.x && row.icon.right_edge() <= SCREEN_WIDTH
                &&& row.message_area.right_edge() <= SCREEN_WIDTH
                &&& row.badge.right_edge() <= SCREEN_WIDTH
                &&& (statuses.web_search is None ==> row.message_area.bottom_edge()
                    <= crate::layout::SCREEN_HEIGHT)
            },
        layout.voice_picker matches Some(p) ==> 0 <= p.area.x && p.area.right_edge()
            <= SCREEN_WIDTH,
        0 <= layout.close_button.x && layout.close_button.right_edge() <= SCREEN_WIDTH,
{
    assert forall|i: int| 0 <= i < layout.rows@.len() implies {
        let row = #[trigger] layout.rows@[i];
        &&& 0 <= row.icon.x && row.icon.right_edge() <= SCREEN_WIDTH
        &&& row.message_area.right_edge() <= SCREEN_WIDTH
        &&& row.badge.right_edge() <= SCREEN_WIDTH
        &&& (statuses.web_search is None ==> row.message_area.bottom_edge()
            <= crate::layout::SCREEN_HEIGHT)
    } by {
        let e = entries_of(statuses);
        assert(row_is(
            layout.rows@[i],
            i,
            e[i].0,
            e[i].1,
            statuses.realtime_session == ModuleStatus::Ready,
            brightness,
            speaker_volume,
            mic_gain_db,
        ));
        assert(e.len() <= 7);
    }
}

/// A slider always lies within its row's text area, and the voice picker
/// sits to the right of the speaker's slider without overlapping it.
pub proof fn law_sliders_stay_in_their_rows(
    layout: SettingsLayout,
    statuses: ModuleStatuses,
    current_voice: Seq<char>,
    brightness: u8,
    speaker_volume: u8,
    mic_gain_db: u8,
)
    requires
        settings_layout_is(layout, statuses, current_voice, brightness, speaker_volume, mic_gain_db),
    ensures
        forall|i: int|
            0 <= i < layout.rows@.len() ==> ((#[trigger] layout.rows@[i]).slider matches Some(s)
                ==> s.area.inside(layout.rows@[i].message_area)),
        layout.voice_picker matches Some(p) ==> ({
            let speaker = layout.rows@[speaker_row()];
            &&& speaker.slider matches Some(s) ==> s.area.right_edge() <= p.area.x
            &&& p.area.right_edge() <= speaker.message_area.right_edge()
        }),
        forall|i: int|
            0 <= i < layout.rows@.len() ==> ((#[trigger] layout.rows@[i]).slider is Some
                ==> (layout.rows@[i].icon_symbol == IconSymbol::Display
                || layout.rows@[i].icon_symbol == IconSymbol::Speaker
                || layout.rows@[i].icon_symbol == IconSymbol::Microphone)),
{
    let e = entries_of(statuses);
    let rr = statuses.realtime_session == ModuleStatus::Ready;
    assert forall|i: int|
        0 <= i < layout.rows@.len() implies ((#[trigger] layout.rows@[i]).slider matches Some(s)
            ==> s.area.inside(layout.rows@[i].message_area)) by {
        assert(row_is(layout.rows@[i], i, e[i].0, e[i].1, rr, brightness, speaker_volume, mic_gain_db));
        assert(e.len() <= 7);
    }
    assert forall|i: int|
        0 <= i < layout.rows@.len() implies ((#[trigger] layout.rows@[i]).slider is Some
            ==> (layout.rows@[i].icon_symbol == IconSymbol::Display
            || layout.rows@[i].icon_symbol == IconSymbol::Speaker
            || layout.rows@[i].icon_symbol == IconSymbol::Microphone)) by {
        assert(row_is(layout.rows@[i], i, e[i].0, e[i].1, rr, brightness, speaker_volume, mic_gain_db));
    }
    if layout.voice_picker is Some {
        assert(row_is(
            layout.rows@[speaker_row()],
            speaker_row(),
            e[speaker_row()].0,
            e[speaker_row()].1,
            rr,
            brightness,
            speaker_volume,
            mic_gain_db,
        ));
    }
}

} // verus!

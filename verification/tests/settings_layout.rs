use m5a_core::config::SUPPORTED_VOICES;
use m5a_core::layout::{Point, SCREEN_HEIGHT, SCREEN_WIDTH};
use m5a_core::module_status::{ModuleStatus, ModuleStatuses};
use m5a_core::settings_layout::{close_button_at, lay_out_settings, IconSymbol, SettingsLayout};


/// テストで使う既定の明るさ・スピーカー音量・マイク感度。
const BRIGHTNESS: u8 = 50;
const VOLUME: u8 = 80;
const GAIN_DB: u8 = 36;

fn ready_statuses() -> ModuleStatuses {
    let mut statuses = ModuleStatuses::booting();
    statuses.sd_card = ModuleStatus::Ready;
    statuses.microphone = ModuleStatus::Ready;
    statuses.speaker = ModuleStatus::Ready;
    statuses.wifi = ModuleStatus::Ready;
    statuses.realtime_session = ModuleStatus::Ready;
    statuses
}

fn layout_of(statuses: &ModuleStatuses, current_voice: &str) -> SettingsLayout {
    lay_out_settings(statuses, current_voice, BRIGHTNESS, VOLUME, GAIN_DB)
}

/// モジュールの数が多い（WebSearchを含む）場合、縦方向は画面高さを
/// 超えることがある。設定画面はスクロールを許すため、横方向だけを
/// 画面内に収める規則として検証する。
#[test]
fn everything_stays_within_the_screen_width() {
    let mut statuses = ready_statuses();
    statuses.web_search = Some(ModuleStatus::Error);
    let layout = layout_of(&statuses, "marin");

    for row in &layout.rows {
        assert!(row.icon.x >= 0 && row.icon.right() <= SCREEN_WIDTH);
        assert!(row.message_area.right() <= SCREEN_WIDTH);
        assert!(row.badge.right() <= SCREEN_WIDTH);
    }
    let picker = layout.voice_picker.expect("realtime is ready");
    assert!(picker.area.x >= 0 && picker.area.right() <= SCREEN_WIDTH);
    assert!(layout.close_button.x >= 0 && layout.close_button.right() <= SCREEN_WIDTH);
}

/// モジュール数が少ない標準構成（WebSearch無効）では、声の一覧まで
/// 含めて画面の高さにも収まる。
#[test]
fn typical_layout_without_web_search_fits_the_screen_height() {
    let layout = layout_of(&ready_statuses(), "marin");

    let lowest = layout
        .rows
        .iter()
        .map(|row| row.message_area.bottom())
        .max()
        .unwrap_or(0);
    assert!(lowest <= SCREEN_HEIGHT);
}

#[test]
fn web_search_row_appears_only_when_configured() {
    let without_search = layout_of(&ready_statuses(), "marin");
    assert_eq!(without_search.rows.len(), 6);

    let mut with_search = ready_statuses();
    with_search.web_search = Some(ModuleStatus::Ready);
    let with_search = layout_of(&with_search, "marin");
    assert_eq!(with_search.rows.len(), 7);
}

#[test]
fn voice_picker_appears_only_when_realtime_session_is_ready() {
    let mut statuses = ready_statuses();
    statuses.realtime_session = ModuleStatus::Checking;
    let layout = layout_of(&statuses, "marin");

    assert!(layout.voice_picker.is_none());
}

#[test]
fn voice_picker_lists_every_supported_voice_and_marks_the_current_one() {
    let layout = layout_of(&ready_statuses(), "cedar");
    let picker = layout.voice_picker.expect("realtime is ready");

    assert_eq!(picker.options, SUPPORTED_VOICES);
    assert_eq!(picker.options[picker.selected_index], "cedar");
}

#[test]
fn voice_picker_defaults_to_the_first_option_for_an_unknown_voice() {
    let layout = layout_of(&ready_statuses(), "does-not-exist");
    let picker = layout.voice_picker.expect("realtime is ready");

    assert_eq!(picker.selected_index, 0);
}

#[test]
fn close_button_hits_only_its_own_area() {
    let layout = layout_of(&ready_statuses(), "marin");
    let inside = Point::new(layout.close_button.x + 1, layout.close_button.y + 1);
    let outside = Point::new(0, SCREEN_HEIGHT - 1);

    assert!(close_button_at(&layout, inside));
    assert!(!close_button_at(&layout, outside));
}

#[test]
fn error_status_shows_a_short_failed_label() {
    let mut statuses = ready_statuses();
    statuses.wifi = ModuleStatus::Error;
    let layout = layout_of(&statuses, "marin");

    let wifi_row = layout
        .rows
        .iter()
        .find(|row| row.icon_symbol == IconSymbol::Wifi)
        .expect("wifi row exists");
    assert_eq!(wifi_row.message, "Failed");
}

#[test]
fn display_speaker_and_microphone_show_a_slider_once_ready() {
    let layout = layout_of(&ready_statuses(), "marin");

    let display_row = layout
        .rows
        .iter()
        .find(|row| row.icon_symbol == IconSymbol::Display)
        .expect("display row exists");
    let slider = display_row.slider.expect("display is always ready");
    assert_eq!(slider.value, i32::from(BRIGHTNESS));
    assert_eq!((slider.min, slider.max), (30, 100));
    assert!(display_row.message.is_empty());

    let speaker_row = layout
        .rows
        .iter()
        .find(|row| row.icon_symbol == IconSymbol::Speaker)
        .expect("speaker row exists");
    let slider = speaker_row.slider.expect("speaker is ready");
    assert_eq!(slider.value, i32::from(VOLUME));
    assert_eq!((slider.min, slider.max), (0, 100));
    assert!(speaker_row.message.is_empty());

    let mic_row = layout
        .rows
        .iter()
        .find(|row| row.icon_symbol == IconSymbol::Microphone)
        .expect("microphone row exists");
    let slider = mic_row.slider.expect("microphone is ready");
    assert_eq!(slider.value, i32::from(GAIN_DB));
    assert!(mic_row.message.is_empty());
}

#[test]
fn slider_is_absent_until_the_module_is_ready() {
    let mut statuses = ready_statuses();
    statuses.microphone = ModuleStatus::Checking;
    statuses.speaker = ModuleStatus::Error;
    let layout = layout_of(&statuses, "marin");

    let mic_row = layout
        .rows
        .iter()
        .find(|row| row.icon_symbol == IconSymbol::Microphone)
        .expect("microphone row exists");
    assert!(mic_row.slider.is_none());
    assert_eq!(mic_row.message, "Checking...");

    let speaker_row = layout
        .rows
        .iter()
        .find(|row| row.icon_symbol == IconSymbol::Speaker)
        .expect("speaker row exists");
    assert!(speaker_row.slider.is_none());
    assert_eq!(speaker_row.message, "Failed");
}

#[test]
fn other_rows_never_get_a_slider() {
    let layout = layout_of(&ready_statuses(), "marin");

    assert!(layout
        .rows
        .iter()
        .filter(|row| !matches!(
            row.icon_symbol,
            IconSymbol::Display | IconSymbol::Speaker | IconSymbol::Microphone
        ))
        .all(|row| row.slider.is_none()));
}

#[test]
fn slider_area_stays_within_the_message_area() {
    let layout = layout_of(&ready_statuses(), "marin");

    for row in &layout.rows {
        if let Some(slider) = row.slider {
            assert!(slider.area.x >= row.message_area.x);
            assert!(slider.area.right() <= row.message_area.right());
            assert!(slider.area.y >= row.message_area.y);
            assert!(slider.area.bottom() <= row.message_area.bottom());
        }
    }
}

#[test]
fn voice_combo_sits_beside_the_speaker_slider_without_overlap() {
    let layout = layout_of(&ready_statuses(), "marin");

    let speaker_row = layout
        .rows
        .iter()
        .find(|row| row.icon_symbol == IconSymbol::Speaker)
        .expect("speaker row exists");
    let slider = speaker_row.slider.expect("speaker is ready");
    let picker = layout.voice_picker.expect("realtime is ready");

    assert!(slider.area.right() <= picker.area.x);
    assert!(picker.area.right() <= speaker_row.message_area.right());
}

#[test]
fn speaker_slider_uses_the_full_width_when_the_combo_is_absent() {
    let mut statuses = ready_statuses();
    statuses.realtime_session = ModuleStatus::Checking;
    let layout = layout_of(&statuses, "marin");

    let speaker_row = layout
        .rows
        .iter()
        .find(|row| row.icon_symbol == IconSymbol::Speaker)
        .expect("speaker row exists");
    let slider = speaker_row.slider.expect("speaker is ready");

    assert_eq!(slider.area.width, speaker_row.message_area.width);
    assert!(layout.voice_picker.is_none());
}

use m5a_core::config::{parse_config, ConfigError, CONFIG_TEMPLATE};
use m5a_core::guardrail::Guardrail;
use m5a_core::logbook::{LogEntry, Speaker};
use m5a_core::memory::{memory_text, tool_definitions, Memory, MEMORY_PATH};
use m5a_core::module_status::{ModuleStatus, ModuleStatuses};
use m5a_core::ports::{Storage, StorageError};
use m5a_core::layout::Point;
use m5a_core::realtime::{build_audio_append, ServerEvent};
use m5a_core::runtime::{
    after_log_write, captured_messages, flush_logs, flush_memory, Conversation, parent_notes, plan_tool_call, playback_event, sd_card_status, search_output,
    server_app_event, session_setup, touch_event, turn_event, PendingLogs, SearchProgress, ToolPlan,
    TouchChange, TouchTracker, MAX_PENDING_LOGS, SD_WRITE_HEADROOM,
};
use m5a_core::search::{build_request, tool_definition, TOOL_NAME};
use m5a_core::state::{AppEvent, AppState};
use m5a_core::turn_detector::TurnOutcome;

#[test]
fn finished_turns_become_events() {
    assert_eq!(turn_event(TurnOutcome::SpeechEnded), AppEvent::SpeechEnded);
    assert_eq!(turn_event(TurnOutcome::NothingSaid), AppEvent::SpeechNotDetected);
}

#[test]
fn only_an_unreadable_card_is_a_card_problem() {
    assert_eq!(
        sd_card_status(&Err(ConfigError::Unreadable(StorageError::NotFound))),
        ModuleStatus::Error
    );
    assert_eq!(sd_card_status(&Err(ConfigError::TemplateCreated)), ModuleStatus::Ready);
    assert_eq!(sd_card_status(&parse_config(CONFIG_TEMPLATE)), ModuleStatus::Ready);
}

#[test]
fn tool_calls_are_answered_or_searched() {
    assert_eq!(
        plan_tool_call("open_door", Some("tvly-1"), r#"{"query": "うみ"}"#),
        ToolPlan::Reply("それはできません".to_string())
    );
    assert_eq!(
        plan_tool_call("remember_topic", None, r#"{"topic": " うみ "}"#),
        ToolPlan::RememberTopic("うみ".to_string())
    );
    assert_eq!(
        plan_tool_call("remember_topic", None, r#"{"query": "うみ"}"#),
        ToolPlan::Reply("それはできません".to_string())
    );
    assert_eq!(
        plan_tool_call("remember_summary", None, r#"{"summary": "うみが すき"}"#),
        ToolPlan::RememberSummary("うみが すき".to_string())
    );
    assert_eq!(
        plan_tool_call(TOOL_NAME, None, r#"{"query": "うみ"}"#),
        ToolPlan::Reply("今は調べられません".to_string())
    );
    assert_eq!(
        plan_tool_call(TOOL_NAME, Some("tvly-1"), r#"{"query": "  "}"#),
        ToolPlan::Reply("何を調べるか分かりませんでした".to_string())
    );
    let ToolPlan::Search(request) = plan_tool_call(TOOL_NAME, Some("tvly-1"), r#"{"query": " うみ "}"#)
    else {
        panic!("a query with a key is searched");
    };
    assert!(request.body.contains(r#""query":"うみ""#));
    assert_eq!(request.headers[0].1, "Bearer tvly-1");
    assert_eq!(request, build_request("うみ", "tvly-1"));
}

#[test]
fn worrying_words_leave_notes_for_the_parent() {
    let guardrail = Guardrail::new("はると", 5, "ルナ");

    assert!(parent_notes(&guardrail, "きょうりゅう すき").is_empty());
    assert_eq!(
        parent_notes(&guardrail, "もう しにたい"),
        vec![
            "気になる発言がありました: もう しにたい".to_string(),
            "はると、つらい気持ちがあるんだね。教えてくれてありがとう。おうちの人にいっしょに話してみよう。"
                .to_string(),
        ]
    );
    assert_eq!(
        parent_notes(&guardrail, "せっくす"),
        vec!["はると、それは大人になってからのお話だよ。他のことをお喋りしよう".to_string()]
    );
}

#[test]
fn the_session_offers_search_only_with_a_key() {
    let filled = CONFIG_TEMPLATE
        .replace("なまえをここに", "はると")
        .replace("WiFiのSSIDをここに", "home")
        .replace("WiFiのパスワードをここに", "pass")
        .replace("sk-ここにAPIキーを", "sk-proj-1");
    let config = parse_config(&filled).expect("filled in");
    let guardrail = Guardrail::new(&config.child.name, config.child.age, &config.assistant.name);

    let plain = session_setup(&config, &guardrail, &Memory::default());
    assert_eq!(plain.model, "gpt-realtime-2.1-mini");
    assert_eq!(plain.voice, "marin");
    assert_eq!(plain.instructions, guardrail.build_instructions());
    assert_eq!(plain.tools, tool_definitions());

    let with_key = format!("{filled}\n[search]\napi_key = \"tvly-1\"\n");
    let config = parse_config(&with_key).expect("filled in");
    let mut memory = Memory::default();
    memory.remember_topic("うみ");
    let searching = session_setup(&config, &guardrail, &memory);
    assert_eq!(
        searching.instructions,
        guardrail.build_instructions() + &memory.build_instructions_fragment()
    );
    let mut expected = vec![tool_definition()];
    expected.extend(tool_definitions());
    assert_eq!(searching.tools, expected);
}

#[test]
fn waiting_lines_are_capped_and_keep_the_newest() {
    let mut pending = PendingLogs::new();

    for second in 0..(MAX_PENDING_LOGS as i64 + 10) {
        pending.record(LogEntry::new(second + 1, Speaker::Child, "あ"));
        assert!(pending.len() <= MAX_PENDING_LOGS);
    }

    let lines = pending.take_all();
    assert_eq!(lines.len(), MAX_PENDING_LOGS);
    assert_eq!(lines[0].at_unix, 11);
    assert_eq!(lines.last().unwrap().at_unix, MAX_PENDING_LOGS as i64 + 10);
    assert_eq!(pending.len(), 0);
}

#[test]
fn touches_report_only_their_changes() {
    let mut tracker = TouchTracker::new();
    let at = Point::new(30, 40);

    assert_eq!(tracker.observe(false, at), None);
    assert_eq!(tracker.observe(true, at), Some(TouchChange::Pressed(at)));
    assert_eq!(tracker.observe(true, Point::new(31, 41)), None);
    assert_eq!(tracker.observe(false, at), Some(TouchChange::Released));
    assert_eq!(tracker.observe(false, at), None);
}

#[test]
fn a_press_on_the_screen_asks_to_talk() {
    assert_eq!(
        touch_event(TouchChange::Pressed(Point::new(5, 5))),
        Some(AppEvent::TalkPressed)
    );
    assert_eq!(touch_event(TouchChange::Pressed(Point::new(-5, 5))), None);
    assert_eq!(touch_event(TouchChange::Released), Some(AppEvent::TalkReleased));
}

#[test]
fn an_answer_ends_only_once_its_audio_has_played() {
    assert_eq!(
        server_app_event(&ServerEvent::ResponseFinished, true),
        None
    );
    assert_eq!(playback_event(true, true), None);
    assert_eq!(playback_event(true, false), Some(AppEvent::ResponseFinished));
    assert_eq!(
        server_app_event(&ServerEvent::ResponseFinished, false),
        Some(AppEvent::ResponseFinished)
    );
    assert_eq!(playback_event(false, false), None);
}

#[test]
fn server_events_move_the_state_machine() {
    assert_eq!(
        server_app_event(&ServerEvent::SessionConfigured, false),
        Some(AppEvent::SessionOpened)
    );
    assert_eq!(
        server_app_event(&ServerEvent::AudioDelta(vec![1]), true),
        Some(AppEvent::ResponseStarted)
    );
    assert_eq!(server_app_event(&ServerEvent::SessionCreated, false), None);
    assert_eq!(
        server_app_event(&ServerEvent::ChildSaid("うん".to_string()), false),
        None
    );
}

/// A card that keeps its files and every appended piece, and can be made to
/// refuse writes.
#[derive(Default)]
struct LogCard {
    files: std::collections::BTreeMap<String, String>,
    appended: Vec<(String, String)>,
    refuse: bool,
}

impl Storage for LogCard {
    fn files(&self) -> vstd::map::Map<vstd::seq::Seq<char>, vstd::seq::Seq<char>> {
        unreachable!("a specification, never called")
    }

    fn dirs(&self) -> vstd::set::Set<vstd::seq::Seq<char>> {
        unreachable!("a specification, never called")
    }

    fn file_exists(&self, path: &str) -> bool {
        self.files.contains_key(path)
    }

    fn read_text(&self, path: &str) -> Result<String, StorageError> {
        self.files.get(path).cloned().ok_or(StorageError::NotFound)
    }

    fn write_text(&mut self, path: &str, contents: &str) -> Result<(), StorageError> {
        if self.refuse {
            return Err(StorageError::Io("書けません".to_string()));
        }
        self.files.insert(path.to_string(), contents.to_string());
        Ok(())
    }

    fn append_text(&mut self, path: &str, contents: &str) -> Result<(), StorageError> {
        if self.refuse {
            return Err(StorageError::Io("書けません".to_string()));
        }
        self.files.entry(path.to_string()).or_default().push_str(contents);
        self.appended.push((path.to_string(), contents.to_string()));
        Ok(())
    }

    fn create_dir(&mut self, _path: &str) -> Result<(), StorageError> {
        Ok(())
    }
}

fn two_lines() -> PendingLogs {
    let mut pending = PendingLogs::new();
    pending.record(LogEntry::new(0, Speaker::Child, "おはよう"));
    pending.record(LogEntry::new(60, Speaker::Assistant, "おはよう！"));
    pending
}

#[test]
fn waiting_lines_are_written_oldest_first() {
    let mut pending = two_lines();
    let mut card = LogCard::default();
    let mut statuses = ModuleStatuses::booting();

    flush_logs(&mut pending, &mut card, SD_WRITE_HEADROOM, &mut statuses);

    assert_eq!(pending.len(), 0);
    assert_eq!(card.appended.len(), 2);
    assert_eq!(card.appended[0].1, LogEntry::new(0, Speaker::Child, "おはよう").format());
    assert_eq!(card.appended[1].1, LogEntry::new(60, Speaker::Assistant, "おはよう！").format());
    assert_eq!(statuses, ModuleStatuses::booting());
}

#[test]
fn lines_wait_while_memory_is_short() {
    let mut pending = two_lines();
    let mut card = LogCard::default();
    let mut statuses = ModuleStatuses::booting();

    flush_logs(&mut pending, &mut card, SD_WRITE_HEADROOM - 1, &mut statuses);

    assert_eq!(pending.len(), 2);
    assert!(card.appended.is_empty());
    assert_eq!(SD_WRITE_HEADROOM, 12 * 1024);
}

#[test]
fn a_refusing_card_is_marked_and_the_lines_dropped() {
    let mut pending = two_lines();
    let mut card = LogCard { refuse: true, ..LogCard::default() };
    let mut statuses = ModuleStatuses::booting();
    statuses.sd_card = ModuleStatus::Ready;

    flush_logs(&mut pending, &mut card, SD_WRITE_HEADROOM, &mut statuses);

    assert_eq!(pending.len(), 0);
    assert_eq!(statuses.sd_card, ModuleStatus::Error);
}

#[test]
fn search_results_go_back_to_the_model() {
    assert_eq!(search_output(SearchProgress::Running), None);
    assert_eq!(
        search_output(SearchProgress::Finished(Some("はれ".to_string()))),
        Some("はれ".to_string())
    );
    assert_eq!(
        search_output(SearchProgress::Finished(None)),
        Some("わかりませんでした".to_string())
    );
    assert_eq!(search_output(SearchProgress::Lost), Some("わかりませんでした".to_string()));
}

#[test]
fn recorded_audio_is_sent_only_after_a_voice() {
    let chunks = vec![vec![0xFF_u8, 0xFE], vec![0x01]];

    assert!(captured_messages(false, &chunks).is_empty());

    let sent = captured_messages(true, &chunks);
    assert_eq!(sent, vec![build_audio_append(&chunks[0]), build_audio_append(&chunks[1])]);
    assert!(sent[0].contains("\"audio\":\"//4=\""));
}

#[test]
fn an_answers_words_become_one_line_when_it_ends() {
    let mut talk = Conversation::new();
    assert_eq!(talk.session, ModuleStatus::NotChecked);

    assert_eq!(
        talk.receive(&ServerEvent::SessionConfigured, false),
        (Some(AppEvent::SessionOpened), None)
    );
    assert_eq!(talk.session, ModuleStatus::Ready);

    assert_eq!(talk.receive(&ServerEvent::AssistantSaid("こん".to_string()), true), (None, None));
    assert_eq!(talk.receive(&ServerEvent::AssistantSaid("にちは".to_string()), true), (None, None));
    assert_eq!(talk.spoken, "こんにちは");

    assert_eq!(
        talk.receive(&ServerEvent::ResponseFinished, true),
        (None, Some("こんにちは".to_string()))
    );
    assert!(talk.finishing_response);
    assert_eq!(talk.playback(true), None);
    assert_eq!(talk.playback(false), Some(AppEvent::ResponseFinished));
    assert!(!talk.finishing_response);
    assert_eq!(talk.playback(false), None);
}

#[test]
fn an_answer_that_already_played_ends_at_once() {
    let mut talk = Conversation::new();
    assert_eq!(
        talk.receive(&ServerEvent::ResponseFinished, false),
        (Some(AppEvent::ResponseFinished), None)
    );
    assert!(!talk.finishing_response);
}

#[test]
fn cutting_an_answer_off_keeps_what_was_said() {
    let mut talk = Conversation::new();
    talk.receive(&ServerEvent::AssistantSaid("えっと".to_string()), true);
    talk.receive(&ServerEvent::ResponseFinished, true);
    talk.receive(&ServerEvent::AssistantSaid("つぎ".to_string()), true);

    assert_eq!(talk.interrupt(), Some("つぎ".to_string()));
    assert!(!talk.finishing_response);
    assert_eq!(talk.interrupt(), None);
}

#[test]
fn a_refused_line_marks_the_card_and_stops_the_writing() {
    let mut statuses = ModuleStatuses::booting();
    statuses.sd_card = ModuleStatus::Ready;

    assert!(after_log_write(Ok(()), &mut statuses));
    assert_eq!(statuses.sd_card, ModuleStatus::Ready);

    assert!(!after_log_write(Err(StorageError::NotFound), &mut statuses));
    assert_eq!(statuses.sd_card, ModuleStatus::Error);
}

#[test]
fn memory_is_written_only_once_back_to_waiting() {
    let mut memory = Memory::default();
    memory.remember_topic("きょうりゅう");
    let mut card = LogCard::default();
    let mut unsaved = true;

    assert_eq!(
        flush_memory(&memory, &mut unsaved, &AppState::Speaking, &mut card, SD_WRITE_HEADROOM),
        None
    );
    assert_eq!(
        flush_memory(&memory, &mut unsaved, &AppState::Ready, &mut card, SD_WRITE_HEADROOM - 1),
        None
    );
    assert!(unsaved);
    assert!(card.files.is_empty());

    assert_eq!(
        flush_memory(&memory, &mut unsaved, &AppState::Ready, &mut card, SD_WRITE_HEADROOM),
        Some(Ok(()))
    );
    assert!(!unsaved);
    assert_eq!(card.files.get(MEMORY_PATH), Some(&memory_text(&memory)));

    assert_eq!(
        flush_memory(&memory, &mut unsaved, &AppState::Ready, &mut card, SD_WRITE_HEADROOM),
        None
    );
}

#[test]
fn a_refused_memory_write_stays_unsaved() {
    let memory = Memory::default();
    let mut card = LogCard { refuse: true, ..LogCard::default() };
    let mut unsaved = true;

    assert!(matches!(
        flush_memory(&memory, &mut unsaved, &AppState::Ready, &mut card, SD_WRITE_HEADROOM),
        Some(Err(_))
    ));
    assert!(unsaved);
}

//! Decisions the device's main loop takes between its outside work.
//!
//! The loop itself (radio, audio, display, timers) belongs to the device;
//! what it decides from the results of that work is here.

use vstd::prelude::*;
use vstd::string::StringExecFns;

use crate::config::{Config, ConfigError};
use crate::guardrail::{
    instructions_text, normalized, safe_reply_text, verdict_of, Concern, Guardrail, Verdict,
};
use crate::memory::{
    argument_of, extract_summary, extract_topic, fragment_of, memory_source, memory_tools_json, save,
    tool_definitions, Memory, MEMORY_PATH, REMEMBER_SUMMARY_TOOL, REMEMBER_TOPIC_TOOL,
};
use crate::layout::{is_talk_target, Point, SCREEN_HEIGHT, SCREEN_WIDTH};
use crate::logbook::{append_entry, log_line_of, log_path_of, LogEntry};
use crate::module_status::{ModuleStatus, ModuleStatuses};
use crate::ports::{appended, Storage, StorageError};
use crate::realtime::{audio_append, build_audio_append, ServerEvent, SessionSetup};
use crate::search::{
    build_request, is_search_request, query_of, search_body, search_tool_json, tool_definition, SearchRequest,
    TOOL_NAME,
};
use crate::state::{AppEvent, AppState};
use crate::text::{str_eq, trimmed, views_of};
use crate::turn_detector::TurnOutcome;

verus! {

/// The most transcript lines kept waiting for the card; past this the
/// oldest is dropped.
pub const MAX_PENDING_LOGS: usize = 64;

/// The event a finished turn raises.
pub fn turn_event(outcome: TurnOutcome) -> (event: AppEvent)
    ensures
        event == match outcome {
            TurnOutcome::SpeechEnded => AppEvent::SpeechEnded,
            TurnOutcome::NothingSaid => AppEvent::SpeechNotDetected,
        },
{
    match outcome {
        TurnOutcome::SpeechEnded => AppEvent::SpeechEnded,
        TurnOutcome::NothingSaid => AppEvent::SpeechNotDetected,
    }
}

/// A change of the finger on the screen.
#[derive(Debug, Clone, Copy, PartialEq, Eq, Structural)]
pub enum TouchChange {
    Pressed(Point),
    Released,
}

/// Remembers whether the screen was touched, to report only the changes.
#[derive(Debug, Clone, Copy, PartialEq, Eq, Structural)]
pub struct TouchTracker {
    pub was_touching: bool,
}

impl TouchTracker {
    pub fn new() -> (tracker: Self)
        ensures
            !tracker.was_touching,
    {
        TouchTracker { was_touching: false }
    }

    /// Takes one reading: whether the screen is touched, and where. Reports
    /// a press with its place, or a release; nothing while nothing changes.
    pub fn observe(&mut self, touching: bool, at: Point) -> (change: Option<TouchChange>)
        ensures
            final(self).was_touching == touching,
            change == if touching == old(self).was_touching {
                None
            } else if touching {
                Some(TouchChange::Pressed(at))
            } else {
                Some(TouchChange::Released)
            },
    {
        if touching == self.was_touching {
            return None;
        }
        self.was_touching = touching;
        if touching {
            Some(TouchChange::Pressed(at))
        } else {
            Some(TouchChange::Released)
        }
    }
}

/// The event a touch raises: a press anywhere on the screen asks to talk.
pub fn touch_event(change: TouchChange) -> (event: Option<AppEvent>)
    ensures
        event == match change {
            TouchChange::Pressed(at) => if 0 <= at.x < SCREEN_WIDTH && 0 <= at.y < SCREEN_HEIGHT {
                Some(AppEvent::TalkPressed)
            } else {
                None
            },
            TouchChange::Released => Some(AppEvent::TalkReleased),
        },
{
    match change {
        TouchChange::Pressed(at) => {
            if is_talk_target(at) {
                Some(AppEvent::TalkPressed)
            } else {
                None
            }
        },
        TouchChange::Released => Some(AppEvent::TalkReleased),
    }
}

/// The event a message from the server raises.
pub open spec fn server_event_effect(event: ServerEvent, still_playing: bool) -> Option<AppEvent> {
    match event {
        ServerEvent::SessionConfigured => Some(AppEvent::SessionOpened),
        ServerEvent::AudioDelta(_) => Some(AppEvent::ResponseStarted),
        ServerEvent::ResponseFinished => if still_playing {
            None
        } else {
            Some(AppEvent::ResponseFinished)
        },
        _ => None,
    }
}

/// The event raised when audio that an answer's end waited for has played out.
pub open spec fn playback_effect(finishing: bool, still_playing: bool) -> Option<AppEvent> {
    if finishing && !still_playing {
        Some(AppEvent::ResponseFinished)
    } else {
        None
    }
}

/// The event a message from the server raises. The server sends audio
/// faster than it plays, so an answer counts as finished only once its audio
/// has played out: while `still_playing`, the end of the answer waits.
pub fn server_app_event(event: &ServerEvent, still_playing: bool) -> (app_event: Option<AppEvent>)
    ensures
        app_event == server_event_effect(*event, still_playing),
{
    match event {
        ServerEvent::SessionConfigured => Some(AppEvent::SessionOpened),
        ServerEvent::AudioDelta(_) => Some(AppEvent::ResponseStarted),
        ServerEvent::ResponseFinished => {
            if still_playing {
                None
            } else {
                Some(AppEvent::ResponseFinished)
            }
        },
        _ => None,
    }
}

/// The end of an answer that waited for its audio: raised once the audio
/// has played out.
pub fn playback_event(finishing: bool, still_playing: bool) -> (event: Option<AppEvent>)
    ensures
        event == playback_effect(finishing, still_playing),
{
    if finishing && !still_playing {
        Some(AppEvent::ResponseFinished)
    } else {
        None
    }
}

/// What the device keeps track of between the server's messages: whether
/// the end of an answer waits for its audio to play out, what the assistant
/// has said so far in the answer, and whether the session is ready.
pub struct Conversation {
    pub finishing_response: bool,
    pub spoken: String,
    pub session: ModuleStatus,
}

impl Conversation {
    pub fn new() -> (c: Self)
        ensures
            !c.finishing_response,
            c.spoken@.len() == 0,
            c.session == ModuleStatus::NotChecked,
    {
        Conversation {
            finishing_response: false,
            spoken: String::new(),
            session: ModuleStatus::NotChecked,
        }
    }

    /// Takes a message from the server, with whether audio is still playing.
    /// Returns the event it raises and, once an answer ends, the words the
    /// assistant said in it, to be written to the transcript as one line.
    /// The words of an answer are gathered piece by piece; a finished answer
    /// whose audio still plays is remembered as waiting for it.
    pub fn receive(&mut self, event: &ServerEvent, still_playing: bool) -> (heard: (
        Option<AppEvent>,
        Option<String>,
    ))
        ensures
            heard.0 == server_event_effect(*event, still_playing),
            match *event {
                ServerEvent::SessionConfigured => final(self).session == ModuleStatus::Ready
                    && final(self).finishing_response == old(self).finishing_response
                    && final(self).spoken@ == old(self).spoken@ && heard.1 is None,
                ServerEvent::AssistantSaid(text) => final(self).spoken@ == old(self).spoken@ + text@
                    && final(self).finishing_response == old(self).finishing_response
                    && final(self).session == old(self).session && heard.1 is None,
                ServerEvent::ResponseFinished => final(self).spoken@.len() == 0
                    && final(self).finishing_response == still_playing && final(self).session
                    == old(self).session && match heard.1 {
                    Some(words) => old(self).spoken@.len() > 0 && words@ == old(self).spoken@,
                    None => old(self).spoken@.len() == 0,
                },
                _ => final(self).spoken@ == old(self).spoken@ && final(self).finishing_response
                    == old(self).finishing_response && final(self).session == old(self).session
                    && heard.1 is None,
            },
    {
        let raised = server_app_event(event, still_playing);
        match event {
            ServerEvent::SessionConfigured => {
                self.session = ModuleStatus::Ready;
                (raised, None)
            },
            ServerEvent::AssistantSaid(text) => {
                self.spoken.append(text.as_str());
                (raised, None)
            },
            ServerEvent::ResponseFinished => {
                let words = self.take_spoken();
                self.finishing_response = still_playing;
                (raised, words)
            },
            _ => (raised, None),
        }
    }

    /// Checks, while the end of an answer waits, whether its audio has
    /// played out; the end is then raised once.
    pub fn playback(&mut self, still_playing: bool) -> (event: Option<AppEvent>)
        ensures
            event == playback_effect(old(self).finishing_response, still_playing),
            final(self).finishing_response == (old(self).finishing_response && still_playing),
            final(self).spoken@ == old(self).spoken@,
            final(self).session == old(self).session,
    {
        let event = playback_event(self.finishing_response, still_playing);
        if event.is_some() {
            self.finishing_response = false;
        }
        event
    }

    /// The answer was cut off: nothing waits for its audio any more, and
    /// what was said of it so far is handed back to be written.
    pub fn interrupt(&mut self) -> (words: Option<String>)
        ensures
            !final(self).finishing_response,
            final(self).spoken@.len() == 0,
            final(self).session == old(self).session,
            match words {
                Some(w) => old(self).spoken@.len() > 0 && w@ == old(self).spoken@,
                None => old(self).spoken@.len() == 0,
            },
    {
        self.finishing_response = false;
        self.take_spoken()
    }

    /// Hands over what the assistant said, if anything, and forgets it.
    fn take_spoken(&mut self) -> (words: Option<String>)
        ensures
            final(self).spoken@.len() == 0,
            final(self).finishing_response == old(self).finishing_response,
            final(self).session == old(self).session,
            match words {
                Some(w) => old(self).spoken@.len() > 0 && w@ == old(self).spoken@,
                None => old(self).spoken@.len() == 0,
            },
    {
        if self.spoken.as_str().is_empty() {
            return None;
        }
        let mut words = String::new();
        std::mem::swap(&mut words, &mut self.spoken);
        Some(words)
    }
}

/// Only a card that could not be read or written counts as a card problem;
/// a file with blanks or mistakes was read from a working card.
pub fn sd_card_status(settings: &Result<Config, ConfigError>) -> (status: ModuleStatus)
    ensures
        status == if settings matches Err(ConfigError::Unreadable(_)) {
            ModuleStatus::Error
        } else {
            ModuleStatus::Ready
        },
{
    match settings {
        Err(ConfigError::Unreadable(_)) => ModuleStatus::Error,
        _ => ModuleStatus::Ready,
    }
}

/// What to do about a function call the model asked for.
#[derive(Debug, Clone, PartialEq, Eq)]
pub enum ToolPlan {
    /// Answer the call at once with this text.
    Reply(String),
    /// Send this search and answer with what comes back.
    Search(SearchRequest),
    /// Add this recent topic to the memory.
    RememberTopic(String),
    /// Replace the memory's summary with this.
    RememberSummary(String),
}

pub open spec fn unknown_tool_reply() -> Seq<char> {
    "それはできません"@
}

pub open spec fn no_search_reply() -> Seq<char> {
    "今は調べられません"@
}

pub open spec fn no_query_reply() -> Seq<char> {
    "何を調べるか分かりませんでした"@
}

/// Decides how to answer a function call: the search tool runs only with a
/// search key and a query that is not blank; the memory tools take their
/// text when it is not blank. Anything else cannot be done.
pub fn plan_tool_call(name: &str, search_api_key: Option<&str>, arguments: &str) -> (plan: ToolPlan)
    ensures
        name@ == TOOL_NAME@ ==> (search_api_key is None ==> (plan matches ToolPlan::Reply(text)
            && text@ == no_search_reply())) && (search_api_key is Some && query_of(arguments@) is None
            ==> (plan matches ToolPlan::Reply(text) && text@ == no_query_reply())) && (
        search_api_key is Some && query_of(arguments@) is Some ==> (plan matches ToolPlan::Search(
            request,
        ) && is_search_request(request, query_of(arguments@)->0, search_api_key->0@))),
        name@ == REMEMBER_TOPIC_TOOL@ ==> match argument_of(arguments@, "topic"@) {
            Some(topic) => plan matches ToolPlan::RememberTopic(t) && t@ == topic,
            None => plan matches ToolPlan::Reply(text) && text@ == unknown_tool_reply(),
        },
        name@ == REMEMBER_SUMMARY_TOOL@ ==> match argument_of(arguments@, "summary"@) {
            Some(summary) => plan matches ToolPlan::RememberSummary(s) && s@ == summary,
            None => plan matches ToolPlan::Reply(text) && text@ == unknown_tool_reply(),
        },
        name@ != TOOL_NAME@ && name@ != REMEMBER_TOPIC_TOOL@ && name@ != REMEMBER_SUMMARY_TOOL@
            ==> (plan matches ToolPlan::Reply(text) && text@ == unknown_tool_reply()),
{
    proof {
        reveal_strlit("search_web");
        reveal_strlit("remember_topic");
        reveal_strlit("remember_summary");
        assert(TOOL_NAME@.len() == 10 && REMEMBER_TOPIC_TOOL@.len() == 14
            && REMEMBER_SUMMARY_TOOL@.len() == 16);
    }
    if str_eq(name, TOOL_NAME) {
        let api_key = match search_api_key {
            Some(key) => key,
            None => return ToolPlan::Reply("今は調べられません".to_owned()),
        };
        return match crate::search::extract_query(arguments) {
            Some(query) => ToolPlan::Search(build_request(query.as_str(), api_key)),
            None => ToolPlan::Reply("何を調べるか分かりませんでした".to_owned()),
        };
    }
    if str_eq(name, REMEMBER_TOPIC_TOOL) {
        return match extract_topic(arguments) {
            Some(topic) => ToolPlan::RememberTopic(topic),
            None => ToolPlan::Reply("それはできません".to_owned()),
        };
    }
    if str_eq(name, REMEMBER_SUMMARY_TOOL) {
        return match extract_summary(arguments) {
            Some(summary) => ToolPlan::RememberSummary(summary),
            None => ToolPlan::Reply("それはできません".to_owned()),
        };
    }
    ToolPlan::Reply("それはできません".to_owned())
}

/// The lines kept for a parent when the child said something that needs
/// care: a note of what was said when a parent should know, then the words
/// said instead. Nothing when the words need no care.
pub open spec fn parent_notes_of(child_name: Seq<char>, text: Seq<char>) -> Seq<Seq<char>> {
    match verdict_of(normalized(text)) {
        Verdict::Allow => Seq::empty(),
        Verdict::Intervene(concern) => (if concern == Concern::SelfHarm {
            seq!["気になる発言がありました: "@ + text]
        } else {
            Seq::empty()
        }).push(safe_reply_text(concern, child_name)),
    }
}

/// Looks over what the child said and gives the lines to keep for a parent.
pub fn parent_notes(guardrail: &Guardrail, text: &str) -> (notes: Vec<String>)
    ensures
        views_of(notes@) == parent_notes_of(guardrail.child_name(), text@),
{
    let mut notes: Vec<String> = Vec::new();
    match guardrail.inspect(text) {
        Verdict::Allow => {},
        Verdict::Intervene(concern) => {
            if concern.should_notify_parent() {
                let mut note = "気になる発言がありました: ".to_owned();
                note.append(text);
                notes.push(note);
            }
            notes.push(guardrail.safe_reply(concern));
        },
    }
    assert(views_of(notes@) =~= parent_notes_of(guardrail.child_name(), text@));
    notes
}

/// The function tools offered to the model: the search tool when a search
/// key is configured, and the two memory tools always.
pub open spec fn session_tools(with_search: bool) -> Seq<Seq<char>> {
    (if with_search {
        seq![search_tool_json()]
    } else {
        Seq::empty()
    }) + memory_tools_json()
}

/// The session set up from the settings: the configured model, voice and
/// audio format, the guardrail's instructions followed by the note of what
/// is remembered, and the tools.
pub fn session_setup(config: &Config, guardrail: &Guardrail, memory: &Memory) -> (setup: SessionSetup)
    ensures
        setup.model@ == config.openai.model@,
        setup.voice@ == config.openai.voice@,
        setup.audio_format == config.openai.audio_format,
        setup.instructions@ == instructions_text(
            guardrail.child_name(),
            guardrail.child_age(),
            guardrail.assistant_name(),
        ) + fragment_of(memory@),
        views_of(setup.tools@) == session_tools(trimmed(config.search.api_key@).len() > 0),
{
    let mut tools: Vec<String> = Vec::new();
    let with_search = config.search.api_key().is_some();
    if with_search {
        tools.push(tool_definition());
    }
    let ghost searching = views_of(tools@);
    let memory_tools = tool_definitions();
    let mut i: usize = 0;
    while i < memory_tools.len()
        invariant
            i <= memory_tools.len(),
            views_of(tools@) == searching + views_of(memory_tools@).take(i as int),
        decreases memory_tools.len() - i,
    {
        let tool = memory_tools[i].clone();
        proof {
            assert(views_of(tools@.push(tool)) =~= views_of(tools@).push(tool@));
            assert(views_of(memory_tools@).take(i + 1) =~= views_of(memory_tools@).take(
                i as int,
            ).push(memory_tools@[i as int]@));
        }
        tools.push(tool);
        i = i + 1;
    }
    proof {
        assert(views_of(memory_tools@).take(memory_tools.len() as int) =~= views_of(
            memory_tools@,
        ));
        assert(searching =~= if with_search {
            seq![search_tool_json()]
        } else {
            Seq::<Seq<char>>::empty()
        });
    }
    let mut instructions = guardrail.build_instructions();
    instructions.append(memory.build_instructions_fragment().as_str());
    SessionSetup {
        model: config.openai.model.clone(),
        voice: config.openai.voice.clone(),
        audio_format: config.openai.audio_format,
        instructions,
        tools,
    }
}

/// Transcript lines waiting to be written. While talking, the radio and the
/// audio use the memory the card needs, so lines wait until the device is idle.
pub struct PendingLogs {
    entries: Vec<LogEntry>,
}

impl PendingLogs {
    /// The waiting lines, oldest first.
    pub closed spec fn lines(&self) -> Seq<LogEntry> {
        self.entries@
    }

    #[verifier::type_invariant]
    spec fn bounded(&self) -> bool {
        self.entries@.len() <= MAX_PENDING_LOGS
    }

    pub fn new() -> (pending: Self)
        ensures
            pending.lines().len() == 0,
    {
        PendingLogs { entries: Vec::new() }
    }

    /// Keeps a line, dropping the oldest when the queue is full.
    pub fn record(&mut self, entry: LogEntry)
        ensures
            final(self).lines() == (if old(self).lines().len() >= MAX_PENDING_LOGS {
                old(self).lines().drop_first()
            } else {
                old(self).lines()
            }).push(entry),
            final(self).lines().len() <= MAX_PENDING_LOGS,
    {
        proof {
            use_type_invariant(&*self);
        }
        let mut entries = Vec::new();
        std::mem::swap(&mut entries, &mut self.entries);
        if entries.len() >= MAX_PENDING_LOGS {
            entries.remove(0);
        }
        entries.push(entry);
        self.entries = entries;
    }

    /// How many lines are waiting.
    pub fn len(&self) -> (count: usize)
        ensures
            count == self.lines().len(),
            count <= MAX_PENDING_LOGS,
    {
        proof {
            use_type_invariant(self);
        }
        self.entries.len()
    }

    /// Hands over every waiting line, oldest first, and empties the queue.
    pub fn take_all(&mut self) -> (lines: Vec<LogEntry>)
        ensures
            lines@ == old(self).lines(),
            final(self).lines().len() == 0,
    {
        let mut lines = Vec::new();
        std::mem::swap(&mut lines, &mut self.entries);
        lines
    }
}

/// The messages that send recorded audio. The recording queue is emptied
/// every frame, but until a voice was heard in this recording, what it held
/// is dropped rather than sent.
pub fn captured_messages(voice_heard: bool, chunks: &Vec<Vec<u8>>) -> (messages: Vec<String>)
    requires
        forall|i: int| 0 <= i < chunks@.len() ==> #[trigger] chunks@[i]@.len() <= usize::MAX / 2,
    ensures
        views_of(messages@) == if voice_heard {
            Seq::new(chunks@.len(), |i: int| audio_append(chunks@[i]@))
        } else {
            Seq::empty()
        },
{
    let mut messages: Vec<String> = Vec::new();
    if !voice_heard {
        assert(views_of(messages@) =~= Seq::<Seq<char>>::empty());
        return messages;
    }
    let mut i: usize = 0;
    while i < chunks.len()
        invariant
            i <= chunks@.len(),
            forall|j: int| 0 <= j < chunks@.len() ==> #[trigger] chunks@[j]@.len() <= usize::MAX / 2,
            messages@.len() == i,
            forall|j: int| 0 <= j < i ==> #[trigger] messages@[j]@ == audio_append(chunks@[j]@),
        decreases chunks.len() - i,
    {
        messages.push(build_audio_append(chunks[i].as_slice()));
        i = i + 1;
    }
    assert(views_of(messages@) =~= Seq::new(chunks@.len(), |i: int| audio_append(chunks@[i]@)));
    messages
}

/// The free DMA memory writing to the card needs: the card's SPI driver
/// takes a buffer for each write and fails badly when it gets none.
pub const SD_WRITE_HEADROOM: usize = 12 * 1_024;

/// The card's files after each of `lines` was appended to its day's file,
/// oldest first.
pub open spec fn fold_appended(files: Map<Seq<char>, Seq<char>>, lines: Seq<LogEntry>) -> Map<
    Seq<char>,
    Seq<char>,
>
    decreases lines.len(),
{
    if lines.len() == 0 {
        files
    } else {
        appended(
            fold_appended(files, lines.drop_last()),
            log_path_of(lines.last().at_unix as int),
            log_line_of(lines.last()),
        )
    }
}

/// What follows from the card's answer to one transcript line: the writing
/// goes on after a line the card took; a refused line marks the card as
/// failing and ends the writing.
pub fn after_log_write(written: Result<(), StorageError>, statuses: &mut ModuleStatuses) -> (keep_going: bool)
    ensures
        keep_going == (written is Ok),
        *final(statuses) == if written is Ok {
            *old(statuses)
        } else {
            ModuleStatuses { sd_card: ModuleStatus::Error, ..*old(statuses) }
        },
{
    match written {
        Ok(()) => true,
        Err(_) => {
            statuses.sd_card = ModuleStatus::Error;
            false
        },
    }
}

/// Writes the waiting transcript lines to the card, oldest first, once
/// `headroom` (the free DMA memory) allows it; until then they keep waiting.
/// The first line the card refuses marks the card as failing and ends the
/// writing: the lines not yet written are dropped with it (see
/// `after_log_write`).
///
/// When the card takes every line (the card is then not marked as failing),
/// each day's file ends in its lines in the order they were recorded.
pub fn flush_logs<S: Storage>(
    pending: &mut PendingLogs,
    storage: &mut S,
    headroom: usize,
    statuses: &mut ModuleStatuses,
)
    ensures
        old(pending).lines().len() == 0 || headroom < SD_WRITE_HEADROOM ==> final(pending).lines()
            == old(pending).lines() && *final(statuses) == *old(statuses) && *final(storage)
            == *old(storage),
        old(pending).lines().len() > 0 && headroom >= SD_WRITE_HEADROOM ==> final(pending).lines().len()
            == 0 && (*final(statuses) == *old(statuses) || *final(statuses) == (ModuleStatuses {
            sd_card: ModuleStatus::Error,
            ..*old(statuses)
        })),
        old(pending).lines().len() > 0 && headroom >= SD_WRITE_HEADROOM && final(statuses).sd_card
            != ModuleStatus::Error ==> final(storage).files() == fold_appended(
            old(storage).files(),
            old(pending).lines(),
        ),
{
    if pending.len() == 0 || headroom < SD_WRITE_HEADROOM {
        return;
    }
    let lines = pending.take_all();
    let mut i: usize = 0;
    while i < lines.len()
        invariant
            i <= lines@.len(),
            lines@ == old(pending).lines(),
            *statuses == *old(statuses),
            pending.lines().len() == 0,
            old(pending).lines().len() > 0,
            headroom >= SD_WRITE_HEADROOM,
            storage.files() == fold_appended(old(storage).files(), lines@.take(i as int)),
        decreases lines.len() - i,
    {
        let written = append_entry(storage, &lines[i]);
        if !after_log_write(written, statuses) {
            return;
        }
        assert(lines@.take(i + 1).drop_last() =~= lines@.take(i as int));
        i = i + 1;
    }
    assert(lines@.take(lines@.len() as int) =~= lines@);
}

/// Writes the memory to the card once it changed, like the transcript only
/// when the device is back to waiting and memory allows it: while talking,
/// the radio and the audio use the memory a card write needs. Returns the
/// card's answer when it wrote; the memory counts as unsaved until the card
/// took it.
pub fn flush_memory<S: Storage>(
    memory: &Memory,
    unsaved: &mut bool,
    state: &AppState,
    storage: &mut S,
    headroom: usize,
) -> (answer: Option<Result<(), StorageError>>)
    ensures
        !(*old(unsaved) && *state == AppState::Ready && headroom >= SD_WRITE_HEADROOM) ==> answer
            is None && *final(unsaved) == *old(unsaved) && *final(storage) == *old(storage),
        *old(unsaved) && *state == AppState::Ready && headroom >= SD_WRITE_HEADROOM ==> match answer {
            Some(Ok(())) => !*final(unsaved) && final(storage).files() == old(storage).files().insert(
                MEMORY_PATH@,
                memory_source(memory@),
            ),
            Some(Err(_)) => *final(unsaved),
            None => false,
        },
{
    if !*unsaved || *state != AppState::Ready || headroom < SD_WRITE_HEADROOM {
        return None;
    }
    let answer = save(storage, memory);
    *unsaved = answer.is_err();
    Some(answer)
}

/// How far a search running beside the conversation has got.
#[derive(Debug, Clone, PartialEq, Eq)]
pub enum SearchProgress {
    /// Still running.
    Running,
    /// Done, with what it found, if anything.
    Finished(Option<String>),
    /// Ended without a word, as when it broke down.
    Lost,
}

pub open spec fn no_answer_reply() -> Seq<char> {
    "わかりませんでした"@
}

/// What to hand back to the model for a search: what it found, or that
/// nothing was found, so that the conversation never stays stuck waiting;
/// nothing while it is still running.
pub fn search_output(progress: SearchProgress) -> (output: Option<String>)
    ensures
        match progress {
            SearchProgress::Running => output is None,
            SearchProgress::Finished(Some(found)) => output == Some(found),
            _ => output matches Some(text) && text@ == no_answer_reply(),
        },
{
    match progress {
        SearchProgress::Running => None,
        SearchProgress::Finished(Some(found)) => Some(found),
        _ => Some("わかりませんでした".to_owned()),
    }
}

/// Keeping a line never lets the queue grow past its limit, and the line
/// just kept is always the newest.
pub proof fn law_pending_logs_stay_bounded(lines: Seq<LogEntry>, entry: LogEntry)
    requires
        lines.len() <= MAX_PENDING_LOGS,
    ensures
        ({
            let after = (if lines.len() >= MAX_PENDING_LOGS {
                lines.drop_first()
            } else {
                lines
            }).push(entry);
            after.len() <= MAX_PENDING_LOGS && after.last() == entry
        }),
{
}

/// The end of an answer is reported once, and only when no audio is left:
/// at once when the audio has already played out, or else, with the end
/// remembered as waiting, when playback finishes.
pub proof fn law_answer_ends_after_its_audio(still_playing: bool)
    ensures
        server_event_effect(ServerEvent::ResponseFinished, still_playing) is Some
            != playback_effect(still_playing, false) is Some,
        playback_effect(still_playing, true) is None,
{
}

} // verus!

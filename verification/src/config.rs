//! Creating, reading and checking the configuration file on the SD card.
//!
//! A parent edits the file on a PC with a text editor, so mistakes and blanks
//! come back as errors that say what to fix and how.

use vstd::prelude::*;
use vstd::string::StringExecFns;

use crate::json::{json_at, json_lookup, JsonItem, JsonItemView};
use crate::ports::{storage_error_text, Storage, StorageError};
use crate::text::{chars_of, join_strings, joined, str_eq, trim_chars, trimmed, views_of};

verus! {

/// Directory of all settings, relative to the card's root.
pub const CONFIG_DIR: &'static str = "/.m5a";
/// The configuration file.
pub const CONFIG_PATH: &'static str = "/.m5a/config.toml";
/// Directory of the conversation logs.
pub const LOG_DIR: &'static str = "/.m5a/logs";

/// The voices the conversation service accepts.
pub const SUPPORTED_VOICES: [&'static str; 10] = [
    "alloy",
    "ash",
    "ballad",
    "coral",
    "echo",
    "sage",
    "shimmer",
    "verse",
    "marin",
    "cedar",
];

pub open spec fn voice_names() -> Seq<Seq<char>> {
    seq![
        "alloy"@,
        "ash"@,
        "ballad"@,
        "coral"@,
        "echo"@,
        "sage"@,
        "shimmer"@,
        "verse"@,
        "marin"@,
        "cedar"@,
    ]
}

/// The supported voices, in the order they are offered.
pub fn supported_voices() -> (voices: Vec<&'static str>)
    ensures
        voices@.len() == voice_names().len(),
        forall|i: int| 0 <= i < voices@.len() ==> (#[trigger] voices@[i])@ == voice_names()[i],
{
    let voices = vec![
        "alloy",
        "ash",
        "ballad",
        "coral",
        "echo",
        "sage",
        "shimmer",
        "verse",
        "marin",
        "cedar",
    ];
    assert(voices@.len() == 10);
    voices
}

/// The audio format used with the conversation service.
#[derive(Debug, Clone, Copy, PartialEq, Eq, Structural)]
pub enum AudioFormat {
    /// G.711 μ-law at 8 kHz: about 85 kbps each way, within the device's
    /// wireless budget.
    Ulaw,
    /// PCM16 at 24 kHz: about 512 kbps each way.
    Pcm16,
}

pub open spec fn wire_type_of(format: AudioFormat) -> Seq<char> {
    match format {
        AudioFormat::Ulaw => "audio/pcmu"@,
        AudioFormat::Pcm16 => "audio/pcm"@,
    }
}

pub open spec fn sample_rate_of(format: AudioFormat) -> u32 {
    match format {
        AudioFormat::Ulaw => 8_000,
        AudioFormat::Pcm16 => 24_000,
    }
}

impl AudioFormat {
    /// The type name the service expects for this format.
    pub fn wire_type(self) -> (name: &'static str)
        ensures
            name@ == wire_type_of(self),
    {
        match self {
            AudioFormat::Ulaw => "audio/pcmu",
            AudioFormat::Pcm16 => "audio/pcm",
        }
    }

    /// The sample rate sent and received in this format.
    pub fn sample_rate(self) -> (rate: u32)
        ensures
            rate == sample_rate_of(self),
    {
        match self {
            AudioFormat::Ulaw => 8_000,
            AudioFormat::Pcm16 => 24_000,
        }
    }
}

/// The template's sample values, which mark a field the parent has not filled in.
const NAME_EXAMPLE: &'static str = "なまえをここに";
const SSID_EXAMPLE: &'static str = "WiFiのSSIDをここに";
const PASSWORD_EXAMPLE: &'static str = "WiFiのパスワードをここに";
const API_KEY_EXAMPLE: &'static str = "sk-ここにAPIキーを";

/// The model used unless the file names another.
const DEFAULT_MODEL: &'static str = "gpt-realtime-2.1-mini";
/// The voice used unless the file names another.
const DEFAULT_VOICE: &'static str = "marin";
/// The child's age assumed unless the file gives it.
const DEFAULT_AGE: u8 = 5;

/// The configuration file the device creates for a parent to fill in.
pub const CONFIG_TEMPLATE: &'static str = r#"# m5a せってい ファイル
#
# このファイルを テキストエディタ で ひらいて、
# "" の なかを かきかえて ほぞんしてください。
# かきかえたら SDカード を M5Stack に もどして でんげん を いれます。

[child]
# こどもの なまえ。アシスタントが この なまえ で よびかけます。
name = "なまえをここに"
# ねんれい。はなしかたの むずかしさ の めやす に つかいます。
age = 5

[wifi]
# つなぐ WiFi の なまえ (SSID) と パスワード。
# 5GHz の WiFi は つかえません。2.4GHz を えらんでください。
ssid = "WiFiのSSIDをここに"
password = "WiFiのパスワードをここに"

[openai]
# OpenAI の APIキー。https://platform.openai.com/api-keys で つくれます。
# このキーは りょうきん が かかります。
# せんよう の プロジェクト を つくり、つかいすぎ の じょうげん を
# せっていしておくことを おすすめします。
api_key = "sk-ここにAPIキーを"

# つかう モデル。ふつうは かえなくて だいじょうぶです。
model = "gpt-realtime-2.1-mini"

# こえ の しゅるい。
# alloy / ash / ballad / coral / echo / sage / shimmer / verse / marin / cedar
voice = "marin"

# おとの けいしき。
#   ulaw  = でんわ の おとしつ。つうしんりょう が すくなく、あんてい します。
#   pcm16 = たかい おとしつ。つうしん が おもく、とぎれる ことが あります。
audio_format = "ulaw"
"#;

impl Default for AudioFormat {
    fn default() -> (format: Self)
        ensures
            format == AudioFormat::Ulaw,
    {
        AudioFormat::Ulaw
    }
}

#[derive(Debug, Clone, PartialEq, Eq)]
pub struct ChildConfig {
    pub name: String,
    pub age: u8,
}

#[derive(Debug, Clone, PartialEq, Eq)]
pub struct WifiConfig {
    pub ssid: String,
    pub password: String,
}

#[derive(Debug, Clone, PartialEq, Eq)]
pub struct OpenAiConfig {
    pub api_key: String,
    pub model: String,
    pub voice: String,
    pub audio_format: AudioFormat,
}

/// Who the assistant is.
#[derive(Debug, Clone, PartialEq, Eq)]
pub struct AssistantConfig {
    /// The name the assistant answers to.
    pub name: String,
}

/// The web search service.
#[derive(Debug, Clone, PartialEq, Eq)]
pub struct SearchConfig {
    /// The search API key; left blank, nothing is searched.
    pub api_key: String,
}

impl SearchConfig {
    /// The key, unless it is left blank.
    pub fn api_key(&self) -> (key: Option<&str>)
        ensures
            match key {
                Some(k) => k@ == self.api_key@ && trimmed(self.api_key@).len() > 0,
                None => trimmed(self.api_key@).len() == 0,
            },
    {
        if trim_chars(&chars_of(self.api_key.as_str())).len() == 0 {
            None
        } else {
            Some(self.api_key.as_str())
        }
    }
}

#[derive(Debug, Clone, PartialEq, Eq)]
pub struct Config {
    pub child: ChildConfig,
    pub assistant: AssistantConfig,
    pub wifi: WifiConfig,
    pub openai: OpenAiConfig,
    pub search: SearchConfig,
}

/// The settings as plain values.
pub struct ConfigView {
    pub name: Seq<char>,
    pub age: u8,
    pub assistant_name: Seq<char>,
    pub ssid: Seq<char>,
    pub password: Seq<char>,
    pub api_key: Seq<char>,
    pub model: Seq<char>,
    pub voice: Seq<char>,
    pub audio_format: AudioFormat,
    pub search_key: Seq<char>,
}

impl View for Config {
    type V = ConfigView;

    open spec fn view(&self) -> ConfigView {
        ConfigView {
            name: self.child.name@,
            age: self.child.age,
            assistant_name: self.assistant.name@,
            ssid: self.wifi.ssid@,
            password: self.wifi.password@,
            api_key: self.openai.api_key@,
            model: self.openai.model@,
            voice: self.openai.voice@,
            audio_format: self.openai.audio_format,
            search_key: self.search.api_key@,
        }
    }
}

/// Something in the file that a parent has to fix.
#[derive(Debug, Clone, PartialEq, Eq)]
pub enum ConfigProblem {
    ChildNameUnwritten,
    WifiSsidUnwritten,
    WifiPasswordUnwritten,
    ApiKeyUnwritten,
    UnsupportedVoice(String),
}

pub enum ProblemView {
    ChildNameUnwritten,
    WifiSsidUnwritten,
    WifiPasswordUnwritten,
    ApiKeyUnwritten,
    UnsupportedVoice(Seq<char>),
}

impl View for ConfigProblem {
    type V = ProblemView;

    open spec fn view(&self) -> ProblemView {
        match self {
            ConfigProblem::ChildNameUnwritten => ProblemView::ChildNameUnwritten,
            ConfigProblem::WifiSsidUnwritten => ProblemView::WifiSsidUnwritten,
            ConfigProblem::WifiPasswordUnwritten => ProblemView::WifiPasswordUnwritten,
            ConfigProblem::ApiKeyUnwritten => ProblemView::ApiKeyUnwritten,
            ConfigProblem::UnsupportedVoice(voice) => ProblemView::UnsupportedVoice(voice@),
        }
    }
}

pub open spec fn problems_view(problems: Seq<ConfigProblem>) -> Seq<ProblemView> {
    problems.map_values(|p: ConfigProblem| p@)
}

pub open spec fn problem_description(problem: ProblemView) -> Seq<char> {
    match problem {
        ProblemView::ChildNameUnwritten => "こどもの名前が書かれていません"@,
        ProblemView::WifiSsidUnwritten => "WiFiのSSIDが書かれていません"@,
        ProblemView::WifiPasswordUnwritten => "WiFiのパスワードが書かれていません"@,
        ProblemView::ApiKeyUnwritten => "OpenAIのAPIキーが書かれていません"@,
        ProblemView::UnsupportedVoice(voice) => "voice の \""@ + voice + "\" は使えません"@,
    }
}

pub open spec fn problem_remedy(problem: ProblemView) -> Seq<char> {
    CONFIG_PATH@ + match problem {
        ProblemView::ChildNameUnwritten => " の [child] name にお子さんの名前を書いてください"@,
        ProblemView::WifiSsidUnwritten => " の [wifi] ssid に接続先のWiFi名を書いてください"@,
        ProblemView::WifiPasswordUnwritten => " の [wifi] password にWiFiのパスワードを書いてください"@,
        ProblemView::ApiKeyUnwritten => " の [openai] api_key にAPIキーを書いてください。https://platform.openai.com/api-keys で作れます"@,
        ProblemView::UnsupportedVoice(_) => " の [openai] voice を次のいずれかにしてください: "@ + joined(
            voice_names(),
            " / "@,
        ),
    }
}

impl ConfigProblem {
    /// What is wrong, for a parent.
    pub fn describe(&self) -> (text: String)
        ensures
            text@ == problem_description(self@),
    {
        match self {
            ConfigProblem::ChildNameUnwritten => "こどもの名前が書かれていません".to_owned(),
            ConfigProblem::WifiSsidUnwritten => "WiFiのSSIDが書かれていません".to_owned(),
            ConfigProblem::WifiPasswordUnwritten => "WiFiのパスワードが書かれていません".to_owned(),
            ConfigProblem::ApiKeyUnwritten => "OpenAIのAPIキーが書かれていません".to_owned(),
            ConfigProblem::UnsupportedVoice(voice) => {
                let mut text = "voice の \"".to_owned();
                text.append(voice.as_str());
                text.append("\" は使えません");
                text
            },
        }
    }

    /// How a parent fixes it.
    pub fn remedy(&self) -> (text: String)
        ensures
            text@ == problem_remedy(self@),
    {
        let mut text = CONFIG_PATH.to_owned();
        match self {
            ConfigProblem::ChildNameUnwritten => text.append(
                " の [child] name にお子さんの名前を書いてください",
            ),
            ConfigProblem::WifiSsidUnwritten => text.append(
                " の [wifi] ssid に接続先のWiFi名を書いてください",
            ),
            ConfigProblem::WifiPasswordUnwritten => text.append(
                " の [wifi] password にWiFiのパスワードを書いてください",
            ),
            ConfigProblem::ApiKeyUnwritten => text.append(
                " の [openai] api_key にAPIキーを書いてください。https://platform.openai.com/api-keys で作れます",
            ),
            ConfigProblem::UnsupportedVoice(_) => {
                text.append(" の [openai] voice を次のいずれかにしてください: ");
                let voices = supported_voices();
                let mut names: Vec<String> = Vec::new();
                let mut i: usize = 0;
                while i < voices.len()
                    invariant
                        i <= voices.len(),
                        voices@.len() == voice_names().len(),
                        forall|j: int| 0 <= j < voices@.len() ==> (#[trigger] voices@[j])@ == voice_names()[j],
                        views_of(names@) == voice_names().take(i as int),
                    decreases voices.len() - i,
                {
                    let name = voices[i].to_owned();
                    proof {
                        assert(views_of(names@.push(name)) =~= views_of(names@).push(name@));
                        assert(voice_names().take(i + 1) =~= voice_names().take(i as int).push(
                            voice_names()[i as int],
                        ));
                    }
                    names.push(name);
                    i = i + 1;
                }
                assert(voice_names().take(voice_names().len() as int) == voice_names());
                text.append(join_strings(&names, " / ").as_str());
            },
        }
        text
    }
}

/// Why the settings could not be read.
#[derive(Debug, Clone, PartialEq, Eq)]
pub enum ConfigError {
    /// There was no file, so the template was written; a parent has to fill it in.
    TemplateCreated,
    /// Fields are blank, still hold the template's samples, or hold a value
    /// that cannot be used.
    Unwritten(Vec<ConfigProblem>),
    /// The file is not TOML of the expected shape. When the text is not TOML,
    /// `detail` is the TOML parser's message. When it is TOML of the wrong
    /// shape, the fields are checked by this library rather than by a serde
    /// derive, and `detail` is in its own words (``missing field `age` ``,
    /// ``invalid type for `age`, expected an integer``), which
    /// differ from the messages serde would give.
    Malformed { detail: String },
    /// The SD card could not be read or written.
    Unreadable(StorageError),
}

pub open spec fn config_error_description(error: ConfigError) -> Seq<char> {
    match error {
        ConfigError::TemplateCreated => "せっていファイルを作りました"@,
        ConfigError::Unwritten(problems) => joined(
            problems_view(problems@).map_values(|p: ProblemView| problem_description(p)),
            "\n"@,
        ),
        ConfigError::Malformed { .. } => "せっていファイルの書き方に誤りがあります"@,
        ConfigError::Unreadable(error) => "SDカードを読めません: "@ + storage_error_text(error),
    }
}

pub open spec fn config_error_remedy(error: ConfigError) -> Seq<char> {
    match error {
        ConfigError::TemplateCreated => "SDカードをパソコンに挿し、"@ + CONFIG_PATH@
            + " をテキストエディタで開いて名前・WiFi・APIキーを記入してください"@,
        ConfigError::Unwritten(problems) => joined(
            problems_view(problems@).map_values(|p: ProblemView| problem_remedy(p)),
            "\n"@,
        ),
        ConfigError::Malformed { detail } => CONFIG_PATH@ + " を開いて次の箇所を直してください: "@
            + detail@,
        ConfigError::Unreadable(_) => "SDカードが入っているか、書き込み禁止になっていないか確かめてください"@,
    }
}

impl ConfigError {
    /// What happened, for a parent.
    pub fn describe(&self) -> (text: String)
        ensures
            text@ == config_error_description(*self),
    {
        match self {
            ConfigError::TemplateCreated => "せっていファイルを作りました".to_owned(),
            ConfigError::Unwritten(problems) => {
                let mut lines: Vec<String> = Vec::new();
                let mut i: usize = 0;
                while i < problems.len()
                    invariant
                        i <= problems.len(),
                        views_of(lines@) == problems_view(problems@).take(i as int).map_values(
                            |p: ProblemView| problem_description(p),
                        ),
                    decreases problems.len() - i,
                {
                    let line = problems[i].describe();
                    proof {
                        assert(views_of(lines@.push(line)) =~= views_of(lines@).push(line@));
                        assert(problems_view(problems@).take(i + 1) =~= problems_view(
                            problems@,
                        ).take(i as int).push(problems@[i as int]@));
                        assert(problems_view(problems@).take(i + 1).map_values(
                            |p: ProblemView| problem_description(p),
                        ) =~= problems_view(problems@).take(i as int).map_values(
                            |p: ProblemView| problem_description(p),
                        ).push(problem_description(problems@[i as int]@)));
                    }
                    lines.push(line);
                    i = i + 1;
                }
                assert(problems_view(problems@).take(problems.len() as int) == problems_view(
                    problems@,
                ));
                join_strings(&lines, "\n")
            },
            ConfigError::Malformed { .. } => "せっていファイルの書き方に誤りがあります".to_owned(),
            ConfigError::Unreadable(error) => {
                let mut text = "SDカードを読めません: ".to_owned();
                text.append(error.describe().as_str());
                text
            },
        }
    }

    /// How a parent fixes it.
    pub fn remedy(&self) -> (text: String)
        ensures
            text@ == config_error_remedy(*self),
    {
        match self {
            ConfigError::TemplateCreated => {
                let mut text = "SDカードをパソコンに挿し、".to_owned();
                text.append(CONFIG_PATH);
                text.append(" をテキストエディタで開いて名前・WiFi・APIキーを記入してください");
                text
            },
            ConfigError::Unwritten(problems) => {
                let mut lines: Vec<String> = Vec::new();
                let mut i: usize = 0;
                while i < problems.len()
                    invariant
                        i <= problems.len(),
                        views_of(lines@) == problems_view(problems@).take(i as int).map_values(
                            |p: ProblemView| problem_remedy(p),
                        ),
                    decreases problems.len() - i,
                {
                    let line = problems[i].remedy();
                    proof {
                        assert(views_of(lines@.push(line)) =~= views_of(lines@).push(line@));
                        assert(problems_view(problems@).take(i + 1) =~= problems_view(
                            problems@,
                        ).take(i as int).push(problems@[i as int]@));
                        assert(problems_view(problems@).take(i + 1).map_values(
                            |p: ProblemView| problem_remedy(p),
                        ) =~= problems_view(problems@).take(i as int).map_values(
                            |p: ProblemView| problem_remedy(p),
                        ).push(problem_remedy(problems@[i as int]@)));
                    }
                    lines.push(line);
                    i = i + 1;
                }
                assert(problems_view(problems@).take(problems.len() as int) == problems_view(
                    problems@,
                ));
                join_strings(&lines, "\n")
            },
            ConfigError::Malformed { detail } => {
                let mut text = CONFIG_PATH.to_owned();
                text.append(" を開いて次の箇所を直してください: ");
                text.append(detail.as_str());
                text
            },
            ConfigError::Unreadable(_) => "SDカードが入っているか、書き込み禁止になっていないか確かめてください".to_owned(),
        }
    }
}

// ---------------------------------------------------------------------------
// Checking the values a parent wrote.
// ---------------------------------------------------------------------------

/// Whether a field is blank or still holds the template's sample.
pub open spec fn unwritten(value: Seq<char>, example: Seq<char>) -> bool {
    trimmed(value).len() == 0 || trimmed(value) == example
}

fn is_unwritten(value: &str, example: &str) -> (blank: bool)
    ensures
        blank == unwritten(value@, example@),
{
    let trimmed_value = trim_chars(&chars_of(value));
    if trimmed_value.len() == 0 {
        return true;
    }
    let text = crate::text::string_of(&trimmed_value);
    str_eq(text.as_str(), example)
}

fn is_supported_voice(voice: &str) -> (supported: bool)
    ensures
        supported == voice_names().contains(voice@),
{
    let voices = supported_voices();
    let mut i: usize = 0;
    while i < voices.len()
        invariant
            i <= voices.len(),
            voices@.len() == voice_names().len(),
            forall|j: int| 0 <= j < voices@.len() ==> (#[trigger] voices@[j])@ == voice_names()[j],
            forall|j: int| 0 <= j < i ==> voice_names()[j] != voice@,
        decreases voices.len() - i,
    {
        if str_eq(voices[i], voice) {
            assert(voice_names()[i as int] == voice@);
            return true;
        }
        i = i + 1;
    }
    proof {
        if voice_names().contains(voice@) {
            let j = choose|j: int| 0 <= j < voice_names().len() && voice_names()[j] == voice@;
            assert(voice_names()[j] != voice@);
        }
    }
    false
}

/// What a parent still has to fix, in the order the file lists the fields.
pub open spec fn config_problems(config: ConfigView) -> Seq<ProblemView> {
    (if unwritten(config.name, "なまえをここに"@) {
        seq![ProblemView::ChildNameUnwritten]
    } else {
        seq![]
    }) + (if unwritten(config.ssid, "WiFiのSSIDをここに"@) {
        seq![ProblemView::WifiSsidUnwritten]
    } else {
        seq![]
    }) + (if unwritten(config.password, "WiFiのパスワードをここに"@) {
        seq![ProblemView::WifiPasswordUnwritten]
    } else {
        seq![]
    }) + (if unwritten(config.api_key, "sk-ここにAPIキーを"@) {
        seq![ProblemView::ApiKeyUnwritten]
    } else {
        seq![]
    }) + (if !voice_names().contains(config.voice) {
        seq![ProblemView::UnsupportedVoice(config.voice)]
    } else {
        seq![]
    })
}

impl Config {
    /// Lists every blank field and every value that cannot be used.
    pub fn validate(&self) -> (result: Result<(), Vec<ConfigProblem>>)
        ensures
            match result {
                Ok(()) => config_problems(self@).len() == 0,
                Err(problems) => problems@.len() > 0 && problems_view(problems@) == config_problems(
                    self@,
                ),
            },
    {
        let mut problems: Vec<ConfigProblem> = Vec::new();
        let ghost view = self@;
        if is_unwritten(self.child.name.as_str(), NAME_EXAMPLE) {
            problems.push(ConfigProblem::ChildNameUnwritten);
        }
        let ghost first = problems_view(problems@);
        if is_unwritten(self.wifi.ssid.as_str(), SSID_EXAMPLE) {
            problems.push(ConfigProblem::WifiSsidUnwritten);
        }
        let ghost second = problems_view(problems@);
        if is_unwritten(self.wifi.password.as_str(), PASSWORD_EXAMPLE) {
            problems.push(ConfigProblem::WifiPasswordUnwritten);
        }
        let ghost third = problems_view(problems@);
        if is_unwritten(self.openai.api_key.as_str(), API_KEY_EXAMPLE) {
            problems.push(ConfigProblem::ApiKeyUnwritten);
        }
        let ghost fourth = problems_view(problems@);
        if !is_supported_voice(self.openai.voice.as_str()) {
            problems.push(ConfigProblem::UnsupportedVoice(self.openai.voice.clone()));
        }
        proof {
            assert(first =~= (if unwritten(view.name, "なまえをここに"@) {
                seq![ProblemView::ChildNameUnwritten]
            } else {
                seq![]
            }));
            assert(problems_view(problems@) =~= config_problems(view));
        }
        if problems.len() == 0 {
            Ok(())
        } else {
            Err(problems)
        }
    }
}

// ---------------------------------------------------------------------------
// Reading the file.
// ---------------------------------------------------------------------------

/// The TOML document `source` as `toml` parses it into a `serde_json::Value`,
/// written out as JSON text by `serde_json`; or the message of the TOML error.
pub uninterp spec fn toml_as_json(source: Seq<char>) -> Result<Seq<char>, Seq<char>>;

/// Parses TOML with `toml::from_str` into a `serde_json::Value` and writes it
/// as JSON text with `Value::to_string`; an error comes back as
/// `toml::de::Error::message`. The result is `toml_as_json` of the source.
#[verifier::external_body]
pub(crate) fn toml_to_json(source: &str) -> (document: Result<String, String>)
    ensures
        match document {
            Ok(json) => toml_as_json(source@) == Ok::<Seq<char>, Seq<char>>(json@),
            Err(message) => toml_as_json(source@) == Err::<Seq<char>, Seq<char>>(message@),
        },
{
    match toml::from_str::<serde_json::Value>(source) {
        Ok(value) => Ok(value.to_string()),
        Err(error) => Err(error.message().to_string()),
    }
}

/// What the document holds at `pointer`; nothing when it is not JSON.
pub open spec fn item_at(document: Seq<char>, pointer: Seq<char>) -> JsonItemView {
    match json_lookup(document, pointer) {
        Ok(item) => item,
        Err(_) => JsonItemView::Absent,
    }
}

pub(crate) fn lookup(document: &str, pointer: &str) -> (item: JsonItem)
    ensures
        item@ == item_at(document@, pointer@),
{
    match json_at(document, pointer) {
        Ok(item) => item,
        Err(_) => JsonItem::Absent,
    }
}

pub open spec fn missing_field(key: Seq<char>) -> Seq<char> {
    "missing field `"@ + key + "`"@
}

pub open spec fn invalid_type(key: Seq<char>, expected: Seq<char>) -> Seq<char> {
    "invalid type for `"@ + key + "`, expected "@ + expected
}

/// Whether the document has the table `table`, or why not.
pub open spec fn table_problem(document: Seq<char>, table: Seq<char>) -> Option<Seq<char>> {
    match item_at(document, "/"@ + table) {
        JsonItemView::Object => None,
        JsonItemView::Absent => Some(missing_field(table)),
        _ => Some(invalid_type(table, "a table"@)),
    }
}

/// Whether the optional table `table`, when present, is a table, or why not.
pub open spec fn optional_table_problem(document: Seq<char>, table: Seq<char>) -> Option<Seq<char>> {
    match item_at(document, "/"@ + table) {
        JsonItemView::Object | JsonItemView::Absent => None,
        _ => Some(invalid_type(table, "a table"@)),
    }
}

/// The string setting `key` of `table`, or `default` when it is left out.
pub open spec fn text_setting(
    document: Seq<char>,
    table: Seq<char>,
    key: Seq<char>,
    default: Option<Seq<char>>,
) -> Result<Seq<char>, Seq<char>> {
    match item_at(document, "/"@ + table + "/"@ + key) {
        JsonItemView::Text(value) => Ok(value),
        JsonItemView::Absent => match default {
            Some(value) => Ok(value),
            None => Err(missing_field(key)),
        },
        _ => Err(invalid_type(key, "a string"@)),
    }
}

pub open spec fn age_setting(document: Seq<char>) -> Result<u8, Seq<char>> {
    match item_at(document, "/child/age"@) {
        JsonItemView::Integer(age) => if 0 <= age <= 255 {
            Ok(age as u8)
        } else {
            Err("invalid value for `age`, expected an integer from 0 to 255"@)
        },
        JsonItemView::Absent => Ok(5u8),
        _ => Err(invalid_type("age"@, "an integer"@)),
    }
}

pub open spec fn format_setting(document: Seq<char>) -> Result<AudioFormat, Seq<char>> {
    match item_at(document, "/openai/audio_format"@) {
        JsonItemView::Text(name) => if name == "ulaw"@ {
            Ok(AudioFormat::Ulaw)
        } else if name == "pcm16"@ {
            Ok(AudioFormat::Pcm16)
        } else {
            Err("unknown variant for `audio_format`, expected `ulaw` or `pcm16`"@)
        },
        JsonItemView::Absent => Ok(AudioFormat::Ulaw),
        _ => Err(invalid_type("audio_format"@, "a string"@)),
    }
}

/// The settings the document gives, defaults filled in, or the first thing
/// that keeps it from being read as settings.
pub open spec fn settings_of(document: Seq<char>) -> Result<ConfigView, Seq<char>> {
    let name = text_setting(document, "child"@, "name"@, None);
    let age = age_setting(document);
    let assistant_name = text_setting(document, "assistant"@, "name"@, Some("アシスタント"@));
    let ssid = text_setting(document, "wifi"@, "ssid"@, None);
    let password = text_setting(document, "wifi"@, "password"@, None);
    let api_key = text_setting(document, "openai"@, "api_key"@, None);
    let model = text_setting(document, "openai"@, "model"@, Some("gpt-realtime-2.1-mini"@));
    let voice = text_setting(document, "openai"@, "voice"@, Some("marin"@));
    let format = format_setting(document);
    let search_key = text_setting(document, "search"@, "api_key"@, Some(""@));
    if table_problem(document, "child"@) is Some {
        Err(table_problem(document, "child"@)->0)
    } else if name is Err {
        Err(name->Err_0)
    } else if age is Err {
        Err(age->Err_0)
    } else if optional_table_problem(document, "assistant"@) is Some {
        Err(optional_table_problem(document, "assistant"@)->0)
    } else if assistant_name is Err {
        Err(assistant_name->Err_0)
    } else if table_problem(document, "wifi"@) is Some {
        Err(table_problem(document, "wifi"@)->0)
    } else if ssid is Err {
        Err(ssid->Err_0)
    } else if password is Err {
        Err(password->Err_0)
    } else if table_problem(document, "openai"@) is Some {
        Err(table_problem(document, "openai"@)->0)
    } else if api_key is Err {
        Err(api_key->Err_0)
    } else if model is Err {
        Err(model->Err_0)
    } else if voice is Err {
        Err(voice->Err_0)
    } else if format is Err {
        Err(format->Err_0)
    } else if optional_table_problem(document, "search"@) is Some {
        Err(optional_table_problem(document, "search"@)->0)
    } else if search_key is Err {
        Err(search_key->Err_0)
    } else {
        Ok(
            ConfigView {
                name: name->Ok_0,
                age: age->Ok_0,
                assistant_name: assistant_name->Ok_0,
                ssid: ssid->Ok_0,
                password: password->Ok_0,
                api_key: api_key->Ok_0,
                model: model->Ok_0,
                voice: voice->Ok_0,
                audio_format: format->Ok_0,
                search_key: search_key->Ok_0,
            },
        )
    }
}

/// Settings read from a document hold what it gives at each key, and the
/// documented defaults where it leaves a key out: the child's age is the
/// integer under `[child]`, 5 when absent, and never above 255.
pub proof fn law_settings_hold_what_the_file_says(document: Seq<char>)
    ensures
        settings_of(document) matches Ok(settings) ==> ({
            &&& item_at(document, "/child/age"@) matches JsonItemView::Integer(n) ==> settings.age == n
            &&& item_at(document, "/child/age"@) is Absent ==> settings.age == 5
            &&& item_at(document, "/child/name"@) matches JsonItemView::Text(v) && settings.name == v
            &&& item_at(document, "/wifi/ssid"@) matches JsonItemView::Text(v) && settings.ssid == v
            &&& item_at(document, "/wifi/password"@) matches JsonItemView::Text(v) && settings.password
                == v
            &&& item_at(document, "/openai/api_key"@) matches JsonItemView::Text(v) && settings.api_key
                == v
            &&& item_at(document, "/openai/model"@) matches JsonItemView::Text(v) ==> settings.model == v
            &&& item_at(document, "/openai/model"@) is Absent ==> settings.model
                == "gpt-realtime-2.1-mini"@
            &&& item_at(document, "/openai/voice"@) matches JsonItemView::Text(v) ==> settings.voice == v
            &&& item_at(document, "/openai/voice"@) is Absent ==> settings.voice == "marin"@
            &&& item_at(document, "/openai/audio_format"@) matches JsonItemView::Text(v) ==> (v
                == "ulaw"@ && settings.audio_format == AudioFormat::Ulaw) || (v == "pcm16"@
                && settings.audio_format == AudioFormat::Pcm16)
            &&& item_at(document, "/openai/audio_format"@) is Absent ==> settings.audio_format
                == AudioFormat::Ulaw
            &&& item_at(document, "/assistant/name"@) matches JsonItemView::Text(v) ==> settings.assistant_name == v
            &&& item_at(document, "/assistant/name"@) is Absent ==> settings.assistant_name
                == "アシスタント"@
            &&& item_at(document, "/search/api_key"@) matches JsonItemView::Text(v) ==> settings.search_key == v
            &&& item_at(document, "/search/api_key"@) is Absent ==> settings.search_key == ""@
        }),
        item_at(document, "/child/age"@) matches JsonItemView::Integer(n) && (n < 0 || n > 255)
            ==> settings_of(document) is Err,
{
    reveal_strlit("/");
    reveal_strlit("child");
    reveal_strlit("name");
    reveal_strlit("/child/name");
    reveal_strlit("wifi");
    reveal_strlit("ssid");
    reveal_strlit("/wifi/ssid");
    reveal_strlit("password");
    reveal_strlit("/wifi/password");
    reveal_strlit("openai");
    reveal_strlit("api_key");
    reveal_strlit("/openai/api_key");
    reveal_strlit("model");
    reveal_strlit("/openai/model");
    reveal_strlit("voice");
    reveal_strlit("/openai/voice");
    reveal_strlit("assistant");
    reveal_strlit("/assistant/name");
    reveal_strlit("search");
    reveal_strlit("/search/api_key");
    assert("/"@ + "child"@ + "/"@ + "name"@ =~= "/child/name"@);
    assert("/"@ + "wifi"@ + "/"@ + "ssid"@ =~= "/wifi/ssid"@);
    assert("/"@ + "wifi"@ + "/"@ + "password"@ =~= "/wifi/password"@);
    assert("/"@ + "openai"@ + "/"@ + "api_key"@ =~= "/openai/api_key"@);
    assert("/"@ + "openai"@ + "/"@ + "model"@ =~= "/openai/model"@);
    assert("/"@ + "openai"@ + "/"@ + "voice"@ =~= "/openai/voice"@);
    assert("/"@ + "assistant"@ + "/"@ + "name"@ =~= "/assistant/name"@);
    assert("/"@ + "search"@ + "/"@ + "api_key"@ =~= "/search/api_key"@);
}

fn check_table(document: &str, table: &str) -> (problem: Option<String>)
    ensures
        match problem {
            Some(detail) => table_problem(document@, table@) == Some(detail@),
            None => table_problem(document@, table@) is None,
        },
{
    let mut pointer = "/".to_owned();
    pointer.append(table);
    match lookup(document, pointer.as_str()) {
        JsonItem::Object => None,
        JsonItem::Absent => {
            let mut detail = "missing field `".to_owned();
            detail.append(table);
            detail.append("`");
            Some(detail)
        },
        _ => {
            let mut detail = "invalid type for `".to_owned();
            detail.append(table);
            detail.append("`, expected a table");
            proof {
                assert("invalid type for `"@ + table@ + "`, expected a table"@ =~= invalid_type(
                    table@,
                    "a table"@,
                )) by {
                    reveal_strlit("`, expected a table");
                    reveal_strlit("`, expected ");
                    reveal_strlit("a table");
                }
            }
            Some(detail)
        },
    }
}

pub open spec fn optional_view(text: Option<&str>) -> Option<Seq<char>> {
    match text {
        Some(t) => Some(t@),
        None => None,
    }
}

fn check_optional_table(document: &str, table: &str) -> (problem: Option<String>)
    ensures
        match problem {
            Some(detail) => optional_table_problem(document@, table@) == Some(detail@),
            None => optional_table_problem(document@, table@) is None,
        },
{
    let mut pointer = "/".to_owned();
    pointer.append(table);
    match lookup(document, pointer.as_str()) {
        JsonItem::Object | JsonItem::Absent => None,
        _ => {
            let mut detail = "invalid type for `".to_owned();
            detail.append(table);
            detail.append("`, expected a table");
            proof {
                assert("invalid type for `"@ + table@ + "`, expected a table"@ =~= invalid_type(
                    table@,
                    "a table"@,
                )) by {
                    reveal_strlit("`, expected a table");
                    reveal_strlit("`, expected ");
                    reveal_strlit("a table");
                }
            }
            Some(detail)
        },
    }
}

fn read_text_setting(document: &str, table: &str, key: &str, default: Option<&str>) -> (value:
    Result<String, String>)
    ensures
        match value {
            Ok(text) => text_setting(document@, table@, key@, optional_view(default)) == Ok::<
                Seq<char>,
                Seq<char>,
            >(text@),
            Err(detail) => text_setting(document@, table@, key@, optional_view(default))
                == Err::<Seq<char>, Seq<char>>(detail@),
        },
{
    let mut pointer = "/".to_owned();
    pointer.append(table);
    pointer.append("/");
    pointer.append(key);
    match lookup(document, pointer.as_str()) {
        JsonItem::Text(text) => Ok(text),
        JsonItem::Absent => match default {
            Some(text) => Ok(text.to_owned()),
            None => {
                let mut detail = "missing field `".to_owned();
                detail.append(key);
                detail.append("`");
                Err(detail)
            },
        },
        _ => {
            let mut detail = "invalid type for `".to_owned();
            detail.append(key);
            detail.append("`, expected a string");
            proof {
                assert("invalid type for `"@ + key@ + "`, expected a string"@ =~= invalid_type(
                    key@,
                    "a string"@,
                )) by {
                    reveal_strlit("`, expected a string");
                    reveal_strlit("`, expected ");
                    reveal_strlit("a string");
                }
            }
            Err(detail)
        },
    }
}

fn read_age(document: &str) -> (age: Result<u8, String>)
    ensures
        match age {
            Ok(value) => age_setting(document@) == Ok::<u8, Seq<char>>(value),
            Err(detail) => age_setting(document@) == Err::<u8, Seq<char>>(detail@),
        },
{
    match lookup(document, "/child/age") {
        JsonItem::Integer(value) => {
            if 0 <= value && value <= 255 {
                Ok(value as u8)
            } else {
                Err("invalid value for `age`, expected an integer from 0 to 255".to_owned())
            }
        },
        JsonItem::Absent => Ok(DEFAULT_AGE),
        _ => {
            let detail = "invalid type for `age`, expected an integer".to_owned();
            proof {
                assert(detail@ =~= invalid_type("age"@, "an integer"@)) by {
                    reveal_strlit("invalid type for `age`, expected an integer");
                    reveal_strlit("invalid type for `");
                    reveal_strlit("`, expected ");
                    reveal_strlit("an integer");
                    reveal_strlit("age");
                }
            }
            Err(detail)
        },
    }
}

fn read_format(document: &str) -> (format: Result<AudioFormat, String>)
    ensures
        match format {
            Ok(value) => format_setting(document@) == Ok::<AudioFormat, Seq<char>>(value),
            Err(detail) => format_setting(document@) == Err::<AudioFormat, Seq<char>>(detail@),
        },
{
    match lookup(document, "/openai/audio_format") {
        JsonItem::Text(name) => {
            if str_eq(name.as_str(), "ulaw") {
                Ok(AudioFormat::Ulaw)
            } else if str_eq(name.as_str(), "pcm16") {
                Ok(AudioFormat::Pcm16)
            } else {
                Err("unknown variant for `audio_format`, expected `ulaw` or `pcm16`".to_owned())
            }
        },
        JsonItem::Absent => Ok(AudioFormat::Ulaw),
        _ => {
            let detail = "invalid type for `audio_format`, expected a string".to_owned();
            proof {
                assert(detail@ =~= invalid_type("audio_format"@, "a string"@)) by {
                    reveal_strlit("invalid type for `audio_format`, expected a string");
                    reveal_strlit("invalid type for `");
                    reveal_strlit("`, expected ");
                    reveal_strlit("a string");
                    reveal_strlit("audio_format");
                }
            }
            Err(detail)
        },
    }
}

/// Reads the settings out of the JSON form of the file: each field in the
/// order the template lists them, defaults for the optional ones.
pub fn settings_from_json(document: &str) -> (settings: Result<Config, String>)
    ensures
        match settings {
            Ok(config) => settings_of(document@) == Ok::<ConfigView, Seq<char>>(config@),
            Err(detail) => settings_of(document@) == Err::<ConfigView, Seq<char>>(detail@),
        },
{
    match check_table(document, "child") {
        Some(detail) => return Err(detail),
        None => {},
    }
    let name = match read_text_setting(document, "child", "name", None) {
        Ok(value) => value,
        Err(detail) => return Err(detail),
    };
    let age = match read_age(document) {
        Ok(value) => value,
        Err(detail) => return Err(detail),
    };
    match check_optional_table(document, "assistant") {
        Some(detail) => return Err(detail),
        None => {},
    }
    let assistant_name = match read_text_setting(document, "assistant", "name", Some("アシスタント")) {
        Ok(value) => value,
        Err(detail) => return Err(detail),
    };
    match check_table(document, "wifi") {
        Some(detail) => return Err(detail),
        None => {},
    }
    let ssid = match read_text_setting(document, "wifi", "ssid", None) {
        Ok(value) => value,
        Err(detail) => return Err(detail),
    };
    let password = match read_text_setting(document, "wifi", "password", None) {
        Ok(value) => value,
        Err(detail) => return Err(detail),
    };
    match check_table(document, "openai") {
        Some(detail) => return Err(detail),
        None => {},
    }
    let api_key = match read_text_setting(document, "openai", "api_key", None) {
        Ok(value) => value,
        Err(detail) => return Err(detail),
    };
    let model = match read_text_setting(document, "openai", "model", Some(DEFAULT_MODEL)) {
        Ok(value) => value,
        Err(detail) => return Err(detail),
    };
    let voice = match read_text_setting(document, "openai", "voice", Some(DEFAULT_VOICE)) {
        Ok(value) => value,
        Err(detail) => return Err(detail),
    };
    let audio_format = match read_format(document) {
        Ok(value) => value,
        Err(detail) => return Err(detail),
    };
    match check_optional_table(document, "search") {
        Some(detail) => return Err(detail),
        None => {},
    }
    let search_key = match read_text_setting(document, "search", "api_key", Some("")) {
        Ok(value) => value,
        Err(detail) => return Err(detail),
    };
    Ok(
        Config {
            child: ChildConfig { name, age },
            assistant: AssistantConfig { name: assistant_name },
            wifi: WifiConfig { ssid, password },
            openai: OpenAiConfig { api_key, model, voice, audio_format },
            search: SearchConfig { api_key: search_key },
        },
    )
}

/// What reading `source` as the settings gives.
pub open spec fn config_outcome(source: Seq<char>, result: Result<Config, ConfigError>) -> bool {
    match toml_as_json(source) {
        Err(message) => result matches Err(ConfigError::Malformed { detail }) && detail@ == message,
        Ok(document) => match settings_of(document) {
            Err(message) => result matches Err(ConfigError::Malformed { detail }) && detail@
                == message,
            Ok(settings) => if config_problems(settings).len() > 0 {
                result matches Err(ConfigError::Unwritten(problems)) && problems_view(problems@)
                    == config_problems(settings)
            } else {
                result matches Ok(config) && config@ == settings
            },
        },
    }
}

/// Reads TOML text as the settings and checks them.
pub fn parse_config(source: &str) -> (result: Result<Config, ConfigError>)
    ensures
        config_outcome(source@, result),
{
    let document = match toml_to_json(source) {
        Ok(document) => document,
        Err(message) => return Err(ConfigError::Malformed { detail: message }),
    };
    let config = match settings_from_json(document.as_str()) {
        Ok(config) => config,
        Err(message) => return Err(ConfigError::Malformed { detail: message }),
    };
    match config.validate() {
        Ok(()) => Ok(config),
        Err(problems) => Err(ConfigError::Unwritten(problems)),
    }
}

/// The settings from what reading the file gave: a read error means the
/// card cannot be read; read text is parsed and checked.
pub fn settings_from_read(read: Result<String, StorageError>) -> (result: Result<Config, ConfigError>)
    ensures
        match read {
            Err(error) => result == Err::<Config, ConfigError>(ConfigError::Unreadable(error)),
            Ok(source) => config_outcome(source@, result),
        },
{
    match read {
        Ok(source) => parse_config(source.as_str()),
        Err(error) => Err(ConfigError::Unreadable(error)),
    }
}

/// Reads the settings from the card. When there is no file, writes the
/// template for a parent to fill in and answers `TemplateCreated`.
///
/// What the storage answers decides between success and `Unreadable`: a
/// missing file gives `TemplateCreated` with the template and its directory
/// on the card, or `Unreadable` when the card refuses them; a file that is
/// there is read as `parse_config` says, unless the card refuses the read.
pub fn load_config<S: Storage>(storage: &mut S) -> (result: Result<Config, ConfigError>)
    ensures
        result matches Ok(config) ==> config_problems(config@).len() == 0,
        !old(storage).files().contains_key(CONFIG_PATH@) ==> (result matches Err(
            ConfigError::TemplateCreated,
        )) || (result matches Err(ConfigError::Unreadable(_))),
        result matches Err(ConfigError::TemplateCreated) ==> !old(storage).files().contains_key(
            CONFIG_PATH@,
        ) && final(storage).files() == old(storage).files().insert(CONFIG_PATH@, CONFIG_TEMPLATE@)
            && final(storage).dirs().contains(CONFIG_DIR@),
        old(storage).files().contains_key(CONFIG_PATH@) && !(result matches Err(
            ConfigError::Unreadable(_),
        )) ==> config_outcome(old(storage).files()[CONFIG_PATH@], result),
{
    if !storage.file_exists(CONFIG_PATH) {
        match create_template(storage) {
            Ok(()) => {},
            Err(error) => return Err(error),
        }
        return Err(ConfigError::TemplateCreated);
    }
    settings_from_read(storage.read_text(CONFIG_PATH))
}

/// Creates the settings directory and writes the template into it.
fn create_template<S: Storage>(storage: &mut S) -> (result: Result<(), ConfigError>)
    ensures
        result matches Err(error) ==> error is Unreadable,
        result is Ok ==> final(storage).files() == old(storage).files().insert(
            CONFIG_PATH@,
            CONFIG_TEMPLATE@,
        ) && final(storage).dirs().contains(CONFIG_DIR@),
{
    let created = storage.create_dir(CONFIG_DIR);
    write_template(created, storage)
}

/// What the card's answer to a write means for the settings: a refusal is
/// `Unreadable` with the card's error.
pub fn card_answer(answer: Result<(), StorageError>) -> (result: Result<(), ConfigError>)
    ensures
        match answer {
            Ok(()) => result is Ok,
            Err(error) => result == Err::<(), ConfigError>(ConfigError::Unreadable(error)),
        },
{
    match answer {
        Ok(()) => Ok(()),
        Err(error) => Err(ConfigError::Unreadable(error)),
    }
}

/// Writes the template once its directory was made (`created` is the card's
/// answer to that). A refused directory is `Unreadable` with its error and
/// the card is left alone; otherwise the answer to the write decides.
pub fn write_template<S: Storage>(created: Result<(), StorageError>, storage: &mut S) -> (result:
    Result<(), ConfigError>)
    ensures
        created matches Err(error) ==> result == Err::<(), ConfigError>(ConfigError::Unreadable(error))
            && *final(storage) == *old(storage),
        created is Ok ==> match result {
            Ok(()) => final(storage).files() == old(storage).files().insert(
                CONFIG_PATH@,
                CONFIG_TEMPLATE@,
            ) && final(storage).dirs() == old(storage).dirs(),
            Err(error) => error is Unreadable,
        },
{
    match created {
        Err(error) => Err(ConfigError::Unreadable(error)),
        Ok(()) => card_answer(storage.write_text(CONFIG_PATH, CONFIG_TEMPLATE)),
    }
}

/// Every problem is explained, and every remedy starts by naming the file to
/// open.
pub proof fn law_every_problem_names_the_file(problem: ProblemView)
    ensures
        problem_description(problem).len() > 0,
        problem_remedy(problem).take(CONFIG_PATH@.len() as int) == CONFIG_PATH@,
{
    reveal_strlit("こどもの名前が書かれていません");
    reveal_strlit("WiFiのSSIDが書かれていません");
    reveal_strlit("WiFiのパスワードが書かれていません");
    reveal_strlit("OpenAIのAPIキーが書かれていません");
    reveal_strlit("voice の \"");
    let rest = problem_remedy(problem).skip(CONFIG_PATH@.len() as int);
    assert(problem_remedy(problem) == CONFIG_PATH@ + rest);
}

} // verus!

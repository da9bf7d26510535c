//! Keeping the conversation safe for a child.
//!
//! The main control is the instructions given to the session. The word filter
//! here is the fallback for when those instructions are not followed; it only
//! looks for clearly dangerous words, so that a child's innocent questions are
//! not cut off by mistake.

use vstd::prelude::*;
use vstd::string::StringExecFns;

use crate::greeting::{greeting_of, TimeOfDay};
use crate::text::{chars_of, decimal, push_decimal, white_space, is_white_space};

verus! {

/// A topic that needs care.
#[derive(Debug, Clone, Copy, PartialEq, Eq, Structural)]
pub enum Concern {
    /// Sexual content.
    Sexual,
    /// Ways to hurt others.
    Harm,
    /// Wanting to hurt oneself.
    SelfHarm,
}

pub open spec fn safe_reply_text(concern: Concern, child_name: Seq<char>) -> Seq<char> {
    child_name + match concern {
        Concern::Sexual => "、それは大人になってからのお話だよ。他のことをお喋りしよう"@,
        Concern::Harm => "、誰かが痛いのは嫌だね。他のことをお喋りしよう"@,
        Concern::SelfHarm => "、つらい気持ちがあるんだね。教えてくれてありがとう。おうちの人にいっしょに話してみよう。"@,
    }
}

impl Concern {
    /// What to say instead: reassure, never scold.
    pub fn safe_reply(self, child_name: &str) -> (reply: String)
        ensures
            reply@ == safe_reply_text(self, child_name@),
    {
        let mut reply = child_name.to_owned();
        match self {
            Concern::Sexual => reply.append(
                "、それは大人になってからのお話だよ。他のことをお喋りしよう",
            ),
            Concern::Harm => reply.append("、誰かが痛いのは嫌だね。他のことをお喋りしよう"),
            // Accept the feeling and lead to a grown-up nearby.
            Concern::SelfHarm => reply.append(
                "、つらい気持ちがあるんだね。教えてくれてありがとう。おうちの人にいっしょに話してみよう。",
            ),
        }
        reply
    }

    /// Whether a parent should be told. A child's worries must not be missed.
    pub fn should_notify_parent(self) -> (notify: bool)
        ensures
            notify == (self == Concern::SelfHarm),
    {
        match self {
            Concern::SelfHarm => true,
            _ => false,
        }
    }
}

/// The outcome of the word filter.
#[derive(Debug, Clone, Copy, PartialEq, Eq, Structural)]
pub enum Verdict {
    /// Let it through.
    Allow,
    /// Say the prepared words instead.
    Intervene(Concern),
}

/// The words that mark each concern, written in hiragana without spaces.
/// Body parts are left out: children name them in ordinary talk.
pub open spec fn concern_terms(concern: Concern) -> Seq<Seq<char>> {
    match concern {
        Concern::Sexual => seq![
            "せっくす"@,
            "せいこうい"@,
            "ぽるの"@,
            "あだると"@,
            "えろほん"@,
            "えっちなどうが"@,
        ],
        // Asking how to hurt, not innocent questions about violence.
        Concern::Harm => seq![
            "ころしかた"@,
            "ころすほうほう"@,
            "ばくだんのつくりかた"@,
            "どくのつくりかた"@,
            "ぶきのつくりかた"@,
            "じんをころす"@,
        ],
        Concern::SelfHarm => seq![
            "しにたい"@,
            "きえたい"@,
            "じさつ"@,
            "りすとかっと"@,
            "いなくなりたい"@,
        ],
    }
}

fn terms_of(concern: Concern) -> (terms: Vec<&'static str>)
    ensures
        terms@.len() == concern_terms(concern).len(),
        forall|i: int| 0 <= i < terms@.len() ==> (#[trigger] terms@[i])@ == concern_terms(concern)[i],
{
    match concern {
        Concern::Sexual => vec!["せっくす", "せいこうい", "ぽるの", "あだると", "えろほん", "えっちなどうが"],
        Concern::Harm => vec![
            "ころしかた",
            "ころすほうほう",
            "ばくだんのつくりかた",
            "どくのつくりかた",
            "ぶきのつくりかた",
            "じんをころす",
        ],
        Concern::SelfHarm => vec!["しにたい", "きえたい", "じさつ", "りすとかっと", "いなくなりたい"],
    }
}

/// Whether `term` occurs in `text`.
pub open spec fn mentions(text: Seq<char>, term: Seq<char>) -> bool {
    exists|i: int| 0 <= i <= text.len() - term.len() && #[trigger] text.subrange(i, i + term.len()) == term
}

pub open spec fn mentions_concern(text: Seq<char>, concern: Concern) -> bool {
    exists|k: int| 0 <= k < concern_terms(concern).len() && mentions(text, #[trigger] concern_terms(concern)[k])
}

/// The verdict on normalized text. Self-harm is looked for first: missing it
/// would be the worst miss.
pub open spec fn verdict_of(normalized: Seq<char>) -> Verdict {
    if mentions_concern(normalized, Concern::SelfHarm) {
        Verdict::Intervene(Concern::SelfHarm)
    } else if mentions_concern(normalized, Concern::Sexual) {
        Verdict::Intervene(Concern::Sexual)
    } else if mentions_concern(normalized, Concern::Harm) {
        Verdict::Intervene(Concern::Harm)
    } else {
        Verdict::Allow
    }
}

/// Punctuation and dashes that are dropped before words are looked for.
pub open spec fn is_separator(c: char) -> bool {
    c == '、' || c == '。' || c == '，' || c == '．' || c == '!' || c == '?' || c == '！' || c == '？'
        || c == 'ー' || c == '-'
}

/// Characters ignored when looking for words.
pub open spec fn ignored(c: char) -> bool {
    white_space(c) || is_separator(c)
}

/// Katakana moved to the matching hiragana, which lies 0x60 below.
pub open spec fn hiragana_of(c: char) -> char {
    if 'ァ' <= c <= 'ヶ' {
        ((c as u32) - 0x60) as char
    } else {
        c
    }
}

/// What `char::to_lowercase` yields for `c`.
pub uninterp spec fn lowercase_of(c: char) -> Seq<char>;

/// How one character reads after normalization.
pub open spec fn normalized_char(c: char) -> Seq<char> {
    if ignored(c) {
        Seq::empty()
    } else {
        lowercase_of(hiragana_of(c))
    }
}

/// Text with spelling differences removed: spaces and separators dropped,
/// katakana read as hiragana, letters in lower case.
pub open spec fn normalized(text: Seq<char>) -> Seq<char>
    decreases text.len(),
{
    if text.len() == 0 {
        Seq::empty()
    } else {
        normalized(text.drop_last()) + normalized_char(text.last())
    }
}

/// The characters of `c` in lower case, by std's `char::to_lowercase`,
/// collected in order. The result is `lowercase_of(c)`.
#[verifier::external_body]
fn lowercase(c: char) -> (lower: Vec<char>)
    ensures
        lower@ == lowercase_of(c),
{
    c.to_lowercase().collect()
}

/// Whether `code` is a Unicode scalar value, the values `char` can hold.
pub open spec fn is_scalar_value(code: u32) -> bool {
    code <= 0xD7FF || (0xE000 <= code <= 0x10FFFF)
}

/// The `char` of a code point, by std's `char::from_u32`, which the std
/// documentation says returns `None` exactly when the value is not a `char`.
#[verifier::external_body]
fn char_from_code(code: u32) -> (c: Option<char>)
    ensures
        match c {
            Some(c) => is_scalar_value(code) && c == code as char,
            None => !is_scalar_value(code),
        },
{
    char::from_u32(code)
}

fn is_separator_char(c: char) -> (separator: bool)
    ensures
        separator == is_separator(c),
{
    c == '、' || c == '。' || c == '，' || c == '．' || c == '!' || c == '?' || c == '！' || c == '？'
        || c == 'ー' || c == '-'
}

fn to_hiragana(c: char) -> (h: char)
    ensures
        h == hiragana_of(c),
{
    if 'ァ' <= c && c <= 'ヶ' {
        assert(is_scalar_value((c as u32 - 0x60) as u32));
        match char_from_code(c as u32 - 0x60) {
            Some(h) => h,
            None => c,
        }
    } else {
        c
    }
}

/// Removes spelling differences before words are looked for.
pub fn normalize(text: &str) -> (n: Vec<char>)
    ensures
        n@ == normalized(text@),
{
    let chars = chars_of(text);
    let mut n: Vec<char> = Vec::new();
    let mut i: usize = 0;
    while i < chars.len()
        invariant
            i <= chars.len(),
            chars@ == text@,
            n@ == normalized(text@.take(i as int)),
        decreases chars.len() - i,
    {
        let c = chars[i];
        assert(text@.take(i + 1).drop_last() == text@.take(i as int));
        if !(is_white_space(c) || is_separator_char(c)) {
            let lower = lowercase(to_hiragana(c));
            let mut j: usize = 0;
            let ghost before = n@;
            while j < lower.len()
                invariant
                    j <= lower.len(),
                    n@ == before + lower@.take(j as int),
                decreases lower.len() - j,
            {
                n.push(lower[j]);
                assert(lower@.take(j + 1) == lower@.take(j as int).push(lower@[j as int]));
                j = j + 1;
            }
            assert(lower@.take(lower.len() as int) == lower@);
        }
        assert(normalized(text@.take(i + 1)) == normalized(text@.take(i as int)) + normalized_char(c));
        i = i + 1;
    }
    assert(text@.take(text@.len() as int) == text@);
    n
}

/// Whether `term` occurs in `text`.
fn contains_term(text: &Vec<char>, term: &str) -> (found: bool)
    ensures
        found == mentions(text@, term@),
{
    let word = chars_of(term);
    if word.len() > text.len() {
        return false;
    }
    let last = text.len() - word.len();
    let mut start: usize = 0;
    while start <= last
        invariant
            word@ == term@,
            last == text.len() - word.len(),
            word.len() <= text.len(),
            start <= last + 1,
            forall|i: int| 0 <= i < start ==> #[trigger] text@.subrange(i, i + term@.len()) != term@,
        decreases last + 1 - start,
    {
        let mut k: usize = 0;
        while k < word.len() && text[start + k] == word[k]
            invariant
                k <= word.len(),
                start <= last,
                last == text.len() - word.len(),
                forall|m: int| 0 <= m < k ==> text@[start + m] == word@[m],
            decreases word.len() - k,
        {
            k = k + 1;
        }
        if k == word.len() {
            assert(text@.subrange(start as int, start + term@.len()) =~= term@);
            assert(mentions(text@, term@));
            return true;
        }
        assert(text@.subrange(start as int, start + term@.len())[k as int] != term@[k as int]);
        start = start + 1;
    }
    false
}

/// Whether the text mentions any word of `concern`.
fn mentions_any(text: &Vec<char>, concern: Concern) -> (found: bool)
    ensures
        found == mentions_concern(text@, concern),
{
    let terms = terms_of(concern);
    let mut k: usize = 0;
    while k < terms.len()
        invariant
            k <= terms.len(),
            terms@.len() == concern_terms(concern).len(),
            forall|i: int| 0 <= i < terms@.len() ==> (#[trigger] terms@[i])@ == concern_terms(concern)[i],
            forall|i: int| 0 <= i < k ==> !mentions(text@, #[trigger] concern_terms(concern)[i]),
        decreases terms.len() - k,
    {
        if contains_term(text, terms[k]) {
            assert(mentions(text@, concern_terms(concern)[k as int]));
            return true;
        }
        k = k + 1;
    }
    false
}

/// The safety net around the conversation.
#[derive(Debug, Clone)]
pub struct Guardrail {
    child_name: String,
    child_age: u8,
    assistant_name: String,
}

/// The instructions that shape how the assistant speaks and what it avoids.
pub open spec fn instructions_text(child: Seq<char>, age: u8, assistant: Seq<char>) -> Seq<char> {
    "あなたの名前は「"@ + assistant + "」です。"@ + decimal(age as nat) + "才の'"@ + child
        + "'さんの優しい友達です。\n名前を聞かれたら「"@ + assistant
        + "」と答える。\n\n話し方:\n- **回答は100文字程度まで**。\n- 年齢に合わせて言葉を選ぶ。難しい言葉は使わない。\n- 名前を呼ぶのは、話の最初か特別なときだけにする。毎回呼ぶと不自然。\n- ゆっくり、はっきり、落ち着いた声で話す。\n- 長く説明したい場合は、まず短く答えて、そのあと「もっと聞きたい？」と聞く。\n\n禁則事項：\n- 怖い話、暴力、性的な話はしない。\n- 「死んで」「バカ」など、人を傷つける言葉は使わない。\n- 自分や他人を傷つける方法は教えない。\n- "@
        + child
        + "の住所や電話番号、学校の名前は聞かない。\n- 買い物や課金の勧誘をしない。\n- 薬、病気、怪我の治療は答えず、おうちの人に聞くよう伝える。\n- 火、刃物、危険な場所、知らない人についていくなど危ないことは勧めない。\n- 知らないことは「僕には分からない」と正直に言う。作り話はしない。\n- "@
        + child + "が悲しそうな時は、気持ちを受け止め、おうちの人に話すよう勧める。"@
}

/// What the assistant is asked to do when it can first speak.
pub open spec fn greeting_prompt_text(child: Seq<char>, time_of_day: TimeOfDay) -> Seq<char> {
    "今 起動して話せるように なった ところです。あなたから 先に、\n「"@ + child
        + "」に短く挨拶をしてください。\n「"@ + greeting_of(time_of_day) + "」と挨拶し、「"@
        + child + "」の名前を\n呼んでもいいです。1文だけで終わってください。"@
}

impl Guardrail {
    pub closed spec fn child_name(&self) -> Seq<char> {
        self.child_name@
    }

    pub closed spec fn child_age(&self) -> u8 {
        self.child_age
    }

    pub closed spec fn assistant_name(&self) -> Seq<char> {
        self.assistant_name@
    }

    pub fn new(child_name: &str, child_age: u8, assistant_name: &str) -> (guardrail: Self)
        ensures
            guardrail.child_name() == child_name@,
            guardrail.child_age() == child_age,
            guardrail.assistant_name() == assistant_name@,
    {
        Guardrail {
            child_name: child_name.to_owned(),
            child_age,
            assistant_name: assistant_name.to_owned(),
        }
    }

    /// What to ask for when the device can first speak: only the outline, so
    /// that the wording changes from day to day.
    pub fn build_greeting_prompt(&self, time_of_day: TimeOfDay) -> (prompt: String)
        ensures
            prompt@ == greeting_prompt_text(self.child_name(), time_of_day),
    {
        let mut prompt = "今 起動して話せるように なった ところです。あなたから 先に、\n「".to_owned();
        prompt.append(self.child_name.as_str());
        prompt.append("」に短く挨拶をしてください。\n「");
        prompt.append(time_of_day.greeting());
        prompt.append("」と挨拶し、「");
        prompt.append(self.child_name.as_str());
        prompt.append("」の名前を\n呼んでもいいです。1文だけで終わってください。");
        prompt
    }

    /// The instructions for the session.
    pub fn build_instructions(&self) -> (instructions: String)
        ensures
            instructions@ == instructions_text(
                self.child_name(),
                self.child_age(),
                self.assistant_name(),
            ),
    {
        let child = self.child_name.as_str();
        let assistant = self.assistant_name.as_str();
        let mut text = "あなたの名前は「".to_owned();
        text.append(assistant);
        text.append("」です。");
        push_decimal(&mut text, self.child_age as u64);
        text.append("才の'");
        text.append(child);
        text.append("'さんの優しい友達です。\n名前を聞かれたら「");
        text.append(assistant);
        text.append(
            "」と答える。\n\n話し方:\n- **回答は100文字程度まで**。\n- 年齢に合わせて言葉を選ぶ。難しい言葉は使わない。\n- 名前を呼ぶのは、話の最初か特別なときだけにする。毎回呼ぶと不自然。\n- ゆっくり、はっきり、落ち着いた声で話す。\n- 長く説明したい場合は、まず短く答えて、そのあと「もっと聞きたい？」と聞く。\n\n禁則事項：\n- 怖い話、暴力、性的な話はしない。\n- 「死んで」「バカ」など、人を傷つける言葉は使わない。\n- 自分や他人を傷つける方法は教えない。\n- ",
        );
        text.append(child);
        text.append(
            "の住所や電話番号、学校の名前は聞かない。\n- 買い物や課金の勧誘をしない。\n- 薬、病気、怪我の治療は答えず、おうちの人に聞くよう伝える。\n- 火、刃物、危険な場所、知らない人についていくなど危ないことは勧めない。\n- 知らないことは「僕には分からない」と正直に言う。作り話はしない。\n- ",
        );
        text.append(child);
        text.append("が悲しそうな時は、気持ちを受け止め、おうちの人に話すよう勧める。");
        text
    }

    /// Looks for words that need care in what was said.
    pub fn inspect(&self, text: &str) -> (verdict: Verdict)
        ensures
            verdict == verdict_of(normalized(text@)),
    {
        let normalized = normalize(text);
        if mentions_any(&normalized, Concern::SelfHarm) {
            Verdict::Intervene(Concern::SelfHarm)
        } else if mentions_any(&normalized, Concern::Sexual) {
            Verdict::Intervene(Concern::Sexual)
        } else if mentions_any(&normalized, Concern::Harm) {
            Verdict::Intervene(Concern::Harm)
        } else {
            Verdict::Allow
        }
    }

    /// The words to say instead.
    pub fn safe_reply(&self, concern: Concern) -> (reply: String)
        ensures
            reply@ == safe_reply_text(concern, self.child_name()),
    {
        concern.safe_reply(self.child_name.as_str())
    }
}

proof fn lemma_normalized_concat(a: Seq<char>, b: Seq<char>)
    ensures
        normalized(a + b) == normalized(a) + normalized(b),
    decreases b.len(),
{
    if b.len() == 0 {
        assert(a + b == a);
    } else {
        lemma_normalized_concat(a, b.drop_last());
        assert((a + b).drop_last() == a + b.drop_last());
        assert((a + b).last() == b.last());
    }
}

/// Whether `word` occurs in `text`, written out.
pub open spec fn occurs(text: Seq<char>, word: Seq<char>) -> bool {
    exists|i: int| 0 <= i <= text.len() - word.len() && #[trigger] text.subrange(i, i + word.len()) == word
}

/// Whatever else the child says, words of wanting to die or disappear, of
/// suicide or cutting oneself, are always flagged as self-harm once spaces and
/// separators are dropped and katakana is read as hiragana; self-harm is
/// looked for before anything else.
pub proof fn law_self_harm_words_are_always_caught(text: Seq<char>)
    requires
        occurs(normalized(text), "しにたい"@) || occurs(normalized(text), "きえたい"@) || occurs(
            normalized(text),
            "じさつ"@,
        ) || occurs(normalized(text), "りすとかっと"@) || occurs(normalized(text), "いなくなりたい"@),
    ensures
        verdict_of(normalized(text)) == Verdict::Intervene(Concern::SelfHarm),
{
    let n = normalized(text);
    let terms = concern_terms(Concern::SelfHarm);
    if occurs(n, "しにたい"@) {
        assert(mentions(n, terms[0]));
    } else if occurs(n, "きえたい"@) {
        assert(mentions(n, terms[1]));
    } else if occurs(n, "じさつ"@) {
        assert(mentions(n, terms[2]));
    } else if occurs(n, "りすとかっと"@) {
        assert(mentions(n, terms[3]));
    } else {
        assert(mentions(n, terms[4]));
    }
}

/// Sexual words are always flagged: as sexual, unless self-harm words come
/// with them.
pub proof fn law_sexual_words_are_always_caught(text: Seq<char>)
    requires
        occurs(normalized(text), "せっくす"@) || occurs(normalized(text), "せいこうい"@) || occurs(
            normalized(text),
            "ぽるの"@,
        ) || occurs(normalized(text), "あだると"@) || occurs(normalized(text), "えろほん"@) || occurs(
            normalized(text),
            "えっちなどうが"@,
        ),
    ensures
        verdict_of(normalized(text)) == Verdict::Intervene(Concern::Sexual) || verdict_of(
            normalized(text),
        ) == Verdict::Intervene(Concern::SelfHarm),
{
    let n = normalized(text);
    let terms = concern_terms(Concern::Sexual);
    if occurs(n, "せっくす"@) {
        assert(mentions(n, terms[0]));
    } else if occurs(n, "せいこうい"@) {
        assert(mentions(n, terms[1]));
    } else if occurs(n, "ぽるの"@) {
        assert(mentions(n, terms[2]));
    } else if occurs(n, "あだると"@) {
        assert(mentions(n, terms[3]));
    } else if occurs(n, "えろほん"@) {
        assert(mentions(n, terms[4]));
    } else {
        assert(mentions(n, terms[5]));
    }
}

/// Asking how to kill, or how to make bombs, poison or weapons, is always
/// flagged.
pub proof fn law_harm_words_are_always_caught(text: Seq<char>)
    requires
        occurs(normalized(text), "ころしかた"@) || occurs(normalized(text), "ころすほうほう"@)
            || occurs(normalized(text), "ばくだんのつくりかた"@) || occurs(
            normalized(text),
            "どくのつくりかた"@,
        ) || occurs(normalized(text), "ぶきのつくりかた"@) || occurs(normalized(text), "じんをころす"@),
    ensures
        verdict_of(normalized(text)) is Intervene,
{
    let n = normalized(text);
    let terms = concern_terms(Concern::Harm);
    if occurs(n, "ころしかた"@) {
        assert(mentions(n, terms[0]));
    } else if occurs(n, "ころすほうほう"@) {
        assert(mentions(n, terms[1]));
    } else if occurs(n, "ばくだんのつくりかた"@) {
        assert(mentions(n, terms[2]));
    } else if occurs(n, "どくのつくりかた"@) {
        assert(mentions(n, terms[3]));
    } else if occurs(n, "ぶきのつくりかた"@) {
        assert(mentions(n, terms[4]));
    } else {
        assert(mentions(n, terms[5]));
    }
}

/// Spaces and separators typed between the letters of a word do not hide it:
/// inserting one anywhere leaves the verdict as it was.
pub proof fn law_spacing_is_ignored(before: Seq<char>, after: Seq<char>, inserted: char)
    requires
        ignored(inserted),
    ensures
        verdict_of(normalized(before + seq![inserted] + after)) == verdict_of(
            normalized(before + after),
        ),
{
    lemma_normalized_concat(before + seq![inserted], after);
    lemma_normalized_concat(before, seq![inserted]);
    lemma_normalized_concat(before, after);
    assert(normalized(seq![inserted]) == normalized(Seq::<char>::empty()) + normalized_char(
        inserted,
    )) by {
        assert(seq![inserted].drop_last() == Seq::<char>::empty());
    }
    assert(normalized(before + seq![inserted]) == normalized(before));
}

/// Katakana reads as the matching hiragana: writing a letter one way or the
/// other leaves the verdict as it was.
pub proof fn law_katakana_reads_as_hiragana(before: Seq<char>, after: Seq<char>, letter: char)
    requires
        'ァ' <= letter <= 'ヶ',
    ensures
        verdict_of(normalized(before + seq![letter] + after)) == verdict_of(
            normalized(before + seq![hiragana_of(letter)] + after),
        ),
{
    let hira = hiragana_of(letter);
    assert(!ignored(letter));
    assert(!ignored(hira));
    assert(hiragana_of(hira) == hira);
    lemma_normalized_concat(before + seq![letter], after);
    lemma_normalized_concat(before, seq![letter]);
    lemma_normalized_concat(before + seq![hira], after);
    lemma_normalized_concat(before, seq![hira]);
    assert(seq![letter].drop_last() == Seq::<char>::empty());
    assert(seq![hira].drop_last() == Seq::<char>::empty());
    assert(normalized(seq![letter]) == normalized(seq![hira]));
}

/// The prepared words always begin by calling the child by name.
pub proof fn law_replies_address_the_child(concern: Concern, child_name: Seq<char>)
    ensures
        safe_reply_text(concern, child_name).take(child_name.len() as int) == child_name,
{
    let reply = safe_reply_text(concern, child_name);
    assert(reply.take(child_name.len() as int) =~= child_name);
}

} // verus!

//! Reading the translation out of the provider's reply.
use crate::error::{kind_message, ErrorKind, TranslationError};
use crate::text::{has_prefix, starts_with_at, trim_whitespace, trimmed};
use vstd::prelude::*;
use vstd::string::*;

verus! {

/// Label in front of the Chinese translation in a labelled reply.
pub const CHINESE_LABEL: &'static str = "中文：";

/// Label in front of the English translation in a labelled reply.
pub const ENGLISH_LABEL: &'static str = "英文：";

/// The `content` field of a choice's message, as the reply had it.
#[derive(Debug, Clone)]
pub enum MessageContent {
    /// A string.
    Text(String),
    /// No such field, or `null`.
    Absent,
    /// A value of another type (a number, an object, ...).
    NotText,
}

impl MessageContent {
    /// The text, where the field holds a string.
    pub open spec fn text(&self) -> Option<Seq<char>> {
        match self {
            MessageContent::Text(s) => Some(s@),
            _ => None,
        }
    }
}

/// One candidate completion of the reply.
#[derive(Debug, Clone)]
pub struct Choice {
    pub content: MessageContent,
}

/// The part of a chat-completion reply that a translation is read from: its
/// choices, in order.
#[derive(Debug, Clone)]
pub struct ChatResponse {
    pub choices: Vec<Choice>,
}

impl View for ChatResponse {
    /// The text of each choice, `None` where it has none.
    type V = Seq<Option<Seq<char>>>;

    open spec fn view(&self) -> Seq<Option<Seq<char>>> {
        self.choices@.map_values(|c: Choice| c.content.text())
    }
}

/// The two translations of a labelled reply.
#[derive(Debug, Clone)]
pub struct DualTranslation {
    pub chinese: String,
    pub english: String,
}

/// The lines of `s`, cut at each newline; the newlines themselves are dropped.
pub open spec fn split_lines(s: Seq<char>) -> Seq<Seq<char>>
    decreases s.len(),
{
    if s.len() == 0 {
        seq![Seq::empty()]
    } else {
        let before = split_lines(s.drop_last());
        if s.last() == '\n' {
            before.push(Seq::empty())
        } else {
            before.update(before.len() - 1, before.last().push(s.last()))
        }
    }
}

/// What the last of `lines` that begins with `label` holds after it, trimmed;
/// empty where no line begins with `label`.
pub open spec fn last_labelled(lines: Seq<Seq<char>>, label: Seq<char>) -> Seq<char>
    decreases lines.len(),
{
    if lines.len() == 0 {
        Seq::empty()
    } else if has_prefix(lines.last(), label) {
        trimmed(lines.last().subrange(label.len() as int, lines.last().len() as int))
    } else {
        last_labelled(lines.drop_last(), label)
    }
}

/// The field behind `label` in the reply text `content`.
pub open spec fn label_field(content: Seq<char>, label: Seq<char>) -> Seq<char> {
    last_labelled(split_lines(content), label)
}

/// The text of the first choice, or the error that reading it ends in.
pub open spec fn content_outcome(choices: Seq<Option<Seq<char>>>) -> Result<Seq<char>, ErrorKind> {
    if choices.len() == 0 {
        Err(ErrorKind::EmptyResponse)
    } else {
        match choices[0] {
            Some(t) => Ok(t),
            None => Err(ErrorKind::MalformedResponse),
        }
    }
}

/// The Chinese and English fields of the reply, or the error.
pub open spec fn dual_outcome(choices: Seq<Option<Seq<char>>>) -> Result<
    (Seq<char>, Seq<char>),
    ErrorKind,
> {
    match content_outcome(choices) {
        Ok(t) => Ok((label_field(t, CHINESE_LABEL@), label_field(t, ENGLISH_LABEL@))),
        Err(k) => Err(k),
    }
}

/// The whole reply text trimmed, or the error.
pub open spec fn single_outcome(choices: Seq<Option<Seq<char>>>) -> Result<Seq<char>, ErrorKind> {
    match content_outcome(choices) {
        Ok(t) => Ok(trimmed(t)),
        Err(k) => Err(k),
    }
}

/// A text result seen as its characters or its error kind.
pub open spec fn text_result_view(r: Result<String, TranslationError>) -> Result<
    Seq<char>,
    ErrorKind,
> {
    match r {
        Ok(s) => Ok(s@),
        Err(e) => Err(e.kind),
    }
}

/// A labelled result seen as its two fields or its error kind.
pub open spec fn dual_result_view(r: Result<DualTranslation, TranslationError>) -> Result<
    (Seq<char>, Seq<char>),
    ErrorKind,
> {
    match r {
        Ok(d) => Ok((d.chinese@, d.english@)),
        Err(e) => Err(e.kind),
    }
}

/// The error carries the standard description of its kind.
pub open spec fn has_standard_message<T>(r: Result<T, TranslationError>) -> bool {
    r matches Err(e) ==> e.message@ == kind_message(e.kind)
}

/// The text of the first choice of `resp`: `EmptyResponse` when there is none,
/// `MalformedResponse` when its content is missing or not a string.
pub fn first_content(resp: &ChatResponse) -> (r: Result<String, TranslationError>)
    ensures
        text_result_view(r) == content_outcome(resp@),
        has_standard_message(r),
{
    if resp.choices.len() == 0 {
        return Err(TranslationError::from_kind(ErrorKind::EmptyResponse));
    }
    match &resp.choices[0].content {
        MessageContent::Text(s) => Ok(s.clone()),
        _ => Err(TranslationError::from_kind(ErrorKind::MalformedResponse)),
    }
}

/// Where `line` begins with `label`, the rest of it trimmed; else `current`.
fn take_labelled(line: &str, label: &str, current: String) -> (r: String)
    ensures
        r@ == (if has_prefix(line@, label@) {
            trimmed(line@.subrange(label@.len() as int, line@.len() as int))
        } else {
            current@
        }),
{
    assert(line@.subrange(0, line@.len() as int) =~= line@);
    if starts_with_at(line, 0, label) {
        let rest = line.substring_char(label.unicode_len(), line.unicode_len());
        String::from_str(trim_whitespace(rest))
    } else {
        current
    }
}

/// The Chinese and English translations in the reply text `content`: each
/// line that begins with a label sets that label's field to the rest of the
/// line, trimmed; a later line wins, and a label on no line leaves its field
/// empty.
pub fn parse_dual_content(content: &str) -> (r: DualTranslation)
    ensures
        r.chinese@ == label_field(content@, CHINESE_LABEL@),
        r.english@ == label_field(content@, ENGLISH_LABEL@),
{
    let n = content.unicode_len();
    let mut chinese = String::new();
    let mut english = String::new();
    let mut line_start: usize = 0;
    let mut i: usize = 0;
    while i < n
        invariant
            n == content@.len(),
            line_start <= i <= n,
            split_lines(content@.subrange(0, i as int)).len() >= 1,
            split_lines(content@.subrange(0, i as int)).last() == content@.subrange(
                line_start as int,
                i as int,
            ),
            chinese@ == last_labelled(
                split_lines(content@.subrange(0, i as int)).drop_last(),
                CHINESE_LABEL@,
            ),
            english@ == last_labelled(
                split_lines(content@.subrange(0, i as int)).drop_last(),
                ENGLISH_LABEL@,
            ),
        decreases n - i,
    {
        let ghost before = content@.subrange(0, i as int);
        let ghost after = content@.subrange(0, i + 1);
        assert(after.drop_last() =~= before);
        let c = content.get_char(i);
        if c == '\n' {
            let line = content.substring_char(line_start, i);
            chinese = take_labelled(line, CHINESE_LABEL, chinese);
            english = take_labelled(line, ENGLISH_LABEL, english);
            line_start = i + 1;
            assert(split_lines(after).drop_last() =~= split_lines(before));
            assert(split_lines(after).last() =~= content@.subrange(line_start as int, i + 1));
        } else {
            let ghost lines = split_lines(before);
            assert(split_lines(after).drop_last() =~= lines.drop_last());
            assert(split_lines(after).last() =~= content@.subrange(line_start as int, i + 1));
        }
        i = i + 1;
    }
    assert(content@.subrange(0, n as int) =~= content@);
    let line = content.substring_char(line_start, n);
    chinese = take_labelled(line, CHINESE_LABEL, chinese);
    english = take_labelled(line, ENGLISH_LABEL, english);
    DualTranslation { chinese, english }
}

/// The reply text `content` as a single translation: all of it, trimmed.
pub fn parse_single_content(content: &str) -> (r: String)
    ensures
        r@ == trimmed(content@),
{
    String::from_str(trim_whitespace(content))
}

/// The Chinese and English translations in the first choice of `resp`.
pub fn parse_dual_response(resp: &ChatResponse) -> (r: Result<DualTranslation, TranslationError>)
    ensures
        dual_result_view(r) == dual_outcome(resp@),
        has_standard_message(r),
{
    match first_content(resp) {
        Ok(content) => Ok(parse_dual_content(content.as_str())),
        Err(e) => Err(e),
    }
}

/// The single translation in the first choice of `resp`, trimmed.
pub fn parse_single_response(resp: &ChatResponse) -> (r: Result<String, TranslationError>)
    ensures
        text_result_view(r) == single_outcome(resp@),
        has_standard_message(r),
{
    match first_content(resp) {
        Ok(content) => Ok(parse_single_content(content.as_str())),
        Err(e) => Err(e),
    }
}

/// Reading a reply depends on nothing but the reply: two replies with the same
/// choices give the same result, or fail alike, under either parser.
pub proof fn lemma_parsing_is_pure(a: &ChatResponse, b: &ChatResponse)
    requires
        a@ == b@,
    ensures
        dual_outcome(a@) == dual_outcome(b@),
        single_outcome(a@) == single_outcome(b@),
{
}

} // verus!

//! Questions, their answers, and the judging of what the user typed.

use crate::error::{ParseCause, QuestionError, QuestionResult};
use crate::text::{
    decimal, decimal_is_parsed_back, fold_case, lowercase, parse_integer, parsed_i64,
    render_integer, strip_line_end, without_line_end,
};
use vstd::prelude::*;
use vstd::string::StringExecFns;

verus! {

/// The right answer to a question.
#[derive(Debug)]
pub enum Answer {
    Text(String),
    Integer(i64),
}

pub enum AnswerView {
    Text(Seq<char>),
    Integer(i64),
}

impl View for Answer {
    type V = AnswerView;

    open spec fn view(&self) -> AnswerView {
        match self {
            Answer::Text(canonical) => AnswerView::Text(canonical@),
            Answer::Integer(canonical) => AnswerView::Integer(*canonical),
        }
    }
}

impl AnswerView {
    /// Whether `given` is right. A text is right if it is the answer up to
    /// case. Where an integer is asked for, `given` must denote one, and is
    /// right if it is the same number; a text that denotes none cannot be
    /// judged, which is `None`.
    pub open spec fn judge(self, given: Seq<char>) -> Option<bool> {
        match self {
            AnswerView::Text(canonical) => Some(lowercase(canonical) == lowercase(given)),
            AnswerView::Integer(canonical) => match parsed_i64(given) {
                Some(n) => Some(canonical == n),
                None => None,
            },
        }
    }

    /// The answer as it is shown: a text as it is, an integer in decimal.
    pub open spec fn text(self) -> Seq<char> {
        match self {
            AnswerView::Text(canonical) => canonical,
            AnswerView::Integer(canonical) => decimal(canonical as int),
        }
    }
}

/// Judging a text answer looks at the lower-case forms alone: answers that
/// are the same up to case are judged alike, and so are inputs.
pub proof fn check_ignores_case(
    canonical: Seq<char>,
    other_canonical: Seq<char>,
    given: Seq<char>,
    other_given: Seq<char>,
)
    requires
        lowercase(canonical) == lowercase(other_canonical),
        lowercase(given) == lowercase(other_given),
    ensures
        AnswerView::Text(canonical).judge(given) == AnswerView::Text(other_canonical).judge(
            other_given,
        ),
        AnswerView::Text(canonical).judge(given) is Some,
        lowercase(canonical) == lowercase(given) ==> AnswerView::Text(canonical).judge(given)
            == Some(true),
{
}

/// An answer as it is shown is a right answer.
pub proof fn shown_answer_is_right(answer: AnswerView)
    ensures
        answer.judge(answer.text()) == Some(true),
{
    if let AnswerView::Integer(canonical) = answer {
        decimal_is_parsed_back(canonical);
    }
}

/// Whether `r` reports `verdict`: the verdict itself, or, where there is
/// none, the failure to parse an integer.
pub open spec fn reports_verdict(r: QuestionResult<bool>, verdict: Option<bool>) -> bool {
    match verdict {
        Some(right) => r == Ok::<bool, QuestionError>(right),
        None => r is Err && r->Err_0.is_integer_failure(),
    }
}

impl Answer {
    /// Judges `given` against this answer.
    pub fn check(&self, given: String) -> (r: QuestionResult<bool>)
        ensures
            reports_verdict(r, self@.judge(given@)),
    {
        match self {
            Answer::Text(canonical) => {
                let ours = fold_case(canonical.as_str());
                let theirs = fold_case(given.as_str());
                Ok(ours == theirs)
            },
            Answer::Integer(canonical) => match parse_integer(given.as_str()) {
                Ok(n) => Ok(*canonical == n),
                Err(cause) => Err(QuestionError::ParseError(ParseCause::Integer(cause))),
            },
        }
    }

    /// The answer as it is shown to the user.
    pub fn to_text(&self) -> (shown: String)
        ensures
            shown@ == self@.text(),
    {
        match self {
            Answer::Text(canonical) => canonical.clone(),
            Answer::Integer(canonical) => render_integer(*canonical),
        }
    }
}

/// What a question says to one line of input.
#[derive(Debug)]
pub enum Reply {
    /// The answer was judged. `feedback` is the line to show, if there is one.
    Judged { right: bool, feedback: Option<String> },
    /// The input is not among the choices: `notice` is to be shown and the
    /// question asked again.
    Retry { notice: String },
}

pub enum ReplyView {
    Judged { right: bool, feedback: Option<Seq<char>> },
    Retry { notice: Seq<char> },
}

impl View for Reply {
    type V = ReplyView;

    open spec fn view(&self) -> ReplyView {
        match self {
            Reply::Judged { right, feedback } => ReplyView::Judged {
                right: *right,
                feedback: match feedback {
                    Some(line) => Some(line@),
                    None => None,
                },
            },
            Reply::Retry { notice } => ReplyView::Retry { notice: notice@ },
        }
    }
}

/// The line shown after input that is not among the choices.
pub open spec fn invalid_notice() -> Seq<char> {
    " Invalid answer!"@
}

/// The line shown after a wrong answer, where the right one is to be told.
pub open spec fn wrong_notice(answer: AnswerView) -> Seq<char> {
    " Wrong! Correct answer: "@ + answer.text()
}

/// The reply to an answer that is judged as it stands: the verdict, and the
/// right answer as feedback where the answer is wrong and `warn_wrong` is set.
/// `None` where the answer cannot be judged.
pub open spec fn judged(answer: AnswerView, given: Seq<char>, warn_wrong: bool) -> Option<
    ReplyView,
> {
    match answer.judge(given) {
        Some(right) => Some(
            ReplyView::Judged {
                right,
                feedback: if !right && warn_wrong {
                    Some(wrong_notice(answer))
                } else {
                    None
                },
            },
        ),
        None => None,
    }
}

/// Whether `r` reports `reply`: the reply itself, or, where there is none,
/// the failure to parse an integer.
pub open spec fn reports_reply(r: QuestionResult<Reply>, reply: Option<ReplyView>) -> bool {
    match reply {
        Some(said) => r is Ok && r->Ok_0@ == said,
        None => r is Err && r->Err_0.is_integer_failure(),
    }
}

/// Judges `given` and words the feedback.
pub fn judge(answer: &Answer, given: String, warn_wrong: bool) -> (r: QuestionResult<Reply>)
    ensures
        reports_reply(r, judged(answer@, given@, warn_wrong)),
{
    match answer.check(given) {
        Ok(right) => {
            let feedback = if !right && warn_wrong {
                let shown = answer.to_text();
                Some(String::from_str(" Wrong! Correct answer: ").concat(shown.as_str()))
            } else {
                None
            };
            Ok(Reply::Judged { right, feedback })
        },
        Err(e) => Err(e),
    }
}

/// The texts of a list of strings.
pub open spec fn texts(list: Seq<String>) -> Seq<Seq<char>> {
    Seq::new(list.len(), |i: int| list[i]@)
}

/// The mathematical model of a question, whatever its kind.
pub enum QuestionView {
    Basic { prompt: Seq<char>, answer: Seq<char> },
    Int { prompt: Seq<char>, number: i64 },
    Choice { prompt: Seq<char>, answer: Seq<char>, choices: Seq<Seq<char>> },
}

impl QuestionView {
    pub open spec fn prompt(self) -> Seq<char> {
        match self {
            QuestionView::Basic { prompt, .. } => prompt,
            QuestionView::Int { prompt, .. } => prompt,
            QuestionView::Choice { prompt, .. } => prompt,
        }
    }

    pub open spec fn answer(self) -> AnswerView {
        match self {
            QuestionView::Basic { answer, .. } => AnswerView::Text(answer),
            QuestionView::Int { number, .. } => AnswerView::Integer(number),
            QuestionView::Choice { answer, .. } => AnswerView::Text(answer),
        }
    }

    /// The answer that a line of input gives: the line without its
    /// terminator, and for a choice in lower case.
    pub open spec fn heard(self, line: Seq<char>) -> Seq<char> {
        match self {
            QuestionView::Choice { .. } => lowercase(without_line_end(line)),
            _ => without_line_end(line),
        }
    }

    /// Whether `given` is judged at all: a choice judges only what is among
    /// its choices, the other kinds everything.
    pub open spec fn admits(self, given: Seq<char>) -> bool {
        match self {
            QuestionView::Choice { choices, .. } => choices.contains(given),
            _ => true,
        }
    }

    /// The reply to a line of input. Input that is not admitted is not
    /// judged: the reply asks again. `None` where the input is admitted and
    /// cannot be judged.
    pub open spec fn reply(self, line: Seq<char>, warn_wrong: bool) -> Option<ReplyView> {
        let given = self.heard(line);
        if self.admits(given) {
            judged(self.answer(), given, warn_wrong)
        } else {
            Some(ReplyView::Retry { notice: invalid_notice() })
        }
    }
}

/// A question that asks for an integer gives no verdict on a line that
/// denotes none: it fails.
pub proof fn integer_question_fails_on_other_text(
    prompt: Seq<char>,
    number: i64,
    line: Seq<char>,
    warn_wrong: bool,
)
    requires
        parsed_i64(without_line_end(line)) is None,
    ensures
        (QuestionView::Int { prompt, number }).reply(line, warn_wrong) is None,
{
}

/// A question of any kind.
pub trait Question: View<V = QuestionView> {
    fn get_answer(&self) -> (answer: Answer)
        ensures
            answer@ == self@.answer(),
    ;

    fn get_prompt(&self) -> (prompt: String)
        ensures
            prompt@ == self@.prompt(),
    ;

    /// Judges `given` against the right answer.
    fn check(&self, given: String) -> (r: QuestionResult<bool>)
        ensures
            reports_verdict(r, self@.answer().judge(given@)),
    {
        self.get_answer().check(given)
    }

    /// One step of asking: the reply to a line that the user typed after
    /// the prompt.
    fn respond(&self, line: &str, warn_wrong: bool) -> (r: QuestionResult<Reply>)
        ensures
            reports_reply(r, self@.reply(line@, warn_wrong)),
    ;
}

/// A question whose answer is a text, compared up to case.
#[derive(Debug)]
pub struct BasicQuestion {
    pub prompt: String,
    pub answer: String,
}

impl View for BasicQuestion {
    type V = QuestionView;

    open spec fn view(&self) -> QuestionView {
        QuestionView::Basic { prompt: self.prompt@, answer: self.answer@ }
    }
}

impl Question for BasicQuestion {
    fn get_answer(&self) -> (answer: Answer) {
        Answer::Text(self.answer.clone())
    }

    fn get_prompt(&self) -> (prompt: String) {
        self.prompt.clone()
    }

    fn respond(&self, line: &str, warn_wrong: bool) -> (r: QuestionResult<Reply>) {
        let given = String::from_str(strip_line_end(line));
        judge(&self.get_answer(), given, warn_wrong)
    }
}

/// A question whose answer is an integer.
#[derive(Debug)]
pub struct IntQuestion {
    pub prompt: String,
    pub answer: i64,
}

impl View for IntQuestion {
    type V = QuestionView;

    open spec fn view(&self) -> QuestionView {
        QuestionView::Int { prompt: self.prompt@, number: self.answer }
    }
}

impl Question for IntQuestion {
    fn get_answer(&self) -> (answer: Answer) {
        Answer::Integer(self.answer)
    }

    fn get_prompt(&self) -> (prompt: String) {
        self.prompt.clone()
    }

    fn respond(&self, line: &str, warn_wrong: bool) -> (r: QuestionResult<Reply>) {
        let given = String::from_str(strip_line_end(line));
        judge(&self.get_answer(), given, warn_wrong)
    }
}

/// A question that is answered by one of a list of choices.
#[derive(Debug)]
pub struct MultipleChoiceQuestion {
    pub prompt: String,
    pub answer: String,
    pub choices: Vec<String>,
}

impl View for MultipleChoiceQuestion {
    type V = QuestionView;

    open spec fn view(&self) -> QuestionView {
        QuestionView::Choice {
            prompt: self.prompt@,
            answer: self.answer@,
            choices: texts(self.choices@),
        }
    }
}

impl MultipleChoiceQuestion {
    /// A question with the answer and every choice in lower case.
    pub fn new(prompt: String, answer: String, choices: Vec<&str>) -> (q: MultipleChoiceQuestion)
        ensures
            q.prompt@ == prompt@,
            q.answer@ == lowercase(answer@),
            q.choices@.len() == choices@.len(),
            forall|i: int| 0 <= i < choices@.len() ==> q.choices@[i]@ == lowercase(choices@[i]@),
    {
        let mut folded: Vec<String> = Vec::new();
        let mut i: usize = 0;
        while i < choices.len()
            invariant
                i <= choices@.len(),
                folded@.len() == i,
                forall|j: int| 0 <= j < i ==> folded@[j]@ == lowercase(choices@[j]@),
            decreases choices@.len() - i,
        {
            folded.push(fold_case(choices[i]));
            i += 1;
        }
        MultipleChoiceQuestion { prompt, answer: fold_case(answer.as_str()), choices: folded }
    }

    /// Whether `given` is one of the choices, letter for letter.
    pub fn offers(&self, given: &String) -> (found: bool)
        ensures
            found == self@.admits(given@),
    {
        let mut i: usize = 0;
        while i < self.choices.len()
            invariant
                i <= self.choices@.len(),
                forall|j: int| 0 <= j < i ==> self.choices@[j]@ != given@,
            decreases self.choices@.len() - i,
        {
            if self.choices[i] == *given {
                assert(texts(self.choices@)[i as int] == given@);
                return true;
            }
            i += 1;
        }
        false
    }
}

impl Question for MultipleChoiceQuestion {
    fn get_answer(&self) -> (answer: Answer) {
        Answer::Text(self.answer.clone())
    }

    fn get_prompt(&self) -> (prompt: String) {
        self.prompt.clone()
    }

    fn respond(&self, line: &str, warn_wrong: bool) -> (r: QuestionResult<Reply>) {
        let given = fold_case(strip_line_end(line));
        if self.offers(&given) {
            judge(&self.get_answer(), given, warn_wrong)
        } else {
            Ok(Reply::Retry { notice: String::from_str(" Invalid answer!") })
        }
    }
}

/// A question of one of the three kinds, as a pack holds it.
#[derive(Debug)]
pub enum AnyQuestion {
    Basic(BasicQuestion),
    Int(IntQuestion),
    Choice(MultipleChoiceQuestion),
}

impl View for AnyQuestion {
    type V = QuestionView;

    open spec fn view(&self) -> QuestionView {
        match self {
            AnyQuestion::Basic(q) => q@,
            AnyQuestion::Int(q) => q@,
            AnyQuestion::Choice(q) => q@,
        }
    }
}

impl Question for AnyQuestion {
    fn get_answer(&self) -> (answer: Answer) {
        match self {
            AnyQuestion::Basic(q) => q.get_answer(),
            AnyQuestion::Int(q) => q.get_answer(),
            AnyQuestion::Choice(q) => q.get_answer(),
        }
    }

    fn get_prompt(&self) -> (prompt: String) {
        match self {
            AnyQuestion::Basic(q) => q.get_prompt(),
            AnyQuestion::Int(q) => q.get_prompt(),
            AnyQuestion::Choice(q) => q.get_prompt(),
        }
    }

    fn respond(&self, line: &str, warn_wrong: bool) -> (r: QuestionResult<Reply>) {
        match self {
            AnyQuestion::Basic(q) => q.respond(line, warn_wrong),
            AnyQuestion::Int(q) => q.respond(line, warn_wrong),
            AnyQuestion::Choice(q) => q.respond(line, warn_wrong),
        }
    }
}

} // verus!

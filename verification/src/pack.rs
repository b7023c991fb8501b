//! Packs of questions, and the loading of a pack from a JSON document.

use crate::error::{ParseCause, QuestionError, QuestionResult};
use crate::json::{document, lift, parse, Json, JsonView};
use crate::question::{
    texts, AnyQuestion, BasicQuestion, IntQuestion, MultipleChoiceQuestion, QuestionView,
};
use crate::text::{fold_case, lowercase};
use vstd::prelude::*;
use vstd::string::StringExecFns;

verus! {

/// A pack: questions in the order in which their document lists them.
#[derive(Debug)]
pub struct Pack {
    pub questions: Vec<AnyQuestion>,
}

impl View for Pack {
    type V = Seq<QuestionView>;

    open spec fn view(&self) -> Seq<QuestionView> {
        Seq::new(self.questions@.len(), |i: int| self.questions@[i]@)
    }
}

/// The texts that a `choices` member lists, as they are written: those of an
/// array of strings, and none where the member is no array. `None` where
/// the array holds anything but strings.
pub open spec fn listed_choices(listed: JsonView) -> Option<Seq<Seq<char>>> {
    match listed {
        JsonView::Array(items) => if forall|i: int|
            0 <= i < items.len() ==> (#[trigger] items[i]) is Text {
            Some(Seq::new(items.len(), |i: int| items[i]->Text_0))
        } else {
            None
        },
        _ => Some(Seq::empty()),
    }
}

/// Each text of `raw` in lower case.
pub open spec fn lowercase_each(raw: Seq<Seq<char>>) -> Seq<Seq<char>> {
    Seq::new(raw.len(), |i: int| lowercase(raw[i]))
}

/// The question with a text for an answer that a record describes under
/// `prompt`: the answer is kept in lower case.
pub open spec fn basic_of(prompt: Seq<char>, record: JsonView) -> Result<
    QuestionView,
    QuestionError,
> {
    match record.member("answer"@) {
        JsonView::Text(answer) => Ok(QuestionView::Basic { prompt, answer: lowercase(answer) }),
        _ => Err(QuestionError::BadAnswer),
    }
}

/// The question with an integer for an answer that a record describes
/// under `prompt`: the answer is a number that is a 64-bit signed integer.
pub open spec fn number_of(prompt: Seq<char>, record: JsonView) -> Result<
    QuestionView,
    QuestionError,
> {
    match record.member("answer"@) {
        JsonView::Number(Some(number)) => Ok(QuestionView::Int { prompt, number }),
        _ => Err(QuestionError::BadAnswer),
    }
}

/// The question with choices that a record describes under `prompt`: the
/// answer and the choices are kept in lower case. The answer is looked at
/// before the choices.
pub open spec fn choice_of(prompt: Seq<char>, record: JsonView) -> Result<
    QuestionView,
    QuestionError,
> {
    match record.member("answer"@) {
        JsonView::Text(answer) => match listed_choices(record.member("choices"@)) {
            Some(raw) => Ok(
                QuestionView::Choice {
                    prompt,
                    answer: lowercase(answer),
                    choices: lowercase_each(raw),
                },
            ),
            None => Err(QuestionError::BadChoiceType),
        },
        _ => Err(QuestionError::BadAnswer),
    }
}

/// The question of the kind that `kind` names, letter for letter: `basic`,
/// `number` or `choice`.
pub open spec fn question_of_kind(kind: Seq<char>, prompt: Seq<char>, record: JsonView) -> Result<
    QuestionView,
    QuestionError,
> {
    if kind == "basic"@ {
        basic_of(prompt, record)
    } else if kind == "number"@ {
        number_of(prompt, record)
    } else if kind == "choice"@ {
        choice_of(prompt, record)
    } else {
        Err(QuestionError::BadQuestionType)
    }
}

/// The question that a record describes, or what is wrong with the record.
/// The members are looked at in the order `prompt`, `type`, `answer`,
/// `choices`, and the first that is wrong decides. The type is read up to
/// case.
pub open spec fn question_of(record: JsonView) -> Result<QuestionView, QuestionError> {
    match record.member("prompt"@) {
        JsonView::Text(prompt) => match record.member("type"@) {
            JsonView::Text(kind) => question_of_kind(lowercase(kind), prompt, record),
            _ => Err(QuestionError::BadQuestionType),
        },
        _ => Err(QuestionError::NoPrompt),
    }
}

/// Whether the record at `i` is the first that describes no question.
pub open spec fn first_fault_at(records: Seq<JsonView>, i: int) -> bool {
    &&& 0 <= i < records.len()
    &&& question_of(records[i]) is Err
    &&& forall|j: int| 0 <= j < i ==> question_of(#[trigger] records[j]) is Ok
}

/// The questions that the records describe, in their order; where a record
/// describes none, what is wrong with the first such record.
pub open spec fn questions_of(records: Seq<JsonView>) -> Result<Seq<QuestionView>, QuestionError> {
    if exists|i: int| first_fault_at(records, i) {
        Err(question_of(records[choose|i: int| first_fault_at(records, i)])->Err_0)
    } else {
        Ok(Seq::new(records.len(), |i: int| question_of(records[i])->Ok_0))
    }
}

/// The pack that a document describes: the questions of the array under
/// `questions`. A document without such an array describes no pack.
pub open spec fn loaded(doc: JsonView) -> Result<Seq<QuestionView>, QuestionError> {
    match doc.member("questions"@) {
        JsonView::Array(records) => questions_of(records),
        _ => Err(QuestionError::EmptyPack),
    }
}

/// Whether `r` is the question `outcome`, or fails as `outcome` does.
pub open spec fn reports_question(
    r: QuestionResult<AnyQuestion>,
    outcome: Result<QuestionView, QuestionError>,
) -> bool {
    match outcome {
        Ok(question) => r is Ok && r->Ok_0@ == question,
        Err(fault) => r is Err && r->Err_0 == fault,
    }
}

/// Whether `r` is the pack `outcome`, or fails as `outcome` does.
pub open spec fn reports_pack(
    r: QuestionResult<Pack>,
    outcome: Result<Seq<QuestionView>, QuestionError>,
) -> bool {
    match outcome {
        Ok(questions) => r is Ok && r->Ok_0@ == questions,
        Err(fault) => r is Err && r->Err_0 == fault,
    }
}

/// The texts of the `choices` member as they are written; `None` where the
/// member is an array that holds anything but strings.
fn read_choices<'a>(listed: Option<&'a Json>) -> (r: Option<Vec<&'a str>>)
    ensures
        match listed {
            Some(member) => match listed_choices(member@) {
                Some(raw) => r is Some && r->Some_0@.len() == raw.len() && forall|i: int|
                    0 <= i < raw.len() ==> (#[trigger] r->Some_0@[i])@ == raw[i],
                None => r is None,
            },
            None => r is Some && r->Some_0@.len() == 0,
        },
{
    let mut raw: Vec<&'a str> = Vec::new();
    if let Some(Json::Array(items)) = listed {
        let mut i: usize = 0;
        while i < items.len()
            invariant
                i <= items@.len(),
                raw@.len() == i,
                listed matches Some(member) && member@ matches JsonView::Array(seen)
                    && seen.len() == items@.len(),
                forall|j: int|
                    0 <= j < items@.len() ==> (#[trigger] listed->Some_0@->Array_0[j])
                        == items@[j]@,
                forall|j: int|
                    0 <= j < i ==> (#[trigger] items@[j]@) is Text && raw@[j]@
                        == items@[j]@->Text_0,
            decreases items@.len() - i,
        {
            match &items[i] {
                Json::Text(choice) => {
                    raw.push(choice.as_str());
                },
                _ => {
                    assert(!(listed->Some_0@->Array_0[i as int] is Text));
                    return None;
                },
            }
            i += 1;
        }
    }
    Some(raw)
}

fn read_basic(prompt: &String, record: &Json) -> (r: QuestionResult<AnyQuestion>)
    ensures
        reports_question(r, basic_of(prompt@, record@)),
{
    match record.field("answer") {
        Some(Json::Text(answer)) => Ok(
            AnyQuestion::Basic(
                BasicQuestion { prompt: prompt.clone(), answer: fold_case(answer.as_str()) },
            ),
        ),
        _ => Err(QuestionError::BadAnswer),
    }
}

fn read_number(prompt: &String, record: &Json) -> (r: QuestionResult<AnyQuestion>)
    ensures
        reports_question(r, number_of(prompt@, record@)),
{
    match record.field("answer") {
        Some(Json::Number(Some(number))) => Ok(
            AnyQuestion::Int(IntQuestion { prompt: prompt.clone(), answer: *number }),
        ),
        _ => Err(QuestionError::BadAnswer),
    }
}

fn read_choice(prompt: &String, record: &Json) -> (r: QuestionResult<AnyQuestion>)
    ensures
        reports_question(r, choice_of(prompt@, record@)),
{
    match record.field("answer") {
        Some(Json::Text(answer)) => match read_choices(record.field("choices")) {
            Some(raw) => {
                let q = MultipleChoiceQuestion::new(prompt.clone(), answer.clone(), raw);
                assert(texts(q.choices@) =~= lowercase_each(
                    listed_choices(record@.member("choices"@))->Some_0,
                ));
                Ok(AnyQuestion::Choice(q))
            },
            None => Err(QuestionError::BadChoiceType),
        },
        _ => Err(QuestionError::BadAnswer),
    }
}

/// The question of the kind `kind`, a name in lower case, that a record
/// describes under `prompt`.
pub fn read_kind(kind: &String, prompt: &String, record: &Json) -> (r: QuestionResult<AnyQuestion>)
    ensures
        reports_question(r, question_of_kind(kind@, prompt@, record@)),
{
    if *kind == String::from_str("basic") {
        read_basic(prompt, record)
    } else if *kind == String::from_str("number") {
        read_number(prompt, record)
    } else if *kind == String::from_str("choice") {
        read_choice(prompt, record)
    } else {
        Err(QuestionError::BadQuestionType)
    }
}

/// The question that a record describes.
pub fn read_question(record: &Json) -> (r: QuestionResult<AnyQuestion>)
    ensures
        reports_question(r, question_of(record@)),
{
    match record.field("prompt") {
        Some(Json::Text(prompt)) => match record.field("type") {
            Some(Json::Text(kind)) => read_kind(&fold_case(kind.as_str()), prompt, record),
            _ => Err(QuestionError::BadQuestionType),
        },
        _ => Err(QuestionError::NoPrompt),
    }
}

impl Pack {
    /// How many questions the pack holds.
    pub fn len(&self) -> (n: usize)
        ensures
            n == self@.len(),
    {
        self.questions.len()
    }

    /// The pack that a JSON document describes. The first record that
    /// describes no question fails the whole load.
    pub fn from_value(doc: &Json) -> (r: QuestionResult<Pack>)
        ensures
            reports_pack(r, loaded(doc@)),
    {
        let records = match doc.field("questions") {
            Some(Json::Array(records)) => records,
            _ => {
                return Err(QuestionError::EmptyPack);
            },
        };
        let ghost seen = doc@.member("questions"@)->Array_0;
        let mut questions: Vec<AnyQuestion> = Vec::new();
        let mut i: usize = 0;
        while i < records.len()
            invariant
                i <= records@.len(),
                questions@.len() == i,
                doc@.member("questions"@) == JsonView::Array(seen),
                seen.len() == records@.len(),
                forall|j: int| 0 <= j < records@.len() ==> (#[trigger] seen[j]) == records@[j]@,
                forall|j: int|
                    0 <= j < i ==> question_of(#[trigger] seen[j]) == Ok::<
                        QuestionView,
                        QuestionError,
                    >(questions@[j]@),
            decreases records@.len() - i,
        {
            match read_question(&records[i]) {
                Ok(question) => {
                    questions.push(question);
                },
                Err(fault) => {
                    assert(first_fault_at(seen, i as int));
                    return Err(fault);
                },
            }
            i += 1;
        }
        let pack = Pack { questions };
        assert forall|k: int| !first_fault_at(seen, k) by {
            if 0 <= k < seen.len() {
                assert(question_of(seen[k]) is Ok);
            }
        }
        assert(pack@ =~= questions_of(seen)->Ok_0);
        Ok(pack)
    }

    /// The pack that a JSON text describes. A text that is no JSON document
    /// fails with the parser's error; a document is loaded as `from_value`
    /// loads it.
    pub fn from_json(src: String) -> (r: QuestionResult<Pack>)
        ensures
            match document(src@) {
                Some(doc) => reports_pack(r, loaded(doc)),
                None => r is Err && r->Err_0.is_document_failure(),
            },
    {
        match parse(src.as_str()) {
            Ok(value) => {
                let doc = lift(&value);
                Pack::from_value(&doc)
            },
            Err(cause) => Err(QuestionError::ParseError(ParseCause::Document(cause))),
        }
    }
}

} // verus!

use quizpack::{
    Answer, AnyQuestion, BasicQuestion, IntQuestion, MultipleChoiceQuestion, ParseCause, Question,
    QuestionError, Reply,
};

fn basic(prompt: &str, answer: &str) -> BasicQuestion {
    BasicQuestion { prompt: prompt.to_string(), answer: answer.to_string() }
}

fn number(prompt: &str, answer: i64) -> IntQuestion {
    IntQuestion { prompt: prompt.to_string(), answer }
}

fn ijk() -> MultipleChoiceQuestion {
    MultipleChoiceQuestion::new("Pick: ".to_string(), "i".to_string(), vec!["i", "j", "k"])
}

fn is_integer_failure<T>(r: Result<T, QuestionError>) -> bool {
    matches!(r, Err(QuestionError::ParseError(ParseCause::Integer(_))))
}

#[test]
fn check_ignores_case() {
    let q = basic("Hello in Finnish? ", "Terve");
    assert!(matches!(q.check("tErVe".to_string()), Ok(true)));
    assert!(matches!(q.check("TERVE".to_string()), Ok(true)));
    assert!(matches!(q.check("terve".to_string()), Ok(true)));
}

#[test]
fn check_ignores_case_beyond_ascii() {
    let q = basic("Night? ", "Y\u{d6}");
    assert!(matches!(q.check("y\u{f6}".to_string()), Ok(true)));
}

#[test]
fn check_of_a_text_tells_a_wrong_answer() {
    let q = basic("Hello in Finnish? ", "Terve");
    assert!(matches!(q.check("moi".to_string()), Ok(false)));
    assert!(matches!(q.check("".to_string()), Ok(false)));
    assert!(matches!(q.check("terve ".to_string()), Ok(false)));
}

#[test]
fn text_answer_checks_up_to_case() {
    let a = Answer::Text("Terve".to_string());
    assert!(matches!(a.check("tErVe".to_string()), Ok(true)));
    assert!(matches!(a.check("terv".to_string()), Ok(false)));
}

#[test]
fn integer_answer_checks_the_number() {
    let q = number("6 * 7 = ", 42);
    assert!(matches!(q.check("42".to_string()), Ok(true)));
    assert!(matches!(q.check("41".to_string()), Ok(false)));
    assert!(matches!(q.check("-42".to_string()), Ok(false)));
}

#[test]
fn integer_answer_takes_a_sign_and_leading_zeros() {
    let q = number("6 * 7 = ", 42);
    assert!(matches!(q.check("+42".to_string()), Ok(true)));
    assert!(matches!(q.check("042".to_string()), Ok(true)));
    let zero = number("1 - 1 = ", 0);
    assert!(matches!(zero.check("-0".to_string()), Ok(true)));
    assert!(matches!(zero.check("000".to_string()), Ok(true)));
}

#[test]
fn integer_answer_reaches_both_ends_of_the_range() {
    let low = number("Least? ", i64::MIN);
    assert!(matches!(low.check("-9223372036854775808".to_string()), Ok(true)));
    let high = number("Most? ", i64::MAX);
    assert!(matches!(high.check("9223372036854775807".to_string()), Ok(true)));
}

#[test]
fn integer_answer_fails_on_text_that_is_no_number() {
    let q = number("6 * 7 = ", 42);
    for given in ["abc", "", " 42", "42 ", "4 2", "4_2", "42.0", "+", "-", "--42", "0x2a", "\u{664}\u{662}"] {
        assert!(is_integer_failure(q.check(given.to_string())), "{:?}", given);
    }
}

#[test]
fn integer_answer_fails_on_a_number_that_does_not_fit() {
    let q = number("6 * 7 = ", 42);
    assert!(is_integer_failure(q.check("9223372036854775808".to_string())));
    assert!(is_integer_failure(q.check("-9223372036854775809".to_string())));
    assert!(is_integer_failure(q.check("100000000000000000000000".to_string())));
}

#[test]
fn integer_question_fails_on_a_line_that_is_no_number() {
    let q = number("6 * 7 = ", 42);
    assert!(is_integer_failure(q.respond("forty-two\n", true)));
    assert!(is_integer_failure(q.respond("\n", false)));
}

#[test]
fn answers_are_shown_as_text_and_in_decimal() {
    assert_eq!(Answer::Text("Terve".to_string()).to_text(), "Terve");
    assert_eq!(Answer::Integer(-17).to_text(), "-17");
    assert_eq!(Answer::Integer(0).to_text(), "0");
}

#[test]
fn questions_hand_out_prompt_and_answer() {
    let b = basic("Hello? ", "Terve");
    assert_eq!(b.get_prompt(), "Hello? ");
    assert!(matches!(b.get_answer(), Answer::Text(t) if t == "Terve"));
    let n = number("6 * 7 = ", 42);
    assert_eq!(n.get_prompt(), "6 * 7 = ");
    assert!(matches!(n.get_answer(), Answer::Integer(42)));
    let c = ijk();
    assert_eq!(c.get_prompt(), "Pick: ");
    assert!(matches!(c.get_answer(), Answer::Text(t) if t == "i"));
}

#[test]
fn new_choice_question_is_in_lower_case() {
    let q = MultipleChoiceQuestion::new("Pick: ".to_string(), "I".to_string(), vec!["I", "j", "K"]);
    assert_eq!(q.prompt, "Pick: ");
    assert_eq!(q.answer, "i");
    assert_eq!(q.choices, vec!["i".to_string(), "j".to_string(), "k".to_string()]);
}

#[test]
fn new_choice_question_keeps_the_prompt_as_it_is() {
    let q = MultipleChoiceQuestion::new("PICK One: ".to_string(), "a".to_string(), vec![]);
    assert_eq!(q.prompt, "PICK One: ");
    assert!(q.choices.is_empty());
}

#[test]
fn choice_question_offers_its_choices_only() {
    let q = ijk();
    assert!(q.offers(&"i".to_string()));
    assert!(q.offers(&"k".to_string()));
    assert!(!q.offers(&"z".to_string()));
    assert!(!q.offers(&"I".to_string()));
    assert!(!q.offers(&"".to_string()));
}

#[test]
fn choice_question_asks_again_until_the_input_is_a_choice() {
    let q = ijk();
    for _ in 0..5 {
        match q.respond("z\n", true) {
            Ok(Reply::Retry { notice }) => assert_eq!(notice, " Invalid answer!"),
            other => panic!("{:?}", other),
        }
    }
    match q.respond("I\n", true) {
        Ok(Reply::Judged { right, feedback }) => {
            assert!(right);
            assert_eq!(feedback, None);
        },
        other => panic!("{:?}", other),
    }
}

#[test]
fn choice_question_judges_a_wrong_choice() {
    let q = ijk();
    match q.respond("J\n", true) {
        Ok(Reply::Judged { right, feedback }) => {
            assert!(!right);
            assert_eq!(feedback, Some(" Wrong! Correct answer: i".to_string()));
        },
        other => panic!("{:?}", other),
    }
    match q.respond("k", false) {
        Ok(Reply::Judged { right, feedback }) => {
            assert!(!right);
            assert_eq!(feedback, None);
        },
        other => panic!("{:?}", other),
    }
}

#[test]
fn choice_question_does_not_admit_an_answer_that_is_no_choice() {
    let q = MultipleChoiceQuestion::new("Pick: ".to_string(), "c".to_string(), vec!["a", "b"]);
    assert!(matches!(q.respond("c\n", true), Ok(Reply::Retry { .. })));
    assert!(matches!(q.respond("a\n", true), Ok(Reply::Judged { right: false, .. })));
}

#[test]
fn choice_question_without_choices_always_asks_again() {
    let q = MultipleChoiceQuestion::new("Pick: ".to_string(), "a".to_string(), vec![]);
    for line in ["a\n", "\n", "b\n", ""] {
        assert!(matches!(q.respond(line, true), Ok(Reply::Retry { .. })));
    }
}

#[test]
fn basic_question_judges_a_line() {
    let q = basic("Hello in Finnish? ", "Terve");
    match q.respond("tErVe\n", true) {
        Ok(Reply::Judged { right, feedback }) => {
            assert!(right);
            assert_eq!(feedback, None);
        },
        other => panic!("{:?}", other),
    }
    assert!(matches!(q.respond("terve\r\n", true), Ok(Reply::Judged { right: true, .. })));
    assert!(matches!(q.respond("terve", true), Ok(Reply::Judged { right: true, .. })));
}

#[test]
fn basic_question_tells_the_right_answer_when_asked_to() {
    let q = basic("Hello in Finnish? ", "Terve");
    match q.respond("moi\n", true) {
        Ok(Reply::Judged { right, feedback }) => {
            assert!(!right);
            assert_eq!(feedback, Some(" Wrong! Correct answer: Terve".to_string()));
        },
        other => panic!("{:?}", other),
    }
    match q.respond("moi\n", false) {
        Ok(Reply::Judged { right, feedback }) => {
            assert!(!right);
            assert_eq!(feedback, None);
        },
        other => panic!("{:?}", other),
    }
}

#[test]
fn basic_question_keeps_the_spaces_of_a_line() {
    let q = basic("Two words? ", "a b");
    assert!(matches!(q.respond("a b\n", false), Ok(Reply::Judged { right: true, .. })));
    assert!(matches!(q.respond("a  b\n", false), Ok(Reply::Judged { right: false, .. })));
    assert!(matches!(q.respond("a b \n", false), Ok(Reply::Judged { right: false, .. })));
    assert!(matches!(q.respond(" a b\n", false), Ok(Reply::Judged { right: false, .. })));
}

#[test]
fn integer_question_judges_a_line() {
    let q = number("6 * 7 = ", 42);
    assert!(matches!(q.respond("42\n", true), Ok(Reply::Judged { right: true, feedback: None })));
    match q.respond("43\r\n", true) {
        Ok(Reply::Judged { right, feedback }) => {
            assert!(!right);
            assert_eq!(feedback, Some(" Wrong! Correct answer: 42".to_string()));
        },
        other => panic!("{:?}", other),
    }
}

#[test]
fn any_question_behaves_as_the_question_it_holds() {
    let b = AnyQuestion::Basic(basic("Hello? ", "Terve"));
    assert_eq!(b.get_prompt(), "Hello? ");
    assert!(matches!(b.check("TERVE".to_string()), Ok(true)));
    assert!(matches!(b.respond("moi\n", false), Ok(Reply::Judged { right: false, feedback: None })));
    let n = AnyQuestion::Int(number("6 * 7 = ", 42));
    assert!(matches!(n.get_answer(), Answer::Integer(42)));
    assert!(is_integer_failure(n.respond("x\n", false)));
    let c = AnyQuestion::Choice(ijk());
    assert!(matches!(c.respond("z\n", false), Ok(Reply::Retry { .. })));
    assert!(matches!(c.respond("i\n", false), Ok(Reply::Judged { right: true, .. })));
}

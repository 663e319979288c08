use nlpf_2::form::FormFields;
use nlpf_2::questionnaires::models::{questionnaire_form_check, Questionnaire};

fn form(pairs: &[(&str, &str)]) -> FormFields {
    let mut f = FormFields::new();
    for (k, v) in pairs {
        f.insert(k.to_string(), v.to_string());
    }
    f
}

#[test]
fn form_insert_and_get() {
    let mut f = form(&[("a", "1"), ("b", "2")]);
    assert_eq!(f.get("a"), Some(&"1".to_string()));
    assert_eq!(f.get("c"), None);
    f.insert("a".to_string(), "3".to_string());
    assert_eq!(f.len(), 2);
    assert_eq!(f.get("a"), Some(&"3".to_string()));
    let (k, v) = f.entry(0);
    assert_eq!((k.as_str(), v.as_str()), ("a", "3"));
    f.insert("c".to_string(), "4".to_string());
    let (k, _) = f.entry(2);
    assert_eq!(k, "c");
}

#[test]
fn questionnaire_from_form_fields() {
    let f = form(&[
        ("name", "Rust quiz"),
        ("question-1", "What is a borrow?"),
        ("answer-1-1", "A reference"),
        ("validity-1-1", "on"),
        ("answer-1-2", "A loan"),
        ("question-2", "Is Rust safe?"),
        ("answer-2-1", "Yes"),
        ("validity-2-1", "off"),
    ]);
    assert!(questionnaire_form_check(&f));
    let q = Questionnaire::from_hash_map(f);
    assert_eq!(q.name, "Rust quiz");
    assert_eq!(q.uuid, "");
    assert_eq!(q.questions.len(), 2);
    assert_eq!(q.questions[0].question, "What is a borrow?");
    assert_eq!(q.questions[0].answers.len(), 2);
    assert_eq!(q.questions[0].answers[0].answer, "A reference");
    assert!(q.questions[0].answers[0].is_valid);
    assert_eq!(q.questions[0].answers[1].answer, "A loan");
    assert!(!q.questions[0].answers[1].is_valid);
    assert_eq!(q.questions[1].question, "Is Rust safe?");
    assert_eq!(q.questions[1].answers.len(), 1);
    assert!(!q.questions[1].answers[0].is_valid);
}

#[test]
fn answer_prefix_also_matches_longer_question_numbers() {
    let f = form(&[
        ("name", "n"),
        ("question-1", "q1"),
        ("question-10", "q10"),
        ("answer-10-1", "a"),
        ("validity-10-1", "on"),
    ]);
    assert!(questionnaire_form_check(&f));
    let q = Questionnaire::from_hash_map(f);
    assert_eq!(q.questions.len(), 2);
    assert_eq!(q.questions[0].answers.len(), 1);
    assert!(!q.questions[0].answers[0].is_valid);
    assert_eq!(q.questions[1].answers.len(), 1);
    assert!(q.questions[1].answers[0].is_valid);
}

#[test]
fn question_number_is_read_as_a_number() {
    let f = form(&[("name", "n"), ("question-01", "q"), ("answer-1-1", "a"), ("validity-1-1", "on")]);
    assert!(questionnaire_form_check(&f));
    let q = Questionnaire::from_hash_map(f);
    assert_eq!(q.questions[0].answers.len(), 1);
    assert!(q.questions[0].answers[0].is_valid);
}

#[test]
fn questionnaire_form_check_refuses_unreadable_forms() {
    assert!(!questionnaire_form_check(&form(&[("question-1", "q")])));
    assert!(!questionnaire_form_check(&form(&[("name", "n"), ("question", "q")])));
    assert!(!questionnaire_form_check(&form(&[("name", "n"), ("questionnaire", "q")])));
    assert!(!questionnaire_form_check(&form(&[("name", "n"), ("question-x", "q")])));
    assert!(!questionnaire_form_check(&form(&[("name", "n"), ("question-1", "q"), ("answer-1", "a")])));
    assert!(questionnaire_form_check(&form(&[("name", "n")])));
    assert!(questionnaire_form_check(&form(&[("name", "n"), ("answer-x", "a")])));
}

#[test]
fn questionnaire_without_questions() {
    let q = Questionnaire::from_hash_map(form(&[("name", "empty")]));
    assert_eq!(q.name, "empty");
    assert!(q.questions.is_empty());
}

fn shape(q: &Questionnaire) -> Vec<(String, Vec<(String, bool)>)> {
    q.questions
        .iter()
        .map(|question| {
            (
                question.question.clone(),
                question.answers.iter().map(|a| (a.answer.clone(), a.is_valid)).collect(),
            )
        })
        .collect()
}

#[test]
fn unrelated_fields_are_ignored() {
    let pairs = [
        ("name", "quiz"),
        ("question-1", "Q1"),
        ("answer-1-1", "A"),
        ("validity-1-1", "on"),
        ("answer-1-2", "B"),
    ];
    let plain = Questionnaire::from_hash_map(form(&pairs));
    let mut f = form(&pairs);
    f.insert("submit".to_string(), "Send".to_string());
    f.insert("csrf".to_string(), "x".to_string());
    assert!(questionnaire_form_check(&f));
    let with_extra = Questionnaire::from_hash_map(f);
    assert_eq!(with_extra.name, plain.name);
    assert_eq!(shape(&with_extra), shape(&plain));
    assert_eq!(shape(&plain), vec![("Q1".to_string(), vec![("A".to_string(), true), ("B".to_string(), false)])]);
}

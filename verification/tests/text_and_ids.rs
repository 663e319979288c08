use nlpf_2::form::FormFields;
use nlpf_2::offer::crud::questionnaire_ref_string;
use nlpf_2::offer::models::{parse_questionnaire_ref, questionnaire_ref_check};
use nlpf_2::questionnaires::models::{questionnaire_form_check, Questionnaire};
use nlpf_2::text::{bool_text, join2, split_on_char, starts_with, str_eq};
use nlpf_2::users::models::{candidate_form_check, Candidate};
use nlpf_2::utils::s3::new_object_key;

fn form(pairs: &[(&str, &str)]) -> FormFields {
    let mut f = FormFields::new();
    for (k, v) in pairs {
        f.insert(k.to_string(), v.to_string());
    }
    f
}

fn candidate_form(age: &str) -> FormFields {
    form(&[
        ("username", "Tom"),
        ("email", "tom@x.fr"),
        ("password", "pw"),
        ("age", age),
        ("photo_url", "p"),
        ("description", "d"),
    ])
}

/// The age that a candidate form with this age field gives, if it is read.
fn age_of(age: &str) -> Option<i64> {
    let f = candidate_form(age);
    if candidate_form_check(&f) {
        Some(Candidate::from_form_with_hash(&f, "h".to_string()).age)
    } else {
        None
    }
}

/// Is a questionnaire form with this question field readable?
fn question_key_ok(key: &str) -> bool {
    questionnaire_form_check(&form(&[("name", "quiz"), (key, "Q")]))
}

#[test]
fn starts_with_checks_prefix() {
    assert!(starts_with("question-1", "question"));
    assert!(starts_with("abc", ""));
    assert!(!starts_with("que", "question"));
    assert!(!starts_with("answer-1", "question"));
}

#[test]
fn str_eq_compares_characters() {
    assert!(str_eq("candidate", "candidate"));
    assert!(!str_eq("candidate", "company"));
    assert!(!str_eq("on", "on "));
    assert!(str_eq("", ""));
}

#[test]
fn split_keeps_empty_pieces() {
    assert_eq!(split_on_char("answer-1-2", '-'), vec!["answer", "1", "2"]);
    assert_eq!(split_on_char("", '-'), vec![""]);
    assert_eq!(split_on_char("-", '-'), vec!["", ""]);
    assert_eq!(split_on_char("rust,go,,sql", ','), vec!["rust", "go", "", "sql"]);
}

#[test]
fn ages_parse_as_std_does() {
    assert_eq!(age_of("42"), Some(42));
    assert_eq!(age_of("+7"), Some(7));
    assert_eq!(age_of("-0"), Some(0));
    assert_eq!(age_of("007"), Some(7));
    assert_eq!(age_of("-9223372036854775808"), Some(i64::MIN));
    assert_eq!(age_of("9223372036854775807"), Some(i64::MAX));
    assert_eq!(age_of("9223372036854775808"), None);
    assert_eq!(age_of(""), None);
    assert_eq!(age_of("-"), None);
    assert_eq!(age_of(" 1"), None);
    assert_eq!(age_of("1_000"), None);
}

#[test]
fn question_numbers_parse_as_i32() {
    assert!(question_key_ok("question-42"));
    assert!(question_key_ok("question-+7"));
    assert!(question_key_ok("question-2147483647"));
    assert!(!question_key_ok("question-2147483648"));
    assert!(!question_key_ok("question-"));
    assert!(!question_key_ok("question"));
    assert!(!question_key_ok("question- 1"));
    assert!(!question_key_ok("question-1_000"));
}

#[test]
fn question_numbers_are_written_back_in_decimal() {
    // `question-007` is question 7: its answers are the fields that start
    // with `answer-7`, and their validity fields are `validity-7-<a>`.
    let q = Questionnaire::from_hash_map(form(&[
        ("name", "quiz"),
        ("question-007", "Q"),
        ("answer-7-03", "A"),
        ("validity-7-3", "on"),
        ("answer-007-1", "not an answer of question 7"),
    ]));
    assert_eq!(q.questions.len(), 1);
    assert_eq!(q.questions[0].answers.len(), 1);
    assert_eq!(q.questions[0].answers[0].answer, "A");
    assert!(q.questions[0].answers[0].is_valid);
}

#[test]
fn bool_text_and_join() {
    assert_eq!(bool_text(true), "true");
    assert_eq!(bool_text(false), "false");
    assert_eq!(join2("answer-", "3"), "answer-3");
}

#[test]
fn uuid_text_forms() {
    let v = 0xa1a2a3a4b1b2c1c2d1d2d3d4d5d6d7d8u128;
    assert_eq!(questionnaire_ref_string(Some(v)), "a1a2a3a4-b1b2-c1c2-d1d2-d3d4d5d6d7d8");
    assert_eq!(questionnaire_ref_string(Some(0)), "00000000-0000-0000-0000-000000000000");
    for text in [
        "a1a2a3a4-b1b2-c1c2-d1d2-d3d4d5d6d7d8",
        "A1A2A3A4-B1B2-C1C2-D1D2-D3D4D5D6D7D8",
        "a1a2a3a4b1b2c1c2d1d2d3d4d5d6d7d8",
        "{a1a2a3a4-b1b2-c1c2-d1d2-d3d4d5d6d7d8}",
        "URN:uuid:a1a2a3a4-b1b2-c1c2-d1d2-d3d4d5d6d7d8",
    ] {
        assert!(questionnaire_ref_check(text));
        assert_eq!(parse_questionnaire_ref(text), Some(v));
    }
    for text in [
        "a1a2a3a4-b1b2-c1c2-d1d2-d3d4d5d6d7dg",
        "a1a2a3a4b1b2-c1c2-d1d2-d3d4-d5d6d7d8",
        "",
        "1",
    ] {
        assert!(!questionnaire_ref_check(text));
    }
}

#[test]
fn uuid_round_trip() {
    for v in [0u128, 1, u128::MAX, 0x0123456789abcdef0123456789abcdef] {
        assert_eq!(parse_questionnaire_ref(&questionnaire_ref_string(Some(v))), Some(v));
    }
    let fresh = new_object_key("f");
    assert!(questionnaire_ref_check(&fresh[..36]));
    assert_eq!(questionnaire_ref_string(parse_questionnaire_ref(&fresh[..36])), fresh[..36]);
}

#[test]
fn fresh_uuids_are_version_4() {
    let a = new_object_key("f");
    let b = new_object_key("f");
    assert_ne!(a, b);
    assert_eq!(a.chars().nth(14), Some('4'));
    assert!(matches!(a.chars().nth(19), Some('8' | '9' | 'a' | 'b')));
}

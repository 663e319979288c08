use nlpf_2::graph::{PropValue, Props};
use nlpf_2::greet::greet_template;
use nlpf_2::homepage::{get_home_page, HomePage, HomePageQueryParams};
use nlpf_2::questionnaires::crud::{
    answer_from_node, answer_node_check, create_questionnaire_plan, create_questionnaire_queries,
    question_found_check, questionnaire_from_nodes, questionnaire_node_check, questions_found_check,
    tally_answers, tally_answers_check, CREATE_ANSWER_CYPHER, LINK_ANSWER_CYPHER,
};
use nlpf_2::questionnaires::models::{Questionnaire, QuestionnaireQuestion, QuestionnaireQuestionAnswer};
use nlpf_2::users::models::AuthUser;
use nlpf_2::utils::s3::{new_object_key, object_key, url_without_signing};

fn text(p: &Props, i: usize) -> (String, String) {
    let (k, v) = p.entry(i);
    match v {
        PropValue::Text(s) => (k.clone(), s.clone()),
        _ => panic!("not text"),
    }
}

fn sample() -> Questionnaire {
    Questionnaire {
        uuid: String::new(),
        name: "quiz".to_string(),
        questions: vec![QuestionnaireQuestion {
            uuid: String::new(),
            question: "q?".to_string(),
            answers: vec![
                QuestionnaireQuestionAnswer { uuid: String::new(), answer: "yes".to_string(), is_valid: true },
                QuestionnaireQuestionAnswer { uuid: String::new(), answer: "no".to_string(), is_valid: false },
            ],
        }],
    }
}

#[test]
fn questionnaire_storage_plan() {
    let plan = create_questionnaire_plan(&sample(), "c@x.fr".to_string(), 1, &vec![2], &vec![vec![3, 4]]);
    assert_eq!(plan.len(), 8);
    assert_eq!(text(&plan[0].params, 0), ("uuid".to_string(), uuid_to_string(1)));
    assert_eq!(text(&plan[0].params, 1), ("name".to_string(), "quiz".to_string()));
    assert_eq!(text(&plan[1].params, 0), ("company_email".to_string(), "c@x.fr".to_string()));
    assert_eq!(text(&plan[2].params, 1), ("question".to_string(), "q?".to_string()));
    assert_eq!(text(&plan[3].params, 1), ("id_question".to_string(), uuid_to_string(2)));
    assert_eq!(plan[4].text, CREATE_ANSWER_CYPHER);
    assert_eq!(text(&plan[4].params, 2), ("is_valid".to_string(), "true".to_string()));
    assert_eq!(plan[5].text, LINK_ANSWER_CYPHER);
    assert_eq!(text(&plan[5].params, 1), ("id_answer".to_string(), uuid_to_string(3)));
    assert_eq!(text(&plan[6].params, 2), ("is_valid".to_string(), "false".to_string()));
}

#[test]
fn fresh_questionnaire_plan() {
    let plan = create_questionnaire_queries(&sample(), "c@x.fr".to_string());
    assert_eq!(plan.len(), 8);
    let (_, id) = text(&plan[0].params, 0);
    assert!(uuid::Uuid::try_parse(&id).is_ok());
    let (_, linked) = text(&plan[1].params, 1);
    assert_eq!(id, linked);
    for (statement, position) in [(0, 0), (2, 0), (4, 0), (6, 0)] {
        let (_, fresh) = text(&plan[statement].params, position);
        let v = uuid::Uuid::try_parse(&fresh).unwrap();
        assert_eq!(v.get_version_num(), 4);
        assert_eq!(v.get_variant(), uuid::Variant::RFC4122);
    }
}

#[test]
fn stored_answers_read_back() {
    let plan = create_questionnaire_plan(&sample(), "c".to_string(), 1, &vec![2], &vec![vec![3, 4]]);
    let yes = answer_from_node(&plan[4].params);
    assert_eq!(yes.answer, "yes");
    assert!(yes.is_valid);
    assert_eq!(yes.uuid, uuid_to_string(3));
    let no = answer_from_node(&plan[6].params);
    assert!(!no.is_valid);
}

fn node(pairs: &[(&str, &str)]) -> Props {
    let mut p = Props::new();
    for (k, v) in pairs {
        p.push(k.to_string(), PropValue::Text(v.to_string()));
    }
    p
}

#[test]
fn questionnaire_read_from_nodes() {
    let q = questionnaire_from_nodes(
        &node(&[("uuid", "q1"), ("name", "quiz")]),
        &vec![(
            node(&[("uuid", "qq"), ("question", "why?")]),
            vec![node(&[("uuid", "a"), ("answer", "because"), ("is_valid", "true")]), node(&[
                ("uuid", "b"),
                ("answer", "no"),
                ("is_valid", "TRUE"),
            ])],
        )],
    );
    assert_eq!(q.uuid, "q1");
    assert_eq!(q.name, "quiz");
    assert_eq!(q.questions[0].question, "why?");
    assert!(q.questions[0].answers[0].is_valid);
    assert!(!q.questions[0].answers[1].is_valid);
}

#[test]
fn tally_of_answers() {
    let valid = || node(&[("is_valid", "true")]);
    let invalid = || node(&[("is_valid", "false")]);
    let t = tally_answers(&vec![vec![valid()], vec![invalid()], vec![], vec![valid(), valid()]]);
    assert_eq!(t.questions, 4);
    assert_eq!(t.valid_answers, 3);
    let t = tally_answers(&vec![]);
    assert_eq!(t.questions, 0);
    assert_eq!(t.valid_answers, 0);
}

#[test]
fn home_page() {
    let u = AuthUser { user_role: "candidate".to_string(), email: "e".to_string() };
    assert!(matches!(get_home_page(Some(u), HomePageQueryParams { error: None }), HomePage::Redirect(to) if to == "/offers"));
    assert!(matches!(get_home_page(None, HomePageQueryParams { error: Some(true) }), HomePage::Page(t) if t.signin_error));
    assert!(matches!(get_home_page(None, HomePageQueryParams { error: None }), HomePage::Page(t) if !t.signin_error && t.auth_user.is_none()));
}

#[test]
fn greeting() {
    assert_eq!(greet_template("Ana".to_string()).name, "Ana");
}

#[test]
fn uploaded_file_names_and_addresses() {
    assert_eq!(object_key(0xff, "cv.pdf"), "00000000-0000-0000-0000-0000000000ff-cv.pdf");
    let k = new_object_key("cv.pdf");
    assert!(k.ends_with("-cv.pdf"));
    assert!(uuid::Uuid::try_parse(&k[..36]).is_ok());
    assert_eq!(url_without_signing("https", "bucket.s3.amazonaws.com", "/a/b.png"), "https://bucket.s3.amazonaws.com/a/b.png");
}

#[test]
fn found_node_checks() {
    assert!(answer_node_check(&node(&[("uuid", "a"), ("answer", "x"), ("is_valid", "false")])));
    assert!(!answer_node_check(&node(&[("uuid", "a"), ("answer", "x")])));
    assert!(questionnaire_node_check(&node(&[("uuid", "q"), ("name", "quiz")])));
    assert!(!questionnaire_node_check(&node(&[("name", "quiz")])));
    let question = node(&[("uuid", "qq"), ("question", "why?")]);
    assert!(question_found_check(&question, &vec![node(&[("uuid", "a"), ("answer", "x"), ("is_valid", "true")])]));
    assert!(!question_found_check(&question, &vec![node(&[("uuid", "a")])]));
    assert!(!question_found_check(&node(&[("uuid", "qq")]), &vec![]));
    assert!(questions_found_check(&vec![]));
    assert!(questions_found_check(&vec![(node(&[("uuid", "qq"), ("question", "why?")]), vec![])]));
    assert!(!questions_found_check(&vec![(node(&[("question", "why?")]), vec![])]));
}

#[test]
fn tally_check() {
    let valid = || node(&[("is_valid", "true")]);
    assert!(tally_answers_check(&vec![]));
    assert!(tally_answers_check(&vec![vec![valid()], vec![], vec![node(&[("is_valid", "no")])]]));
    assert!(!tally_answers_check(&vec![vec![valid()], vec![node(&[("answer", "x")])]]));
}

#[test]
fn stored_questionnaire_reads_back_whole() {
    let mut plan = create_questionnaire_plan(&sample(), "c@x.fr".to_string(), 1, &vec![2], &vec![vec![3, 4]]);
    let no = plan.remove(6).params;
    let yes = plan.remove(4).params;
    let question = plan.remove(2).params;
    let node = plan.remove(0).params;
    let q = questionnaire_from_nodes(&node, &vec![(question, vec![yes, no])]);
    assert_eq!(q.uuid, uuid_to_string(1));
    assert_eq!(q.name, "quiz");
    assert_eq!(q.questions.len(), 1);
    assert_eq!(q.questions[0].uuid, uuid_to_string(2));
    assert_eq!(q.questions[0].question, "q?");
    assert_eq!(q.questions[0].answers.len(), 2);
    assert_eq!(q.questions[0].answers[0].uuid, uuid_to_string(3));
    assert_eq!(q.questions[0].answers[0].answer, "yes");
    assert!(q.questions[0].answers[0].is_valid);
    assert_eq!(q.questions[0].answers[1].uuid, uuid_to_string(4));
    assert_eq!(q.questions[0].answers[1].answer, "no");
    assert!(!q.questions[0].answers[1].is_valid);
}

/// How the uuid crate writes the identifier `v`.
fn uuid_to_string(v: u128) -> String {
    uuid::Uuid::from_u128(v).to_string()
}

//! The statements that store, find and delete questionnaires, the reading of
//! what they find, and the tally of a candidate's answers.

use vstd::prelude::*;
use super::models::{
    answers_view, questions_view, AnswerView, Questionnaire, QuestionnaireQuestion,
    QuestionnaireQuestionAnswer, QuestionnaireView, QuestionView,
};
use crate::candidacies::crud::text_params2;
use crate::graph::{
    lemma_prop_lookup_at, prop_lookup, queries_view, text_prop, CypherQuery, PropValueView, Props, QueryView,
};
use crate::ids::{is_v4, new_uuid, uuid_text, uuid_to_string};
use crate::text::{bool_text, str_eq};
use crate::users::crud::{push_text, text_param};

verus! {

pub const CREATE_QUESTIONNAIRE_CYPHER: &'static str = r#"
            CREATE (c:Questionnaire {
                name: $name,
                uuid: $uuid
            })
            RETURN c
        "#;

pub const LINK_COMPANY_QUESTIONNAIRE_CYPHER: &'static str = r#"
            MATCH (c:Company {email: $company_email})
            MATCH (q:Questionnaire {uuid: $questionnaire_id})
            CREATE (c)-[:HAS_QUESTIONNAIRE]->(q)
        "#;

pub const CREATE_QUESTION_CYPHER: &'static str = r#"
                CREATE (c:Question {
                    uuid: $uuid,
                    question: $question
                })
                RETURN c
            "#;

pub const LINK_QUESTION_CYPHER: &'static str = r#"
                MATCH (q:Questionnaire {uuid: $id_questionnaire})
                MATCH (c:Question {uuid: $id_question})
                CREATE (q)-[:HAS_QUESTION]->(c)
                RETURN q, c
            "#;

pub const CREATE_ANSWER_CYPHER: &'static str = r#"
                    CREATE (c:Answer {
                        uuid: $uuid,
                        answer: $answer,
                        is_valid: $is_valid
                    })
                    RETURN c
                "#;

pub const LINK_ANSWER_CYPHER: &'static str = r#"
                    MATCH (q:Question {uuid: $id_question})
                    MATCH (c:Answer {uuid: $id_answer})
                    CREATE (q)-[:HAS_ANSWER]->(c)
                    RETURN q, c
                "#;

pub const QUESTIONNAIRES_BY_COMPANY_CYPHER: &'static str = r#"
            MATCH (c:Company {email:$email})
            MATCH (c)-[POSTED]-(q:Questionnaire)
            RETURN q
        "#;

pub const DELETE_QUESTIONNAIRE_CYPHER: &'static str = r#"
            MATCH (q:Questionnaire {uuid:$uuid})
            DETACH DELETE q
            RETURN q
        "#;

pub const QUESTIONNAIRE_BY_ID_CYPHER: &'static str = r#"
            MATCH (q:Questionnaire {uuid:$uuid})
            RETURN q
        "#;

pub const QUESTIONS_CYPHER: &'static str = r#"
                MATCH (q:Questionnaire {uuid:$uuid})
                MATCH (q)-[HAS_QUESTION]-(c:Question)
                RETURN c
            "#;

pub const ANSWERS_CYPHER: &'static str = r#"
                    MATCH (q:Question {uuid:$uuid})
                    MATCH (q)-[HAS_ANSWER]-(c:Answer)
                    RETURN c
                "#;

pub const ANSWER_CYPHER: &'static str = r#"
                MATCH (a:Answer {uuid:$answer_id})
                RETURN a
            "#;

/// How a validity is stored: the text `true` or `false`.
pub open spec fn validity_text(b: bool) -> Seq<char> {
    if b {
        "true"@
    } else {
        "false"@
    }
}

/// The statement that creates an answer node with identifier `id`.
pub open spec fn answer_create(a: AnswerView, id: u128) -> QueryView {
    (
        CREATE_ANSWER_CYPHER@,
        seq![
            ("uuid"@, PropValueView::Text(uuid_text(id))),
            ("answer"@, PropValueView::Text(a.answer)),
            ("is_valid"@, PropValueView::Text(validity_text(a.is_valid))),
        ],
    )
}

/// The statements for the first `n` answers of a question: each answer's node,
/// then its link to the question.
pub open spec fn answers_plan(answers: Seq<AnswerView>, question_id: u128, ids: Seq<u128>, n: int) -> Seq<
    QueryView,
>
    decreases n,
{
    if n <= 0 {
        Seq::empty()
    } else {
        answers_plan(answers, question_id, ids, n - 1).push(answer_create(answers[n - 1], ids[n - 1])).push(
            (
                LINK_ANSWER_CYPHER@,
                text_params2("id_question"@, uuid_text(question_id), "id_answer"@, uuid_text(ids[n - 1])),
            ),
        )
    }
}

/// The statements for one question with identifier `id`: its node, its link
/// to the questionnaire, then its answers.
pub open spec fn question_plan(q: QuestionView, questionnaire_id: u128, id: u128, answer_ids: Seq<u128>) -> Seq<
    QueryView,
> {
    seq![
        (
            CREATE_QUESTION_CYPHER@,
            text_params2("uuid"@, uuid_text(id), "question"@, q.question),
        ),
        (
            LINK_QUESTION_CYPHER@,
            text_params2("id_questionnaire"@, uuid_text(questionnaire_id), "id_question"@, uuid_text(id)),
        ),
    ] + answers_plan(q.answers, id, answer_ids, q.answers.len() as int)
}

/// The statements for the first `n` questions.
pub open spec fn questions_plan(
    questions: Seq<QuestionView>,
    questionnaire_id: u128,
    ids: Seq<u128>,
    answer_ids: Seq<Seq<u128>>,
    n: int,
) -> Seq<QueryView>
    decreases n,
{
    if n <= 0 {
        Seq::empty()
    } else {
        questions_plan(questions, questionnaire_id, ids, answer_ids, n - 1) + question_plan(
            questions[n - 1],
            questionnaire_id,
            ids[n - 1],
            answer_ids[n - 1],
        )
    }
}

/// Every question has an identifier, and every answer of it too.
pub open spec fn ids_fit(q: QuestionnaireView, question_ids: Seq<u128>, answer_ids: Seq<Seq<u128>>) -> bool {
    &&& question_ids.len() == q.questions.len()
    &&& answer_ids.len() == q.questions.len()
    &&& forall|i: int| 0 <= i < q.questions.len() ==> #[trigger] answer_ids[i].len() == q.questions[i].answers.len()
}

/// The statements that store a questionnaire of the company with
/// `company_email`, in order: the questionnaire's node, its link to the
/// company, then each question and each of its answers.
pub open spec fn questionnaire_plan(
    q: QuestionnaireView,
    company_email: Seq<char>,
    id: u128,
    question_ids: Seq<u128>,
    answer_ids: Seq<Seq<u128>>,
) -> Seq<QueryView> {
    seq![
        (
            CREATE_QUESTIONNAIRE_CYPHER@,
            text_params2("uuid"@, uuid_text(id), "name"@, q.name),
        ),
        (
            LINK_COMPANY_QUESTIONNAIRE_CYPHER@,
            text_params2("company_email"@, company_email, "questionnaire_id"@, uuid_text(id)),
        ),
    ] + questions_plan(q.questions, id, question_ids, answer_ids, q.questions.len() as int)
}

/// A statement with two text parameters.
fn query2(text: &str, k1: &str, v1: String, k2: &str, v2: String) -> (q: CypherQuery)
    ensures
        q@ == (text@, text_params2(k1@, v1@, k2@, v2@)),
{
    let mut params = Props::new();
    push_text(&mut params, k1, v1);
    push_text(&mut params, k2, v2);
    assert(params@ =~= text_params2(k1@, v1@, k2@, v2@));
    CypherQuery { text: text.to_owned(), params }
}

/// The statements for the answers of a question.
fn answers_statements(
    out: &mut Vec<CypherQuery>,
    answers: &Vec<QuestionnaireQuestionAnswer>,
    question_id: u128,
    ids: &Vec<u128>,
)
    requires
        ids@.len() == answers@.len(),
    ensures
        queries_view(final(out)@) == queries_view(old(out)@) + answers_plan(
            answers_view(answers@),
            question_id,
            ids@,
            answers@.len() as int,
        ),
{
    let ghost start = queries_view(out@);
    let mut j: usize = 0;
    assert(queries_view(out@) =~= start + answers_plan(answers_view(answers@), question_id, ids@, 0));
    while j < answers.len()
        invariant
            ids@.len() == answers@.len(),
            j <= answers@.len(),
            queries_view(out@) == start + answers_plan(answers_view(answers@), question_id, ids@, j as int),
        decreases answers@.len() - j,
    {
        let answer = &answers[j];
        let mut params = Props::new();
        push_text(&mut params, "uuid", uuid_to_string(ids[j]));
        push_text(&mut params, "answer", answer.answer.clone());
        push_text(&mut params, "is_valid", bool_text(answer.is_valid));
        let create = CypherQuery { text: CREATE_ANSWER_CYPHER.to_owned(), params };
        let link = query2(
            LINK_ANSWER_CYPHER,
            "id_question",
            uuid_to_string(question_id),
            "id_answer",
            uuid_to_string(ids[j]),
        );
        let ghost before = out@;
        assert(create@ =~= answer_create(answers_view(answers@)[j as int], ids@[j as int]));
        out.push(create);
        out.push(link);
        assert(queries_view(out@) =~= queries_view(before).push(create@).push(link@));
        j = j + 1;
    }
}

/// The statements that store a questionnaire, with the given identifiers for
/// the questionnaire, its questions and their answers.
pub fn create_questionnaire_plan(
    questionnaire: &Questionnaire,
    company_email: String,
    id: u128,
    question_ids: &Vec<u128>,
    answer_ids: &Vec<Vec<u128>>,
) -> (plan: Vec<CypherQuery>)
    requires
        ids_fit(questionnaire@, question_ids@, answer_ids@.map_values(|v: Vec<u128>| v@)),
    ensures
        queries_view(plan@) == questionnaire_plan(
            questionnaire@,
            company_email@,
            id,
            question_ids@,
            answer_ids@.map_values(|v: Vec<u128>| v@),
        ),
        forall|k: int|
            0 <= k < plan@.len() && text_prop((#[trigger] plan@[k]).params@, "id_questionnaire"@) is Some
                ==> text_prop(plan@[k].params@, "id_questionnaire"@) == Some(uuid_text(id)),
{
    let ghost aids = answer_ids@.map_values(|v: Vec<u128>| v@);
    let ghost qs = questions_view(questionnaire.questions@);
    let mut plan: Vec<CypherQuery> = Vec::new();
    plan.push(query2(CREATE_QUESTIONNAIRE_CYPHER, "uuid", uuid_to_string(id), "name", questionnaire.name.clone()));
    plan.push(query2(
        LINK_COMPANY_QUESTIONNAIRE_CYPHER,
        "company_email",
        company_email,
        "questionnaire_id",
        uuid_to_string(id),
    ));
    let ghost head = queries_view(plan@);
    assert(queries_view(plan@) =~= head + questions_plan(qs, id, question_ids@, aids, 0));
    let mut i: usize = 0;
    while i < questionnaire.questions.len()
        invariant
            ids_fit(questionnaire@, question_ids@, aids),
            qs == questionnaire@.questions,
            aids == answer_ids@.map_values(|v: Vec<u128>| v@),
            i <= questionnaire.questions@.len(),
            queries_view(plan@) == head + questions_plan(qs, id, question_ids@, aids, i as int),
        decreases questionnaire.questions@.len() - i,
    {
        let question = &questionnaire.questions[i];
        let qid = question_ids[i];
        let ghost before = queries_view(plan@);
        plan.push(query2(CREATE_QUESTION_CYPHER, "uuid", uuid_to_string(qid), "question", question.question.clone()));
        plan.push(query2(
            LINK_QUESTION_CYPHER,
            "id_questionnaire",
            uuid_to_string(id),
            "id_question",
            uuid_to_string(qid),
        ));
        assert(answer_ids@[i as int]@.len() == question.answers@.len()) by {
            assert(aids[i as int] == answer_ids@[i as int]@);
            assert(qs[i as int] == question@);
        }
        let ghost mid = queries_view(plan@);
        answers_statements(&mut plan, &question.answers, qid, &answer_ids[i]);
        assert(aids[i as int] == answer_ids@[i as int]@);
        assert(qs[i as int] == question@);
        assert(queries_view(plan@) =~= before + question_plan(qs[i as int], id, qid, aids[i as int]));
        assert(questions_plan(qs, id, question_ids@, aids, i + 1) == questions_plan(qs, id, question_ids@, aids, i as int)
            + question_plan(qs[i as int], id, question_ids@[i as int], aids[i as int]));
        i = i + 1;
    }
    proof {
        lemma_questionnaire_plan_links(questionnaire@, company_email@, id, question_ids@, aids);
        assert(queries_view(plan@) == questionnaire_plan(questionnaire@, company_email@, id, question_ids@, aids));
        assert forall|k: int|
            0 <= k < plan@.len() && text_prop((#[trigger] plan@[k]).params@, "id_questionnaire"@) is Some
                implies text_prop(plan@[k].params@, "id_questionnaire"@) == Some(uuid_text(id)) by {
            assert(queries_view(plan@)[k] == plan@[k]@);
            assert(questionnaire_plan(questionnaire@, company_email@, id, question_ids@, aids)[k] == plan@[k]@);
        }
    }
    plan
}

/// Every identifier of a questionnaire, of its questions and of their
/// answers is a version 4 UUID.
pub open spec fn ids_v4(id: u128, question_ids: Seq<u128>, answer_ids: Seq<Seq<u128>>) -> bool {
    &&& is_v4(id)
    &&& forall|i: int| 0 <= i < question_ids.len() ==> is_v4(#[trigger] question_ids[i])
    &&& forall|i: int, j: int|
        0 <= i < answer_ids.len() && 0 <= j < answer_ids[i].len() ==> is_v4(#[trigger] answer_ids[i][j])
}

/// Fresh random version 4 identifiers, one per element.
fn fresh_ids(n: usize) -> (ids: Vec<u128>)
    ensures
        ids@.len() == n,
        forall|k: int| 0 <= k < n ==> is_v4(#[trigger] ids@[k]),
{
    let mut ids: Vec<u128> = Vec::new();
    let mut k: usize = 0;
    while k < n
        invariant
            k <= n,
            ids@.len() == k,
            forall|m: int| 0 <= m < k ==> is_v4(#[trigger] ids@[m]),
        decreases n - k,
    {
        ids.push(new_uuid());
        k = k + 1;
    }
    ids
}

/// The statements that store a questionnaire of the company with
/// `company_email`, under fresh random version 4 identifiers. Their random
/// bits the random number generator decides; the statements are the plan for
/// them.
pub fn create_questionnaire_queries(questionnaire: &Questionnaire, company_email: String) -> (plan: Vec<
    CypherQuery,
>)
    ensures
        exists|id: u128, question_ids: Seq<u128>, answer_ids: Seq<Seq<u128>>|
            ids_fit(questionnaire@, question_ids, answer_ids) && ids_v4(id, question_ids, answer_ids)
                && queries_view(plan@) == questionnaire_plan(
                questionnaire@,
                company_email@,
                id,
                question_ids,
                answer_ids,
            ),
{
    let id = new_uuid();
    let question_ids = fresh_ids(questionnaire.questions.len());
    let mut answer_ids: Vec<Vec<u128>> = Vec::new();
    let mut i: usize = 0;
    while i < questionnaire.questions.len()
        invariant
            i <= questionnaire.questions@.len(),
            answer_ids@.len() == i,
            forall|k: int| 0 <= k < i ==> #[trigger] answer_ids@[k]@.len()
                == questionnaire.questions@[k].answers@.len(),
            forall|k: int, j: int|
                0 <= k < i && 0 <= j < answer_ids@[k]@.len() ==> is_v4(#[trigger] answer_ids@[k]@[j]),
        decreases questionnaire.questions@.len() - i,
    {
        answer_ids.push(fresh_ids(questionnaire.questions[i].answers.len()));
        i = i + 1;
    }
    let ghost aids = answer_ids@.map_values(|v: Vec<u128>| v@);
    assert(ids_fit(questionnaire@, question_ids@, aids)) by {
        assert forall|k: int| 0 <= k < questionnaire@.questions.len() implies #[trigger] aids[k].len()
            == questionnaire@.questions[k].answers.len() by {
            assert(aids[k] == answer_ids@[k]@);
            assert(questionnaire@.questions[k] == questionnaire.questions@[k]@);
        }
    }
    let plan = create_questionnaire_plan(questionnaire, company_email, id, &question_ids, &answer_ids);
    assert(ids_v4(id, question_ids@, aids)) by {
        assert forall|k: int, j: int| 0 <= k < aids.len() && 0 <= j < aids[k].len() implies is_v4(
            #[trigger] aids[k][j],
        ) by {
            assert(aids[k] == answer_ids@[k]@);
        }
    }
    assert(ids_fit(questionnaire@, question_ids@, aids) && ids_v4(id, question_ids@, aids)
        && queries_view(plan@) == questionnaire_plan(
        questionnaire@,
        company_email@,
        id,
        question_ids@,
        aids,
    ));
    plan
}

/// The statement that lists the questionnaires of a company.
pub fn questionnaires_by_company_query(email: String) -> (q: CypherQuery)
    ensures
        q@ == (QUESTIONNAIRES_BY_COMPANY_CYPHER@, text_param("email"@, email@)),
{
    let mut params = Props::new();
    push_text(&mut params, "email", email);
    assert(params@ =~= text_param("email"@, email@));
    CypherQuery { text: QUESTIONNAIRES_BY_COMPANY_CYPHER.to_owned(), params }
}

/// A statement with one text parameter.
fn query1(text: &str, key: &str, value: String) -> (q: CypherQuery)
    ensures
        q@ == (text@, text_param(key@, value@)),
{
    let mut params = Props::new();
    push_text(&mut params, key, value);
    assert(params@ =~= text_param(key@, value@));
    CypherQuery { text: text.to_owned(), params }
}

/// The statement that deletes a questionnaire and its links.
pub fn delete_questionnaire_query(questionnaire_id: String) -> (q: CypherQuery)
    ensures
        q@ == (DELETE_QUESTIONNAIRE_CYPHER@, text_param("uuid"@, questionnaire_id@)),
{
    query1(DELETE_QUESTIONNAIRE_CYPHER, "uuid", questionnaire_id)
}

/// The statement that finds a questionnaire.
pub fn questionnaire_by_id_query(questionnaire_id: String) -> (q: CypherQuery)
    ensures
        q@ == (QUESTIONNAIRE_BY_ID_CYPHER@, text_param("uuid"@, questionnaire_id@)),
{
    query1(QUESTIONNAIRE_BY_ID_CYPHER, "uuid", questionnaire_id)
}

/// The statement that lists the questions of a questionnaire.
pub fn questions_query(questionnaire_id: String) -> (q: CypherQuery)
    ensures
        q@ == (QUESTIONS_CYPHER@, text_param("uuid"@, questionnaire_id@)),
{
    query1(QUESTIONS_CYPHER, "uuid", questionnaire_id)
}

/// The statement that lists the answers of a question.
pub fn answers_query(question_id: String) -> (q: CypherQuery)
    ensures
        q@ == (ANSWERS_CYPHER@, text_param("uuid"@, question_id@)),
{
    query1(ANSWERS_CYPHER, "uuid", question_id)
}

/// The statement that finds an answer.
pub fn answer_query(answer_id: String) -> (q: CypherQuery)
    ensures
        q@ == (ANSWER_CYPHER@, text_param("answer_id"@, answer_id@)),
{
    query1(ANSWER_CYPHER, "answer_id", answer_id)
}

/// A stored validity reads as valid only when it is the text `true`.
pub open spec fn stored_validity(props: Seq<(Seq<char>, PropValueView)>) -> bool {
    text_prop(props, "is_valid"@) == Some("true"@)
}

/// Node properties that hold an answer.
pub open spec fn answer_node_ok(props: Seq<(Seq<char>, PropValueView)>) -> bool {
    &&& text_prop(props, "uuid"@) is Some
    &&& text_prop(props, "answer"@) is Some
    &&& text_prop(props, "is_valid"@) is Some
}

/// The answer that node properties hold.
pub open spec fn answer_from_props(props: Seq<(Seq<char>, PropValueView)>) -> AnswerView {
    AnswerView {
        uuid: text_prop(props, "uuid"@).unwrap(),
        answer: text_prop(props, "answer"@).unwrap(),
        is_valid: stored_validity(props),
    }
}

/// Node properties that hold a question.
pub open spec fn question_node_ok(props: Seq<(Seq<char>, PropValueView)>) -> bool {
    &&& text_prop(props, "uuid"@) is Some
    &&& text_prop(props, "question"@) is Some
}

/// Node properties that hold a questionnaire.
pub open spec fn questionnaire_node_ok(props: Seq<(Seq<char>, PropValueView)>) -> bool {
    &&& text_prop(props, "uuid"@) is Some
    &&& text_prop(props, "name"@) is Some
}

/// The views of a list of property records.
pub open spec fn props_view(v: Seq<Props>) -> Seq<Seq<(Seq<char>, PropValueView)>> {
    v.map_values(|p: Props| p@)
}

/// A question node and the answer nodes found for it.
pub open spec fn question_found_ok(found: (Props, Vec<Props>)) -> bool {
    &&& question_node_ok(found.0@)
    &&& forall|j: int| 0 <= j < found.1@.len() ==> answer_node_ok(#[trigger] found.1@[j]@)
}

/// The question that a question node and its answer nodes hold.
pub open spec fn question_from_found(found: (Props, Vec<Props>)) -> QuestionView {
    QuestionView {
        uuid: text_prop(found.0@, "uuid"@).unwrap(),
        question: text_prop(found.0@, "question"@).unwrap(),
        answers: props_view(found.1@).map_values(|p: Seq<(Seq<char>, PropValueView)>| answer_from_props(p)),
    }
}

/// Does the node hold an answer?
pub fn answer_node_check(node: &Props) -> (res: bool)
    ensures
        res == answer_node_ok(node@),
{
    node.get_text("uuid").is_some() && node.get_text("answer").is_some() && node.get_text("is_valid").is_some()
}

/// Does the node hold a questionnaire?
pub fn questionnaire_node_check(node: &Props) -> (res: bool)
    ensures
        res == questionnaire_node_ok(node@),
{
    node.get_text("uuid").is_some() && node.get_text("name").is_some()
}

/// Do a question node and the nodes found for its answers hold a question?
pub fn question_found_check(node: &Props, answers: &Vec<Props>) -> (res: bool)
    ensures
        res == question_found_ok((*node, *answers)),
{
    if !(node.get_text("uuid").is_some() && node.get_text("question").is_some()) {
        return false;
    }
    let mut j: usize = 0;
    while j < answers.len()
        invariant
            j <= answers@.len(),
            forall|k: int| 0 <= k < j ==> answer_node_ok(#[trigger] answers@[k]@),
        decreases answers@.len() - j,
    {
        if !answer_node_check(&answers[j]) {
            assert(!answer_node_ok((*node, *answers).1@[j as int]@));
            return false;
        }
        j = j + 1;
    }
    assert forall|k: int| 0 <= k < (*node, *answers).1@.len() implies answer_node_ok(
        #[trigger] (*node, *answers).1@[k]@,
    ) by {
        assert(answer_node_ok(answers@[k]@));
    }
    true
}

/// Does every found question hold a question with its answers?
pub fn questions_found_check(questions: &Vec<(Props, Vec<Props>)>) -> (res: bool)
    ensures
        res == (forall|i: int| 0 <= i < questions@.len() ==> question_found_ok(#[trigger] questions@[i])),
{
    let mut i: usize = 0;
    while i < questions.len()
        invariant
            i <= questions@.len(),
            forall|k: int| 0 <= k < i ==> question_found_ok(#[trigger] questions@[k]),
        decreases questions@.len() - i,
    {
        if !question_found_check(&questions[i].0, &questions[i].1) {
            assert(!question_found_ok(questions@[i as int]));
            return false;
        }
        i = i + 1;
    }
    true
}

/// Reads an answer from its node.
pub fn answer_from_node(node: &Props) -> (a: QuestionnaireQuestionAnswer)
    requires
        answer_node_ok(node@),
    ensures
        a@ == answer_from_props(node@),
{
    let is_valid_string = node.get_text("is_valid").unwrap();
    let is_valid = str_eq(is_valid_string.as_str(), "true");
    QuestionnaireQuestionAnswer {
        uuid: node.get_text("uuid").unwrap(),
        answer: node.get_text("answer").unwrap(),
        is_valid,
    }
}

/// Reads a question from its node and the nodes of its answers.
pub fn question_from_nodes(node: &Props, answers: &Vec<Props>) -> (q: QuestionnaireQuestion)
    requires
        question_found_ok((*node, *answers)),
    ensures
        q@ == question_from_found((*node, *answers)),
{
    let mut out: Vec<QuestionnaireQuestionAnswer> = Vec::new();
    let mut j: usize = 0;
    while j < answers.len()
        invariant
            question_found_ok((*node, *answers)),
            j <= answers@.len(),
            answers_view(out@) == props_view(answers@).subrange(0, j as int).map_values(
                |p: Seq<(Seq<char>, PropValueView)>| answer_from_props(p),
            ),
        decreases answers@.len() - j,
    {
        assert(answer_node_ok((*node, *answers).1@[j as int]@));
        let a = answer_from_node(&answers[j]);
        let ghost before = out@;
        out.push(a);
        assert(answers_view(out@) =~= answers_view(before).push(a@));
        assert(props_view(answers@).subrange(0, j + 1) =~= props_view(answers@).subrange(0, j as int).push(
            answers@[j as int]@,
        ));
        j = j + 1;
    }
    assert(props_view(answers@).subrange(0, answers@.len() as int) =~= props_view(answers@));
    QuestionnaireQuestion {
        uuid: node.get_text("uuid").unwrap(),
        question: node.get_text("question").unwrap(),
        answers: out,
    }
}

/// Reads a questionnaire from its node and, for each of its questions, the
/// question's node with the nodes of its answers.
pub fn questionnaire_from_nodes(node: &Props, questions: &Vec<(Props, Vec<Props>)>) -> (q: Questionnaire)
    requires
        questionnaire_node_ok(node@),
        forall|i: int| 0 <= i < questions@.len() ==> question_found_ok(#[trigger] questions@[i]),
    ensures
        q@ == (QuestionnaireView {
            uuid: text_prop(node@, "uuid"@).unwrap(),
            name: text_prop(node@, "name"@).unwrap(),
            questions: questions@.map_values(|f: (Props, Vec<Props>)| question_from_found(f)),
        }),
{
    let mut out: Vec<QuestionnaireQuestion> = Vec::new();
    let mut i: usize = 0;
    while i < questions.len()
        invariant
            forall|k: int| 0 <= k < questions@.len() ==> question_found_ok(#[trigger] questions@[k]),
            i <= questions@.len(),
            questions_view(out@) == questions@.subrange(0, i as int).map_values(
                |f: (Props, Vec<Props>)| question_from_found(f),
            ),
        decreases questions@.len() - i,
    {
        let found = &questions[i];
        let q = question_from_nodes(&found.0, &found.1);
        let ghost before = out@;
        out.push(q);
        assert(questions_view(out@) =~= questions_view(before).push(q@));
        assert(questions@.subrange(0, i + 1) =~= questions@.subrange(0, i as int).push(questions@[i as int]));
        i = i + 1;
    }
    assert(questions@.subrange(0, questions@.len() as int) =~= questions@);
    Questionnaire {
        uuid: node.get_text("uuid").unwrap(),
        name: node.get_text("name").unwrap(),
        questions: out,
    }
}

/// The number of found answer nodes whose validity is `true`.
pub open spec fn valid_count(nodes: Seq<Props>) -> nat
    decreases nodes.len(),
{
    if nodes.len() == 0 {
        0
    } else {
        valid_count(nodes.drop_last()) + if stored_validity(nodes.last()@) { 1nat } else { 0nat }
    }
}

/// The number of valid answers over the answers of every question.
pub open spec fn valid_total(found: Seq<Vec<Props>>) -> nat
    decreases found.len(),
{
    if found.len() == 0 {
        0
    } else {
        valid_total(found.drop_last()) + valid_count(found.last()@)
    }
}

/// The tally of a candidate's answers: how many answers were given (one per
/// question), and how many of the answer nodes found for them are valid.
pub struct ScoreTally {
    pub questions: u64,
    pub valid_answers: u64,
}

/// Counts the answers given and the valid ones among the nodes found for
/// each given answer.
pub fn tally_answers(found: &Vec<Vec<Props>>) -> (t: ScoreTally)
    requires
        forall|i: int, j: int| 0 <= i < found@.len() && 0 <= j < found@[i]@.len() ==> text_prop(
            #[trigger] found@[i]@[j]@,
            "is_valid"@,
        ) is Some,
        valid_total(found@) <= u64::MAX,
    ensures
        t.questions == found@.len(),
        t.valid_answers == valid_total(found@),
{
    let mut valid_answers: u64 = 0;
    let mut i: usize = 0;
    while i < found.len()
        invariant
            i <= found@.len(),
            valid_total(found@) <= u64::MAX,
            valid_answers == valid_total(found@.subrange(0, i as int)),
        decreases found@.len() - i,
    {
        let nodes = &found[i];
        let ghost base = valid_answers as nat;
        proof {
            lemma_valid_total_prefix(found@, i as int + 1);
            assert(found@.subrange(0, i + 1).drop_last() =~= found@.subrange(0, i as int));
        }
        let mut j: usize = 0;
        while j < nodes.len()
            invariant
                j <= nodes@.len(),
                base + valid_count(nodes@) <= u64::MAX,
                valid_answers == base + valid_count(nodes@.subrange(0, j as int)),
            decreases nodes@.len() - j,
        {
            proof {
                lemma_valid_count_prefix(nodes@, j as int + 1);
                assert(nodes@.subrange(0, j + 1).drop_last() =~= nodes@.subrange(0, j as int));
            }
            let text = nodes[j].get_text("is_valid");
            match text {
                Some(t) => {
                    if str_eq(t.as_str(), "true") {
                        valid_answers = valid_answers + 1;
                    }
                },
                None => {},
            }
            j = j + 1;
        }
        assert(nodes@.subrange(0, nodes@.len() as int) =~= nodes@);
        i = i + 1;
    }
    assert(found@.subrange(0, found@.len() as int) =~= found@);
    ScoreTally { questions: found.len() as u64, valid_answers }
}

/// Can `tally_answers` count the found nodes: does each hold a validity, and
/// does the number of valid ones fit in a `u64`?
pub fn tally_answers_check(found: &Vec<Vec<Props>>) -> (res: bool)
    ensures
        res == ((forall|i: int, j: int|
            0 <= i < found@.len() && 0 <= j < found@[i]@.len() ==> text_prop(
                #[trigger] found@[i]@[j]@,
                "is_valid"@,
            ) is Some) && valid_total(found@) <= u64::MAX),
{
    let mut count: u64 = 0;
    let mut i: usize = 0;
    while i < found.len()
        invariant
            i <= found@.len(),
            count == valid_total(found@.subrange(0, i as int)),
            forall|a: int, b: int|
                0 <= a < i && 0 <= b < found@[a]@.len() ==> text_prop(
                    #[trigger] found@[a]@[b]@,
                    "is_valid"@,
                ) is Some,
        decreases found@.len() - i,
    {
        let nodes = &found[i];
        let ghost base = count as nat;
        proof {
            assert(found@.subrange(0, i + 1).drop_last() =~= found@.subrange(0, i as int));
            assert(found@.subrange(0, i + 1).last() == found@[i as int]);
            lemma_valid_total_prefix(found@, i + 1);
        }
        let mut j: usize = 0;
        while j < nodes.len()
            invariant
                i < found@.len(),
                *nodes == found@[i as int],
                j <= nodes@.len(),
                base + valid_count(nodes@) == valid_total(found@.subrange(0, i + 1)),
                valid_total(found@.subrange(0, i + 1)) <= valid_total(found@),
                count == base + valid_count(nodes@.subrange(0, j as int)),
                forall|b: int| 0 <= b < j ==> text_prop(#[trigger] nodes@[b]@, "is_valid"@) is Some,
            decreases nodes@.len() - j,
        {
            proof {
                assert(nodes@.subrange(0, j + 1).drop_last() =~= nodes@.subrange(0, j as int));
                assert(nodes@.subrange(0, j + 1).last() == nodes@[j as int]);
                lemma_valid_count_prefix(nodes@, j + 1);
            }
            match nodes[j].get_text("is_valid") {
                Some(t) => {
                    if str_eq(t.as_str(), "true") {
                        if count == u64::MAX {
                            return false;
                        }
                        count = count + 1;
                    }
                },
                None => {
                    assert(text_prop(found@[i as int]@[j as int]@, "is_valid"@) is None);
                    return false;
                },
            }
            j = j + 1;
        }
        proof {
            assert(nodes@.subrange(0, nodes@.len() as int) =~= nodes@);
            assert forall|a: int, b: int|
                0 <= a < i + 1 && 0 <= b < found@[a]@.len() implies text_prop(
                #[trigger] found@[a]@[b]@,
                "is_valid"@,
            ) is Some by {
                if a == i {
                    assert(text_prop(nodes@[b]@, "is_valid"@) is Some);
                }
            }
        }
        i = i + 1;
    }
    assert(found@.subrange(0, found@.len() as int) =~= found@);
    true
}

/// The count of valid answers counts exactly the nodes whose stored
/// validity is the text `true`: never more than the nodes, all of them when
/// every one says `true`, none when none does.
pub proof fn lemma_valid_count_counts_true(nodes: Seq<Props>)
    ensures
        valid_count(nodes) <= nodes.len(),
        (forall|j: int| 0 <= j < nodes.len() ==> text_prop(#[trigger] nodes[j]@, "is_valid"@) == Some("true"@))
            ==> valid_count(nodes) == nodes.len(),
        (forall|j: int| 0 <= j < nodes.len() ==> text_prop(#[trigger] nodes[j]@, "is_valid"@) != Some("true"@))
            ==> valid_count(nodes) == 0,
    decreases nodes.len(),
{
    if nodes.len() > 0 {
        let d = nodes.drop_last();
        lemma_valid_count_counts_true(d);
        assert forall|j: int| 0 <= j < d.len() implies d[j] == nodes[j] by {}
        if forall|j: int| 0 <= j < nodes.len() ==> text_prop(#[trigger] nodes[j]@, "is_valid"@) == Some("true"@) {
            assert(text_prop(nodes[nodes.len() - 1]@, "is_valid"@) == Some("true"@));
            assert forall|j: int| 0 <= j < d.len() implies text_prop(#[trigger] d[j]@, "is_valid"@) == Some(
                "true"@,
            ) by {
                assert(text_prop(nodes[j]@, "is_valid"@) == Some("true"@));
            }
        }
        if forall|j: int| 0 <= j < nodes.len() ==> text_prop(#[trigger] nodes[j]@, "is_valid"@) != Some("true"@) {
            assert(text_prop(nodes[nodes.len() - 1]@, "is_valid"@) != Some("true"@));
            assert forall|j: int| 0 <= j < d.len() implies text_prop(#[trigger] d[j]@, "is_valid"@) != Some(
                "true"@,
            ) by {
                assert(text_prop(nodes[j]@, "is_valid"@) != Some("true"@));
            }
        }
    }
}

/// Counting a prefix counts no more than the whole.
pub proof fn lemma_valid_count_prefix(nodes: Seq<Props>, k: int)
    requires
        0 <= k <= nodes.len(),
    ensures
        valid_count(nodes.subrange(0, k)) <= valid_count(nodes),
    decreases nodes.len(),
{
    if k < nodes.len() {
        assert(nodes.drop_last().subrange(0, k) =~= nodes.subrange(0, k));
        lemma_valid_count_prefix(nodes.drop_last(), k);
    } else {
        assert(nodes.subrange(0, k) =~= nodes);
    }
}

/// Counting over a prefix of the questions counts no more than the whole.
pub proof fn lemma_valid_total_prefix(found: Seq<Vec<Props>>, k: int)
    requires
        0 <= k <= found.len(),
    ensures
        valid_total(found.subrange(0, k)) <= valid_total(found),
    decreases found.len(),
{
    if k < found.len() {
        assert(found.drop_last().subrange(0, k) =~= found.subrange(0, k));
        lemma_valid_total_prefix(found.drop_last(), k);
    } else {
        assert(found.subrange(0, k) =~= found);
    }
}

/// An answer stored by its creation statement is read back with its text and
/// validity, under the identifier it was stored with.
pub proof fn lemma_answer_read_back(a: AnswerView, id: u128)
    ensures
        answer_node_ok(answer_create(a, id).1),
        answer_from_props(answer_create(a, id).1) == (AnswerView {
            uuid: uuid_text(id),
            answer: a.answer,
            is_valid: a.is_valid,
        }),
{
    reveal_strlit("uuid");
    reveal_strlit("answer");
    reveal_strlit("is_valid");
    reveal_strlit("true");
    reveal_strlit("false");
    let p = answer_create(a, id).1;
    assert("uuid"@.len() == 4 && "answer"@.len() == 6 && "is_valid"@.len() == 8);
    assert("true"@.len() == 4 && "false"@.len() == 5);
    lemma_prop_lookup_at(p, 0);
    lemma_prop_lookup_at(p, 1);
    lemma_prop_lookup_at(p, 2);
}

/// A question stored by its creation statement is read back with its text,
/// under the identifier it was stored with.
pub proof fn lemma_question_read_back(question: Seq<char>, id: u128)
    ensures
        question_node_ok(text_params2("uuid"@, uuid_text(id), "question"@, question)),
        text_prop(text_params2("uuid"@, uuid_text(id), "question"@, question), "uuid"@) == Some(uuid_text(id)),
        text_prop(text_params2("uuid"@, uuid_text(id), "question"@, question), "question"@) == Some(question),
{
    reveal_strlit("uuid");
    reveal_strlit("question");
    let p = text_params2("uuid"@, uuid_text(id), "question"@, question);
    assert("uuid"@.len() == 4 && "question"@.len() == 8);
    lemma_prop_lookup_at(p, 0);
    lemma_prop_lookup_at(p, 1);
}

/// A questionnaire stored by its creation statement is read back with its
/// name, under the identifier it was stored with.
pub proof fn lemma_questionnaire_read_back(name: Seq<char>, id: u128)
    ensures
        questionnaire_node_ok(text_params2("uuid"@, uuid_text(id), "name"@, name)),
        text_prop(text_params2("uuid"@, uuid_text(id), "name"@, name), "uuid"@) == Some(uuid_text(id)),
        text_prop(text_params2("uuid"@, uuid_text(id), "name"@, name), "name"@) == Some(name),
{
    reveal_strlit("uuid");
    reveal_strlit("name");
    let p = text_params2("uuid"@, uuid_text(id), "name"@, name);
    assert("uuid"@.len() == 4 && "name"@.len() == 4);
    assert("uuid"@[0] == 'u' && "name"@[0] == 'n');
    lemma_prop_lookup_at(p, 0);
    lemma_prop_lookup_at(p, 1);
}

/// The questionnaire `q` as it reads back after its statements stored it
/// under these identifiers: the identifiers as stored, everything else as
/// written.
pub open spec fn stored_questionnaire(
    q: QuestionnaireView,
    id: u128,
    question_ids: Seq<u128>,
    answer_ids: Seq<Seq<u128>>,
) -> QuestionnaireView {
    QuestionnaireView {
        uuid: uuid_text(id),
        name: q.name,
        questions: Seq::new(
            q.questions.len(),
            |i: int|
                QuestionView {
                    uuid: uuid_text(question_ids[i]),
                    question: q.questions[i].question,
                    answers: Seq::new(
                        q.questions[i].answers.len(),
                        |j: int|
                            AnswerView {
                                uuid: uuid_text(answer_ids[i][j]),
                                answer: q.questions[i].answers[j].answer,
                                is_valid: q.questions[i].answers[j].is_valid,
                            },
                    ),
                },
        ),
    }
}

/// The found nodes hold what the creation statements of `questionnaire_plan`
/// stored: the questionnaire's node, then each question's node, in order,
/// with the nodes of its answers, in order.
pub open spec fn found_as_stored(
    q: QuestionnaireView,
    id: u128,
    question_ids: Seq<u128>,
    answer_ids: Seq<Seq<u128>>,
    node: Props,
    questions: Seq<(Props, Vec<Props>)>,
) -> bool {
    &&& node@ == text_params2("uuid"@, uuid_text(id), "name"@, q.name)
    &&& questions.len() == q.questions.len()
    &&& forall|i: int|
        0 <= i < questions.len() ==> {
            &&& #[trigger] questions[i].0@ == text_params2(
                "uuid"@,
                uuid_text(question_ids[i]),
                "question"@,
                q.questions[i].question,
            )
            &&& questions[i].1@.len() == q.questions[i].answers.len()
            &&& forall|j: int|
                0 <= j < questions[i].1@.len() ==> #[trigger] questions[i].1@[j]@ == answer_create(
                    q.questions[i].answers[j],
                    answer_ids[i][j],
                ).1
        }
}

/// A questionnaire stored by its statements reads back whole: from the nodes
/// those statements created, `questionnaire_from_nodes` can read, and gives
/// the questionnaire's name, its questions in order and their answers in
/// order with their validity, under the identifiers they were stored with.
pub proof fn lemma_stored_questionnaire_reads_back(
    q: QuestionnaireView,
    id: u128,
    question_ids: Seq<u128>,
    answer_ids: Seq<Seq<u128>>,
    node: Props,
    questions: Seq<(Props, Vec<Props>)>,
)
    requires
        ids_fit(q, question_ids, answer_ids),
        found_as_stored(q, id, question_ids, answer_ids, node, questions),
    ensures
        questionnaire_node_ok(node@),
        forall|i: int| 0 <= i < questions.len() ==> question_found_ok(#[trigger] questions[i]),
        (QuestionnaireView {
            uuid: text_prop(node@, "uuid"@).unwrap(),
            name: text_prop(node@, "name"@).unwrap(),
            questions: questions.map_values(|f: (Props, Vec<Props>)| question_from_found(f)),
        }) == stored_questionnaire(q, id, question_ids, answer_ids),
{
    lemma_questionnaire_read_back(q.name, id);
    let expected = stored_questionnaire(q, id, question_ids, answer_ids);
    assert forall|i: int| 0 <= i < questions.len() implies question_found_ok(#[trigger] questions[i])
        && question_from_found(questions[i]) == expected.questions[i] by {
        let found = questions[i];
        assert(found.0@ == text_params2("uuid"@, uuid_text(question_ids[i]), "question"@, q.questions[i].question));
        lemma_question_read_back(q.questions[i].question, question_ids[i]);
        assert forall|j: int| 0 <= j < found.1@.len() implies answer_node_ok(#[trigger] found.1@[j]@)
            && answer_from_props(found.1@[j]@) == expected.questions[i].answers[j] by {
            assert(found.1@[j]@ == answer_create(q.questions[i].answers[j], answer_ids[i][j]).1);
            lemma_answer_read_back(q.questions[i].answers[j], answer_ids[i][j]);
        }
        assert(props_view(found.1@).map_values(|p: Seq<(Seq<char>, PropValueView)>| answer_from_props(p))
            =~= expected.questions[i].answers);
    }
    assert(questions.map_values(|f: (Props, Vec<Props>)| question_from_found(f)) =~= expected.questions);
}

/// The parameter names that the questionnaire's statements use are distinct
/// from `id_questionnaire` and from each other where they share a statement.
proof fn lemma_plan_names_distinct()
    ensures
        "uuid"@ != "name"@,
        "uuid"@ != "question"@,
        "company_email"@ != "questionnaire_id"@,
        "id_questionnaire"@ != "id_question"@,
        "id_question"@ != "id_answer"@,
        "uuid"@ != "answer"@,
        "uuid"@ != "is_valid"@,
        "answer"@ != "is_valid"@,
        "id_questionnaire"@ != "uuid"@,
        "id_questionnaire"@ != "name"@,
        "id_questionnaire"@ != "company_email"@,
        "id_questionnaire"@ != "questionnaire_id"@,
        "id_questionnaire"@ != "question"@,
        "id_questionnaire"@ != "id_answer"@,
        "id_questionnaire"@ != "answer"@,
        "id_questionnaire"@ != "is_valid"@,
{
    reveal_strlit("uuid");
    reveal_strlit("name");
    reveal_strlit("question");
    reveal_strlit("company_email");
    reveal_strlit("questionnaire_id");
    reveal_strlit("id_questionnaire");
    reveal_strlit("id_question");
    reveal_strlit("id_answer");
    reveal_strlit("answer");
    reveal_strlit("is_valid");
    assert("uuid"@.len() == 4 && "name"@.len() == 4 && "uuid"@[0] != "name"@[0]);
    assert("question"@.len() == 8 && "company_email"@.len() == 13 && "questionnaire_id"@.len() == 16);
    assert("id_questionnaire"@.len() == 16 && "id_questionnaire"@[0] != "questionnaire_id"@[0]);
    assert("id_question"@.len() == 11 && "id_answer"@.len() == 9);
    assert("answer"@.len() == 6 && "is_valid"@.len() == 8);
}

/// The two values of a two-parameter statement, by name.
proof fn lemma_text_params2_lookup(k1: Seq<char>, v1: Seq<char>, k2: Seq<char>, v2: Seq<char>, key: Seq<char>)
    requires
        k1 != k2,
    ensures
        text_prop(text_params2(k1, v1, k2, v2), key) == (if key == k1 {
            Some(v1)
        } else if key == k2 {
            Some(v2)
        } else {
            None::<Seq<char>>
        }),
{
    reveal_with_fuel(prop_lookup, 3);
    let p = text_params2(k1, v1, k2, v2);
    assert(p.drop_first() =~= seq![(k2, PropValueView::Text(v2))]);
    assert(p.drop_first().drop_first() =~= Seq::<(Seq<char>, PropValueView)>::empty());
}

/// The values of an answer's creation statement, by name.
proof fn lemma_answer_create_lookup(a: AnswerView, id: u128, key: Seq<char>)
    ensures
        text_prop(answer_create(a, id).1, key) == (if key == "uuid"@ {
            Some(uuid_text(id))
        } else if key == "answer"@ {
            Some(a.answer)
        } else if key == "is_valid"@ {
            Some(validity_text(a.is_valid))
        } else {
            None::<Seq<char>>
        }),
{
    lemma_plan_names_distinct();
    reveal_with_fuel(prop_lookup, 4);
    let p = answer_create(a, id).1;
    assert(p.drop_first() =~= seq![
        ("answer"@, PropValueView::Text(a.answer)),
        ("is_valid"@, PropValueView::Text(validity_text(a.is_valid))),
    ]);
    assert(p.drop_first().drop_first() =~= seq![("is_valid"@, PropValueView::Text(validity_text(a.is_valid)))]);
    assert(p.drop_first().drop_first().drop_first() =~= Seq::<(Seq<char>, PropValueView)>::empty());
}

/// The first `n` answers' statements: for answer `j`, its creation statement
/// at `2j` and its link to the question at `2j + 1`; none names a
/// questionnaire.
proof fn lemma_answers_plan_layout(answers: Seq<AnswerView>, question_id: u128, ids: Seq<u128>, n: int)
    requires
        0 <= n <= answers.len(),
        n <= ids.len(),
    ensures
        answers_plan(answers, question_id, ids, n).len() == 2 * n,
        forall|j: int|
            0 <= j < n ==> #[trigger] answers_plan(answers, question_id, ids, n)[2 * j] == answer_create(
                answers[j],
                ids[j],
            ) && answers_plan(answers, question_id, ids, n)[2 * j + 1] == (
                LINK_ANSWER_CYPHER@,
                text_params2("id_question"@, uuid_text(question_id), "id_answer"@, uuid_text(ids[j])),
            ),
        forall|k: int|
            0 <= k < 2 * n ==> text_prop(
                (#[trigger] answers_plan(answers, question_id, ids, n)[k]).1,
                "id_questionnaire"@,
            ) is None,
    decreases n,
{
    if n > 0 {
        lemma_answers_plan_layout(answers, question_id, ids, n - 1);
        lemma_plan_names_distinct();
        let prev = answers_plan(answers, question_id, ids, n - 1);
        let cur = answers_plan(answers, question_id, ids, n);
        assert forall|j: int| 0 <= j < n - 1 implies #[trigger] cur[2 * j] == prev[2 * j] && cur[2 * j + 1]
            == prev[2 * j + 1] by {
            assert(prev[2 * j] == answer_create(answers[j], ids[j]));
        }
        assert forall|k: int| 0 <= k < 2 * n implies text_prop((#[trigger] cur[k]).1, "id_questionnaire"@) is None by {
            if k < 2 * n - 2 {
                assert(cur[k] == prev[k]);
            } else if k == 2 * n - 2 {
                lemma_answer_create_lookup(answers[n - 1], ids[n - 1], "id_questionnaire"@);
            } else {
                lemma_text_params2_lookup(
                    "id_question"@,
                    uuid_text(question_id),
                    "id_answer"@,
                    uuid_text(ids[n - 1]),
                    "id_questionnaire"@,
                );
            }
        }
    }
}

/// Where the statements of question `i` begin among those of the questions.
pub open spec fn question_block_start(questions: Seq<QuestionView>, i: int) -> int
    decreases i,
{
    if i <= 0 {
        0
    } else {
        question_block_start(questions, i - 1) + 2 + 2 * questions[i - 1].answers.len()
    }
}

/// At `b` in `plan` stand the statements of one question: its creation
/// under `qid`, its link to the questionnaire `questionnaire_id`, then for
/// each answer its creation under `aids[j]` and its link to the question.
pub open spec fn question_block_at(
    plan: Seq<QueryView>,
    b: int,
    questionnaire_id: u128,
    qid: u128,
    question: QuestionView,
    aids: Seq<u128>,
) -> bool {
    &&& 0 <= b
    &&& b + 2 + 2 * question.answers.len() <= plan.len()
    &&& plan[b] == (
        CREATE_QUESTION_CYPHER@,
        text_params2("uuid"@, uuid_text(qid), "question"@, question.question),
    )
    &&& plan[b + 1] == (
        LINK_QUESTION_CYPHER@,
        text_params2("id_questionnaire"@, uuid_text(questionnaire_id), "id_question"@, uuid_text(qid)),
    )
    &&& forall|j: int|
        0 <= j < question.answers.len() ==> #[trigger] plan[b + 2 + 2 * j] == answer_create(
            question.answers[j],
            aids[j],
        ) && plan[b + 3 + 2 * j] == (
            LINK_ANSWER_CYPHER@,
            text_params2("id_question"@, uuid_text(qid), "id_answer"@, uuid_text(aids[j])),
        )
}

/// A question's statements stay where they are when more follow.
proof fn lemma_block_append(
    plan: Seq<QueryView>,
    more: Seq<QueryView>,
    b: int,
    questionnaire_id: u128,
    qid: u128,
    question: QuestionView,
    aids: Seq<u128>,
)
    requires
        question_block_at(plan, b, questionnaire_id, qid, question, aids),
    ensures
        question_block_at(plan + more, b, questionnaire_id, qid, question, aids),
{
    let p2 = plan + more;
    assert(p2[b] == plan[b]);
    assert(p2[b + 1] == plan[b + 1]);
    assert forall|j: int| 0 <= j < question.answers.len() implies #[trigger] p2[b + 2 + 2 * j] == answer_create(
        question.answers[j],
        aids[j],
    ) && p2[b + 3 + 2 * j] == (
        LINK_ANSWER_CYPHER@,
        text_params2("id_question"@, uuid_text(qid), "id_answer"@, uuid_text(aids[j])),
    ) by {
        assert(p2[b + 2 + 2 * j] == plan[b + 2 + 2 * j]);
        assert(p2[b + 3 + 2 * j] == plan[b + 3 + 2 * j]);
        assert(plan[b + 2 + 2 * j] == answer_create(question.answers[j], aids[j]));
    }
}

/// A question's statements move along when statements come before them.
proof fn lemma_block_prepend(
    before: Seq<QueryView>,
    plan: Seq<QueryView>,
    b: int,
    questionnaire_id: u128,
    qid: u128,
    question: QuestionView,
    aids: Seq<u128>,
)
    requires
        question_block_at(plan, b, questionnaire_id, qid, question, aids),
    ensures
        question_block_at(before + plan, before.len() + b, questionnaire_id, qid, question, aids),
{
    let p2 = before + plan;
    let c = before.len() as int;
    assert(p2[c + b] == plan[b]);
    assert(p2[c + b + 1] == plan[b + 1]);
    assert forall|j: int| 0 <= j < question.answers.len() implies #[trigger] p2[c + b + 2 + 2 * j] == answer_create(
        question.answers[j],
        aids[j],
    ) && p2[c + b + 3 + 2 * j] == (
        LINK_ANSWER_CYPHER@,
        text_params2("id_question"@, uuid_text(qid), "id_answer"@, uuid_text(aids[j])),
    ) by {
        assert(p2[c + b + 2 + 2 * j] == plan[b + 2 + 2 * j]);
        assert(p2[c + b + 3 + 2 * j] == plan[b + 3 + 2 * j]);
        assert(plan[b + 2 + 2 * j] == answer_create(question.answers[j], aids[j]));
    }
}

/// The statements of one question are its block.
proof fn lemma_question_plan_block(question: QuestionView, questionnaire_id: u128, qid: u128, aids: Seq<u128>)
    requires
        aids.len() == question.answers.len(),
    ensures
        question_block_at(question_plan(question, questionnaire_id, qid, aids), 0, questionnaire_id, qid, question, aids),
        question_plan(question, questionnaire_id, qid, aids).len() == 2 + 2 * question.answers.len(),
{
    let n = question.answers.len() as int;
    lemma_answers_plan_layout(question.answers, qid, aids, n);
    let a = answers_plan(question.answers, qid, aids, n);
    let p = question_plan(question, questionnaire_id, qid, aids);
    assert forall|j: int| 0 <= j < n implies #[trigger] p[0 + 2 + 2 * j] == answer_create(
        question.answers[j],
        aids[j],
    ) && p[0 + 3 + 2 * j] == (
        LINK_ANSWER_CYPHER@,
        text_params2("id_question"@, uuid_text(qid), "id_answer"@, uuid_text(aids[j])),
    ) by {
        assert(p[2 + 2 * j] == a[2 * j]);
        assert(p[3 + 2 * j] == a[2 * j + 1]);
    }
}

/// No statement of a question names a questionnaire other than
/// `questionnaire_id`.
proof fn lemma_question_plan_names(question: QuestionView, questionnaire_id: u128, qid: u128, aids: Seq<u128>)
    requires
        aids.len() == question.answers.len(),
    ensures
        forall|k: int|
            0 <= k < question_plan(question, questionnaire_id, qid, aids).len() && text_prop(
                (#[trigger] question_plan(question, questionnaire_id, qid, aids)[k]).1,
                "id_questionnaire"@,
            ) is Some ==> text_prop(
                question_plan(question, questionnaire_id, qid, aids)[k].1,
                "id_questionnaire"@,
            ) == Some(uuid_text(questionnaire_id)),
{
    lemma_plan_names_distinct();
    let n = question.answers.len() as int;
    lemma_answers_plan_layout(question.answers, qid, aids, n);
    let a = answers_plan(question.answers, qid, aids, n);
    let p = question_plan(question, questionnaire_id, qid, aids);
    assert forall|k: int|
        0 <= k < p.len() && text_prop((#[trigger] p[k]).1, "id_questionnaire"@) is Some implies text_prop(
            p[k].1,
            "id_questionnaire"@,
        ) == Some(uuid_text(questionnaire_id)) by {
        if k == 0 {
            lemma_text_params2_lookup("uuid"@, uuid_text(qid), "question"@, question.question, "id_questionnaire"@);
        } else if k == 1 {
            lemma_text_params2_lookup(
                "id_questionnaire"@,
                uuid_text(questionnaire_id),
                "id_question"@,
                uuid_text(qid),
                "id_questionnaire"@,
            );
        } else {
            assert(p[k] == a[k - 2]);
        }
    }
}

/// The layout of the first `n` questions' statements: question `i`'s block
/// begins at `question_block_start(questions, i)`, and every statement that
/// names a questionnaire names `questionnaire_id`.
proof fn lemma_questions_plan_layout(
    questions: Seq<QuestionView>,
    questionnaire_id: u128,
    ids: Seq<u128>,
    answer_ids: Seq<Seq<u128>>,
    n: int,
)
    requires
        0 <= n <= questions.len(),
        n <= ids.len(),
        n <= answer_ids.len(),
        forall|i: int| 0 <= i < n ==> #[trigger] answer_ids[i].len() == questions[i].answers.len(),
    ensures
        questions_plan(questions, questionnaire_id, ids, answer_ids, n).len() == question_block_start(questions, n),
        forall|i: int|
            0 <= i < n ==> question_block_at(
                questions_plan(questions, questionnaire_id, ids, answer_ids, n),
                #[trigger] question_block_start(questions, i),
                questionnaire_id,
                ids[i],
                questions[i],
                answer_ids[i],
            ),
        forall|k: int|
            0 <= k < questions_plan(questions, questionnaire_id, ids, answer_ids, n).len() && text_prop(
                (#[trigger] questions_plan(questions, questionnaire_id, ids, answer_ids, n)[k]).1,
                "id_questionnaire"@,
            ) is Some ==> text_prop(
                questions_plan(questions, questionnaire_id, ids, answer_ids, n)[k].1,
                "id_questionnaire"@,
            ) == Some(uuid_text(questionnaire_id)),
    decreases n,
{
    if n > 0 {
        lemma_questions_plan_layout(questions, questionnaire_id, ids, answer_ids, n - 1);
        let prev = questions_plan(questions, questionnaire_id, ids, answer_ids, n - 1);
        let q = questions[n - 1];
        assert(answer_ids[n - 1].len() == q.answers.len());
        let block = question_plan(q, questionnaire_id, ids[n - 1], answer_ids[n - 1]);
        let cur = questions_plan(questions, questionnaire_id, ids, answer_ids, n);
        assert(cur == prev + block);
        lemma_question_plan_block(q, questionnaire_id, ids[n - 1], answer_ids[n - 1]);
        lemma_question_plan_names(q, questionnaire_id, ids[n - 1], answer_ids[n - 1]);
        assert forall|i: int| 0 <= i < n implies question_block_at(
            cur,
            #[trigger] question_block_start(questions, i),
            questionnaire_id,
            ids[i],
            questions[i],
            answer_ids[i],
        ) by {
            let b = question_block_start(questions, i);
            if i < n - 1 {
                lemma_block_append(prev, block, b, questionnaire_id, ids[i], questions[i], answer_ids[i]);
            } else {
                lemma_block_prepend(prev, block, 0, questionnaire_id, ids[i], questions[i], answer_ids[i]);
                assert(prev + block == cur);
            }
        }
        let b0 = prev.len() as int;
        assert forall|k: int|
            0 <= k < cur.len() && text_prop((#[trigger] cur[k]).1, "id_questionnaire"@) is Some implies text_prop(
                cur[k].1,
                "id_questionnaire"@,
            ) == Some(uuid_text(questionnaire_id)) by {
            if k < b0 {
                assert(cur[k] == prev[k]);
            } else {
                assert(cur[k] == block[k - b0]);
            }
        }
    }
}

/// Question `i`'s creation and link stand at `question_block_start + 2` and
/// the next position of the questionnaire's statements.
proof fn lemma_question_in_plan(
    q: QuestionnaireView,
    company_email: Seq<char>,
    id: u128,
    question_ids: Seq<u128>,
    answer_ids: Seq<Seq<u128>>,
    i: int,
)
    requires
        ids_fit(q, question_ids, answer_ids),
        0 <= i < q.questions.len(),
    ensures
        ({
            let plan = questionnaire_plan(q, company_email, id, question_ids, answer_ids);
            let c = question_block_start(q.questions, i) + 2;
            &&& 0 <= c && c + 1 < plan.len()
            &&& plan[c].0 == CREATE_QUESTION_CYPHER@
            &&& text_prop(plan[c].1, "uuid"@) == Some(uuid_text(question_ids[i]))
            &&& text_prop(plan[c].1, "question"@) == Some(q.questions[i].question)
            &&& plan[c + 1].0 == LINK_QUESTION_CYPHER@
            &&& text_prop(plan[c + 1].1, "id_questionnaire"@) == Some(uuid_text(id))
            &&& text_prop(plan[c + 1].1, "id_question"@) == Some(uuid_text(question_ids[i]))
        }),
{
    lemma_plan_names_distinct();
    let n = q.questions.len() as int;
    lemma_questions_plan_layout(q.questions, id, question_ids, answer_ids, n);
    let rest = questions_plan(q.questions, id, question_ids, answer_ids, n);
    let plan = questionnaire_plan(q, company_email, id, question_ids, answer_ids);
    let head = seq![
        (CREATE_QUESTIONNAIRE_CYPHER@, text_params2("uuid"@, uuid_text(id), "name"@, q.name)),
        (
            LINK_COMPANY_QUESTIONNAIRE_CYPHER@,
            text_params2("company_email"@, company_email, "questionnaire_id"@, uuid_text(id)),
        ),
    ];
    assert(plan == head + rest);
    let b = question_block_start(q.questions, i);
    assert(question_block_at(rest, b, id, question_ids[i], q.questions[i], answer_ids[i]));
    lemma_block_prepend(head, rest, b, id, question_ids[i], q.questions[i], answer_ids[i]);
    lemma_text_params2_lookup("uuid"@, uuid_text(question_ids[i]), "question"@, q.questions[i].question, "uuid"@);
    lemma_text_params2_lookup("uuid"@, uuid_text(question_ids[i]), "question"@, q.questions[i].question, "question"@);
    lemma_text_params2_lookup(
        "id_questionnaire"@,
        uuid_text(id),
        "id_question"@,
        uuid_text(question_ids[i]),
        "id_questionnaire"@,
    );
    lemma_text_params2_lookup(
        "id_questionnaire"@,
        uuid_text(id),
        "id_question"@,
        uuid_text(question_ids[i]),
        "id_question"@,
    );
}

/// Answer `j` of question `i`: its creation and its link stand at
/// `question_block_start + 4 + 2j` and the next position.
proof fn lemma_answer_in_plan(
    q: QuestionnaireView,
    company_email: Seq<char>,
    id: u128,
    question_ids: Seq<u128>,
    answer_ids: Seq<Seq<u128>>,
    i: int,
    j: int,
)
    requires
        ids_fit(q, question_ids, answer_ids),
        0 <= i < q.questions.len(),
        0 <= j < q.questions[i].answers.len(),
    ensures
        ({
            let plan = questionnaire_plan(q, company_email, id, question_ids, answer_ids);
            let c = question_block_start(q.questions, i) + 4 + 2 * j;
            let a = q.questions[i].answers[j];
            &&& 0 <= c && c + 1 < plan.len()
            &&& plan[c].0 == CREATE_ANSWER_CYPHER@
            &&& text_prop(plan[c].1, "uuid"@) == Some(uuid_text(answer_ids[i][j]))
            &&& text_prop(plan[c].1, "answer"@) == Some(a.answer)
            &&& text_prop(plan[c].1, "is_valid"@) == Some(if a.is_valid { "true"@ } else { "false"@ })
            &&& plan[c + 1].0 == LINK_ANSWER_CYPHER@
            &&& text_prop(plan[c + 1].1, "id_question"@) == Some(uuid_text(question_ids[i]))
            &&& text_prop(plan[c + 1].1, "id_answer"@) == Some(uuid_text(answer_ids[i][j]))
        }),
{
    lemma_plan_names_distinct();
    let n = q.questions.len() as int;
    lemma_questions_plan_layout(q.questions, id, question_ids, answer_ids, n);
    let rest = questions_plan(q.questions, id, question_ids, answer_ids, n);
    let plan = questionnaire_plan(q, company_email, id, question_ids, answer_ids);
    let head = seq![
        (CREATE_QUESTIONNAIRE_CYPHER@, text_params2("uuid"@, uuid_text(id), "name"@, q.name)),
        (
            LINK_COMPANY_QUESTIONNAIRE_CYPHER@,
            text_params2("company_email"@, company_email, "questionnaire_id"@, uuid_text(id)),
        ),
    ];
    assert(plan == head + rest);
    let b = question_block_start(q.questions, i);
    let a = q.questions[i].answers[j];
    assert(question_block_at(rest, b, id, question_ids[i], q.questions[i], answer_ids[i]));
    lemma_block_prepend(head, rest, b, id, question_ids[i], q.questions[i], answer_ids[i]);
    assert(question_block_at(plan, b + 2, id, question_ids[i], q.questions[i], answer_ids[i]));
    let k1 = b + 2 + 2 + 2 * j;
    assert(plan[k1] == answer_create(a, answer_ids[i][j]));
    lemma_answer_create_lookup(a, answer_ids[i][j], "uuid"@);
    lemma_answer_create_lookup(a, answer_ids[i][j], "answer"@);
    lemma_answer_create_lookup(a, answer_ids[i][j], "is_valid"@);
    lemma_text_params2_lookup(
        "id_question"@,
        uuid_text(question_ids[i]),
        "id_answer"@,
        uuid_text(answer_ids[i][j]),
        "id_question"@,
    );
    lemma_text_params2_lookup(
        "id_question"@,
        uuid_text(question_ids[i]),
        "id_answer"@,
        uuid_text(answer_ids[i][j]),
        "id_answer"@,
    );
}

/// At `k` in `plan` stands the link of the answer `answer_id` to the
/// question `question_id`.
pub open spec fn answer_linked_at(plan: Seq<QueryView>, k: int, question_id: u128, answer_id: u128) -> bool {
    &&& 0 <= k < plan.len()
    &&& plan[k].0 == LINK_ANSWER_CYPHER@
    &&& text_prop(plan[k].1, "id_question"@) == Some(uuid_text(question_id))
    &&& text_prop(plan[k].1, "id_answer"@) == Some(uuid_text(answer_id))
}

/// Every answer is linked to its own question.
proof fn lemma_plan_answers_linked(
    q: QuestionnaireView,
    company_email: Seq<char>,
    id: u128,
    question_ids: Seq<u128>,
    answer_ids: Seq<Seq<u128>>,
)
    requires
        ids_fit(q, question_ids, answer_ids),
    ensures
        forall|i: int, j: int|
            #![trigger answer_ids[i][j]]
            0 <= i < q.questions.len() && 0 <= j < q.questions[i].answers.len() ==> answer_linked_at(
                questionnaire_plan(q, company_email, id, question_ids, answer_ids),
                question_block_start(q.questions, i) + 5 + 2 * j,
                question_ids[i],
                answer_ids[i][j],
            ),
{
    assert forall|i: int, j: int|
        #![trigger answer_ids[i][j]]
        0 <= i < q.questions.len() && 0 <= j < q.questions[i].answers.len() implies answer_linked_at(
            questionnaire_plan(q, company_email, id, question_ids, answer_ids),
            question_block_start(q.questions, i) + 5 + 2 * j,
            question_ids[i],
            answer_ids[i][j],
        ) by {
        lemma_answer_in_plan(q, company_email, id, question_ids, answer_ids, i, j);
    }
}

/// What the statements that store a questionnaire do, whatever its shape:
/// - the first creates the questionnaire's node under `id` with its name;
/// - the second links the company with `company_email` to that node;
/// - every statement that names a questionnaire to link to names that same
///   `id`, so no question is linked to another node;
/// - every question is created under its identifier with its text, and is
///   linked to the questionnaire;
/// - every answer is created under its identifier with its text and
///   validity (`true` or `false`), and right after its creation is linked to
///   its own question (question `i`'s statements begin at
///   `question_block_start(i) + 2`: its creation, its link, then for answer
///   `j` the creation at `+ 2 + 2j` and the link at `+ 3 + 2j`).
pub proof fn lemma_questionnaire_plan_links(
    q: QuestionnaireView,
    company_email: Seq<char>,
    id: u128,
    question_ids: Seq<u128>,
    answer_ids: Seq<Seq<u128>>,
)
    requires
        ids_fit(q, question_ids, answer_ids),
    ensures
        ({
            let plan = questionnaire_plan(q, company_email, id, question_ids, answer_ids);
            &&& plan.len() >= 2
            &&& plan[0].0 == CREATE_QUESTIONNAIRE_CYPHER@
            &&& text_prop(plan[0].1, "uuid"@) == Some(uuid_text(id))
            &&& text_prop(plan[0].1, "name"@) == Some(q.name)
            &&& plan[1].0 == LINK_COMPANY_QUESTIONNAIRE_CYPHER@
            &&& text_prop(plan[1].1, "company_email"@) == Some(company_email)
            &&& text_prop(plan[1].1, "questionnaire_id"@) == Some(uuid_text(id))
        }),
        forall|k: int|
            0 <= k < questionnaire_plan(q, company_email, id, question_ids, answer_ids).len() && text_prop(
                (#[trigger] questionnaire_plan(q, company_email, id, question_ids, answer_ids)[k]).1,
                "id_questionnaire"@,
            ) is Some ==> text_prop(
                questionnaire_plan(q, company_email, id, question_ids, answer_ids)[k].1,
                "id_questionnaire"@,
            ) == Some(uuid_text(id)),
        forall|i: int|
            #![trigger question_ids[i]]
            0 <= i < q.questions.len() ==> exists|k: int|
                #![trigger questionnaire_plan(q, company_email, id, question_ids, answer_ids)[k]]
                0 <= k < questionnaire_plan(q, company_email, id, question_ids, answer_ids).len()
                    && questionnaire_plan(q, company_email, id, question_ids, answer_ids)[k].0 == CREATE_QUESTION_CYPHER@
                    && text_prop(questionnaire_plan(q, company_email, id, question_ids, answer_ids)[k].1, "uuid"@)
                    == Some(uuid_text(question_ids[i])) && text_prop(
                    questionnaire_plan(q, company_email, id, question_ids, answer_ids)[k].1,
                    "question"@,
                ) == Some(q.questions[i].question),
        forall|i: int|
            #![trigger question_ids[i]]
            0 <= i < q.questions.len() ==> exists|k: int|
                #![trigger questionnaire_plan(q, company_email, id, question_ids, answer_ids)[k]]
                0 <= k < questionnaire_plan(q, company_email, id, question_ids, answer_ids).len()
                    && questionnaire_plan(q, company_email, id, question_ids, answer_ids)[k].0 == LINK_QUESTION_CYPHER@
                    && text_prop(
                    questionnaire_plan(q, company_email, id, question_ids, answer_ids)[k].1,
                    "id_questionnaire"@,
                ) == Some(uuid_text(id)) && text_prop(
                    questionnaire_plan(q, company_email, id, question_ids, answer_ids)[k].1,
                    "id_question"@,
                ) == Some(uuid_text(question_ids[i])),
        forall|i: int, j: int|
            #![trigger answer_ids[i][j]]
            0 <= i < q.questions.len() && 0 <= j < q.questions[i].answers.len() ==> exists|k: int|
                #![trigger questionnaire_plan(q, company_email, id, question_ids, answer_ids)[k]]
                0 <= k < questionnaire_plan(q, company_email, id, question_ids, answer_ids).len()
                    && questionnaire_plan(q, company_email, id, question_ids, answer_ids)[k].0 == CREATE_ANSWER_CYPHER@
                    && text_prop(questionnaire_plan(q, company_email, id, question_ids, answer_ids)[k].1, "uuid"@)
                    == Some(uuid_text(answer_ids[i][j])) && text_prop(
                    questionnaire_plan(q, company_email, id, question_ids, answer_ids)[k].1,
                    "answer"@,
                ) == Some(q.questions[i].answers[j].answer) && text_prop(
                    questionnaire_plan(q, company_email, id, question_ids, answer_ids)[k].1,
                    "is_valid"@,
                ) == Some(if q.questions[i].answers[j].is_valid { "true"@ } else { "false"@ }),
        forall|i: int, j: int|
            #![trigger answer_ids[i][j]]
            0 <= i < q.questions.len() && 0 <= j < q.questions[i].answers.len() ==> answer_linked_at(
                questionnaire_plan(q, company_email, id, question_ids, answer_ids),
                question_block_start(q.questions, i) + 5 + 2 * j,
                question_ids[i],
                answer_ids[i][j],
            ),
{
    lemma_plan_names_distinct();
    let n = q.questions.len() as int;
    lemma_questions_plan_layout(q.questions, id, question_ids, answer_ids, n);
    let rest = questions_plan(q.questions, id, question_ids, answer_ids, n);
    let plan = questionnaire_plan(q, company_email, id, question_ids, answer_ids);
    let head = seq![
        (CREATE_QUESTIONNAIRE_CYPHER@, text_params2("uuid"@, uuid_text(id), "name"@, q.name)),
        (
            LINK_COMPANY_QUESTIONNAIRE_CYPHER@,
            text_params2("company_email"@, company_email, "questionnaire_id"@, uuid_text(id)),
        ),
    ];
    assert(plan == head + rest);
    lemma_text_params2_lookup("uuid"@, uuid_text(id), "name"@, q.name, "uuid"@);
    lemma_text_params2_lookup("uuid"@, uuid_text(id), "name"@, q.name, "name"@);
    lemma_text_params2_lookup("company_email"@, company_email, "questionnaire_id"@, uuid_text(id), "company_email"@);
    lemma_text_params2_lookup("company_email"@, company_email, "questionnaire_id"@, uuid_text(id), "questionnaire_id"@);
    assert forall|k: int|
        0 <= k < plan.len() && text_prop((#[trigger] plan[k]).1, "id_questionnaire"@) is Some implies text_prop(
            plan[k].1,
            "id_questionnaire"@,
        ) == Some(uuid_text(id)) by {
        if k == 0 {
            lemma_text_params2_lookup("uuid"@, uuid_text(id), "name"@, q.name, "id_questionnaire"@);
        } else if k == 1 {
            lemma_text_params2_lookup(
                "company_email"@,
                company_email,
                "questionnaire_id"@,
                uuid_text(id),
                "id_questionnaire"@,
            );
        } else {
            assert(plan[k] == rest[k - 2]);
        }
    }
    assert forall|i: int| #![trigger question_ids[i]] 0 <= i < q.questions.len() implies exists|k: int|
        #![trigger questionnaire_plan(q, company_email, id, question_ids, answer_ids)[k]]
        0 <= k < questionnaire_plan(q, company_email, id, question_ids, answer_ids).len() && questionnaire_plan(q, company_email, id, question_ids, answer_ids)[k].0 == CREATE_QUESTION_CYPHER@ && text_prop(questionnaire_plan(q, company_email, id, question_ids, answer_ids)[k].1, "uuid"@) == Some(
            uuid_text(question_ids[i]),
        ) && text_prop(questionnaire_plan(q, company_email, id, question_ids, answer_ids)[k].1, "question"@) == Some(q.questions[i].question) by {
        let c = question_block_start(q.questions, i) + 2;
        lemma_question_in_plan(q, company_email, id, question_ids, answer_ids, i);
        assert(0 <= c < questionnaire_plan(q, company_email, id, question_ids, answer_ids).len() && questionnaire_plan(q, company_email, id, question_ids, answer_ids)[c].0 == CREATE_QUESTION_CYPHER@ && text_prop(questionnaire_plan(q, company_email, id, question_ids, answer_ids)[c].1, "uuid"@) == Some(
            uuid_text(question_ids[i]),
        ) && text_prop(questionnaire_plan(q, company_email, id, question_ids, answer_ids)[c].1, "question"@) == Some(q.questions[i].question));
    }
    assert forall|i: int| #![trigger question_ids[i]] 0 <= i < q.questions.len() implies exists|k: int|
        #![trigger questionnaire_plan(q, company_email, id, question_ids, answer_ids)[k]]
        0 <= k < questionnaire_plan(q, company_email, id, question_ids, answer_ids).len() && questionnaire_plan(q, company_email, id, question_ids, answer_ids)[k].0 == LINK_QUESTION_CYPHER@ && text_prop(questionnaire_plan(q, company_email, id, question_ids, answer_ids)[k].1, "id_questionnaire"@)
            == Some(uuid_text(id)) && text_prop(questionnaire_plan(q, company_email, id, question_ids, answer_ids)[k].1, "id_question"@) == Some(uuid_text(question_ids[i])) by {
        let c = question_block_start(q.questions, i) + 2;
        lemma_question_in_plan(q, company_email, id, question_ids, answer_ids, i);
        assert(0 <= c + 1 < questionnaire_plan(q, company_email, id, question_ids, answer_ids).len() && questionnaire_plan(q, company_email, id, question_ids, answer_ids)[c + 1].0 == LINK_QUESTION_CYPHER@ && text_prop(
            questionnaire_plan(q, company_email, id, question_ids, answer_ids)[c + 1].1,
            "id_questionnaire"@,
        ) == Some(uuid_text(id)) && text_prop(questionnaire_plan(q, company_email, id, question_ids, answer_ids)[c + 1].1, "id_question"@) == Some(uuid_text(question_ids[i])));
    }
    lemma_plan_answers_linked(q, company_email, id, question_ids, answer_ids);
    assert forall|i: int, j: int|
        #![trigger answer_ids[i][j]]
        0 <= i < q.questions.len() && 0 <= j < q.questions[i].answers.len() implies exists|k: int|
        #![trigger questionnaire_plan(q, company_email, id, question_ids, answer_ids)[k]]
        0 <= k < questionnaire_plan(q, company_email, id, question_ids, answer_ids).len() && questionnaire_plan(q, company_email, id, question_ids, answer_ids)[k].0 == CREATE_ANSWER_CYPHER@ && text_prop(questionnaire_plan(q, company_email, id, question_ids, answer_ids)[k].1, "uuid"@) == Some(
            uuid_text(answer_ids[i][j]),
        ) && text_prop(questionnaire_plan(q, company_email, id, question_ids, answer_ids)[k].1, "answer"@) == Some(q.questions[i].answers[j].answer) && text_prop(
            questionnaire_plan(q, company_email, id, question_ids, answer_ids)[k].1,
            "is_valid"@,
        ) == Some(if q.questions[i].answers[j].is_valid { "true"@ } else { "false"@ }) by {
        let c = question_block_start(q.questions, i) + 4 + 2 * j;
        lemma_answer_in_plan(q, company_email, id, question_ids, answer_ids, i, j);
        assert(0 <= c < questionnaire_plan(q, company_email, id, question_ids, answer_ids).len() && questionnaire_plan(q, company_email, id, question_ids, answer_ids)[c].0 == CREATE_ANSWER_CYPHER@ && text_prop(questionnaire_plan(q, company_email, id, question_ids, answer_ids)[c].1, "uuid"@) == Some(
            uuid_text(answer_ids[i][j]),
        ) && text_prop(questionnaire_plan(q, company_email, id, question_ids, answer_ids)[c].1, "answer"@) == Some(q.questions[i].answers[j].answer) && text_prop(
            questionnaire_plan(q, company_email, id, question_ids, answer_ids)[c].1,
            "is_valid"@,
        ) == Some(if q.questions[i].answers[j].is_valid { "true"@ } else { "false"@ }));
    }
}

} // verus!

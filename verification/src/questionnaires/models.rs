//! A questionnaire: named questions, each with answers that are valid or not.

use vstd::prelude::*;
use crate::form::{insert_entry, lookup, FormFields};
use crate::text::{
    join2, decimal_text, decimal_value, i32_text, is_prefix_of, parse_i32, parses_in_range,
    split_on, split_on_char, starts_with, str_eq,
};

verus! {

pub struct QuestionnaireQuestionAnswer {
    pub uuid: String,
    pub answer: String,
    pub is_valid: bool,
}

pub struct QuestionnaireQuestion {
    pub uuid: String,
    pub question: String,
    pub answers: Vec<QuestionnaireQuestionAnswer>,
}

pub struct Questionnaire {
    pub uuid: String,
    pub name: String,
    pub questions: Vec<QuestionnaireQuestion>,
}

pub struct AnswerView {
    pub uuid: Seq<char>,
    pub answer: Seq<char>,
    pub is_valid: bool,
}

pub struct QuestionView {
    pub uuid: Seq<char>,
    pub question: Seq<char>,
    pub answers: Seq<AnswerView>,
}

pub struct QuestionnaireView {
    pub uuid: Seq<char>,
    pub name: Seq<char>,
    pub questions: Seq<QuestionView>,
}

impl View for QuestionnaireQuestionAnswer {
    type V = AnswerView;

    open spec fn view(&self) -> AnswerView {
        AnswerView { uuid: self.uuid@, answer: self.answer@, is_valid: self.is_valid }
    }
}

/// The views of a list of answers.
pub open spec fn answers_view(v: Seq<QuestionnaireQuestionAnswer>) -> Seq<AnswerView> {
    v.map_values(|a: QuestionnaireQuestionAnswer| a@)
}

impl View for QuestionnaireQuestion {
    type V = QuestionView;

    open spec fn view(&self) -> QuestionView {
        QuestionView {
            uuid: self.uuid@,
            question: self.question@,
            answers: answers_view(self.answers@),
        }
    }
}

/// The views of a list of questions.
pub open spec fn questions_view(v: Seq<QuestionnaireQuestion>) -> Seq<QuestionView> {
    v.map_values(|q: QuestionnaireQuestion| q@)
}

impl View for Questionnaire {
    type V = QuestionnaireView;

    open spec fn view(&self) -> QuestionnaireView {
        QuestionnaireView {
            uuid: self.uuid@,
            name: self.name@,
            questions: questions_view(self.questions@),
        }
    }
}

/// The form fields, as name and value.
pub type Fields = Seq<(Seq<char>, Seq<char>)>;

/// A field that holds a question: its name starts with `question`.
pub open spec fn is_question_key(key: Seq<char>) -> bool {
    is_prefix_of("question"@, key)
}

/// The dash-separated piece `k` of a field name, read as a number.
pub open spec fn key_number(key: Seq<char>, k: int) -> int {
    decimal_value(split_on(key, '-')[k]).unwrap()
}

/// The dash-separated piece `k` of a field name is an `i32`.
pub open spec fn key_number_ok(key: Seq<char>, k: int) -> bool {
    split_on(key, '-').len() > k && parses_in_range(
        split_on(key, '-')[k],
        i32::MIN as int,
        i32::MAX as int,
    )
}

/// The names of the answers of question `qid` start with `answer-<qid>`.
pub open spec fn answer_prefix(qid: int) -> Seq<char> {
    "answer-"@ + decimal_text(qid)
}

/// The name of the field that marks answer `aid` of question `qid` valid.
pub open spec fn validity_key(qid: int, aid: int) -> Seq<char> {
    "validity-"@ + decimal_text(qid) + "-"@ + decimal_text(aid)
}

/// An answer is valid when its validity box was ticked, which sends `on`.
pub open spec fn answer_is_valid(fields: Fields, qid: int, aid: int) -> bool {
    lookup(fields, validity_key(qid, aid)) == Some("on"@)
}

/// The answer that the field `entry` gives to question `qid`.
pub open spec fn answer_of(fields: Fields, qid: int, entry: (Seq<char>, Seq<char>)) -> AnswerView {
    AnswerView {
        uuid: Seq::empty(),
        answer: entry.1,
        is_valid: answer_is_valid(fields, qid, key_number(entry.0, 2)),
    }
}

/// The answers to question `qid` among the first `n` fields, in field order.
pub open spec fn answers_upto(fields: Fields, qid: int, n: int) -> Seq<AnswerView>
    decreases n,
{
    if n <= 0 {
        Seq::empty()
    } else {
        let earlier = answers_upto(fields, qid, n - 1);
        if is_prefix_of(answer_prefix(qid), fields[n - 1].0) {
            earlier.push(answer_of(fields, qid, fields[n - 1]))
        } else {
            earlier
        }
    }
}

/// The question that the field `entry` holds.
pub open spec fn question_of(fields: Fields, entry: (Seq<char>, Seq<char>)) -> QuestionView {
    let qid = key_number(entry.0, 1);
    QuestionView {
        uuid: Seq::empty(),
        question: entry.1,
        answers: answers_upto(fields, qid, fields.len() as int),
    }
}

/// The questions among the first `n` fields, in field order.
pub open spec fn questions_upto(fields: Fields, n: int) -> Seq<QuestionView>
    decreases n,
{
    if n <= 0 {
        Seq::empty()
    } else {
        let earlier = questions_upto(fields, n - 1);
        if is_question_key(fields[n - 1].0) {
            earlier.push(question_of(fields, fields[n - 1]))
        } else {
            earlier
        }
    }
}

/// The questionnaire that a creation form describes. Identifiers are left
/// empty: the database assigns them.
pub open spec fn questionnaire_from_form(fields: Fields) -> QuestionnaireView {
    QuestionnaireView {
        uuid: Seq::empty(),
        name: lookup(fields, "name"@).unwrap(),
        questions: questions_upto(fields, fields.len() as int),
    }
}

/// The answer fields of question `qid` carry an `i32` answer number.
pub open spec fn answers_well_formed(fields: Fields, qid: int) -> bool {
    forall|j: int|
        0 <= j < fields.len() && is_prefix_of(answer_prefix(qid), #[trigger] fields[j].0)
            ==> key_number_ok(fields[j].0, 2)
}

/// A creation form that `from_hash_map` can read: it has a name, every
/// question field carries an `i32` question number, and every answer field of
/// a question carries an `i32` answer number.
pub open spec fn questionnaire_form_ok(fields: Fields) -> bool {
    &&& lookup(fields, "name"@) is Some
    &&& forall|i: int|
        0 <= i < fields.len() && is_question_key(#[trigger] fields[i].0) ==> {
            &&& key_number_ok(fields[i].0, 1)
            &&& answers_well_formed(fields, key_number(fields[i].0, 1))
        }
}

/// Does the dash-separated piece `k` of `key` hold an `i32`?
fn key_number_check(key: &str, k: usize) -> (res: Option<i32>)
    ensures
        res is Some <==> key_number_ok(key@, k as int),
        res matches Some(v) ==> v as int == key_number(key@, k as int),
{
    let parts = split_on_char(key, '-');
    if parts.len() <= k {
        return None;
    }
    assert(parts@.map_values(|p: String| p@)[k as int] == parts@[k as int]@);
    parse_i32(parts[k].as_str())
}

/// Do all answer fields of question `question_id` carry an answer number?
fn answers_check(map: &FormFields, question_id: i32) -> (res: bool)
    ensures
        res == answers_well_formed(map@, question_id as int),
{
    let prefix = join2("answer-", i32_text(question_id).as_str());
    let n = map.len();
    let mut j: usize = 0;
    while j < n
        invariant
            n == map@.len(),
            j <= n,
            prefix@ == answer_prefix(question_id as int),
            forall|k: int|
                0 <= k < j && is_prefix_of(answer_prefix(question_id as int), #[trigger] map@[k].0)
                    ==> key_number_ok(map@[k].0, 2),
        decreases n - j,
    {
        let (key, _value) = map.entry(j);
        if starts_with(key.as_str(), prefix.as_str()) {
            if key_number_check(key.as_str(), 2).is_none() {
                assert(is_prefix_of(answer_prefix(question_id as int), map@[j as int].0));
                assert(!key_number_ok(map@[j as int].0, 2));
                return false;
            }
        }
        j = j + 1;
    }
    true
}

/// Can `from_hash_map` read this form?
pub fn questionnaire_form_check(map: &FormFields) -> (res: bool)
    ensures
        res == questionnaire_form_ok(map@),
{
    if map.get("name").is_none() {
        return false;
    }
    let n = map.len();
    let mut i: usize = 0;
    while i < n
        invariant
            n == map@.len(),
            i <= n,
            lookup(map@, "name"@) is Some,
            forall|k: int|
                0 <= k < i && is_question_key(#[trigger] map@[k].0) ==> {
                    &&& key_number_ok(map@[k].0, 1)
                    &&& answers_well_formed(map@, key_number(map@[k].0, 1))
                },
        decreases n - i,
    {
        let (key, _value) = map.entry(i);
        if starts_with(key.as_str(), "question") {
            match key_number_check(key.as_str(), 1) {
                Some(question_id) => {
                    if !answers_check(map, question_id) {
                        assert(is_question_key(map@[i as int].0));
                        assert(!answers_well_formed(map@, key_number(map@[i as int].0, 1)));
                        return false;
                    }
                },
                None => {
                    assert(is_question_key(map@[i as int].0));
                    assert(!key_number_ok(map@[i as int].0, 1));
                    return false;
                },
            }
        }
        i = i + 1;
    }
    true
}

/// Reads the answers to question `question_id` from the form.
fn collect_answers(map: &FormFields, question_id: i32) -> (answers: Vec<QuestionnaireQuestionAnswer>)
    requires
        answers_well_formed(map@, question_id as int),
    ensures
        answers_view(answers@) == answers_upto(map@, question_id as int, map@.len() as int),
{
    let question_text = i32_text(question_id);
    let prefix = join2("answer-", question_text.as_str());
    let mut answers: Vec<QuestionnaireQuestionAnswer> = Vec::new();
    let n = map.len();
    let mut j: usize = 0;
    while j < n
        invariant
            n == map@.len(),
            j <= n,
            prefix@ == answer_prefix(question_id as int),
            question_text@ == decimal_text(question_id as int),
            answers_well_formed(map@, question_id as int),
            answers_view(answers@) == answers_upto(map@, question_id as int, j as int),
        decreases n - j,
    {
        let (key, value) = map.entry(j);
        if starts_with(key.as_str(), prefix.as_str()) {
            assert(key_number_ok(map@[j as int].0, 2));
            let parts = split_on_char(key.as_str(), '-');
            assert(parts@.map_values(|p: String| p@)[2] == parts@[2]@);
            let answer_id = parse_i32(parts[2].as_str()).unwrap();
            let validity_name = join2(
                join2(join2("validity-", question_text.as_str()).as_str(), "-").as_str(),
                i32_text(answer_id).as_str(),
            );
            assert(validity_name@ =~= validity_key(question_id as int, answer_id as int));
            let is_valid = match map.get(validity_name.as_str()) {
                Some(v) => str_eq(v.as_str(), "on"),
                None => false,
            };
            let answer = QuestionnaireQuestionAnswer {
                uuid: String::new(),
                answer: value.clone(),
                is_valid,
            };
            let ghost before = answers@;
            answers.push(answer);
            assert(answers_view(answers@) =~= answers_view(before).push(answer@));
        }
        j = j + 1;
    }
    answers
}

impl Questionnaire {
    /// Builds a questionnaire from its creation form: the `name` field, one
    /// question per `question-<q>` field, and for it one answer per field whose
    /// name starts with `answer-<q>` (field `answer-<q>-<a>`), valid when the
    /// field `validity-<q>-<a>` is `on`. Questions and answers keep the order of
    /// the fields.
    pub fn from_hash_map(map: FormFields) -> (q: Questionnaire)
        requires
            questionnaire_form_ok(map@),
        ensures
            q@ == questionnaire_from_form(map@),
    {
        let name = map.get("name").unwrap().clone();
        let mut questions: Vec<QuestionnaireQuestion> = Vec::new();
        let n = map.len();
        let mut i: usize = 0;
        while i < n
            invariant
                n == map@.len(),
                i <= n,
                questionnaire_form_ok(map@),
                questions_view(questions@) == questions_upto(map@, i as int),
            decreases n - i,
        {
            let (key, value) = map.entry(i);
            if starts_with(key.as_str(), "question") {
                assert(is_question_key(map@[i as int].0));
                let parts = split_on_char(key.as_str(), '-');
                assert(parts@.map_values(|p: String| p@)[1] == parts@[1]@);
                let question_id = parse_i32(parts[1].as_str()).unwrap();
                let answers = collect_answers(&map, question_id);
                let question = QuestionnaireQuestion {
                    uuid: String::new(),
                    question: value.clone(),
                    answers,
                };
                let ghost before = questions@;
                questions.push(question);
                assert(questions_view(questions@) =~= questions_view(before).push(question@));
            }
            i = i + 1;
        }
        Questionnaire { uuid: String::new(), name, questions }
    }
}

/// A field name that the questionnaire form does not read: not `name`, and
/// starting neither with `question`, nor `answer-`, nor `validity-`.
pub open spec fn unrelated_key(k: Seq<char>) -> bool {
    &&& k != "name"@
    &&& !is_prefix_of("question"@, k)
    &&& !is_prefix_of("answer-"@, k)
    &&& !is_prefix_of("validity-"@, k)
}

/// A prefix of a prefix of `k` is a prefix of `k`.
proof fn lemma_prefix_of_prefix(a: Seq<char>, b: Seq<char>, k: Seq<char>)
    requires
        is_prefix_of(a + b, k),
    ensures
        is_prefix_of(a, k),
{
    assert(k.subrange(0, a.len() as int) =~= k.subrange(0, (a + b).len() as int).subrange(0, a.len() as int));
    assert((a + b).subrange(0, a.len() as int) =~= a);
}

/// A field added under an unrelated name changes no lookup of a name that
/// the form reads, and adds no answer.
proof fn lemma_answers_upto_unrelated(fields: Fields, k: Seq<char>, v: Seq<char>, qid: int, m: int)
    requires
        unrelated_key(k),
        0 <= m <= fields.len(),
    ensures
        answers_upto(fields.push((k, v)), qid, m) == answers_upto(fields, qid, m),
    decreases m,
{
    let f2 = fields.push((k, v));
    if m > 0 {
        lemma_answers_upto_unrelated(fields, k, v, qid, m - 1);
        let e = fields[m - 1];
        assert(f2[m - 1] == e);
        if is_prefix_of(answer_prefix(qid), e.0) {
            let aid = key_number(e.0, 2);
            let vk = validity_key(qid, aid);
            if k == vk {
                let rest = decimal_text(qid) + "-"@ + decimal_text(aid);
                assert("validity-"@ + rest =~= vk);
                assert(k.subrange(0, k.len() as int) =~= k);
                lemma_prefix_of_prefix("validity-"@, rest, k);
                assert(false);
            }
            assert(f2.drop_last() =~= fields);
            assert(lookup(f2, vk) == lookup(fields, vk));
            assert(answer_of(f2, qid, e) == answer_of(fields, qid, e));
        }
    }
}

/// The questions of the first `m` fields are the same once an unrelated
/// field is added at the end.
proof fn lemma_questions_upto_unrelated(fields: Fields, k: Seq<char>, v: Seq<char>, m: int)
    requires
        unrelated_key(k),
        0 <= m <= fields.len(),
    ensures
        questions_upto(fields.push((k, v)), m) == questions_upto(fields, m),
    decreases m,
{
    let f2 = fields.push((k, v));
    if m > 0 {
        lemma_questions_upto_unrelated(fields, k, v, m - 1);
        let e = fields[m - 1];
        assert(f2[m - 1] == e);
        if is_question_key(e.0) {
            let qid = key_number(e.0, 1);
            let n = fields.len() as int;
            if is_prefix_of(answer_prefix(qid), k) {
                lemma_prefix_of_prefix("answer-"@, decimal_text(qid), k);
            }
            assert(f2[n] == (k, v));
            assert(answers_upto(f2, qid, n + 1) == answers_upto(f2, qid, n));
            lemma_answers_upto_unrelated(fields, k, v, qid, n);
            assert(question_of(f2, e) == question_of(fields, e));
        }
    }
}

/// Unrelated fields are ignored: adding to a readable questionnaire form a
/// field whose name is new and unrelated (not `name`, not starting with
/// `question`, `answer-` or `validity-`) keeps the form readable and leaves
/// the questionnaire it describes unchanged.
pub proof fn lemma_unrelated_field_ignored(fields: Fields, k: Seq<char>, v: Seq<char>)
    requires
        questionnaire_form_ok(fields),
        unrelated_key(k),
        forall|i: int| 0 <= i < fields.len() ==> fields[i].0 != k,
    ensures
        insert_entry(fields, k, v) == fields.push((k, v)),
        questionnaire_form_ok(insert_entry(fields, k, v)),
        questionnaire_from_form(insert_entry(fields, k, v)) == questionnaire_from_form(fields),
{
    let f2 = fields.push((k, v));
    let n = fields.len() as int;
    assert(f2.drop_last() =~= fields);
    assert(f2[n] == (k, v));
    assert(lookup(f2, "name"@) == lookup(fields, "name"@));
    assert forall|i: int|
        0 <= i < f2.len() && is_question_key(#[trigger] f2[i].0) implies {
            &&& key_number_ok(f2[i].0, 1)
            &&& answers_well_formed(f2, key_number(f2[i].0, 1))
        } by {
        assert(i < n);
        assert(f2[i] == fields[i]);
        let qid = key_number(fields[i].0, 1);
        assert(answers_well_formed(fields, qid));
        assert forall|j: int|
            0 <= j < f2.len() && is_prefix_of(answer_prefix(qid), #[trigger] f2[j].0) implies key_number_ok(
            f2[j].0,
            2,
        ) by {
            if j == n {
                lemma_prefix_of_prefix("answer-"@, decimal_text(qid), k);
            } else {
                assert(f2[j] == fields[j]);
            }
        }
    }
    assert(questions_upto(f2, n + 1) == questions_upto(f2, n));
    lemma_questions_upto_unrelated(fields, k, v, n);
}

/// An answer field `answer-<q>-<a>` of question `q` gives an answer with
/// the field's text, which is valid exactly when the form's field
/// `validity-<q>-<a>` is `on` (a ticked box).
pub proof fn lemma_answer_validity_from_box(fields: Fields, qid: int, entry: (Seq<char>, Seq<char>))
    ensures
        answer_of(fields, qid, entry).answer == entry.1,
        answer_of(fields, qid, entry).is_valid <==> lookup(
            fields,
            "validity-"@ + decimal_text(qid) + "-"@ + decimal_text(key_number(entry.0, 2)),
        ) == Some("on"@),
{
}

} // verus!

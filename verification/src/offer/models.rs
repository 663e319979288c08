//! An offer, built from the creation form or read back from its node.

use vstd::prelude::*;
use async_session::chrono::NaiveDate;
use crate::form::{lookup, FormFields};
use crate::graph::{date_prop, integer_prop, text_list_prop, text_prop, texts_view, Props, PropValueView};
use crate::ids::{parse_uuid, uuid_value};
use crate::text::{decimal_value, parse_i64, parses_in_range, str_eq};
use crate::users::models::form_text;

verus! {

pub struct Offer {
    pub title: String,
    pub uuid: u128,
    pub description: String,
    pub created_at: NaiveDate,
    pub skills: Vec<String>,
    pub location: String,
    pub salary: i64,
    pub job_duration: String,
    pub job_start: String,
    pub questionnaire_id: Option<u128>,
}

pub struct OfferView {
    pub title: Seq<char>,
    pub uuid: u128,
    pub description: Seq<char>,
    pub created_at: NaiveDate,
    pub skills: Seq<Seq<char>>,
    pub location: Seq<char>,
    pub salary: int,
    pub job_duration: Seq<char>,
    pub job_start: Seq<char>,
    pub questionnaire_id: Option<u128>,
}

impl View for Offer {
    type V = OfferView;

    open spec fn view(&self) -> OfferView {
        OfferView {
            title: self.title@,
            uuid: self.uuid,
            description: self.description@,
            created_at: self.created_at,
            skills: texts_view(self.skills@),
            location: self.location@,
            salary: self.salary as int,
            job_duration: self.job_duration@,
            job_start: self.job_start@,
            questionnaire_id: self.questionnaire_id,
        }
    }
}

/// How an optional questionnaire is written: `0` for none, else a UUID.
/// Anything else is not a questionnaire reference.
pub open spec fn questionnaire_ref_ok(text: Seq<char>) -> bool {
    text == "0"@ || uuid_value(text) is Some
}

/// The questionnaire that a reference names.
pub open spec fn questionnaire_ref(text: Seq<char>) -> Option<u128> {
    if text == "0"@ {
        None
    } else {
        uuid_value(text)
    }
}

/// Reads an optional questionnaire reference.
pub fn parse_questionnaire_ref(text: &str) -> (res: Option<u128>)
    requires
        questionnaire_ref_ok(text@),
    ensures
        res == questionnaire_ref(text@),
{
    if str_eq(text, "0") {
        None
    } else {
        Some(parse_uuid(text).unwrap())
    }
}

/// Is `text` a questionnaire reference?
pub fn questionnaire_ref_check(text: &str) -> (res: bool)
    ensures
        res == questionnaire_ref_ok(text@),
{
    str_eq(text, "0") || parse_uuid(text).is_some()
}

/// An offer creation form: `title`, `description`, `location`,
/// `job_duration`, `job_start`, a `salary` that is an `i64`, and a
/// `questionnaire` reference.
pub open spec fn offer_form_ok(fields: Seq<(Seq<char>, Seq<char>)>) -> bool {
    &&& lookup(fields, "title"@) is Some
    &&& lookup(fields, "description"@) is Some
    &&& lookup(fields, "location"@) is Some
    &&& lookup(fields, "salary"@) is Some
    &&& parses_in_range(form_text(fields, "salary"@), i64::MIN as int, i64::MAX as int)
    &&& lookup(fields, "job_duration"@) is Some
    &&& lookup(fields, "job_start"@) is Some
    &&& lookup(fields, "questionnaire"@) is Some
    &&& questionnaire_ref_ok(form_text(fields, "questionnaire"@))
}

/// The offer that a creation form describes.
pub open spec fn offer_from_form(
    fields: Seq<(Seq<char>, Seq<char>)>,
    skills: Seq<Seq<char>>,
    id: u128,
    created_at: NaiveDate,
) -> OfferView {
    OfferView {
        title: form_text(fields, "title"@),
        uuid: id,
        description: form_text(fields, "description"@),
        created_at,
        skills,
        location: form_text(fields, "location"@),
        salary: decimal_value(form_text(fields, "salary"@)).unwrap(),
        job_duration: form_text(fields, "job_duration"@),
        job_start: form_text(fields, "job_start"@),
        questionnaire_id: questionnaire_ref(form_text(fields, "questionnaire"@)),
    }
}

/// The offer of a creation form takes each field from the form field of the
/// same name: `title`, `description`, `location`, `job_duration` and
/// `job_start` as they are, `salary` read as a number, and the
/// `questionnaire` reference (`0` for none) read as a UUID; the identifier,
/// date and skills are those given.
pub proof fn lemma_offer_from_form_fields(
    fields: Seq<(Seq<char>, Seq<char>)>,
    skills: Seq<Seq<char>>,
    id: u128,
    created_at: NaiveDate,
)
    requires
        offer_form_ok(fields),
    ensures
        lookup(fields, "title"@) == Some(offer_from_form(fields, skills, id, created_at).title),
        lookup(fields, "description"@) == Some(offer_from_form(fields, skills, id, created_at).description),
        lookup(fields, "location"@) == Some(offer_from_form(fields, skills, id, created_at).location),
        lookup(fields, "job_duration"@) == Some(offer_from_form(fields, skills, id, created_at).job_duration),
        lookup(fields, "job_start"@) == Some(offer_from_form(fields, skills, id, created_at).job_start),
        decimal_value(lookup(fields, "salary"@).unwrap()) == Some(
            offer_from_form(fields, skills, id, created_at).salary,
        ),
        lookup(fields, "questionnaire"@) == Some("0"@) ==> offer_from_form(
            fields,
            skills,
            id,
            created_at,
        ).questionnaire_id is None,
        lookup(fields, "questionnaire"@) != Some("0"@) ==> offer_from_form(
            fields,
            skills,
            id,
            created_at,
        ).questionnaire_id == uuid_value(lookup(fields, "questionnaire"@).unwrap()),
        offer_from_form(fields, skills, id, created_at).uuid == id,
        offer_from_form(fields, skills, id, created_at).created_at == created_at,
        offer_from_form(fields, skills, id, created_at).skills == skills,
{
}

/// Does the form have every field of an offer, in the right shape?
pub fn offer_form_check(map: &FormFields) -> (res: bool)
    ensures
        res == offer_form_ok(map@),
{
    if map.get("title").is_none() || map.get("description").is_none() || map.get("location").is_none()
        || map.get("job_duration").is_none() || map.get("job_start").is_none() {
        return false;
    }
    let salary_ok = match map.get("salary") {
        Some(s) => parse_i64(s.as_str()).is_some(),
        None => false,
    };
    let questionnaire_ok = match map.get("questionnaire") {
        Some(q) => questionnaire_ref_check(q.as_str()),
        None => false,
    };
    salary_ok && questionnaire_ok
}

/// Node properties that hold an offer.
pub open spec fn offer_node_ok(props: Seq<(Seq<char>, PropValueView)>) -> bool {
    &&& text_prop(props, "title"@) is Some
    &&& text_prop(props, "uuid"@) is Some
    &&& uuid_value(text_prop(props, "uuid"@).unwrap()) is Some
    &&& text_prop(props, "description"@) is Some
    &&& date_prop(props, "created_at"@) is Some
    &&& text_list_prop(props, "skills"@) is Some
    &&& text_prop(props, "location"@) is Some
    &&& integer_prop(props, "salary"@) is Some
    &&& text_prop(props, "job_duration"@) is Some
    &&& text_prop(props, "job_start"@) is Some
    &&& text_prop(props, "questionnaire_id"@) is Some
    &&& questionnaire_ref_ok(text_prop(props, "questionnaire_id"@).unwrap())
}

/// The offer that node properties hold.
pub open spec fn offer_from_props(props: Seq<(Seq<char>, PropValueView)>) -> OfferView {
    OfferView {
        title: text_prop(props, "title"@).unwrap(),
        uuid: uuid_value(text_prop(props, "uuid"@).unwrap()).unwrap(),
        description: text_prop(props, "description"@).unwrap(),
        created_at: date_prop(props, "created_at"@).unwrap(),
        skills: text_list_prop(props, "skills"@).unwrap(),
        location: text_prop(props, "location"@).unwrap(),
        salary: integer_prop(props, "salary"@).unwrap(),
        job_duration: text_prop(props, "job_duration"@).unwrap(),
        job_start: text_prop(props, "job_start"@).unwrap(),
        questionnaire_id: questionnaire_ref(text_prop(props, "questionnaire_id"@).unwrap()),
    }
}

/// Does the node hold an offer?
pub fn offer_node_check(node: &Props) -> (res: bool)
    ensures
        res == offer_node_ok(node@),
{
    let uuid_ok = match node.get_text("uuid") {
        Some(u) => parse_uuid(u.as_str()).is_some(),
        None => false,
    };
    let questionnaire_ok = match node.get_text("questionnaire_id") {
        Some(q) => questionnaire_ref_check(q.as_str()),
        None => false,
    };
    node.get_text("title").is_some() && uuid_ok && node.get_text("description").is_some()
        && node.get_date("created_at").is_some() && node.get_text_list("skills").is_some()
        && node.get_text("location").is_some() && node.get_integer("salary").is_some()
        && node.get_text("job_duration").is_some() && node.get_text("job_start").is_some()
        && questionnaire_ok
}

/// Today's date in UTC, as `Utc::now().date_naive()` gives it. Nothing is
/// promised of it: the clock decides.
#[verifier::external_body]
pub(crate) fn today() -> (d: NaiveDate) {
    async_session::chrono::Utc::now().date_naive()
}

impl Offer {
    /// The offer of a creation form, created on `created_at`.
    pub fn from_form_on(map: &FormFields, skills: Vec<String>, id: u128, created_at: NaiveDate) -> (o: Offer)
        requires
            offer_form_ok(map@),
        ensures
            o@ == offer_from_form(map@, texts_view(skills@), id, created_at),
            Some(o.title@) == lookup(map@, "title"@),
            Some(o.description@) == lookup(map@, "description"@),
            Some(o.location@) == lookup(map@, "location"@),
            Some(o.job_duration@) == lookup(map@, "job_duration"@),
            Some(o.job_start@) == lookup(map@, "job_start"@),
            decimal_value(lookup(map@, "salary"@).unwrap()) == Some(o.salary as int),
    {
        let salary = parse_i64(map.field("salary").as_str()).unwrap();
        let questionnaire_id = parse_questionnaire_ref(map.field("questionnaire").as_str());
        Offer {
            title: map.field("title"),
            uuid: id,
            description: map.field("description"),
            created_at,
            skills,
            location: map.field("location"),
            salary,
            job_duration: map.field("job_duration"),
            job_start: map.field("job_start"),
            questionnaire_id,
        }
    }

    /// Builds an offer from its creation form, dated today.
    pub fn from_hash_map(map: FormFields, skills: Vec<String>, id: u128) -> (o: Offer)
        requires
            offer_form_ok(map@),
        ensures
            o@ == offer_from_form(map@, texts_view(skills@), id, o.created_at),
    {
        let created_at = today();
        Offer::from_form_on(&map, skills, id, created_at)
    }

    /// Reads an offer from the properties of its node.
    pub fn from_node(node: Props) -> (o: Offer)
        requires
            offer_node_ok(node@),
        ensures
            o@ == offer_from_props(node@),
    {
        let uuid = parse_uuid(node.get_text("uuid").unwrap().as_str()).unwrap();
        let questionnaire_id = parse_questionnaire_ref(
            node.get_text("questionnaire_id").unwrap().as_str(),
        );
        Offer {
            title: node.get_text("title").unwrap(),
            uuid,
            description: node.get_text("description").unwrap(),
            created_at: node.get_date("created_at").unwrap(),
            skills: node.get_text_list("skills").unwrap(),
            location: node.get_text("location").unwrap(),
            salary: node.get_integer("salary").unwrap(),
            job_duration: node.get_text("job_duration").unwrap(),
            job_start: node.get_text("job_start").unwrap(),
            questionnaire_id,
        }
    }
}

} // verus!

//! The logged-in user, and candidacies: a candidate's application to an
//! offer, stored on the relationship between them.

use vstd::prelude::*;
use crate::form::{lookup, FormFields};
use crate::graph::{text_prop, Props, PropValueView};
use crate::ids::{parse_uuid, uuid_value};
use crate::users::models::form_text;

verus! {

/// The user of a session: a role (`candidate` or `company`) and an email.
pub struct AuthUser {
    pub user_role: String,
    pub email: String,
}

pub struct AuthUserView {
    pub user_role: Seq<char>,
    pub email: Seq<char>,
}

impl View for AuthUser {
    type V = AuthUserView;

    open spec fn view(&self) -> AuthUserView {
        AuthUserView { user_role: self.user_role@, email: self.email@ }
    }
}

pub struct Candidacy {
    pub uuid: u128,
    pub status: String,
    pub cover_letter_url: String,
    pub resume_url: String,
    pub custom_field: String,
}

pub struct CandidacyView {
    pub uuid: u128,
    pub status: Seq<char>,
    pub cover_letter_url: Seq<char>,
    pub resume_url: Seq<char>,
    pub custom_field: Seq<char>,
}

impl View for Candidacy {
    type V = CandidacyView;

    open spec fn view(&self) -> CandidacyView {
        CandidacyView {
            uuid: self.uuid,
            status: self.status@,
            cover_letter_url: self.cover_letter_url@,
            resume_url: self.resume_url@,
            custom_field: self.custom_field@,
        }
    }
}

/// A candidacy form: `status`, `cover_letter_url`, `resume_url` and
/// `custom_field`.
pub open spec fn candidacy_form_ok(fields: Seq<(Seq<char>, Seq<char>)>) -> bool {
    &&& lookup(fields, "status"@) is Some
    &&& lookup(fields, "cover_letter_url"@) is Some
    &&& lookup(fields, "resume_url"@) is Some
    &&& lookup(fields, "custom_field"@) is Some
}

/// The candidacy that a form describes.
pub open spec fn candidacy_from_form(fields: Seq<(Seq<char>, Seq<char>)>, id: u128) -> CandidacyView {
    CandidacyView {
        uuid: id,
        status: form_text(fields, "status"@),
        cover_letter_url: form_text(fields, "cover_letter_url"@),
        resume_url: form_text(fields, "resume_url"@),
        custom_field: form_text(fields, "custom_field"@),
    }
}

/// The candidacy of a form takes each field from the form field of the same
/// name, under the identifier given.
pub proof fn lemma_candidacy_from_form_fields(fields: Seq<(Seq<char>, Seq<char>)>, id: u128)
    requires
        candidacy_form_ok(fields),
    ensures
        candidacy_from_form(fields, id).uuid == id,
        lookup(fields, "status"@) == Some(candidacy_from_form(fields, id).status),
        lookup(fields, "cover_letter_url"@) == Some(candidacy_from_form(fields, id).cover_letter_url),
        lookup(fields, "resume_url"@) == Some(candidacy_from_form(fields, id).resume_url),
        lookup(fields, "custom_field"@) == Some(candidacy_from_form(fields, id).custom_field),
{
}

/// Relationship properties that hold a candidacy.
pub open spec fn candidacy_relation_ok(props: Seq<(Seq<char>, PropValueView)>) -> bool {
    &&& text_prop(props, "uuid"@) is Some
    &&& uuid_value(text_prop(props, "uuid"@).unwrap()) is Some
    &&& text_prop(props, "status"@) is Some
    &&& text_prop(props, "cover_letter_url"@) is Some
    &&& text_prop(props, "resume_url"@) is Some
    &&& text_prop(props, "custom_field"@) is Some
}

/// The candidacy that relationship properties hold.
pub open spec fn candidacy_from_props(props: Seq<(Seq<char>, PropValueView)>) -> CandidacyView {
    CandidacyView {
        uuid: uuid_value(text_prop(props, "uuid"@).unwrap()).unwrap(),
        status: text_prop(props, "status"@).unwrap(),
        cover_letter_url: text_prop(props, "cover_letter_url"@).unwrap(),
        resume_url: text_prop(props, "resume_url"@).unwrap(),
        custom_field: text_prop(props, "custom_field"@).unwrap(),
    }
}

/// Does the form have every field of a candidacy?
pub fn candidacy_form_check(map: &FormFields) -> (res: bool)
    ensures
        res == candidacy_form_ok(map@),
{
    map.get("status").is_some() && map.get("cover_letter_url").is_some() && map.get("resume_url").is_some()
        && map.get("custom_field").is_some()
}

/// Does the relationship hold a candidacy?
pub fn candidacy_relation_check(relation: &Props) -> (res: bool)
    ensures
        res == candidacy_relation_ok(relation@),
{
    let uuid_ok = match relation.get_text("uuid") {
        Some(u) => parse_uuid(u.as_str()).is_some(),
        None => false,
    };
    uuid_ok && relation.get_text("status").is_some() && relation.get_text("cover_letter_url").is_some()
        && relation.get_text("resume_url").is_some() && relation.get_text("custom_field").is_some()
}

impl Candidacy {
    /// Builds a candidacy with identifier `id` from its form.
    pub fn from_hash_map(map: FormFields, id: u128) -> (c: Candidacy)
        requires
            candidacy_form_ok(map@),
        ensures
            c@ == candidacy_from_form(map@, id),
    {
        Candidacy {
            uuid: id,
            status: map.field("status"),
            cover_letter_url: map.field("cover_letter_url"),
            resume_url: map.field("resume_url"),
            custom_field: map.field("custom_field"),
        }
    }

    /// Reads a candidacy from the properties of its relationship.
    pub fn from_relation(relation: Props) -> (c: Candidacy)
        requires
            candidacy_relation_ok(relation@),
        ensures
            c@ == candidacy_from_props(relation@),
    {
        let uuid = parse_uuid(relation.get_text("uuid").unwrap().as_str()).unwrap();
        Candidacy {
            uuid,
            status: relation.get_text("status").unwrap(),
            cover_letter_url: relation.get_text("cover_letter_url").unwrap(),
            resume_url: relation.get_text("resume_url").unwrap(),
            custom_field: relation.get_text("custom_field").unwrap(),
        }
    }
}

} // verus!

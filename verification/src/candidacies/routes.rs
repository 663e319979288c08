//! The decisions and pages of the candidacy module.

use vstd::prelude::*;
use super::models::{candidacy_form_ok, candidacy_from_form, AuthUser, Candidacy, CandidacyView};
use crate::form::{insert_entry, lemma_lookup_insert, lookup, FieldAction, FormFields};
use crate::ids::{is_v4, new_uuid};
use crate::offer::models::Offer;
use crate::text::str_eq;
use crate::users::models::{form_text, Candidate};
use crate::users::routes::is_error;
use crate::HttpError;

verus! {

pub struct CreateCandidacyTemplate {
    pub auth_user: Option<AuthUser>,
    pub uuid_offer: String,
}

pub struct CreateCandidacySuccessTemplate {
    pub auth_user: Option<AuthUser>,
}

pub struct CandidacyTemplate {
    pub auth_user: Option<AuthUser>,
    pub candidacies: Option<Vec<(Candidacy, Offer)>>,
}

pub struct CandidacyCandidateTemplate {
    pub auth_user: Option<AuthUser>,
    pub candidacies: Option<Vec<(Candidacy, Offer)>>,
}

pub struct ViewCandidacyTemplate {
    pub auth_user: Option<AuthUser>,
    pub candidacy: Option<(Candidacy, Candidate)>,
}

pub struct ViewCandidacyByOfferTemplate {
    pub auth_user: Option<AuthUser>,
    pub candidacies: Option<Vec<(Candidacy, Candidate)>>,
}

pub struct AcceptCandidacyTemplate {
    pub auth_user: Option<AuthUser>,
}

pub struct RefuseCandidacyTemplate {
    pub auth_user: Option<AuthUser>,
}

/// The candidacy creation page for the offer `str_uuid`, for candidates only.
pub fn get_create_candidacy(str_uuid: String, user: AuthUser) -> (res: Result<
    CreateCandidacyTemplate,
    HttpError,
>)
    ensures
        user.user_role@ == "candidate"@ ==> (res matches Ok(t) && t.auth_user == Some(user)
            && t.uuid_offer == str_uuid),
        user.user_role@ != "candidate"@ ==> (res matches Err(e) && is_error(
            e,
            400,
            "Invalid role : you must be a candidate to create an candidacy"@,
        )),
{
    if !str_eq(user.user_role.as_str(), "candidate") {
        return Err((400, "Invalid role : you must be a candidate to create an candidacy".to_owned()));
    }
    Ok(CreateCandidacyTemplate { auth_user: Some(user), uuid_offer: str_uuid })
}

/// Only a candidate may submit a candidacy; anyone else gets 400.
pub fn require_candidate(user: &AuthUser) -> (res: Result<(), HttpError>)
    ensures
        user.user_role@ == "candidate"@ ==> res is Ok,
        user.user_role@ != "candidate"@ ==> (res matches Err(e) && is_error(
            e,
            400,
            "Invalid role : you must be a candidate to create a candidacy"@,
        )),
{
    if str_eq(user.user_role.as_str(), "candidate") {
        Ok(())
    } else {
        Err((400, "Invalid role : you must be a candidate to create a candidacy".to_owned()))
    }
}

/// What the candidacy form does with a field: the cover letter goes to the
/// `cover-letter` bucket, the resume to `resume`, each under its own name.
pub fn candidacy_field_action(name: &str) -> (a: FieldAction)
    ensures
        match a {
            FieldAction::Upload { bucket, stored_as } => (name@ == "cover_letter_url"@ && bucket@
                == "cover-letter"@ && stored_as@ == "cover_letter_url"@) || (name@ == "resume_url"@
                && bucket@ == "resume"@ && stored_as@ == "resume_url"@),
            FieldAction::Text => name@ != "cover_letter_url"@ && name@ != "resume_url"@,
        },
{
    if str_eq(name, "cover_letter_url") {
        FieldAction::Upload { bucket: "cover-letter".to_owned(), stored_as: "cover_letter_url".to_owned() }
    } else if str_eq(name, "resume_url") {
        FieldAction::Upload { bucket: "resume".to_owned(), stored_as: "resume_url".to_owned() }
    } else {
        FieldAction::Text
    }
}

/// A submitted candidacy form: the cover letter and resume addresses and the
/// custom field.
pub open spec fn submitted_candidacy_form_ok(fields: Seq<(Seq<char>, Seq<char>)>) -> bool {
    &&& lookup(fields, "cover_letter_url"@) is Some
    &&& lookup(fields, "resume_url"@) is Some
    &&& lookup(fields, "custom_field"@) is Some
}

/// Can `submit_candidacy` read this form?
pub fn submitted_candidacy_form_check(form: &FormFields) -> (res: bool)
    ensures
        res == submitted_candidacy_form_ok(form@),
{
    form.get("cover_letter_url").is_some() && form.get("resume_url").is_some() && form.get(
        "custom_field",
    ).is_some()
}

/// The candidacy that a submitted form creates: every new candidacy is
/// `pending`, under a fresh random version 4 identifier whose random bits the
/// random number generator decides.
pub fn submit_candidacy(form: FormFields) -> (c: Candidacy)
    requires
        submitted_candidacy_form_ok(form@),
    ensures
        c@ == candidacy_from_form(insert_entry(form@, "status"@, "pending"@), c.uuid),
        c.status@ == "pending"@,
        c.cover_letter_url@ == form_text(form@, "cover_letter_url"@),
        c.resume_url@ == form_text(form@, "resume_url"@),
        c.custom_field@ == form_text(form@, "custom_field"@),
        is_v4(c.uuid),
{
    let mut form = form;
    let ghost before = form@;
    form.insert("status".to_owned(), "pending".to_owned());
    proof {
        reveal_strlit("status");
        reveal_strlit("cover_letter_url");
        reveal_strlit("resume_url");
        reveal_strlit("custom_field");
        assert("status"@.len() == 6 && "cover_letter_url"@.len() == 16);
        assert("resume_url"@.len() == 10 && "custom_field"@.len() == 12);
        lemma_lookup_insert(before, "status"@, "pending"@, "cover_letter_url"@);
        lemma_lookup_insert(before, "status"@, "pending"@, "resume_url"@);
        lemma_lookup_insert(before, "status"@, "pending"@, "custom_field"@);
    }
    let id = new_uuid();
    Candidacy::from_hash_map(form, id)
}

/// The page shown after a candidacy was submitted.
pub fn post_create_candidacy_success(user: AuthUser) -> (t: CreateCandidacySuccessTemplate)
    ensures
        t.auth_user == Some(user),
{
    CreateCandidacySuccessTemplate { auth_user: Some(user) }
}

/// Whose candidacies the candidacies page looks up: for a company, those
/// found by its email; for anyone else, none.
pub fn candidacies_lookup(user: &AuthUser) -> (res: Option<String>)
    ensures
        user.user_role@ == "company"@ ==> (res matches Some(e) && e@ == user.email@),
        user.user_role@ != "company"@ ==> res is None,
{
    if str_eq(user.user_role.as_str(), "company") {
        Some(user.email.clone())
    } else {
        None
    }
}

/// The candidacies page: `found` is what the lookup chosen by
/// `candidacies_lookup` found; without a lookup the list is empty.
pub fn get_candidacy(user: AuthUser, found: Option<Vec<(Candidacy, Offer)>>) -> (t: CandidacyTemplate)
    ensures
        t.auth_user == Some(user),
        user.user_role@ == "company"@ ==> t.candidacies == found,
        user.user_role@ != "company"@ ==> (t.candidacies matches Some(v) && v@.len() == 0),
{
    let candidacies = if str_eq(user.user_role.as_str(), "company") {
        found
    } else {
        Some(Vec::new())
    };
    CandidacyTemplate { auth_user: Some(user), candidacies }
}

/// A candidate's candidacies page.
pub fn get_candidacy_candidate(user: AuthUser, found: Option<Vec<(Candidacy, Offer)>>) -> (t:
    CandidacyCandidateTemplate)
    ensures
        t.auth_user == Some(user),
        t.candidacies == found,
{
    CandidacyCandidateTemplate { auth_user: Some(user), candidacies: found }
}

/// The page of one candidacy: `found` is what the lookup found, or nothing
/// when the identifier in the address did not parse.
pub fn get_view_candidacy(user: AuthUser, found: Option<(Candidacy, Candidate)>) -> (t: ViewCandidacyTemplate)
    ensures
        t.auth_user == Some(user),
        t.candidacy == found,
{
    ViewCandidacyTemplate { auth_user: Some(user), candidacy: found }
}

/// The page of the candidacies to one offer: `found` is what the lookup found,
/// or nothing when the identifier in the address did not parse.
pub fn get_view_candidacy_by_offer(user: AuthUser, found: Option<Vec<(Candidacy, Candidate)>>) -> (t:
    ViewCandidacyByOfferTemplate)
    ensures
        t.auth_user == Some(user),
        t.candidacies == found,
{
    ViewCandidacyByOfferTemplate { auth_user: Some(user), candidacies: found }
}

/// The page shown after a candidacy was accepted.
pub fn post_accept_candidacy(user: AuthUser) -> (t: AcceptCandidacyTemplate)
    ensures
        t.auth_user == Some(user),
{
    AcceptCandidacyTemplate { auth_user: Some(user) }
}

/// The page shown after a candidacy was refused.
pub fn post_refuse_candidacy(user: AuthUser) -> (t: RefuseCandidacyTemplate)
    ensures
        t.auth_user == Some(user),
{
    RefuseCandidacyTemplate { auth_user: Some(user) }
}

} // verus!

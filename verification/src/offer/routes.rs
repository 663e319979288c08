//! The decisions and pages of the offer module.

use vstd::prelude::*;
use super::models::{offer_form_check, offer_form_ok, offer_from_form, Offer};
use crate::form::{lookup, FormFields};
use crate::graph::texts_view;
use crate::ids::{is_v4, new_uuid};
use crate::text::{split_on, split_on_char, str_eq};
use crate::users::models::{form_text, AuthUser};
use crate::users::routes::{is_error, role_of, UserRole};
use crate::HttpError;

verus! {

pub struct OfferTemplate {
    pub auth_user: Option<AuthUser>,
    pub offers: Option<Vec<Offer>>,
}

pub struct OfferCompanyTemplate {
    pub auth_user: Option<AuthUser>,
    pub offers: Option<Vec<Offer>>,
}

pub struct CreateOfferTemplate {
    pub auth_user: Option<AuthUser>,
}

pub struct CreateOfferSuccessTemplate {
    pub auth_user: Option<AuthUser>,
}

/// Which offers a user is shown.
pub enum OfferListing {
    /// Every offer: what a candidate sees.
    All,
    /// The offers of the company with this email: what a company sees.
    ByCompany(String),
    /// None: any other role.
    Nothing,
}

/// Candidates see every offer, companies their own.
pub fn offer_listing(user: &AuthUser) -> (l: OfferListing)
    ensures
        match role_of(user.user_role@) {
            Some(UserRole::Candidate) => l is All,
            Some(UserRole::Company) => l matches OfferListing::ByCompany(e) && e@ == user.email@,
            None => l is Nothing,
        },
{
    if str_eq(user.user_role.as_str(), "candidate") {
        OfferListing::All
    } else if str_eq(user.user_role.as_str(), "company") {
        OfferListing::ByCompany(user.email.clone())
    } else {
        OfferListing::Nothing
    }
}

/// The offers page: `found` is what the listing that `offer_listing` chose
/// found; a user of another role gets an empty list.
pub fn get_offer(user: AuthUser, found: Option<Vec<Offer>>) -> (t: OfferTemplate)
    ensures
        t.auth_user == Some(user),
        role_of(user.user_role@) is Some ==> t.offers == found,
        role_of(user.user_role@) is None ==> (t.offers matches Some(v) && v@.len() == 0),
{
    let offers = match offer_listing(&user) {
        OfferListing::Nothing => Some(Vec::new()),
        _ => found,
    };
    OfferTemplate { auth_user: Some(user), offers }
}

/// The page of one company's offers.
pub fn get_offer_company(user: AuthUser, found: Option<Vec<Offer>>) -> (t: OfferCompanyTemplate)
    ensures
        t.auth_user == Some(user),
        t.offers == found,
{
    OfferCompanyTemplate { auth_user: Some(user), offers: found }
}

/// Only a company may create an offer; anyone else gets 400.
pub fn require_company(user: &AuthUser) -> (res: Result<(), HttpError>)
    ensures
        user.user_role@ == "company"@ ==> res is Ok,
        user.user_role@ != "company"@ ==> (res matches Err(e) && is_error(
            e,
            400,
            "Invalid role : you must be a company to create an offer"@,
        )),
{
    if str_eq(user.user_role.as_str(), "company") {
        Ok(())
    } else {
        Err((400, "Invalid role : you must be a company to create an offer".to_owned()))
    }
}

/// The offer creation page, for companies only.
pub fn get_create_offer(user: AuthUser) -> (res: Result<CreateOfferTemplate, HttpError>)
    ensures
        user.user_role@ == "company"@ ==> (res matches Ok(t) && t.auth_user == Some(user)),
        user.user_role@ != "company"@ ==> (res matches Err(e) && is_error(
            e,
            400,
            "Invalid role : you must be a company to create an offer"@,
        )),
{
    match require_company(&user) {
        Ok(()) => Ok(CreateOfferTemplate { auth_user: Some(user) }),
        Err(e) => Err(e),
    }
}

/// A posted offer form: an offer form with a comma-separated `skills` field.
pub open spec fn post_offer_form_ok(fields: Seq<(Seq<char>, Seq<char>)>) -> bool {
    offer_form_ok(fields) && lookup(fields, "skills"@) is Some
}

/// Can `new_offer` read this form?
pub fn post_offer_form_check(form: &FormFields) -> (res: bool)
    ensures
        res == post_offer_form_ok(form@),
{
    offer_form_check(form) && form.get("skills").is_some()
}

/// The offer that a posted form creates: a fresh random version 4
/// identifier, the skills split at commas, dated today. The identifier's
/// random bits and the date are decided by the random number generator and
/// the clock.
pub fn new_offer(form: FormFields) -> (o: Offer)
    requires
        post_offer_form_ok(form@),
    ensures
        o@ == offer_from_form(form@, split_on(form_text(form@, "skills"@), ','), o.uuid, o.created_at),
        is_v4(o.uuid),
{
    let id = new_uuid();
    let skills = split_on_char(form.field("skills").as_str(), ',');
    assert(texts_view(skills@) == split_on(form_text(form@, "skills"@), ','));
    Offer::from_hash_map(form, skills, id)
}

/// The page shown after an offer was created.
pub fn post_create_offer_success(user: AuthUser) -> (t: CreateOfferSuccessTemplate)
    ensures
        t.auth_user == Some(user),
{
    CreateOfferSuccessTemplate { auth_user: Some(user) }
}

} // verus!

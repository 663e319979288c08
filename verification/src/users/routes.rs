//! Sign-up and login decisions, and the pages of the user module.

use vstd::prelude::*;
use super::crud::{
    candidate_params, company_params, lemma_candidate_params_by_name, lemma_candidate_read_back,
    lemma_company_params_by_name, lemma_company_read_back,
};
use super::models::{
    candidate_form_ok, candidate_from_form, candidate_from_props, company_form_ok, company_from_form,
    company_from_props, form_text, AuthUser, AuthUserView,
};
use crate::credentials::{bcrypt_verify, bcrypt_verify_outcome};
use crate::form::{lookup, FieldAction, FormFields};
use crate::graph::text_prop;
use crate::text::{join2, str_eq};
use crate::HttpError;

verus! {

pub struct SignupTemplate {
    pub auth_user: Option<AuthUser>,
}

pub struct SignupSuccessTemplate {
    pub auth_user: Option<AuthUser>,
}

pub struct InfosTemplate {
    pub auth_user: Option<AuthUser>,
}

/// The login form.
pub struct LoginForm {
    pub user_role: String,
    pub email: String,
    pub password: String,
}

/// The answer to a request that needs a session but has none: back to `/`.
pub struct AuthRedirect;

/// The cookie that holds the session.
pub const COOKIE_NAME: &'static str = "SESSION";

/// The two kinds of users.
pub enum UserRole {
    Candidate,
    Company,
}

/// The role that a role name names, if any.
pub open spec fn role_of(name: Seq<char>) -> Option<UserRole> {
    if name == "candidate"@ {
        Some(UserRole::Candidate)
    } else if name == "company"@ {
        Some(UserRole::Company)
    } else {
        None
    }
}

/// An error answer with this code and message.
pub open spec fn is_error(e: HttpError, code: u16, message: Seq<char>) -> bool {
    e.0 == code && e.1@ == message
}

/// The sign-up page.
pub fn get_signup_page() -> (t: SignupTemplate)
    ensures
        t.auth_user is None,
{
    SignupTemplate { auth_user: None }
}

/// The page shown after a sign-up.
pub fn signup_success() -> (t: SignupSuccessTemplate)
    ensures
        t.auth_user is None,
{
    SignupSuccessTemplate { auth_user: None }
}

/// The role named by a role name: `candidate` or `company`.
pub fn parse_role(name: &str) -> (res: Option<UserRole>)
    ensures
        res == role_of(name@),
{
    if str_eq(name, "candidate") {
        Some(UserRole::Candidate)
    } else if str_eq(name, "company") {
        Some(UserRole::Company)
    } else {
        None
    }
}

/// What the sign-up form does with a field: the `fileinput` file goes to the
/// `profile-pictures` bucket and its address becomes `photo_url`.
pub fn signup_field_action(name: &str) -> (a: FieldAction)
    ensures
        match a {
            FieldAction::Upload { bucket, stored_as } => name@ == "fileinput"@ && bucket@
                == "profile-pictures"@ && stored_as@ == "photo_url"@,
            FieldAction::Text => name@ != "fileinput"@,
        },
{
    if str_eq(name, "fileinput") {
        FieldAction::Upload { bucket: "profile-pictures".to_owned(), stored_as: "photo_url".to_owned() }
    } else {
        FieldAction::Text
    }
}

/// Which kind of user a sign-up form creates, read from its `userRole`
/// field: a form without one is refused with 400 `No role found`, one with
/// another role with 400 `Invalid role.`.
pub fn signup_role(form: &FormFields) -> (res: Result<UserRole, HttpError>)
    ensures
        match lookup(form@, "userRole"@) {
            None => res matches Err(e) && is_error(e, 400, "No role found"@),
            Some(r) => match role_of(r) {
                Some(role) => res == Ok::<UserRole, HttpError>(role),
                None => res matches Err(e) && is_error(e, 400, "Invalid role."@),
            },
        },
{
    match form.get("userRole") {
        Some(r) => match parse_role(r.as_str()) {
            Some(role) => Ok(role),
            None => Err((400, "Invalid role.".to_owned())),
        },
        None => Err((400, "No role found".to_owned())),
    }
}

/// The answer when storing a new user fails: 500, naming the kind of user.
pub fn signup_storage_error(role: &UserRole) -> (e: HttpError)
    ensures
        match role {
            UserRole::Candidate => is_error(e, 500, "Error creating candidate"@),
            UserRole::Company => is_error(e, 500, "Error creating company"@),
        },
{
    match role {
        UserRole::Candidate => (500, "Error creating candidate".to_owned()),
        UserRole::Company => (500, "Error creating company".to_owned()),
    }
}

/// Which kind of user a login looks up; another role is refused with 400
/// `Invalid role.` before any lookup.
pub fn login_role(user_role: &str) -> (res: Result<UserRole, HttpError>)
    ensures
        match role_of(user_role@) {
            Some(role) => res == Ok::<UserRole, HttpError>(role),
            None => res matches Err(e) && is_error(e, 400, "Invalid role."@),
        },
{
    match parse_role(user_role) {
        Some(role) => Ok(role),
        None => Err((400, "Invalid role.".to_owned())),
    }
}

/// The answer when looking the user up fails: 500, naming the kind of user.
pub fn login_lookup_error(role: &UserRole) -> (e: HttpError)
    ensures
        match role {
            UserRole::Candidate => is_error(e, 500, "Error getting candidate"@),
            UserRole::Company => is_error(e, 500, "Error getting company"@),
        },
{
    match role {
        UserRole::Candidate => (500, "Error getting candidate".to_owned()),
        UserRole::Company => (500, "Error getting company".to_owned()),
    }
}

/// The outcome of a login attempt with `password` for a stored user with
/// `email` and bcrypt hash `hashed_password`: the session's user when the
/// password matches, 401 when it does not, 500 when the hash is unreadable.
pub open spec fn login_outcome(
    email: Seq<char>,
    password: Seq<char>,
    hashed_password: Seq<char>,
    user_role: Seq<char>,
) -> Result<AuthUserView, (u16, Seq<char>)> {
    match bcrypt_verify_outcome(password, hashed_password) {
        Some(true) => Ok(AuthUserView { user_role, email }),
        Some(false) => Err((401u16, "Invalid email or password"@)),
        None => Err((500u16, "Error"@)),
    }
}

/// The view of a login answer.
pub open spec fn login_result_view(res: Result<AuthUser, HttpError>) -> Result<AuthUserView, (u16, Seq<char>)> {
    match res {
        Ok(u) => Ok(u@),
        Err(e) => Err((e.0, e.1@)),
    }
}

/// Checks the password of a found user; on success the session holds the
/// user's role and stored email.
pub fn validate_login(email: String, password: String, hashed_password: String, user_role: String) -> (res:
    Result<AuthUser, HttpError>)
    ensures
        login_result_view(res) == login_outcome(email@, password@, hashed_password@, user_role@),
{
    match bcrypt_verify(password.as_str(), hashed_password.as_str()) {
        Ok(true) => Ok(AuthUser { user_role, email }),
        Ok(false) => Err((401, "Invalid email or password".to_owned())),
        Err(_) => Err((500, "Error".to_owned())),
    }
}

/// The outcome of a login when the lookup found `found` (the stored email and
/// password hash) or nobody: nobody is answered like a wrong password.
pub open spec fn login_decision_outcome(
    found: Option<(Seq<char>, Seq<char>)>,
    password: Seq<char>,
    user_role: Seq<char>,
) -> Result<AuthUserView, (u16, Seq<char>)> {
    match found {
        Some((email, hash)) => login_outcome(email, password, hash, user_role),
        None => Err((401u16, "Invalid email or password"@)),
    }
}

/// Decides a login from what the lookup found.
pub fn post_login_decision(found: Option<(String, String)>, password: String, user_role: String) -> (res:
    Result<AuthUser, HttpError>)
    ensures
        login_result_view(res) == login_decision_outcome(
            match found {
                Some(f) => Some((f.0@, f.1@)),
                None => None,
            },
            password@,
            user_role@,
        ),
{
    match found {
        Some((email, hash)) => validate_login(email, password, hash, user_role),
        None => Err((401, "Invalid email or password".to_owned())),
    }
}

/// The `Set-Cookie` value that hands the client its session.
pub fn session_cookie(session: &str) -> (c: String)
    ensures
        c@ == COOKIE_NAME@ + "="@ + session@ + "; Secure; HttpOnly"@,
{
    let name_eq = join2(COOKIE_NAME, "=");
    let with_value = join2(name_eq.as_str(), session);
    join2(with_value.as_str(), "; Secure; HttpOnly")
}

/// The page of the logged-in user's information.
pub fn get_infos_page(user: AuthUser) -> (t: InfosTemplate)
    ensures
        t.auth_user == Some(user),
{
    InfosTemplate { auth_user: Some(user) }
}

/// A candidate who signed up can log in with the password of the sign-up
/// form: signing up stores a bcrypt hash that verifies against that password,
/// the node written by the creation statement reads back the same email and
/// hash, and the login with them yields the candidate's session.
pub proof fn lemma_candidate_signup_then_login(fields: Seq<(Seq<char>, Seq<char>)>, hash: Seq<char>)
    requires
        candidate_form_ok(fields),
        bcrypt_verify_outcome(form_text(fields, "password"@), hash) == Some(true),
    ensures
        ({
            let stored = candidate_from_props(candidate_params(candidate_from_form(fields, hash)));
            login_decision_outcome(
                Some((stored.email, stored.password)),
                form_text(fields, "password"@),
                "candidate"@,
            ) == Ok::<AuthUserView, (u16, Seq<char>)>(
                AuthUserView { user_role: "candidate"@, email: form_text(fields, "email"@) },
            )
        }),
{
    lemma_candidate_read_back(candidate_from_form(fields, hash));
}

/// A company that signed up can log in with the password of the sign-up
/// form.
pub proof fn lemma_company_signup_then_login(fields: Seq<(Seq<char>, Seq<char>)>, hash: Seq<char>)
    requires
        company_form_ok(fields),
        bcrypt_verify_outcome(form_text(fields, "password"@), hash) == Some(true),
    ensures
        ({
            let stored = company_from_props(company_params(company_from_form(fields, hash)));
            login_decision_outcome(
                Some((stored.email, stored.password)),
                form_text(fields, "password"@),
                "company"@,
            ) == Ok::<AuthUserView, (u16, Seq<char>)>(
                AuthUserView { user_role: "company"@, email: form_text(fields, "email"@) },
            )
        }),
{
    lemma_company_read_back(company_from_form(fields, hash));
}

/// A candidate who signs up is stored under the email of the sign-up form:
/// the creation statement's `email` is that email and its `password` the
/// hash, so the login's lookup by that email finds the new node.
pub proof fn lemma_candidate_stored_under_form_email(fields: Seq<(Seq<char>, Seq<char>)>, hash: Seq<char>)
    requires
        candidate_form_ok(fields),
    ensures
        text_prop(candidate_params(candidate_from_form(fields, hash)), "email"@) == lookup(fields, "email"@),
        text_prop(candidate_params(candidate_from_form(fields, hash)), "password"@) == Some(hash),
{
    lemma_candidate_params_by_name(candidate_from_form(fields, hash));
}

/// A company that signs up is stored under the email of the sign-up form,
/// with the hash as its password.
pub proof fn lemma_company_stored_under_form_email(fields: Seq<(Seq<char>, Seq<char>)>, hash: Seq<char>)
    requires
        company_form_ok(fields),
    ensures
        text_prop(company_params(company_from_form(fields, hash)), "email"@) == lookup(fields, "email"@),
        text_prop(company_params(company_from_form(fields, hash)), "password"@) == Some(hash),
{
    lemma_company_params_by_name(company_from_form(fields, hash));
}

} // verus!

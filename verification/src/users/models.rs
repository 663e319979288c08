//! Candidates and companies, built from the sign-up form or read back from
//! their nodes in the graph.

use vstd::prelude::*;
use crate::credentials::{bcrypt_hash_shape, bcrypt_verify_outcome, hash_password, PasswordError};
use crate::form::{lookup, FormFields};
use crate::graph::{integer_prop, text_prop, Props, PropValueView};
use crate::text::{decimal_value, parse_i64, parses_in_range};

pub use crate::candidacies::models::{AuthUser, AuthUserView};

verus! {

/// The value of a form field that is there.
pub open spec fn form_text(fields: Seq<(Seq<char>, Seq<char>)>, key: Seq<char>) -> Seq<char> {
    lookup(fields, key).unwrap()
}

pub struct Candidate {
    pub name: String,
    pub email: String,
    pub password: String,
    pub age: i64,
    pub photo_url: String,
    pub description: String,
}

pub struct CandidateView {
    pub name: Seq<char>,
    pub email: Seq<char>,
    pub password: Seq<char>,
    pub age: int,
    pub photo_url: Seq<char>,
    pub description: Seq<char>,
}

impl View for Candidate {
    type V = CandidateView;

    open spec fn view(&self) -> CandidateView {
        CandidateView {
            name: self.name@,
            email: self.email@,
            password: self.password@,
            age: self.age as int,
            photo_url: self.photo_url@,
            description: self.description@,
        }
    }
}

pub struct Company {
    pub name: String,
    pub email: String,
    pub password: String,
    pub photo_url: String,
    pub description: String,
}

pub struct CompanyView {
    pub name: Seq<char>,
    pub email: Seq<char>,
    pub password: Seq<char>,
    pub photo_url: Seq<char>,
    pub description: Seq<char>,
}

impl View for Company {
    type V = CompanyView;

    open spec fn view(&self) -> CompanyView {
        CompanyView {
            name: self.name@,
            email: self.email@,
            password: self.password@,
            photo_url: self.photo_url@,
            description: self.description@,
        }
    }
}

/// A sign-up form that describes a company: it has the fields `username`,
/// `email`, `password`, `photo_url` and `description`.
pub open spec fn company_form_ok(fields: Seq<(Seq<char>, Seq<char>)>) -> bool {
    &&& lookup(fields, "username"@) is Some
    &&& lookup(fields, "email"@) is Some
    &&& lookup(fields, "password"@) is Some
    &&& lookup(fields, "photo_url"@) is Some
    &&& lookup(fields, "description"@) is Some
}

/// A sign-up form that describes a candidate: the company fields, and an
/// `age` that is an `i64`.
pub open spec fn candidate_form_ok(fields: Seq<(Seq<char>, Seq<char>)>) -> bool {
    &&& company_form_ok(fields)
    &&& lookup(fields, "age"@) is Some
    &&& parses_in_range(form_text(fields, "age"@), i64::MIN as int, i64::MAX as int)
}

/// The candidate that a sign-up form describes, with the stored password
/// `password_hash`.
pub open spec fn candidate_from_form(fields: Seq<(Seq<char>, Seq<char>)>, password_hash: Seq<char>)
    -> CandidateView
{
    CandidateView {
        name: form_text(fields, "username"@),
        email: form_text(fields, "email"@),
        password: password_hash,
        age: decimal_value(form_text(fields, "age"@)).unwrap(),
        photo_url: form_text(fields, "photo_url"@),
        description: form_text(fields, "description"@),
    }
}

/// The company that a sign-up form describes, with the stored password
/// `password_hash`.
pub open spec fn company_from_form(fields: Seq<(Seq<char>, Seq<char>)>, password_hash: Seq<char>)
    -> CompanyView
{
    CompanyView {
        name: form_text(fields, "username"@),
        email: form_text(fields, "email"@),
        password: password_hash,
        photo_url: form_text(fields, "photo_url"@),
        description: form_text(fields, "description"@),
    }
}

/// Node properties that hold a company: text `name`, `email`, `password`,
/// `photo_url` and `description`.
pub open spec fn company_node_ok(props: Seq<(Seq<char>, PropValueView)>) -> bool {
    &&& text_prop(props, "name"@) is Some
    &&& text_prop(props, "email"@) is Some
    &&& text_prop(props, "password"@) is Some
    &&& text_prop(props, "photo_url"@) is Some
    &&& text_prop(props, "description"@) is Some
}

/// Node properties that hold a candidate: those of a company and an integer
/// `age`.
pub open spec fn candidate_node_ok(props: Seq<(Seq<char>, PropValueView)>) -> bool {
    &&& company_node_ok(props)
    &&& integer_prop(props, "age"@) is Some
}

/// The candidate that node properties hold.
pub open spec fn candidate_from_props(props: Seq<(Seq<char>, PropValueView)>) -> CandidateView {
    CandidateView {
        name: text_prop(props, "name"@).unwrap(),
        email: text_prop(props, "email"@).unwrap(),
        password: text_prop(props, "password"@).unwrap(),
        age: integer_prop(props, "age"@).unwrap(),
        photo_url: text_prop(props, "photo_url"@).unwrap(),
        description: text_prop(props, "description"@).unwrap(),
    }
}

/// The company that node properties hold.
pub open spec fn company_from_props(props: Seq<(Seq<char>, PropValueView)>) -> CompanyView {
    CompanyView {
        name: text_prop(props, "name"@).unwrap(),
        email: text_prop(props, "email"@).unwrap(),
        password: text_prop(props, "password"@).unwrap(),
        photo_url: text_prop(props, "photo_url"@).unwrap(),
        description: text_prop(props, "description"@).unwrap(),
    }
}

/// The candidate of a sign-up form takes each field from the form field of
/// the same meaning: its name from `username`, its email from `email`, its
/// age from `age` read as a number, and so on; its password is the stored
/// hash, never the form's password.
pub proof fn lemma_candidate_from_form_fields(fields: Seq<(Seq<char>, Seq<char>)>, hash: Seq<char>)
    requires
        candidate_form_ok(fields),
    ensures
        lookup(fields, "username"@) == Some(candidate_from_form(fields, hash).name),
        lookup(fields, "email"@) == Some(candidate_from_form(fields, hash).email),
        candidate_from_form(fields, hash).password == hash,
        decimal_value(lookup(fields, "age"@).unwrap()) == Some(candidate_from_form(fields, hash).age),
        lookup(fields, "photo_url"@) == Some(candidate_from_form(fields, hash).photo_url),
        lookup(fields, "description"@) == Some(candidate_from_form(fields, hash).description),
{
}

/// The company of a sign-up form takes each field from the form field of the
/// same meaning; its password is the stored hash.
pub proof fn lemma_company_from_form_fields(fields: Seq<(Seq<char>, Seq<char>)>, hash: Seq<char>)
    requires
        company_form_ok(fields),
    ensures
        lookup(fields, "username"@) == Some(company_from_form(fields, hash).name),
        lookup(fields, "email"@) == Some(company_from_form(fields, hash).email),
        company_from_form(fields, hash).password == hash,
        lookup(fields, "photo_url"@) == Some(company_from_form(fields, hash).photo_url),
        lookup(fields, "description"@) == Some(company_from_form(fields, hash).description),
{
}

/// Does the form have every field of a company?
pub fn company_form_check(map: &FormFields) -> (res: bool)
    ensures
        res == company_form_ok(map@),
{
    map.get("username").is_some() && map.get("email").is_some() && map.get("password").is_some()
        && map.get("photo_url").is_some() && map.get("description").is_some()
}

/// Does the form have every field of a candidate, with an `i64` age?
pub fn candidate_form_check(map: &FormFields) -> (res: bool)
    ensures
        res == candidate_form_ok(map@),
{
    if !company_form_check(map) {
        return false;
    }
    match map.get("age") {
        Some(age) => parse_i64(age.as_str()).is_some(),
        None => false,
    }
}

/// Does the node hold a company?
pub fn company_node_check(node: &Props) -> (res: bool)
    ensures
        res == company_node_ok(node@),
{
    node.get_text("name").is_some() && node.get_text("email").is_some() && node.get_text(
        "password",
    ).is_some() && node.get_text("photo_url").is_some() && node.get_text("description").is_some()
}

/// Does the node hold a candidate?
pub fn candidate_node_check(node: &Props) -> (res: bool)
    ensures
        res == candidate_node_ok(node@),
{
    company_node_check(node) && node.get_integer("age").is_some()
}

impl Candidate {
    /// The candidate of a sign-up form whose password was hashed to
    /// `password_hash`.
    pub fn from_form_with_hash(map: &FormFields, password_hash: String) -> (c: Candidate)
        requires
            candidate_form_ok(map@),
        ensures
            c@ == candidate_from_form(map@, password_hash@),
    {
        let age = parse_i64(map.field("age").as_str()).unwrap();
        Candidate {
            name: map.field("username"),
            email: map.field("email"),
            password: password_hash,
            age,
            photo_url: map.field("photo_url"),
            description: map.field("description"),
        }
    }

    /// Builds a candidate from the sign-up form and hashes its password.
    /// Fails only when hashing fails, which the system's random source
    /// decides.
    pub fn from_hash_map(map: FormFields) -> (res: Result<Candidate, PasswordError>)
        requires
            candidate_form_ok(map@),
        ensures
            res matches Ok(c) ==> {
                &&& c@ == candidate_from_form(map@, c.password@)
                &&& bcrypt_verify_outcome(form_text(map@, "password"@), c.password@) == Some(true)
                &&& bcrypt_hash_shape(c.password@)
            },
    {
        let password = map.field("password");
        match hash_password(password.as_str()) {
            Ok(h) => Ok(Candidate::from_form_with_hash(&map, h)),
            Err(e) => Err(e),
        }
    }

    /// Reads a candidate from the properties of its node.
    pub fn from_node(node: Props) -> (c: Candidate)
        requires
            candidate_node_ok(node@),
        ensures
            c@ == candidate_from_props(node@),
    {
        Candidate {
            name: node.get_text("name").unwrap(),
            email: node.get_text("email").unwrap(),
            password: node.get_text("password").unwrap(),
            age: node.get_integer("age").unwrap(),
            photo_url: node.get_text("photo_url").unwrap(),
            description: node.get_text("description").unwrap(),
        }
    }
}

impl Company {
    /// The company of a sign-up form whose password was hashed to
    /// `password_hash`.
    pub fn from_form_with_hash(map: &FormFields, password_hash: String) -> (c: Company)
        requires
            company_form_ok(map@),
        ensures
            c@ == company_from_form(map@, password_hash@),
    {
        Company {
            name: map.field("username"),
            email: map.field("email"),
            password: password_hash,
            photo_url: map.field("photo_url"),
            description: map.field("description"),
        }
    }

    /// Builds a company from the sign-up form and hashes its password.
    /// Fails only when hashing fails, which the system's random source
    /// decides.
    pub fn from_hash_map(map: FormFields) -> (res: Result<Company, PasswordError>)
        requires
            company_form_ok(map@),
        ensures
            res matches Ok(c) ==> {
                &&& c@ == company_from_form(map@, c.password@)
                &&& bcrypt_verify_outcome(form_text(map@, "password"@), c.password@) == Some(true)
                &&& bcrypt_hash_shape(c.password@)
            },
    {
        let password = map.field("password");
        match hash_password(password.as_str()) {
            Ok(h) => Ok(Company::from_form_with_hash(&map, h)),
            Err(e) => Err(e),
        }
    }

    /// Reads a company from the properties of its node.
    pub fn from_node(node: Props) -> (c: Company)
        requires
            company_node_ok(node@),
        ensures
            c@ == company_from_props(node@),
    {
        Company {
            name: node.get_text("name").unwrap(),
            email: node.get_text("email").unwrap(),
            password: node.get_text("password").unwrap(),
            photo_url: node.get_text("photo_url").unwrap(),
            description: node.get_text("description").unwrap(),
        }
    }
}

} // verus!

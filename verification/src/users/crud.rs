//! The statements that store and find candidates and companies.

use vstd::prelude::*;
use super::models::{
    candidate_from_props, candidate_node_ok, company_from_props, company_node_ok, Candidate,
    CandidateView, Company, CompanyView,
};
use crate::graph::{integer_prop, lemma_prop_lookup_at, text_prop, CypherQuery, PropValue, PropValueView, Props};

verus! {

pub const CREATE_CANDIDATE_CYPHER: &'static str = r#"
            CREATE (c:Candidate {
                name: $name,
                email: $email,
                password: $password,
                age: $age,
                photo_url: $photo_url,
                description: $description
            })
            RETURN c
        "#;

pub const CANDIDATE_BY_EMAIL_CYPHER: &'static str = r#"
            MATCH (c:Candidate {email: $email})
            RETURN c
        "#;

pub const CREATE_COMPANY_CYPHER: &'static str = r#"
            CREATE (c:Company {
                name: $name,
                email: $email,
                password: $password,
                photo_url: $photo_url,
                description: $description
            })
            RETURN c
        "#;

pub const COMPANY_BY_EMAIL_CYPHER: &'static str = r#"
            MATCH (c:Company {email: $email})
            RETURN c
        "#;

/// The parameters of the statement that creates a candidate: one per
/// property, under the property's name.
pub open spec fn candidate_params(c: CandidateView) -> Seq<(Seq<char>, PropValueView)> {
    seq![
        ("name"@, PropValueView::Text(c.name)),
        ("email"@, PropValueView::Text(c.email)),
        ("password"@, PropValueView::Text(c.password)),
        ("age"@, PropValueView::Integer(c.age)),
        ("photo_url"@, PropValueView::Text(c.photo_url)),
        ("description"@, PropValueView::Text(c.description)),
    ]
}

/// The parameters of the statement that creates a company.
pub open spec fn company_params(c: CompanyView) -> Seq<(Seq<char>, PropValueView)> {
    seq![
        ("name"@, PropValueView::Text(c.name)),
        ("email"@, PropValueView::Text(c.email)),
        ("password"@, PropValueView::Text(c.password)),
        ("photo_url"@, PropValueView::Text(c.photo_url)),
        ("description"@, PropValueView::Text(c.description)),
    ]
}

/// A single text parameter.
pub open spec fn text_param(key: Seq<char>, value: Seq<char>) -> Seq<(Seq<char>, PropValueView)> {
    seq![(key, PropValueView::Text(value))]
}

/// Adds a text parameter.
pub fn push_text(params: &mut Props, key: &str, value: String)
    ensures
        final(params)@ == old(params)@.push((key@, PropValueView::Text(value@))),
{
    params.push(key.to_owned(), PropValue::Text(value));
}

/// The statement that creates the candidate's node.
pub fn create_candidate_query(candidate: &Candidate) -> (q: CypherQuery)
    ensures
        q.text@ == CREATE_CANDIDATE_CYPHER@,
        q.params@ == candidate_params(candidate@),
        text_prop(q.params@, "email"@) == Some(candidate.email@),
        text_prop(q.params@, "password"@) == Some(candidate.password@),
        integer_prop(q.params@, "age"@) == Some(candidate.age as int),
{
    proof {
        lemma_candidate_params_by_name(candidate@);
    }
    let mut params = Props::new();
    push_text(&mut params, "name", candidate.name.clone());
    push_text(&mut params, "email", candidate.email.clone());
    push_text(&mut params, "password", candidate.password.clone());
    params.push("age".to_owned(), PropValue::Integer(candidate.age));
    push_text(&mut params, "photo_url", candidate.photo_url.clone());
    push_text(&mut params, "description", candidate.description.clone());
    assert(params@ =~= candidate_params(candidate@));
    CypherQuery { text: CREATE_CANDIDATE_CYPHER.to_owned(), params }
}

/// The statement that finds the candidate with this email.
pub fn candidate_by_email_query(email: String) -> (q: CypherQuery)
    ensures
        q.text@ == CANDIDATE_BY_EMAIL_CYPHER@,
        q.params@ == text_param("email"@, email@),
{
    let mut params = Props::new();
    push_text(&mut params, "email", email);
    assert(params@ =~= text_param("email"@, email@));
    CypherQuery { text: CANDIDATE_BY_EMAIL_CYPHER.to_owned(), params }
}

/// The statement that creates the company's node.
pub fn create_company_query(company: &Company) -> (q: CypherQuery)
    ensures
        q.text@ == CREATE_COMPANY_CYPHER@,
        q.params@ == company_params(company@),
        text_prop(q.params@, "email"@) == Some(company.email@),
        text_prop(q.params@, "password"@) == Some(company.password@),
{
    proof {
        lemma_company_params_by_name(company@);
    }
    let mut params = Props::new();
    push_text(&mut params, "name", company.name.clone());
    push_text(&mut params, "email", company.email.clone());
    push_text(&mut params, "password", company.password.clone());
    push_text(&mut params, "photo_url", company.photo_url.clone());
    push_text(&mut params, "description", company.description.clone());
    assert(params@ =~= company_params(company@));
    CypherQuery { text: CREATE_COMPANY_CYPHER.to_owned(), params }
}

/// The statement that finds the company with this email.
pub fn company_by_email_query(email: String) -> (q: CypherQuery)
    ensures
        q.text@ == COMPANY_BY_EMAIL_CYPHER@,
        q.params@ == text_param("email"@, email@),
{
    let mut params = Props::new();
    push_text(&mut params, "email", email);
    assert(params@ =~= text_param("email"@, email@));
    CypherQuery { text: COMPANY_BY_EMAIL_CYPHER.to_owned(), params }
}

/// A candidate stored by its creation statement is read back unchanged: the
/// node holds the statement's parameters as its properties.
pub proof fn lemma_candidate_read_back(c: CandidateView)
    ensures
        candidate_node_ok(candidate_params(c)),
        candidate_from_props(candidate_params(c)) == c,
{
    reveal_strlit("name");
    reveal_strlit("email");
    reveal_strlit("password");
    reveal_strlit("age");
    reveal_strlit("photo_url");
    reveal_strlit("description");
    let p = candidate_params(c);
    assert("name"@.len() == 4 && "email"@.len() == 5 && "password"@.len() == 8);
    assert("age"@.len() == 3 && "photo_url"@.len() == 9 && "description"@.len() == 11);
    lemma_prop_lookup_at(p, 0);
    lemma_prop_lookup_at(p, 1);
    lemma_prop_lookup_at(p, 2);
    lemma_prop_lookup_at(p, 3);
    lemma_prop_lookup_at(p, 4);
    lemma_prop_lookup_at(p, 5);
}

/// A company stored by its creation statement is read back unchanged.
pub proof fn lemma_company_read_back(c: CompanyView)
    ensures
        company_node_ok(company_params(c)),
        company_from_props(company_params(c)) == c,
{
    reveal_strlit("name");
    reveal_strlit("email");
    reveal_strlit("password");
    reveal_strlit("photo_url");
    reveal_strlit("description");
    let p = company_params(c);
    assert("name"@.len() == 4 && "email"@.len() == 5 && "password"@.len() == 8);
    assert("photo_url"@.len() == 9 && "description"@.len() == 11);
    lemma_prop_lookup_at(p, 0);
    lemma_prop_lookup_at(p, 1);
    lemma_prop_lookup_at(p, 2);
    lemma_prop_lookup_at(p, 3);
    lemma_prop_lookup_at(p, 4);
}

/// The statement that creates a candidate's node gives every property the
/// candidate's field of that name: `email` is the candidate's email,
/// `password` the stored hash, `age` the age, and so on.
pub proof fn lemma_candidate_params_by_name(c: CandidateView)
    ensures
        text_prop(candidate_params(c), "name"@) == Some(c.name),
        text_prop(candidate_params(c), "email"@) == Some(c.email),
        text_prop(candidate_params(c), "password"@) == Some(c.password),
        integer_prop(candidate_params(c), "age"@) == Some(c.age),
        text_prop(candidate_params(c), "photo_url"@) == Some(c.photo_url),
        text_prop(candidate_params(c), "description"@) == Some(c.description),
{
    reveal_strlit("name");
    reveal_strlit("email");
    reveal_strlit("password");
    reveal_strlit("age");
    reveal_strlit("photo_url");
    reveal_strlit("description");
    let p = candidate_params(c);
    assert("name"@.len() == 4 && "email"@.len() == 5 && "password"@.len() == 8);
    assert("age"@.len() == 3 && "photo_url"@.len() == 9 && "description"@.len() == 11);
    lemma_prop_lookup_at(p, 0);
    lemma_prop_lookup_at(p, 1);
    lemma_prop_lookup_at(p, 2);
    lemma_prop_lookup_at(p, 3);
    lemma_prop_lookup_at(p, 4);
    lemma_prop_lookup_at(p, 5);
}

/// The statement that creates a company's node gives every property the
/// company's field of that name.
pub proof fn lemma_company_params_by_name(c: CompanyView)
    ensures
        text_prop(company_params(c), "name"@) == Some(c.name),
        text_prop(company_params(c), "email"@) == Some(c.email),
        text_prop(company_params(c), "password"@) == Some(c.password),
        text_prop(company_params(c), "photo_url"@) == Some(c.photo_url),
        text_prop(company_params(c), "description"@) == Some(c.description),
{
    reveal_strlit("name");
    reveal_strlit("email");
    reveal_strlit("password");
    reveal_strlit("photo_url");
    reveal_strlit("description");
    let p = company_params(c);
    assert("name"@.len() == 4 && "email"@.len() == 5 && "password"@.len() == 8);
    assert("photo_url"@.len() == 9 && "description"@.len() == 11);
    lemma_prop_lookup_at(p, 0);
    lemma_prop_lookup_at(p, 1);
    lemma_prop_lookup_at(p, 2);
    lemma_prop_lookup_at(p, 3);
    lemma_prop_lookup_at(p, 4);
}

/// A candidate is looked up by the parameter `email`, which the node's
/// `email` property must match: looking up the email a candidate was stored
/// with matches the stored node.
pub proof fn lemma_candidate_found_by_email(c: CandidateView)
    ensures
        text_prop(text_param("email"@, c.email), "email"@) == text_prop(candidate_params(c), "email"@),
{
    lemma_candidate_params_by_name(c);
    lemma_prop_lookup_at(text_param("email"@, c.email), 0);
}

/// A company is looked up by the parameter `email`: looking up the email a
/// company was stored with matches the stored node.
pub proof fn lemma_company_found_by_email(c: CompanyView)
    ensures
        text_prop(text_param("email"@, c.email), "email"@) == text_prop(company_params(c), "email"@),
{
    lemma_company_params_by_name(c);
    lemma_prop_lookup_at(text_param("email"@, c.email), 0);
}

} // verus!

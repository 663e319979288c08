//! The statements that store, find and decide candidacies, and the reading
//! of what they find.

use vstd::prelude::*;
use super::models::{candidacy_from_props, candidacy_relation_check, candidacy_relation_ok, Candidacy, CandidacyView};
use crate::graph::{lemma_prop_lookup_at, text_prop, CypherQuery, PropValueView, Props};
use crate::ids::{lemma_uuid_text_parses, uuid_text, uuid_to_string};
use crate::offer::models::{offer_from_props, offer_node_check, offer_node_ok, Offer, OfferView};
use crate::users::crud::{push_text, text_param};
use crate::users::models::{candidate_from_props, candidate_node_check, candidate_node_ok, Candidate, CandidateView};

verus! {

pub const CREATE_CANDIDACY_CYPHER: &'static str = r#"
                MATCH (c:Candidate)
                WITH c
                MATCH (o:Offer)
                WHERE c.email = $email AND o.uuid = $uuid_offer
                CREATE (c)-[r:CANDIDATE_TO {
                    uuid : $uuid,
                    status: $status,
                    cover_letter_url: $cover_letter_url,
                    resume_url: $resume_url,
                    custom_field: $custom_field
                }]->(o)
                RETURN r
        "#;

pub const CANDIDACIES_BY_CANDIDATE_CYPHER: &'static str = r#"
            MATCH (c:Candidate {email: $email})-[r:CANDIDATE_TO]->(o:Offer)
            RETURN r, o
        "#;

pub const CANDIDACIES_BY_COMPANY_CYPHER: &'static str = r#"
            MATCH (c:Company {email: $email})-[:POSTED]->(o:Offer)<-[r:CANDIDATE_TO]-(:Candidate)
            RETURN r, o
        "#;

pub const CANDIDACY_CYPHER: &'static str = r#"
            MATCH (c:Candidate)-[r:CANDIDATE_TO]->(o:Offer)
            WHERE r.uuid = $uuid
            RETURN r, c
        "#;

pub const CANDIDACIES_BY_OFFER_CYPHER: &'static str = r#"
            MATCH (company:Company {email: $company_email})-[posted:POSTED]->(offer:Offer {uuid: $uuid_offer})<-[relation:CANDIDATE_TO]-(candidate:Candidate)
            RETURN relation, candidate
        "#;

pub const ACCEPT_CANDIDACY_CYPHER: &'static str = r#"
            MATCH (company:Company {email: $email})-[posted:POSTED]->(offer:Offer)<-[relation:CANDIDATE_TO {uuid: $uuid}]-(candidate:Candidate)
            SET relation.status="accepted"
            RETURN relation
        "#;

pub const REFUSE_CANDIDACY_CYPHER: &'static str = r#"
            MATCH (company:Company {email: $email})-[posted:POSTED]->(offer:Offer)<-[relation:CANDIDATE_TO {uuid: $uuid}]-(candidate:Candidate)
            SET relation.status="refused"
            RETURN relation
        "#;

/// The parameters of the statement that records a candidacy of the candidate
/// with `email` to the offer `offer`: the relationship's properties under
/// their names, the candidate's `email` and the offer's `uuid_offer`.
pub open spec fn candidacy_params(offer: u128, email: Seq<char>, c: CandidacyView) -> Seq<
    (Seq<char>, PropValueView),
> {
    seq![
        ("email"@, PropValueView::Text(email)),
        ("uuid"@, PropValueView::Text(uuid_text(c.uuid))),
        ("status"@, PropValueView::Text(c.status)),
        ("cover_letter_url"@, PropValueView::Text(c.cover_letter_url)),
        ("resume_url"@, PropValueView::Text(c.resume_url)),
        ("custom_field"@, PropValueView::Text(c.custom_field)),
        ("uuid_offer"@, PropValueView::Text(uuid_text(offer))),
    ]
}

/// Two text parameters.
pub open spec fn text_params2(k1: Seq<char>, v1: Seq<char>, k2: Seq<char>, v2: Seq<char>) -> Seq<
    (Seq<char>, PropValueView),
> {
    seq![(k1, PropValueView::Text(v1)), (k2, PropValueView::Text(v2))]
}

/// The statement that records the candidacy of the candidate with
/// `candidate_email` to the offer `uuid_offer`.
pub fn create_candidacy_query(uuid_offer: u128, candidate_email: String, candidacy: &Candidacy) -> (q:
    CypherQuery)
    ensures
        q.text@ == CREATE_CANDIDACY_CYPHER@,
        q.params@ == candidacy_params(uuid_offer, candidate_email@, candidacy@),
        text_prop(q.params@, "uuid_offer"@) == Some(uuid_text(uuid_offer)),
        text_prop(q.params@, "email"@) == Some(candidate_email@),
        text_prop(q.params@, "uuid"@) == Some(uuid_text(candidacy.uuid)),
{
    proof {
        lemma_candidacy_params_by_name(uuid_offer, candidate_email@, candidacy@);
    }
    let mut params = Props::new();
    push_text(&mut params, "email", candidate_email);
    push_text(&mut params, "uuid", uuid_to_string(candidacy.uuid));
    push_text(&mut params, "status", candidacy.status.clone());
    push_text(&mut params, "cover_letter_url", candidacy.cover_letter_url.clone());
    push_text(&mut params, "resume_url", candidacy.resume_url.clone());
    push_text(&mut params, "custom_field", candidacy.custom_field.clone());
    push_text(&mut params, "uuid_offer", uuid_to_string(uuid_offer));
    assert(params@ =~= candidacy_params(uuid_offer, candidate_email@, candidacy@));
    CypherQuery { text: CREATE_CANDIDACY_CYPHER.to_owned(), params }
}

/// The statement that lists the candidacies of a candidate with their offers.
pub fn candidacy_by_candidate_query(email: String) -> (q: CypherQuery)
    ensures
        q.text@ == CANDIDACIES_BY_CANDIDATE_CYPHER@,
        q.params@ == text_param("email"@, email@),
{
    let mut params = Props::new();
    push_text(&mut params, "email", email);
    assert(params@ =~= text_param("email"@, email@));
    CypherQuery { text: CANDIDACIES_BY_CANDIDATE_CYPHER.to_owned(), params }
}

/// The statement that lists the candidacies to a company's offers.
pub fn candidacies_by_company_query(email: String) -> (q: CypherQuery)
    ensures
        q.text@ == CANDIDACIES_BY_COMPANY_CYPHER@,
        q.params@ == text_param("email"@, email@),
{
    let mut params = Props::new();
    push_text(&mut params, "email", email);
    assert(params@ =~= text_param("email"@, email@));
    CypherQuery { text: CANDIDACIES_BY_COMPANY_CYPHER.to_owned(), params }
}

/// The statement that finds a candidacy and its candidate.
pub fn candidacy_query(id: u128) -> (q: CypherQuery)
    ensures
        q.text@ == CANDIDACY_CYPHER@,
        q.params@ == text_param("uuid"@, uuid_text(id)),
{
    let mut params = Props::new();
    push_text(&mut params, "uuid", uuid_to_string(id));
    assert(params@ =~= text_param("uuid"@, uuid_text(id)));
    CypherQuery { text: CANDIDACY_CYPHER.to_owned(), params }
}

/// The statement that lists the candidacies, with their candidates, to one
/// offer of a company.
pub fn candidacy_by_offer_query(company_email: String, uuid_offer: u128) -> (q: CypherQuery)
    ensures
        q.text@ == CANDIDACIES_BY_OFFER_CYPHER@,
        q.params@ == text_params2("company_email"@, company_email@, "uuid_offer"@, uuid_text(uuid_offer)),
{
    let mut params = Props::new();
    push_text(&mut params, "company_email", company_email);
    push_text(&mut params, "uuid_offer", uuid_to_string(uuid_offer));
    assert(params@ =~= text_params2("company_email"@, company_email@, "uuid_offer"@, uuid_text(uuid_offer)));
    CypherQuery { text: CANDIDACIES_BY_OFFER_CYPHER.to_owned(), params }
}

/// The statement that marks a candidacy to one of the company's offers
/// `accepted`.
pub fn accept_candidacy_query(email: String, id: u128) -> (q: CypherQuery)
    ensures
        q.text@ == ACCEPT_CANDIDACY_CYPHER@,
        q.params@ == text_params2("email"@, email@, "uuid"@, uuid_text(id)),
{
    let mut params = Props::new();
    push_text(&mut params, "email", email);
    push_text(&mut params, "uuid", uuid_to_string(id));
    assert(params@ =~= text_params2("email"@, email@, "uuid"@, uuid_text(id)));
    CypherQuery { text: ACCEPT_CANDIDACY_CYPHER.to_owned(), params }
}

/// The statement that marks a candidacy to one of the company's offers
/// `refused`.
pub fn refuse_candidacy_query(email: String, id: u128) -> (q: CypherQuery)
    ensures
        q.text@ == REFUSE_CANDIDACY_CYPHER@,
        q.params@ == text_params2("email"@, email@, "uuid"@, uuid_text(id)),
{
    let mut params = Props::new();
    push_text(&mut params, "email", email);
    push_text(&mut params, "uuid", uuid_to_string(id));
    assert(params@ =~= text_params2("email"@, email@, "uuid"@, uuid_text(id)));
    CypherQuery { text: REFUSE_CANDIDACY_CYPHER.to_owned(), params }
}

/// Every row holds a candidacy and an offer.
pub open spec fn candidacy_offer_rows_ok(rows: Seq<(Props, Props)>) -> bool {
    forall|i: int|
        0 <= i < rows.len() ==> candidacy_relation_ok(#[trigger] rows[i].0@) && offer_node_ok(rows[i].1@)
}

/// Every row holds a candidacy and a candidate.
pub open spec fn candidacy_candidate_rows_ok(rows: Seq<(Props, Props)>) -> bool {
    forall|i: int|
        0 <= i < rows.len() ==> candidacy_relation_ok(#[trigger] rows[i].0@) && candidate_node_ok(
            rows[i].1@,
        )
}

/// The candidacies and offers that rows hold.
pub open spec fn candidacy_offer_pairs(rows: Seq<(Props, Props)>) -> Seq<(CandidacyView, OfferView)> {
    rows.map_values(|r: (Props, Props)| (candidacy_from_props(r.0@), offer_from_props(r.1@)))
}

/// The candidacies and candidates that rows hold.
pub open spec fn candidacy_candidate_pairs(rows: Seq<(Props, Props)>) -> Seq<(CandidacyView, CandidateView)> {
    rows.map_values(|r: (Props, Props)| (candidacy_from_props(r.0@), candidate_from_props(r.1@)))
}

/// The views of candidacy and offer pairs.
pub open spec fn with_offers_view(v: Seq<(Candidacy, Offer)>) -> Seq<(CandidacyView, OfferView)> {
    v.map_values(|p: (Candidacy, Offer)| (p.0@, p.1@))
}

/// The views of candidacy and candidate pairs.
pub open spec fn with_candidates_view(v: Seq<(Candidacy, Candidate)>) -> Seq<(CandidacyView, CandidateView)> {
    v.map_values(|p: (Candidacy, Candidate)| (p.0@, p.1@))
}

/// Does every row hold a candidacy and an offer?
pub fn candidacy_offer_rows_check(rows: &Vec<(Props, Props)>) -> (res: bool)
    ensures
        res == candidacy_offer_rows_ok(rows@),
{
    let mut i: usize = 0;
    while i < rows.len()
        invariant
            i <= rows@.len(),
            forall|j: int|
                0 <= j < i ==> candidacy_relation_ok(#[trigger] rows@[j].0@) && offer_node_ok(rows@[j].1@),
        decreases rows@.len() - i,
    {
        if !(candidacy_relation_check(&rows[i].0) && offer_node_check(&rows[i].1)) {
            return false;
        }
        i = i + 1;
    }
    true
}

/// Does every row hold a candidacy and a candidate?
pub fn candidacy_candidate_rows_check(rows: &Vec<(Props, Props)>) -> (res: bool)
    ensures
        res == candidacy_candidate_rows_ok(rows@),
{
    let mut i: usize = 0;
    while i < rows.len()
        invariant
            i <= rows@.len(),
            forall|j: int|
                0 <= j < i ==> candidacy_relation_ok(#[trigger] rows@[j].0@) && candidate_node_ok(
                    rows@[j].1@,
                ),
        decreases rows@.len() - i,
    {
        if !(candidacy_relation_check(&rows[i].0) && candidate_node_check(&rows[i].1)) {
            return false;
        }
        i = i + 1;
    }
    true
}

/// The candidacies with their offers that the found rows hold: none at all
/// when nothing was found.
pub fn candidacies_with_offers(rows: Vec<(Props, Props)>) -> (res: Option<Vec<(Candidacy, Offer)>>)
    requires
        candidacy_offer_rows_ok(rows@),
    ensures
        match res {
            Some(v) => rows@.len() > 0 && with_offers_view(v@) == candidacy_offer_pairs(rows@),
            None => rows@.len() == 0,
        },
        res matches Some(v) ==> v@.len() == rows@.len() && forall|i: int|
            0 <= i < rows@.len() ==> (#[trigger] v@[i]).0@ == candidacy_from_props(rows@[i].0@) && v@[i].1@
                == offer_from_props(rows@[i].1@),
{
    let ghost all = rows@;
    let mut rows = rows;
    let mut out: Vec<(Candidacy, Offer)> = Vec::new();
    while rows.len() > 0
        invariant
            all.len() == out@.len() + rows@.len(),
            rows@ == all.subrange(out@.len() as int, all.len() as int),
            candidacy_offer_rows_ok(all),
            with_offers_view(out@) == candidacy_offer_pairs(all.subrange(0, out@.len() as int)),
        decreases rows@.len(),
    {
        let ghost k = out@.len() as int;
        let (relation, node) = rows.remove(0);
        assert((relation, node) == all[k]);
        let pair = (Candidacy::from_relation(relation), Offer::from_node(node));
        let ghost before = out@;
        out.push(pair);
        assert(with_offers_view(out@) =~= with_offers_view(before).push((pair.0@, pair.1@)));
        assert(all.subrange(0, k + 1) =~= all.subrange(0, k).push(all[k]));
        assert(rows@ =~= all.subrange(k + 1, all.len() as int));
    }
    if out.len() == 0 {
        None
    } else {
        assert(all.subrange(0, all.len() as int) =~= all);
        assert(with_offers_view(out@).len() == out@.len());
        assert forall|i: int| 0 <= i < all.len() implies (#[trigger] out@[i]).0@ == candidacy_from_props(all[i].0@)
            && out@[i].1@ == offer_from_props(all[i].1@) by {
            assert(with_offers_view(out@)[i] == candidacy_offer_pairs(all)[i]);
        }
        Some(out)
    }
}

/// The candidacies with their candidates that the found rows hold: none at
/// all when nothing was found.
pub fn candidacies_with_candidates(rows: Vec<(Props, Props)>) -> (res: Option<Vec<(Candidacy, Candidate)>>)
    requires
        candidacy_candidate_rows_ok(rows@),
    ensures
        match res {
            Some(v) => rows@.len() > 0 && with_candidates_view(v@) == candidacy_candidate_pairs(rows@),
            None => rows@.len() == 0,
        },
        res matches Some(v) ==> v@.len() == rows@.len() && forall|i: int|
            0 <= i < rows@.len() ==> (#[trigger] v@[i]).0@ == candidacy_from_props(rows@[i].0@) && v@[i].1@
                == candidate_from_props(rows@[i].1@),
{
    let ghost all = rows@;
    let mut rows = rows;
    let mut out: Vec<(Candidacy, Candidate)> = Vec::new();
    while rows.len() > 0
        invariant
            all.len() == out@.len() + rows@.len(),
            rows@ == all.subrange(out@.len() as int, all.len() as int),
            candidacy_candidate_rows_ok(all),
            with_candidates_view(out@) == candidacy_candidate_pairs(all.subrange(0, out@.len() as int)),
        decreases rows@.len(),
    {
        let ghost k = out@.len() as int;
        let (relation, node) = rows.remove(0);
        assert((relation, node) == all[k]);
        let pair = (Candidacy::from_relation(relation), Candidate::from_node(node));
        let ghost before = out@;
        out.push(pair);
        assert(with_candidates_view(out@) =~= with_candidates_view(before).push((pair.0@, pair.1@)));
        assert(all.subrange(0, k + 1) =~= all.subrange(0, k).push(all[k]));
        assert(rows@ =~= all.subrange(k + 1, all.len() as int));
    }
    if out.len() == 0 {
        None
    } else {
        assert(all.subrange(0, all.len() as int) =~= all);
        assert(with_candidates_view(out@).len() == out@.len());
        assert forall|i: int| 0 <= i < all.len() implies (#[trigger] out@[i]).0@ == candidacy_from_props(all[i].0@)
            && out@[i].1@ == candidate_from_props(all[i].1@) by {
            assert(with_candidates_view(out@)[i] == candidacy_candidate_pairs(all)[i]);
        }
        Some(out)
    }
}

/// A candidacy stored by its creation statement is read back unchanged: the
/// relationship holds the statement's parameters, but for the candidate's
/// email and the offer's identifier, as its properties.
pub proof fn lemma_candidacy_read_back(offer: u128, email: Seq<char>, c: CandidacyView)
    ensures
        candidacy_relation_ok(candidacy_params(offer, email, c)),
        candidacy_from_props(candidacy_params(offer, email, c)) == c,
{
    reveal_strlit("email");
    reveal_strlit("uuid");
    reveal_strlit("status");
    reveal_strlit("cover_letter_url");
    reveal_strlit("resume_url");
    reveal_strlit("custom_field");
    let p = candidacy_params(offer, email, c);
    assert("email"@.len() == 5 && "uuid"@.len() == 4 && "status"@.len() == 6);
    assert("cover_letter_url"@.len() == 16 && "resume_url"@.len() == 10);
    assert("custom_field"@.len() == 12);
    lemma_prop_lookup_at(p, 1);
    lemma_prop_lookup_at(p, 2);
    lemma_prop_lookup_at(p, 3);
    lemma_prop_lookup_at(p, 4);
    lemma_prop_lookup_at(p, 5);
    lemma_uuid_text_parses(c.uuid);
}

/// The statement that records a candidacy to an offer matches the offer by
/// `uuid_offer`, the offer's identifier, and the candidate by `email`, the
/// candidate's email; the relationship's properties are the candidacy's
/// fields of the same names.
pub proof fn lemma_candidacy_params_by_name(offer: u128, email: Seq<char>, c: CandidacyView)
    ensures
        text_prop(candidacy_params(offer, email, c), "uuid_offer"@) == Some(uuid_text(offer)),
        text_prop(candidacy_params(offer, email, c), "email"@) == Some(email),
        text_prop(candidacy_params(offer, email, c), "uuid"@) == Some(uuid_text(c.uuid)),
        text_prop(candidacy_params(offer, email, c), "status"@) == Some(c.status),
        text_prop(candidacy_params(offer, email, c), "cover_letter_url"@) == Some(c.cover_letter_url),
        text_prop(candidacy_params(offer, email, c), "resume_url"@) == Some(c.resume_url),
        text_prop(candidacy_params(offer, email, c), "custom_field"@) == Some(c.custom_field),
{
    reveal_strlit("email");
    reveal_strlit("uuid");
    reveal_strlit("status");
    reveal_strlit("cover_letter_url");
    reveal_strlit("resume_url");
    reveal_strlit("custom_field");
    reveal_strlit("uuid_offer");
    let p = candidacy_params(offer, email, c);
    assert("email"@.len() == 5 && "uuid"@.len() == 4 && "status"@.len() == 6);
    assert("cover_letter_url"@.len() == 16 && "resume_url"@.len() == 10);
    assert("custom_field"@.len() == 12 && "uuid_offer"@.len() == 10);
    assert("uuid_offer"@[0] == 'u' && "resume_url"@[0] == 'r');
    lemma_prop_lookup_at(p, 0);
    lemma_prop_lookup_at(p, 1);
    lemma_prop_lookup_at(p, 2);
    lemma_prop_lookup_at(p, 3);
    lemma_prop_lookup_at(p, 4);
    lemma_prop_lookup_at(p, 5);
    lemma_prop_lookup_at(p, 6);
}

/// Every found row gives one candidacy with its offer, in the order of the
/// rows: the relationship read as a candidacy, the node read as an offer.
pub proof fn lemma_candidacy_offer_pairs_per_row(rows: Seq<(Props, Props)>)
    ensures
        candidacy_offer_pairs(rows).len() == rows.len(),
        forall|i: int|
            0 <= i < rows.len() ==> #[trigger] candidacy_offer_pairs(rows)[i] == (
                candidacy_from_props(rows[i].0@),
                offer_from_props(rows[i].1@),
            ),
{
}

/// Every found row gives one candidacy with its candidate, in the order of
/// the rows.
pub proof fn lemma_candidacy_candidate_pairs_per_row(rows: Seq<(Props, Props)>)
    ensures
        candidacy_candidate_pairs(rows).len() == rows.len(),
        forall|i: int|
            0 <= i < rows.len() ==> #[trigger] candidacy_candidate_pairs(rows)[i] == (
                candidacy_from_props(rows[i].0@),
                candidate_from_props(rows[i].1@),
            ),
{
}

} // verus!

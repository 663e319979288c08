//! The statements that store and find offers.

use vstd::prelude::*;
use super::models::{offer_from_props, offer_node_check, offer_node_ok, Offer, OfferView};
use crate::graph::{
    date_prop, integer_prop, lemma_prop_lookup_at, text_list_prop, text_prop, texts_view, copy_texts, CypherQuery,
    PropValue, PropValueView, Props,
};
use crate::ids::{lemma_uuid_text_parses, uuid_text, uuid_to_string};
use crate::users::crud::{push_text, text_param};

verus! {

pub const CREATE_OFFER_CYPHER: &'static str = r#"
            MATCH (c:Company {email: $email})
            CREATE (o:Offer {
                title : $title,
                uuid : $uuid,
                description : $description,
                created_at : $created_at,
                skills : $skills,
                location : $location,
                salary : $salary,
                job_duration : $job_duration,
                job_start : $job_start,
                questionnaire_id : $questionnaire_id
            })
            CREATE (c)-[:POSTED]->(o)
            RETURN o
        "#;

pub const ALL_OFFERS_CYPHER: &'static str = r#"
        MATCH (o:Offer)
        RETURN o
    "#;

pub const OFFERS_BY_COMPANY_CYPHER: &'static str = r#"
            MATCH (c:Company {email:$email})
            MATCH (c)-[POSTED]-(o:Offer)
            RETURN o
        "#;

pub const OFFER_WITH_COMPANY_CYPHER: &'static str = r#"
            MATCH (o:Offer {uuid: $uuid})<-[:POSTED]-(c:Company)
            RETURN o, c
        "#;

/// How an optional questionnaire is stored: `0` for none, else its UUID.
pub open spec fn questionnaire_ref_text(id: Option<u128>) -> Seq<char> {
    match id {
        Some(v) => uuid_text(v),
        None => "0"@,
    }
}

/// The parameters of the statement that creates an offer posted by the
/// company with email `company_email`: one per property of the offer's node,
/// under the property's name, and the company's `email`.
pub open spec fn offer_params(o: OfferView, company_email: Seq<char>) -> Seq<(Seq<char>, PropValueView)> {
    seq![
        ("title"@, PropValueView::Text(o.title)),
        ("uuid"@, PropValueView::Text(uuid_text(o.uuid))),
        ("description"@, PropValueView::Text(o.description)),
        ("created_at"@, PropValueView::Date(o.created_at)),
        ("skills"@, PropValueView::TextList(o.skills)),
        ("location"@, PropValueView::Text(o.location)),
        ("salary"@, PropValueView::Integer(o.salary)),
        ("job_duration"@, PropValueView::Text(o.job_duration)),
        ("job_start"@, PropValueView::Text(o.job_start)),
        ("email"@, PropValueView::Text(company_email)),
        ("questionnaire_id"@, PropValueView::Text(questionnaire_ref_text(o.questionnaire_id))),
    ]
}

/// Writes an optional questionnaire reference.
pub fn questionnaire_ref_string(id: Option<u128>) -> (s: String)
    ensures
        s@ == questionnaire_ref_text(id),
{
    match id {
        Some(v) => uuid_to_string(v),
        None => "0".to_owned(),
    }
}

/// The statement that creates the offer and links the company to it.
pub fn create_offer_query(offer: &Offer, company_email: String) -> (q: CypherQuery)
    ensures
        q.text@ == CREATE_OFFER_CYPHER@,
        q.params@ == offer_params(offer@, company_email@),
        text_prop(q.params@, "job_duration"@) == Some(offer.job_duration@),
        text_prop(q.params@, "job_start"@) == Some(offer.job_start@),
        text_prop(q.params@, "email"@) == Some(company_email@),
{
    proof {
        lemma_offer_params_by_name(offer@, company_email@);
    }
    let mut params = Props::new();
    push_text(&mut params, "title", offer.title.clone());
    push_text(&mut params, "uuid", uuid_to_string(offer.uuid));
    push_text(&mut params, "description", offer.description.clone());
    params.push("created_at".to_owned(), PropValue::Date(offer.created_at));
    params.push("skills".to_owned(), PropValue::TextList(copy_texts(&offer.skills)));
    push_text(&mut params, "location", offer.location.clone());
    params.push("salary".to_owned(), PropValue::Integer(offer.salary));
    push_text(&mut params, "job_duration", offer.job_duration.clone());
    push_text(&mut params, "job_start", offer.job_start.clone());
    push_text(&mut params, "email", company_email);
    push_text(&mut params, "questionnaire_id", questionnaire_ref_string(offer.questionnaire_id));
    assert(params@ =~= offer_params(offer@, company_email@));
    CypherQuery { text: CREATE_OFFER_CYPHER.to_owned(), params }
}

/// The statement that lists every offer.
pub fn offers_query() -> (q: CypherQuery)
    ensures
        q.text@ == ALL_OFFERS_CYPHER@,
        q.params@ == Seq::<(Seq<char>, PropValueView)>::empty(),
{
    CypherQuery { text: ALL_OFFERS_CYPHER.to_owned(), params: Props::new() }
}

/// The statement that lists the offers of the company with this email.
pub fn offer_by_company_query(email: String) -> (q: CypherQuery)
    ensures
        q.text@ == OFFERS_BY_COMPANY_CYPHER@,
        q.params@ == text_param("email"@, email@),
{
    let mut params = Props::new();
    push_text(&mut params, "email", email);
    assert(params@ =~= text_param("email"@, email@));
    CypherQuery { text: OFFERS_BY_COMPANY_CYPHER.to_owned(), params }
}

/// The statement that finds an offer and the company that posted it.
pub fn offer_with_company_query(id: u128) -> (q: CypherQuery)
    ensures
        q.text@ == OFFER_WITH_COMPANY_CYPHER@,
        q.params@ == text_param("uuid"@, uuid_text(id)),
{
    let mut params = Props::new();
    push_text(&mut params, "uuid", uuid_to_string(id));
    assert(params@ =~= text_param("uuid"@, uuid_text(id)));
    CypherQuery { text: OFFER_WITH_COMPANY_CYPHER.to_owned(), params }
}

/// The views of a list of offers.
pub open spec fn offers_view(v: Seq<Offer>) -> Seq<OfferView> {
    v.map_values(|o: Offer| o@)
}

/// Does every found node hold an offer?
pub fn offer_nodes_check(nodes: &Vec<Props>) -> (res: bool)
    ensures
        res == (forall|i: int| 0 <= i < nodes@.len() ==> offer_node_ok(#[trigger] nodes@[i]@)),
{
    let mut i: usize = 0;
    while i < nodes.len()
        invariant
            i <= nodes@.len(),
            forall|j: int| 0 <= j < i ==> offer_node_ok(#[trigger] nodes@[j]@),
        decreases nodes@.len() - i,
    {
        if !offer_node_check(&nodes[i]) {
            return false;
        }
        i = i + 1;
    }
    true
}

/// The offers that the found nodes hold: none at all when nothing was found.
pub fn offers_from_nodes(nodes: Vec<Props>) -> (res: Option<Vec<Offer>>)
    requires
        forall|i: int| 0 <= i < nodes@.len() ==> offer_node_ok(#[trigger] nodes@[i]@),
    ensures
        match res {
            Some(offers) => nodes@.len() > 0 && offers_view(offers@) == nodes@.map_values(
                |p: Props| offer_from_props(p@),
            ),
            None => nodes@.len() == 0,
        },
        res matches Some(offers) ==> offers@.len() == nodes@.len() && forall|i: int|
            0 <= i < nodes@.len() ==> (#[trigger] offers@[i])@ == offer_from_props(nodes@[i]@),
{
    let ghost all = nodes@;
    let mut nodes = nodes;
    let mut offers: Vec<Offer> = Vec::new();
    while nodes.len() > 0
        invariant
            all.len() == offers@.len() + nodes@.len(),
            nodes@ == all.subrange(offers@.len() as int, all.len() as int),
            forall|i: int| 0 <= i < all.len() ==> offer_node_ok(#[trigger] all[i]@),
            offers_view(offers@) == all.subrange(0, offers@.len() as int).map_values(
                |p: Props| offer_from_props(p@),
            ),
        decreases nodes@.len(),
    {
        let ghost k = offers@.len() as int;
        let node = nodes.remove(0);
        assert(node == all[k]);
        let offer = Offer::from_node(node);
        let ghost before = offers@;
        offers.push(offer);
        assert(offers_view(offers@) =~= offers_view(before).push(offer@));
        assert(all.subrange(0, k + 1) =~= all.subrange(0, k).push(all[k]));
        assert(nodes@ =~= all.subrange(k + 1, all.len() as int));
    }
    if offers.len() == 0 {
        None
    } else {
        assert(all.subrange(0, all.len() as int) =~= all);
        assert(offers_view(offers@).len() == offers@.len());
        assert forall|i: int| 0 <= i < all.len() implies (#[trigger] offers@[i])@ == offer_from_props(all[i]@) by {
            assert(offers_view(offers@)[i] == offers@[i]@);
        }
        Some(offers)
    }
}

/// An offer stored by its creation statement is read back unchanged: the
/// node holds the statement's parameters, but for the company's email, as
/// its properties.
pub proof fn lemma_offer_read_back(o: OfferView, company_email: Seq<char>)
    ensures
        offer_node_ok(offer_params(o, company_email)),
        offer_from_props(offer_params(o, company_email)) == o,
{
    reveal_strlit("title");
    reveal_strlit("uuid");
    reveal_strlit("description");
    reveal_strlit("created_at");
    reveal_strlit("skills");
    reveal_strlit("location");
    reveal_strlit("salary");
    reveal_strlit("job_duration");
    reveal_strlit("job_start");
    reveal_strlit("email");
    reveal_strlit("questionnaire_id");
    reveal_strlit("0");
    let p = offer_params(o, company_email);
    assert("title"@.len() == 5 && "uuid"@.len() == 4 && "description"@.len() == 11);
    assert("created_at"@.len() == 10 && "skills"@.len() == 6 && "location"@.len() == 8);
    assert("salary"@.len() == 6 && "job_duration"@.len() == 12 && "job_start"@.len() == 9);
    assert("email"@.len() == 5 && "questionnaire_id"@.len() == 16);
    assert("skills"@[1] == 'k' && "salary"@[1] == 'a');
    assert("title"@[0] == 't' && "email"@[0] == 'e');
    lemma_prop_lookup_at(p, 0);
    lemma_prop_lookup_at(p, 1);
    lemma_prop_lookup_at(p, 2);
    lemma_prop_lookup_at(p, 3);
    lemma_prop_lookup_at(p, 4);
    lemma_prop_lookup_at(p, 5);
    lemma_prop_lookup_at(p, 6);
    lemma_prop_lookup_at(p, 7);
    lemma_prop_lookup_at(p, 8);
    lemma_prop_lookup_at(p, 10);
    lemma_uuid_text_parses(o.uuid);
    match o.questionnaire_id {
        Some(v) => {
            lemma_uuid_text_parses(v);
            assert(uuid_text(v).len() == 36);
        },
        None => {},
    }
}

/// The statement that creates an offer gives every property the offer's
/// field of that name (its identifier and questionnaire as UUID text, `0`
/// for no questionnaire), and names the posting company by `email`.
pub proof fn lemma_offer_params_by_name(o: OfferView, company_email: Seq<char>)
    ensures
        text_prop(offer_params(o, company_email), "title"@) == Some(o.title),
        text_prop(offer_params(o, company_email), "uuid"@) == Some(uuid_text(o.uuid)),
        text_prop(offer_params(o, company_email), "description"@) == Some(o.description),
        date_prop(offer_params(o, company_email), "created_at"@) == Some(o.created_at),
        text_list_prop(offer_params(o, company_email), "skills"@) == Some(o.skills),
        text_prop(offer_params(o, company_email), "location"@) == Some(o.location),
        integer_prop(offer_params(o, company_email), "salary"@) == Some(o.salary),
        text_prop(offer_params(o, company_email), "job_duration"@) == Some(o.job_duration),
        text_prop(offer_params(o, company_email), "job_start"@) == Some(o.job_start),
        text_prop(offer_params(o, company_email), "email"@) == Some(company_email),
        text_prop(offer_params(o, company_email), "questionnaire_id"@) == Some(
            match o.questionnaire_id {
                Some(v) => uuid_text(v),
                None => "0"@,
            },
        ),
{
    reveal_strlit("title");
    reveal_strlit("uuid");
    reveal_strlit("description");
    reveal_strlit("created_at");
    reveal_strlit("skills");
    reveal_strlit("location");
    reveal_strlit("salary");
    reveal_strlit("job_duration");
    reveal_strlit("job_start");
    reveal_strlit("email");
    reveal_strlit("questionnaire_id");
    let p = offer_params(o, company_email);
    assert("title"@.len() == 5 && "uuid"@.len() == 4 && "description"@.len() == 11);
    assert("created_at"@.len() == 10 && "skills"@.len() == 6 && "location"@.len() == 8);
    assert("salary"@.len() == 6 && "job_duration"@.len() == 12 && "job_start"@.len() == 9);
    assert("email"@.len() == 5 && "questionnaire_id"@.len() == 16);
    assert("skills"@[1] == 'k' && "salary"@[1] == 'a');
    assert("title"@[0] == 't' && "email"@[0] == 'e');
    lemma_prop_lookup_at(p, 0);
    lemma_prop_lookup_at(p, 1);
    lemma_prop_lookup_at(p, 2);
    lemma_prop_lookup_at(p, 3);
    lemma_prop_lookup_at(p, 4);
    lemma_prop_lookup_at(p, 5);
    lemma_prop_lookup_at(p, 6);
    lemma_prop_lookup_at(p, 7);
    lemma_prop_lookup_at(p, 8);
    lemma_prop_lookup_at(p, 9);
    lemma_prop_lookup_at(p, 10);
}

} // verus!

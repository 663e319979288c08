use nlpf_2::ids::parse_path_uuid;
use async_session::chrono::NaiveDate;
use nlpf_2::candidacies::crud::{
    accept_candidacy_query, candidacy_candidate_rows_check, candidacy_offer_rows_check, candidacies_with_candidates, candidacies_with_offers, create_candidacy_query,
    refuse_candidacy_query,
};
use nlpf_2::candidacies::models::{candidacy_form_check, candidacy_relation_check, AuthUser, Candidacy};
use nlpf_2::candidacies::routes::{
    candidacies_lookup, candidacy_field_action, get_candidacy, get_create_candidacy, require_candidate,
    submit_candidacy, submitted_candidacy_form_check,
};
use nlpf_2::form::{FieldAction, FormFields};
use nlpf_2::graph::{PropValue, Props};
use nlpf_2::offer::crud::{create_offer_query, offer_nodes_check, offer_with_company_query, offers_from_nodes, offers_query};
use nlpf_2::offer::models::{offer_form_check, offer_node_check, parse_questionnaire_ref, questionnaire_ref_check, Offer};
use nlpf_2::offer::routes::{
    get_create_offer, get_offer, new_offer, offer_listing, post_offer_form_check, require_company, OfferListing,
};
use nlpf_2::users::models::{candidate_node_check, company_node_check, Candidate};

fn form(pairs: &[(&str, &str)]) -> FormFields {
    let mut f = FormFields::new();
    for (k, v) in pairs {
        f.insert(k.to_string(), v.to_string());
    }
    f
}

fn user(role: &str) -> AuthUser {
    AuthUser { user_role: role.to_string(), email: "me@x.fr".to_string() }
}

const Q: &str = "550e8400-e29b-41d4-a716-446655440000";

fn offer_form(questionnaire: &str) -> FormFields {
    form(&[
        ("title", "Stage"),
        ("description", "Stage de 6 mois"),
        ("location", "Paris"),
        ("salary", "1000"),
        ("job_duration", "6 months"),
        ("job_start", "2023-01"),
        ("questionnaire", questionnaire),
        ("skills", "rust,neo4j"),
    ])
}

fn sample_offer(questionnaire_id: Option<u128>) -> Offer {
    Offer {
        title: "Stage".to_string(),
        uuid: 77,
        description: "d".to_string(),
        created_at: NaiveDate::from_ymd_opt(2022, 11, 5).unwrap(),
        skills: vec!["rust".to_string(), "sql".to_string()],
        location: "Paris".to_string(),
        salary: 1000,
        job_duration: "6m".to_string(),
        job_start: "now".to_string(),
        questionnaire_id,
    }
}

#[test]
fn questionnaire_references() {
    assert_eq!(parse_questionnaire_ref("0"), None);
    assert_eq!(parse_questionnaire_ref(Q), Some(0x550e8400e29b41d4a716446655440000));
    assert!(questionnaire_ref_check("0"));
    assert!(questionnaire_ref_check(Q));
    assert!(!questionnaire_ref_check("none"));
}

#[test]
fn offer_from_posted_form() {
    let f = offer_form("0");
    assert!(offer_form_check(&f));
    assert!(post_offer_form_check(&f));
    let before = async_session::chrono::Utc::now().date_naive();
    let o = new_offer(f);
    let after = async_session::chrono::Utc::now().date_naive();
    assert!(before <= o.created_at && o.created_at <= after);
    assert_eq!(o.title, "Stage");
    assert_eq!(o.salary, 1000);
    assert_eq!(o.skills, vec!["rust", "neo4j"]);
    assert_eq!(o.questionnaire_id, None);
    let o2 = new_offer(offer_form(Q));
    assert_eq!(o2.questionnaire_id, Some(0x550e8400e29b41d4a716446655440000));
    assert_ne!(o.uuid, o2.uuid);
    assert_eq!((o.uuid >> 76) & 0xf, 4);
    assert_eq!((o.uuid >> 62) & 0x3, 2);
}

#[test]
fn offer_form_check_refuses_bad_forms() {
    assert!(!offer_form_check(&offer_form("maybe")));
    let mut f = offer_form("0");
    f.insert("salary".to_string(), "lots".to_string());
    assert!(!offer_form_check(&f));
    assert!(!post_offer_form_check(&form(&[("title", "t")])));
}

#[test]
fn stored_offer_reads_back() {
    for q in [None, Some(0x550e8400e29b41d4a716446655440000u128)] {
        let o = sample_offer(q);
        let query = create_offer_query(&o, "company@x.fr".to_string());
        assert!(query.text.contains("CREATE (c)-[:POSTED]->(o)"));
        let back = Offer::from_node(query.params);
        assert_eq!(back.title, o.title);
        assert_eq!(back.uuid, o.uuid);
        assert_eq!(back.created_at, o.created_at);
        assert_eq!(back.skills, o.skills);
        assert_eq!(back.salary, o.salary);
        assert_eq!(back.questionnaire_id, q);
    }
}

#[test]
fn offer_queries() {
    assert_eq!(offers_query().params.len(), 0);
    let q = offer_with_company_query(1);
    let (k, v) = q.params.entry(0);
    assert_eq!(k, "uuid");
    assert!(matches!(v, PropValue::Text(s) if s == "00000000-0000-0000-0000-000000000001"));
}

#[test]
fn no_offer_found_means_none() {
    assert!(offers_from_nodes(Vec::new()).is_none());
    let o = sample_offer(None);
    let nodes = vec![create_offer_query(&o, "c".to_string()).params];
    let found = offers_from_nodes(nodes).unwrap();
    assert_eq!(found.len(), 1);
    assert_eq!(found[0].uuid, 77);
}

#[test]
fn offers_shown_by_role() {
    assert!(matches!(offer_listing(&user("candidate")), OfferListing::All));
    assert!(matches!(offer_listing(&user("company")), OfferListing::ByCompany(e) if e == "me@x.fr"));
    assert!(matches!(offer_listing(&user("guest")), OfferListing::Nothing));
    let t = get_offer(user("guest"), None);
    assert_eq!(t.offers.unwrap().len(), 0);
    let t = get_offer(user("candidate"), None);
    assert!(t.offers.is_none());
}

#[test]
fn only_companies_create_offers() {
    assert!(require_company(&user("company")).is_ok());
    let e = get_create_offer(user("candidate")).err().unwrap();
    assert_eq!(e, (400, "Invalid role : you must be a company to create an offer".to_string()));
    assert!(get_create_offer(user("company")).is_ok());
}

#[test]
fn only_candidates_apply() {
    let e = get_create_candidacy("x".to_string(), user("company")).err().unwrap();
    assert_eq!(e, (400, "Invalid role : you must be a candidate to create an candidacy".to_string()));
    let t = get_create_candidacy("x".to_string(), user("candidate")).ok().unwrap();
    assert_eq!(t.uuid_offer, "x");
    let e = require_candidate(&user("company")).err().unwrap();
    assert_eq!(e, (400, "Invalid role : you must be a candidate to create a candidacy".to_string()));
    assert!(require_candidate(&user("candidate")).is_ok());
}

#[test]
fn candidacy_files_go_to_their_buckets() {
    match candidacy_field_action("cover_letter_url") {
        FieldAction::Upload { bucket, stored_as } => {
            assert_eq!(bucket, "cover-letter");
            assert_eq!(stored_as, "cover_letter_url");
        }
        FieldAction::Text => panic!(),
    }
    match candidacy_field_action("resume_url") {
        FieldAction::Upload { bucket, stored_as } => {
            assert_eq!(bucket, "resume");
            assert_eq!(stored_as, "resume_url");
        }
        FieldAction::Text => panic!(),
    }
    assert!(matches!(candidacy_field_action("custom_field"), FieldAction::Text));
}

#[test]
fn submitted_candidacy_is_pending() {
    let f = form(&[
        ("cover_letter_url", "https://s3/c"),
        ("resume_url", "https://s3/r"),
        ("custom_field", "hello"),
        ("status", "accepted"),
    ]);
    assert!(submitted_candidacy_form_check(&f));
    let c = submit_candidacy(f);
    assert_eq!((c.uuid >> 76) & 0xf, 4);
    assert_eq!((c.uuid >> 62) & 0x3, 2);
    assert_eq!(c.status, "pending");
    assert_eq!(c.custom_field, "hello");
    assert_eq!(c.resume_url, "https://s3/r");
    assert!(!submitted_candidacy_form_check(&form(&[("resume_url", "r")])));
    assert!(!candidacy_form_check(&form(&[("resume_url", "r")])));
}

#[test]
fn stored_candidacy_reads_back() {
    let c = Candidacy {
        uuid: 0x4b4b370d368e493699a2c3ada7206c18,
        status: "pending".to_string(),
        cover_letter_url: "toto".to_string(),
        resume_url: "tata".to_string(),
        custom_field: "titi".to_string(),
    };
    let q = create_candidacy_query(5, "nico@x.fr".to_string(), &c);
    let back = Candidacy::from_relation(q.params);
    assert_eq!(back.uuid, c.uuid);
    assert_eq!(back.status, "pending");
    assert_eq!(back.cover_letter_url, "toto");
    assert_eq!(back.resume_url, "tata");
    assert_eq!(back.custom_field, "titi");
}

#[test]
fn decided_candidacy_queries() {
    let a = accept_candidacy_query("c@x.fr".to_string(), 9);
    assert!(a.text.contains("SET relation.status=\"accepted\""));
    let r = refuse_candidacy_query("c@x.fr".to_string(), 9);
    assert!(r.text.contains("SET relation.status=\"refused\""));
    let (k, v) = r.params.entry(1);
    assert_eq!(k, "uuid");
    assert!(matches!(v, PropValue::Text(s) if *s == uuid_to_string(9)));
}

#[test]
fn found_candidacies() {
    assert!(candidacies_with_offers(Vec::new()).is_none());
    assert!(candidacies_with_candidates(Vec::new()).is_none());
    let c = Candidacy {
        uuid: 3,
        status: "pending".to_string(),
        cover_letter_url: "c".to_string(),
        resume_url: "r".to_string(),
        custom_field: "f".to_string(),
    };
    let relation = create_candidacy_query(5, "e".to_string(), &c).params;
    let mut node = Props::new();
    node.push("name".to_string(), PropValue::Text("Tom".to_string()));
    node.push("email".to_string(), PropValue::Text("tom@x.fr".to_string()));
    node.push("password".to_string(), PropValue::Text("h".to_string()));
    node.push("age".to_string(), PropValue::Integer(30));
    node.push("photo_url".to_string(), PropValue::Text("p".to_string()));
    node.push("description".to_string(), PropValue::Text("d".to_string()));
    let found = candidacies_with_candidates(vec![(relation, node)]).unwrap();
    assert_eq!(found.len(), 1);
    assert_eq!(found[0].0.uuid, 3);
    let candidate: &Candidate = &found[0].1;
    assert_eq!(candidate.age, 30);
}

#[test]
fn candidacies_page_by_role() {
    assert_eq!(candidacies_lookup(&user("company")), Some("me@x.fr".to_string()));
    assert_eq!(candidacies_lookup(&user("candidate")), None);
    let t = get_candidacy(user("candidate"), None);
    assert_eq!(t.candidacies.unwrap().len(), 0);
    let t = get_candidacy(user("company"), None);
    assert!(t.candidacies.is_none());
}

fn candidate_props(age: Option<i64>) -> Props {
    let mut node = Props::new();
    node.push("name".to_string(), PropValue::Text("Tom".to_string()));
    node.push("email".to_string(), PropValue::Text("tom@x.fr".to_string()));
    node.push("password".to_string(), PropValue::Text("h".to_string()));
    if let Some(age) = age {
        node.push("age".to_string(), PropValue::Integer(age));
    }
    node.push("photo_url".to_string(), PropValue::Text("p".to_string()));
    node.push("description".to_string(), PropValue::Text("d".to_string()));
    node
}

#[test]
fn node_checks() {
    assert!(candidate_node_check(&candidate_props(Some(30))));
    assert!(!candidate_node_check(&candidate_props(None)));
    assert!(company_node_check(&candidate_props(None)));
    let mut wrong_kind = Props::new();
    wrong_kind.push("name".to_string(), PropValue::Integer(1));
    assert!(!company_node_check(&wrong_kind));

    let offer = create_offer_query(&sample_offer(None), "c".to_string()).params;
    assert!(offer_node_check(&offer));
    assert!(!offer_node_check(&candidate_props(Some(1))));
    assert!(offer_nodes_check(&vec![]));
    assert!(!offer_nodes_check(&vec![candidate_props(Some(1))]));

    let c = Candidacy {
        uuid: 3,
        status: "pending".to_string(),
        cover_letter_url: "c".to_string(),
        resume_url: "r".to_string(),
        custom_field: "f".to_string(),
    };
    let relation = create_candidacy_query(5, "e".to_string(), &c).params;
    assert!(candidacy_relation_check(&relation));
    let mut bad_uuid = Props::new();
    for key in ["status", "cover_letter_url", "resume_url", "custom_field"] {
        bad_uuid.push(key.to_string(), PropValue::Text("x".to_string()));
    }
    bad_uuid.push("uuid".to_string(), PropValue::Text("not-a-uuid".to_string()));
    assert!(!candidacy_relation_check(&bad_uuid));

    let relation2 = create_candidacy_query(5, "e".to_string(), &c).params;
    let offer2 = create_offer_query(&sample_offer(None), "c".to_string()).params;
    assert!(candidacy_offer_rows_check(&vec![(relation2, offer2)]));
    let relation3 = create_candidacy_query(5, "e".to_string(), &c).params;
    assert!(candidacy_candidate_rows_check(&vec![(relation3, candidate_props(Some(2)))]));
    assert!(!candidacy_candidate_rows_check(&vec![(relation, candidate_props(None))]));
}

/// How the uuid crate writes the identifier `v`.
fn uuid_to_string(v: u128) -> String {
    uuid::Uuid::from_u128(v).to_string()
}

#[test]
fn path_identifiers() {
    assert_eq!(parse_path_uuid("4b4b370d-368e-4936-99a2-c3ada7206c18"), Some(0x4b4b370d368e493699a2c3ada7206c18));
    assert_eq!(parse_path_uuid("4B4B370D368E493699A2C3ADA7206C18"), Some(0x4b4b370d368e493699a2c3ada7206c18));
    assert_eq!(parse_path_uuid("not-a-uuid"), None);
    assert_eq!(parse_path_uuid(""), None);
}

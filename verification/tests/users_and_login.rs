use nlpf_2::form::FormFields;
use nlpf_2::users::crud::{candidate_by_email_query, create_candidate_query, create_company_query};
use nlpf_2::users::models::{candidate_form_check, company_form_check, Candidate, Company};
use nlpf_2::users::routes::{
    get_infos_page, get_signup_page, login_lookup_error, login_role, post_login_decision, session_cookie,
    signup_field_action, signup_role, signup_storage_error, validate_login, UserRole,
};
use nlpf_2::form::FieldAction;
use nlpf_2::graph::PropValue;
use nlpf_2::users::models::AuthUser;

fn form(pairs: &[(&str, &str)]) -> FormFields {
    let mut f = FormFields::new();
    for (k, v) in pairs {
        f.insert(k.to_string(), v.to_string());
    }
    f
}

fn candidate_form() -> FormFields {
    form(&[
        ("username", "Tom Marquaille"),
        ("email", "tom@tom.fr"),
        ("password", "toto"),
        ("age", "12"),
        ("photo_url", "https://pics/tom.png"),
        ("description", "dev"),
        ("userRole", "candidate"),
    ])
}

#[test]
fn candidate_sign_up_hashes_the_password() {
    let f = candidate_form();
    assert!(candidate_form_check(&f));
    let c = Candidate::from_hash_map(f).ok().unwrap();
    assert_eq!(c.name, "Tom Marquaille");
    assert_eq!(c.email, "tom@tom.fr");
    assert_eq!(c.age, 12);
    assert_eq!(c.photo_url, "https://pics/tom.png");
    assert_eq!(c.description, "dev");
    assert_ne!(c.password, "toto");
    assert!(c.password.starts_with("$2b$12$"));
    assert_eq!(c.password.len(), 60);
}

#[test]
fn candidate_sign_up_then_login() {
    let c = Candidate::from_hash_map(candidate_form()).ok().unwrap();
    let user = post_login_decision(
        Some((c.email.clone(), c.password.clone())),
        "toto".to_string(),
        "candidate".to_string(),
    )
    .ok()
    .unwrap();
    assert_eq!(user.user_role, "candidate");
    assert_eq!(user.email, "tom@tom.fr");
}

#[test]
fn company_sign_up_then_login() {
    let f = form(&[
        ("username", "EPITA"),
        ("email", "contact@epita.fr"),
        ("password", "secret"),
        ("photo_url", "p"),
        ("description", "school"),
    ]);
    assert!(company_form_check(&f));
    assert!(!candidate_form_check(&f));
    let c = Company::from_hash_map(f).ok().unwrap();
    assert_eq!(c.name, "EPITA");
    let user = validate_login(c.email, "secret".to_string(), c.password, "company".to_string()).ok().unwrap();
    assert_eq!(user.email, "contact@epita.fr");
    assert_eq!(user.user_role, "company");
}

#[test]
fn login_with_wrong_password_is_unauthorized() {
    let c = Candidate::from_hash_map(candidate_form()).ok().unwrap();
    let err = validate_login(c.email, "wrong".to_string(), c.password, "candidate".to_string()).err().unwrap();
    assert_eq!(err, (401, "Invalid email or password".to_string()));
}

#[test]
fn login_against_unreadable_hash_is_a_server_error() {
    let err = validate_login("a".to_string(), "p".to_string(), "plain".to_string(), "candidate".to_string())
        .err()
        .unwrap();
    assert_eq!(err, (500, "Error".to_string()));
}

#[test]
fn login_of_unknown_user_is_unauthorized() {
    let err = post_login_decision(None, "p".to_string(), "company".to_string()).err().unwrap();
    assert_eq!(err, (401, "Invalid email or password".to_string()));
}

#[test]
fn login_roles() {
    assert!(matches!(login_role("candidate"), Ok(UserRole::Candidate)));
    assert!(matches!(login_role("company"), Ok(UserRole::Company)));
    assert_eq!(login_role("admin").err().unwrap(), (400, "Invalid role.".to_string()));
    assert_eq!(login_lookup_error(&UserRole::Candidate), (500, "Error getting candidate".to_string()));
    assert_eq!(login_lookup_error(&UserRole::Company), (500, "Error getting company".to_string()));
}

#[test]
fn sign_up_roles() {
    assert!(matches!(signup_role(&candidate_form()), Ok(UserRole::Candidate)));
    assert!(matches!(signup_role(&form(&[("userRole", "company")])), Ok(UserRole::Company)));
    assert_eq!(signup_role(&form(&[("userRole", "admin")])).err().unwrap(), (400, "Invalid role.".to_string()));
    assert_eq!(signup_role(&form(&[])).err().unwrap(), (400, "No role found".to_string()));
    assert_eq!(signup_storage_error(&UserRole::Candidate), (500, "Error creating candidate".to_string()));
    assert_eq!(signup_storage_error(&UserRole::Company), (500, "Error creating company".to_string()));
}

#[test]
fn sign_up_uploads_the_profile_picture() {
    match signup_field_action("fileinput") {
        FieldAction::Upload { bucket, stored_as } => {
            assert_eq!(bucket, "profile-pictures");
            assert_eq!(stored_as, "photo_url");
        }
        FieldAction::Text => panic!("fileinput is a file"),
    }
    assert!(matches!(signup_field_action("email"), FieldAction::Text));
}

#[test]
fn candidate_form_needs_a_numeric_age() {
    let mut f = candidate_form();
    f.insert("age".to_string(), "twelve".to_string());
    assert!(!candidate_form_check(&f));
    assert!(!candidate_form_check(&form(&[("username", "x")])));
}

#[test]
fn session_cookie_text() {
    assert_eq!(session_cookie("abc"), "SESSION=abc; Secure; HttpOnly");
}

#[test]
fn pages_of_the_user_module() {
    assert!(get_signup_page().auth_user.is_none());
    let t = get_infos_page(AuthUser { user_role: "candidate".to_string(), email: "e".to_string() });
    assert_eq!(t.auth_user.unwrap().email, "e");
}

#[test]
fn stored_candidate_reads_back() {
    let c = Candidate {
        name: "Tom".to_string(),
        email: "tom@tom.fr".to_string(),
        password: "hash".to_string(),
        age: -3,
        photo_url: "u".to_string(),
        description: "d".to_string(),
    };
    let q = create_candidate_query(&c);
    assert!(q.text.contains("CREATE (c:Candidate"));
    let back = Candidate::from_node(q.params);
    assert_eq!(back.name, "Tom");
    assert_eq!(back.email, "tom@tom.fr");
    assert_eq!(back.password, "hash");
    assert_eq!(back.age, -3);
    assert_eq!(back.photo_url, "u");
    assert_eq!(back.description, "d");
}

#[test]
fn stored_company_reads_back() {
    let c = Company {
        name: "EPITA".to_string(),
        email: "e@e.fr".to_string(),
        password: "h".to_string(),
        photo_url: "p".to_string(),
        description: "d".to_string(),
    };
    let back = Company::from_node(create_company_query(&c).params);
    assert_eq!(back.name, "EPITA");
    assert_eq!(back.email, "e@e.fr");
    assert_eq!(back.password, "h");
}

#[test]
fn find_candidate_by_email_query() {
    let q = candidate_by_email_query("tom@tom.fr".to_string());
    assert!(q.text.contains("MATCH (c:Candidate {email: $email})"));
    assert_eq!(q.params.len(), 1);
    let (k, v) = q.params.entry(0);
    assert_eq!(k, "email");
    assert!(matches!(v, PropValue::Text(s) if s == "tom@tom.fr"));
}

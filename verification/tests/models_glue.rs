//! The data models and the small request checks around the core.
use athletics_api::dburl::parse_database_url;
use athletics_api::password::{hash_password, verify_password};
use athletics_api::points::{
    points_path_user_valid, points_search_params_valid, points_table_needs_seed, Category, Gender,
};
use athletics_api::user::{user_owns_resource, User};

#[test]
fn password_hash_verifies_its_password() {
    let hash = hash_password("Jojo the 123!").expect("hashing works");
    assert!(verify_password("Jojo the 123!", &hash));
    assert_ne!(hash, "Jojo the 123!");
}

#[test]
fn password_verify_rejects_wrong_password() {
    // a low-cost hash keeps the test quick; verification reads the cost
    // from the hash itself
    let hash = pwhash::bcrypt::hash_with(
        pwhash::bcrypt::BcryptSetup { salt: None, cost: Some(4), variant: None },
        "right horse",
    )
    .expect("hashing works");
    assert!(verify_password("right horse", &hash));
    assert!(!verify_password("wrong horse", &hash));
}

#[test]
fn user_exposes_hash_and_dto() {
    let user = User::new(
        7,
        true,
        "Ada".to_owned(),
        "Lovelace".to_owned(),
        "ada@example.com".to_owned(),
        None,
        "some-hash".to_owned(),
    );
    assert_eq!(user.get_hash().as_str(), "some-hash");
    assert_eq!(user.id(), 7);
    let dto = user.to_dto();
    assert_eq!(dto.id, 7);
    assert!(dto.active);
    assert_eq!(dto.first_name, "Ada");
    assert_eq!(dto.last_name, "Lovelace");
    assert_eq!(dto.email, "ada@example.com");
    assert_eq!(dto.phone, None);
}

#[test]
fn ownership_check_compares_ids() {
    assert!(user_owns_resource(3, 3));
    assert!(!user_owns_resource(3, 4));
}

#[test]
fn points_search_needs_exactly_one_criterion() {
    assert!(points_search_params_valid(true, false));
    assert!(points_search_params_valid(false, true));
    assert!(!points_search_params_valid(true, true));
    assert!(!points_search_params_valid(false, false));
}

#[test]
fn points_path_rejects_zero_user() {
    assert!(!points_path_user_valid(0));
    assert!(points_path_user_valid(1));
    assert!(points_path_user_valid(-1));
}

#[test]
fn seeding_stops_once_table_is_full() {
    assert!(points_table_needs_seed(0));
    assert!(points_table_needs_seed(200000));
    assert!(!points_table_needs_seed(200001));
}

#[test]
fn labels_match_table_text() {
    assert_eq!(Gender::Male.label(), "Male");
    assert_eq!(Gender::Female.label(), "Female");
    assert_eq!(Category::Indoor.label(), "Indoor");
    assert_eq!(Category::Outdoor.label(), "Outdoor");
}

#[test]
fn database_url_splits_at_last_slash() {
    assert_eq!(
        parse_database_url("postgres://localhost:5432/mydb"),
        Some(("postgres://localhost:5432".to_owned(), "mydb".to_owned()))
    );
    assert_eq!(parse_database_url("a/b/c"), Some(("a/b".to_owned(), "c".to_owned())));
    assert_eq!(parse_database_url("trailing/"), Some(("trailing".to_owned(), "".to_owned())));
    assert_eq!(parse_database_url("noslash"), None);
    assert_eq!(parse_database_url(""), None);
}

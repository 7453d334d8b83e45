use auth_core::models::{
    is_valid_email, validate_create_user, validate_user_login, CreateUser, UserLogin,
};
use auth_core::users::UsersError;

fn create(username: &str, email: &str, password: &str) -> CreateUser {
    CreateUser {
        username: username.to_string(),
        email: email.to_string(),
        password: password.to_string(),
    }
}

#[test]
fn valid_payload_comes_back_unchanged() {
    let payload = create("ann", "ann@x.com", "hunter2!");
    let out = validate_create_user(payload.clone()).expect("valid payload must pass");
    assert_eq!(out, payload);
}

#[test]
fn valid_login_comes_back_unchanged() {
    let payload = UserLogin { username: "ann".to_string(), password: "hunter2!".to_string() };
    let out = validate_user_login(payload.clone()).expect("valid login must pass");
    assert_eq!(out, payload);
}

#[test]
fn one_message_per_violated_rule_in_field_order() {
    let payload = create("a", "not-an-email", "short");
    match validate_create_user(payload) {
        Err(UsersError::Validator(msgs)) => {
            assert_eq!(
                msgs,
                vec![
                    "username length: minimum = 3, maximum = 30".to_string(),
                    "email not valid".to_string(),
                    "password length: minimum = 8, maximum = 64".to_string(),
                ]
            );
        },
        other => panic!("expected a validation failure, got {:?}", other),
    }
}

#[test]
fn single_violation_reports_only_its_rule() {
    let payload = create("ann", "ann@x.com", "short");
    match validate_create_user(payload) {
        Err(UsersError::Validator(msgs)) => {
            assert_eq!(msgs, vec!["password length: minimum = 8, maximum = 64".to_string()]);
        },
        other => panic!("expected a validation failure, got {:?}", other),
    }
}

#[test]
fn username_bounds_are_inclusive() {
    let at_max = "a".repeat(30);
    assert!(validate_create_user(create(&at_max, "ann@x.com", "hunter2!")).is_ok());
    let over_max = "a".repeat(31);
    assert!(matches!(
        validate_create_user(create(&over_max, "ann@x.com", "hunter2!")),
        Err(UsersError::Validator(_))
    ));
    assert!(validate_create_user(create("abc", "ann@x.com", "hunter2!")).is_ok());
    assert!(matches!(
        validate_create_user(create("ab", "ann@x.com", "hunter2!")),
        Err(UsersError::Validator(_))
    ));
}

#[test]
fn email_shapes() {
    assert!(is_valid_email("ann@x.com"));
    assert!(is_valid_email("first.last@sub.example.org"));
    assert!(!is_valid_email(""));
    assert!(!is_valid_email("ann"));
    assert!(!is_valid_email("ann@x"));
    assert!(!is_valid_email("@x.com"));
    assert!(!is_valid_email("ann@.com"));
    assert!(!is_valid_email("ann@x."));
    assert!(!is_valid_email("a@@x.com"));
    assert!(!is_valid_email("a@b@x.com"));
}

#[test]
fn login_below_minimum_username_length_lists_the_length_rule() {
    let payload = UserLogin { username: "a".to_string(), password: "hunter2!".to_string() };
    match validate_user_login(payload) {
        Err(e) => {
            match &e {
                UsersError::Validator(msgs) => {
                    assert_eq!(
                        msgs,
                        &vec!["username length: minimum = 3, maximum = 30".to_string()]
                    );
                },
                other => panic!("expected a validation failure, got {:?}", other),
            }
            let (status, body) = e.into_response();
            assert_eq!(status, 400);
            assert_eq!(
                body.errors,
                vec!["username length: minimum = 3, maximum = 30".to_string()]
            );
        },
        Ok(_) => panic!("a one-character username must not validate"),
    }
}

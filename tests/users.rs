use learning_rust::credential::{fresh_salt, hash_password, hash_password_with_salt, verify_password, ARGON2_PREFIX};
use learning_rust::error::ApiError;
use learning_rust::product::Timestamp;
use learning_rust::query::SqlValue;
use learning_rust::token::TokenService;
use learning_rust::user::{
    authenticate, check_registration, check_user_update, ensure_unique, find_by_unique_statement,
    is_valid_email, merge_user, plan_registration, plan_user_update, register_statement, user_deleted,
    user_list_statement, validate_password, CreateUser, LoginUser, UniqueField, UpdateUser, User,
    UserFilter, UserResponse, FIND_USER_BY_EMAIL,
};

fn stored(id: u128, password_hash: &str) -> User {
    User {
        id,
        username: "budi".to_string(),
        email: "budi@example.com".to_string(),
        password: password_hash.to_string(),
        created_at: Timestamp { seconds: 1, nanos: 0 },
        updated_at: Timestamp { seconds: 2, nanos: 0 },
    }
}

#[test]
fn email_shape() {
    assert!(is_valid_email("a@b.com"));
    assert!(is_valid_email("first.last+tag@mail.example.org"));
    assert!(!is_valid_email("a@b"));
    assert!(!is_valid_email("a@b.c"));
    assert!(!is_valid_email("@b.com"));
    assert!(!is_valid_email("a b@c.com"));
}

#[test]
fn passwords_need_eight_bytes() {
    assert_eq!(
        validate_password("short"),
        Err(ApiError::BadRequest("Password must be at least 8 characters".to_string()))
    );
    assert_eq!(validate_password("12345678"), Ok(()));
}

#[test]
fn registration_checks_email_then_password() {
    let u = CreateUser { username: "x".to_string(), email: "bad".to_string(), password: "short".to_string() };
    assert_eq!(check_registration(&u), Err(ApiError::BadRequest("Invalid email format".to_string())));
    let u = CreateUser { username: "x".to_string(), email: "a@b.com".to_string(), password: "short".to_string() };
    assert_eq!(
        check_registration(&u),
        Err(ApiError::BadRequest("Password must be at least 8 characters".to_string()))
    );
}

#[test]
fn registration_looks_up_username_then_email() {
    let u = CreateUser { username: "budi".to_string(), email: "a@b.com".to_string(), password: "12345678".to_string() };
    assert_eq!(
        plan_registration(&u),
        Ok(vec![(UniqueField::Username, "budi".to_string()), (UniqueField::Email, "a@b.com".to_string())])
    );
    let bad = CreateUser { username: "budi".to_string(), email: "a@b".to_string(), password: "12345678".to_string() };
    assert_eq!(plan_registration(&bad), Err(ApiError::BadRequest("Invalid email format".to_string())));
}

#[test]
fn second_user_with_same_email_conflicts_on_email() {
    // The first registration found no holder of the address; the second finds the first.
    assert_eq!(ensure_unique(UniqueField::Email, false), Ok(()));
    assert_eq!(
        ensure_unique(UniqueField::Email, true),
        Err(ApiError::Conflict("Email already in use".to_string()))
    );
    let st = find_by_unique_statement(UniqueField::Email, "a@b.com");
    assert_eq!(st.sql, FIND_USER_BY_EMAIL);
    assert_eq!(st.params, vec![SqlValue::Text("a@b.com".to_string())]);
    let e = ApiError::Conflict("Email already in use".to_string()).to_response();
    assert_eq!((e.status, e.message.as_str()), (409, "Email already in use"));
}

#[test]
fn registration_stores_only_a_hash() {
    let u = CreateUser {
        username: "budi".to_string(),
        email: "a@b.com".to_string(),
        password: "rahasia123".to_string(),
    };
    let st = register_statement(&u).unwrap();
    assert_eq!(st.params[0], SqlValue::Text("budi".to_string()));
    assert_eq!(st.params[1], SqlValue::Text("a@b.com".to_string()));
    match &st.params[2] {
        SqlValue::Text(h) => {
            assert_ne!(h, "rahasia123");
            assert_eq!(verify_password("rahasia123", h), Ok(true));
        }
        other => panic!("unexpected parameter {:?}", other),
    }
}

#[test]
fn hashing_twice_salts_differently() {
    let a = hash_password("correct horse").unwrap();
    let b = hash_password("correct horse").unwrap();
    assert_ne!(a, b);
    assert_eq!(verify_password("correct horse", &a), Ok(true));
    assert_eq!(verify_password("correct horse", &b), Ok(true));
    assert_eq!(verify_password("wrong horse", &a), Ok(false));
}

#[test]
fn malformed_hash_is_an_internal_failure() {
    assert!(matches!(verify_password("x", "not a hash"), Err(ApiError::Internal(_))));
}

#[test]
fn updates_look_up_only_changed_unique_fields() {
    let current = stored(1, "h");
    let u = UpdateUser {
        username: Some("budi".to_string()),
        email: Some("new@example.com".to_string()),
        password: None,
    };
    assert_eq!(
        plan_user_update(&current, &u),
        Ok(vec![(UniqueField::Email, "new@example.com".to_string())])
    );
    let u = UpdateUser {
        username: Some("andi".to_string()),
        email: Some("x@example.com".to_string()),
        password: None,
    };
    assert_eq!(
        plan_user_update(&current, &u),
        Ok(vec![
            (UniqueField::Email, "x@example.com".to_string()),
            (UniqueField::Username, "andi".to_string()),
        ])
    );
}

#[test]
fn user_updates_are_checked() {
    let u = UpdateUser { username: None, email: Some("nope".to_string()), password: None };
    assert_eq!(check_user_update(&u), Err(ApiError::BadRequest("Invalid email format".to_string())));
    let u = UpdateUser { username: None, email: None, password: Some("1234".to_string()) };
    assert_eq!(
        check_user_update(&u),
        Err(ApiError::BadRequest("Password must be at least 8 characters".to_string()))
    );
}

#[test]
fn merge_user_hashes_a_new_password() {
    let current = stored(3, "old-hash");
    let u = UpdateUser { username: Some("andi".to_string()), email: None, password: Some("barubaru1".to_string()) };
    let m = merge_user(&current, &u).unwrap();
    assert_eq!(m.username, "andi");
    assert_eq!(m.email, "budi@example.com");
    assert_ne!(m.password, "barubaru1");
    assert_eq!(verify_password("barubaru1", &m.password), Ok(true));
    let keep = UpdateUser { username: None, email: None, password: None };
    assert_eq!(merge_user(&current, &keep).unwrap().password, "old-hash");
}

#[test]
fn user_listing_uses_substring_conditions() {
    let f = UserFilter { username: Some("bu".to_string()), email: None, limit: Some(1), offset: None };
    let st = user_list_statement(&f);
    assert_eq!(
        st.sql,
        "SELECT id, username, email, password, created_at, updated_at FROM users WHERE 1=1 AND username ILIKE $1 ORDER BY username ASC LIMIT $2"
    );
    assert_eq!(st.params, vec![SqlValue::Text("%bu%".to_string()), SqlValue::BigInt(1)]);
}

#[test]
fn deleting_a_missing_user_is_not_found() {
    assert_eq!(
        user_deleted(0, 1),
        Err(ApiError::NotFound("User with ID 00000000-0000-0000-0000-000000000001 not found".to_string()))
    );
}

#[test]
fn login_flows() {
    let tokens = TokenService::new("s3cret".to_string()).unwrap();
    let hash = hash_password("rahasia123").unwrap();
    let login = LoginUser { email: "budi@example.com".to_string(), password: "rahasia123".to_string() };
    assert_eq!(
        authenticate(&login, None, &tokens, 1000).unwrap_err(),
        ApiError::NotFound("Invalid email or password".to_string())
    );
    let wrong = LoginUser { email: "budi@example.com".to_string(), password: "salah".to_string() };
    assert_eq!(
        authenticate(&wrong, Some(stored(5, &hash)), &tokens, 1000).unwrap_err(),
        ApiError::Unauthorized("Invalid email or password".to_string())
    );
    let ok = authenticate(&login, Some(stored(5, &hash)), &tokens, 1000).unwrap();
    assert_eq!(
        ok.user,
        UserResponse::from(stored(5, &hash))
    );
    assert_eq!(tokens.verify_at(&ok.token, 1000), Ok(5));
}

#[test]
fn hashes_are_phc_strings_that_differ_by_salt() {
    let s1 = fresh_salt();
    let s2 = fresh_salt();
    let h1 = hash_password_with_salt("correct horse", &s1).unwrap();
    let h2 = hash_password_with_salt("correct horse", &s2).unwrap();
    assert!(h1.starts_with(ARGON2_PREFIX));
    assert_eq!(h1.len(), ARGON2_PREFIX.len() + 22 + 1 + 43);
    assert_ne!(h1, h2);
    assert_eq!(verify_password("correct horse", &h2), Ok(true));
}

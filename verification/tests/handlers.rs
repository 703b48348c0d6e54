use catalog_backend::auth::auth_middleware;
use catalog_backend::cookie::extract_token;
use catalog_backend::errors::{AppError, StoreError};
use catalog_backend::handlers::{
    create_item, delete_items, get_items, item_lookup_error, list_items, login, login_password,
    login_reply, login_user, register, register_hashed, register_reply, set_cookie_value,
    update_item, update_item_reply,
};
use catalog_backend::models::{CreateUserRequest, LoginRequest, Product, UpdateProduct, User};
use catalog_backend::password::{verify_password, PasswordError};
use catalog_backend::token::{validate_jwt, SigningError, TOKEN_LIFETIME};

const SECRET: &str = "a secret for the tests";
const NOW: usize = 1_700_000_000;
const STORED_HASH: &str = "$2b$04$EGdrhbKUv8Oc9vGiXX0HQOxSg445d458Muh7DAHskb6QbtCvdxcie";
const STORED_PASSWORD: &str = "correctbatteryhorsestapler";

fn stamp(seconds: i64) -> chrono::NaiveDateTime {
    chrono::DateTime::from_timestamp(seconds, 0).unwrap().naive_utc()
}

fn user(username: &str, password_hash: &str) -> User {
    User {
        id: 7,
        username: username.to_string(),
        password_hash: password_hash.to_string(),
        created_at: stamp(1_600_000_000),
    }
}

fn product(id: i32, name: &str) -> Product {
    Product {
        id,
        name: name.to_string(),
        description: Some(String::from("plain")),
        price: rust_decimal::Decimal::new(1999, 2),
        category: String::from("tools"),
        image_url: None,
        created_at: stamp(1_600_000_000),
        updated_at: stamp(1_600_000_500),
    }
}

fn attempt(username: &str, password: &str) -> LoginRequest {
    LoginRequest { username: username.to_string(), password: password.to_string() }
}

fn status(error: &AppError) -> u16 {
    error.status_code.as_u16()
}

/// A user store held in memory: usernames are unique, ids count up from 1.
struct Users {
    rows: Vec<User>,
}

impl Users {
    fn insert(&mut self, username: String, password_hash: String) -> Result<i32, StoreError> {
        if self.rows.iter().any(|row| row.username == username) {
            return Err(StoreError::Database(String::from("duplicate key")));
        }
        let id = self.rows.len() as i32 + 1;
        self.rows.push(User { id, username, password_hash, created_at: stamp(1_600_000_000) });
        Ok(id)
    }

    fn find(&self, username: &str) -> Result<User, StoreError> {
        match self.rows.iter().find(|row| row.username == username) {
            Some(row) => Ok(User {
                id: row.id,
                username: row.username.clone(),
                password_hash: row.password_hash.clone(),
                created_at: row.created_at,
            }),
            None => Err(StoreError::RowNotFound),
        }
    }
}

fn register_in(users: &mut Users, username: &str, password: &str) -> Result<i32, AppError> {
    let payload =
        CreateUserRequest { username: username.to_string(), password: password.to_string() };
    let row = register(payload)?;
    let inserted = users.insert(row.username, row.password_hash);
    register_reply(username, inserted).map(|reply| reply.user_id)
}

#[test]
fn register_twice_conflicts() {
    let mut users = Users { rows: Vec::new() };
    assert_eq!(register_in(&mut users, "alice", "pw1").unwrap(), 1);
    let error = register_in(&mut users, "alice", "pw2").unwrap_err();
    assert_eq!(status(&error), 409);
    assert_eq!(error.message, "User already exists");
    assert_eq!(users.rows.len(), 1);
}

#[test]
fn register_login_and_protected_call() {
    let mut users = Users { rows: Vec::new() };
    register_in(&mut users, "alice", "pw1").unwrap();

    let reply = login(&attempt("alice", "pw1"), users.find("alice"), SECRET, NOW).unwrap();
    assert_eq!(reply.message, "Login successful");
    assert_eq!(reply.username, "alice");
    assert!(reply.set_cookie.starts_with("token="));

    let wrong = login(&attempt("alice", "wrong"), users.find("alice"), SECRET, NOW).unwrap_err();
    assert_eq!(status(&wrong), 401);
    assert_eq!(wrong.message, "Invalid password");

    let cookie = reply.set_cookie.split(';').next().unwrap().to_string();
    let mut calls = 0;
    let admitted = auth_middleware(Some(&cookie), SECRET, NOW + 5, |subject: String| {
        calls += 1;
        subject
    });
    assert_eq!(admitted.unwrap(), "alice");
    assert_eq!(calls, 1);

    let truncated = &cookie[..cookie.len() - 1];
    let refused = auth_middleware(Some(truncated), SECRET, NOW + 5, |subject: String| {
        calls += 1;
        subject
    })
    .unwrap_err();
    assert_eq!(calls, 1);
    assert_eq!(status(&refused), 401);
    assert_eq!(refused.message, "Invalid or expired token");
}

#[test]
fn register_stores_a_hash_and_not_the_password() {
    let row = register(CreateUserRequest {
        username: String::from("alice"),
        password: String::from("pw1"),
    })
    .unwrap();
    assert_eq!(row.username, "alice");
    assert_ne!(row.password_hash, "pw1");
    assert_eq!(verify_password("pw1", &row.password_hash), Ok(true));
}

#[test]
fn register_reports_a_failed_hash_as_locked() {
    let error =
        register_hashed(String::from("alice"), Err(PasswordError::HashingFailed)).unwrap_err();
    assert_eq!(status(&error), 423);
    assert_eq!(error.message, "Failed do hash string");
    let row = register_hashed(String::from("alice"), Ok(String::from("$2b$..."))).unwrap();
    assert_eq!(row.username, "alice");
    assert_eq!(row.password_hash, "$2b$...");
}

#[test]
fn register_reply_names_the_user_and_the_id() {
    let reply = register_reply("alice", Ok(42)).unwrap();
    assert_eq!(reply.message, "Usuário alice criado com sucesso");
    assert_eq!(reply.user_id, 42);
}

#[test]
fn register_reply_turns_every_store_failure_into_a_conflict() {
    for failure in
        [StoreError::RowNotFound, StoreError::Database(String::from("x")), StoreError::Other]
    {
        let error = register_reply("alice", Err(failure)).unwrap_err();
        assert_eq!(status(&error), 409);
        assert_eq!(error.message, "User already exists");
    }
}

#[test]
fn login_sets_the_session_cookie_exactly() {
    let found = Ok(user("alice", STORED_HASH));
    let reply = login(&attempt("alice", STORED_PASSWORD), found, SECRET, NOW).unwrap();
    let token = extract_token(&reply.set_cookie).unwrap();
    assert_eq!(
        reply.set_cookie,
        format!("token={}; HttpOnly; Secure; SameSite=Strict; Path=/; Max-Age=86400", token)
    );
    let claims = validate_jwt(token, SECRET, NOW).unwrap();
    assert_eq!(claims.sub, "alice");
    assert_eq!(claims.exp, NOW + TOKEN_LIFETIME);
}

#[test]
fn login_issues_the_token_for_the_stored_username() {
    let found = Ok(user("Alice", STORED_HASH));
    let reply = login(&attempt("alice", STORED_PASSWORD), found, SECRET, NOW).unwrap();
    assert_eq!(reply.username, "Alice");
    let token = extract_token(&reply.set_cookie).unwrap();
    assert_eq!(validate_jwt(token, SECRET, NOW).unwrap().sub, "Alice");
}

#[test]
fn login_for_an_unknown_user_is_a_404() {
    let error =
        login(&attempt("nobody", "pw1"), Err(StoreError::RowNotFound), SECRET, NOW).unwrap_err();
    assert_eq!(status(&error), 404);
    assert_eq!(error.message, "User not found");
}

#[test]
fn login_when_the_store_fails_is_a_500() {
    for failure in [StoreError::Database(String::from("x")), StoreError::Other] {
        let error = login(&attempt("alice", "pw1"), Err(failure), SECRET, NOW).unwrap_err();
        assert_eq!(status(&error), 500);
        assert_eq!(error.message, "Database error");
    }
}

#[test]
fn login_with_a_wrong_password_is_a_401() {
    let found = Ok(user("alice", STORED_HASH));
    let error = login(&attempt("alice", "wrong"), found, SECRET, NOW).unwrap_err();
    assert_eq!(status(&error), 401);
    assert_eq!(error.message, "Invalid password");
}

#[test]
fn login_against_a_malformed_stored_hash_is_a_500() {
    let found = Ok(user("alice", "plain text password"));
    let error = login(&attempt("alice", "plain text password"), found, SECRET, NOW).unwrap_err();
    assert_eq!(status(&error), 500);
    assert_eq!(error.message, "Password verification failed");
}

#[test]
fn set_cookie_value_carries_the_attributes() {
    assert_eq!(
        set_cookie_value("abc123"),
        "token=abc123; HttpOnly; Secure; SameSite=Strict; Path=/; Max-Age=86400"
    );
    assert_eq!(extract_token(&set_cookie_value("abc123")), Some("abc123"));
}

#[test]
fn list_counts_the_items() {
    let list = list_items(Ok(vec![product(1, "saw"), product(2, "drill")])).unwrap();
    assert_eq!(list.count, 2);
    assert_eq!(list.items.len(), 2);
    assert_eq!(list.items[0].name, "saw");
    assert_eq!(list.items[1].name, "drill");
    let empty = list_items(Ok(Vec::new())).unwrap();
    assert_eq!(empty.count, 0);
}

#[test]
fn list_failure_is_a_500() {
    for failure in
        [StoreError::RowNotFound, StoreError::Database(String::from("x")), StoreError::Other]
    {
        let error = list_items(Err(failure)).unwrap_err();
        assert_eq!(status(&error), 500);
        assert_eq!(error.message, "Failed to fetch items");
    }
}

#[test]
fn get_hands_the_item_on() {
    let item = get_items(Ok(product(3, "saw"))).unwrap();
    assert_eq!(item.id, 3);
    assert_eq!(item.name, "saw");
    assert_eq!(item.price, rust_decimal::Decimal::new(1999, 2));
}

#[test]
fn missing_item_is_a_404_and_other_failures_a_500() {
    let missing = get_items(Err(StoreError::RowNotFound)).unwrap_err();
    assert_eq!(status(&missing), 404);
    assert_eq!(missing.message, "Item not found");
    let broken = get_items(Err(StoreError::Other)).unwrap_err();
    assert_eq!(status(&broken), 500);
    assert_eq!(broken.message, "Database error");
    let rejected = item_lookup_error(StoreError::Database(String::from("x")));
    assert_eq!(status(&rejected), 500);
    assert_eq!(rejected.message, "Database error");
}

#[test]
fn create_answers_with_the_stored_item() {
    let reply = create_item(Ok(product(4, "saw"))).unwrap();
    assert_eq!(reply.message, "Item created successfully");
    assert_eq!(reply.item.id, 4);
    let error = create_item(Err(StoreError::Other)).unwrap_err();
    assert_eq!(status(&error), 500);
    assert_eq!(error.message, "Failed to create item");
}

#[test]
fn update_takes_what_the_change_gives_and_keeps_the_rest() {
    let change = UpdateProduct {
        name: Some(String::from("hand saw")),
        description: None,
        price: Some(rust_decimal::Decimal::new(2500, 2)),
        category: None,
        image_url: Some(String::from("/uploads/items/x.jpg")),
    };
    let merged = update_item(Ok(product(5, "saw")), change).unwrap();
    assert_eq!(merged.name, "hand saw");
    assert_eq!(merged.description, Some(String::from("plain")));
    assert_eq!(merged.price, rust_decimal::Decimal::new(2500, 2));
    assert_eq!(merged.category, "tools");
    assert_eq!(merged.image_url, Some(String::from("/uploads/items/x.jpg")));
}

#[test]
fn empty_update_keeps_the_item() {
    let change = UpdateProduct {
        name: None,
        description: None,
        price: None,
        category: None,
        image_url: None,
    };
    let merged = update_item(Ok(product(5, "saw")), change).unwrap();
    assert_eq!(merged.name, "saw");
    assert_eq!(merged.description, Some(String::from("plain")));
    assert_eq!(merged.price, rust_decimal::Decimal::new(1999, 2));
    assert_eq!(merged.category, "tools");
    assert_eq!(merged.image_url, None);
}

#[test]
fn update_of_a_missing_item_is_a_404() {
    let change = UpdateProduct {
        name: Some(String::from("hand saw")),
        description: None,
        price: None,
        category: None,
        image_url: None,
    };
    let error = update_item(Err(StoreError::RowNotFound), change).unwrap_err();
    assert_eq!(status(&error), 404);
    assert_eq!(error.message, "Item not found");
}

#[test]
fn update_reply_answers_with_the_stored_item() {
    let reply = update_item_reply(Ok(product(5, "hand saw"))).unwrap();
    assert_eq!(reply.message, "Item update successfully");
    assert_eq!(reply.item.name, "hand saw");
    let error = update_item_reply(Err(StoreError::RowNotFound)).unwrap_err();
    assert_eq!(status(&error), 500);
    assert_eq!(error.message, "Failed to update item");
}

#[test]
fn delete_answers_with_the_id() {
    let reply = delete_items(Ok(9)).unwrap();
    assert_eq!(reply.message, "Item deleted successfully");
    assert_eq!(reply.deleted_id, 9);
    let missing = delete_items(Err(StoreError::RowNotFound)).unwrap_err();
    assert_eq!(status(&missing), 404);
    assert_eq!(missing.message, "Item not found");
    let broken = delete_items(Err(StoreError::Other)).unwrap_err();
    assert_eq!(status(&broken), 500);
    assert_eq!(broken.message, "Database error");
}

#[test]
fn login_user_hands_the_user_on_or_says_why_not() {
    let found = login_user(Ok(user("alice", STORED_HASH))).unwrap();
    assert_eq!(found.id, 7);
    assert_eq!(found.username, "alice");
    assert_eq!(found.password_hash, STORED_HASH);
    let missing = login_user(Err(StoreError::RowNotFound)).unwrap_err();
    assert_eq!(status(&missing), 404);
    assert_eq!(missing.message, "User not found");
    let broken = login_user(Err(StoreError::Database(String::from("x")))).unwrap_err();
    assert_eq!(status(&broken), 500);
    assert_eq!(broken.message, "Database error");
}

#[test]
fn login_password_lets_only_a_match_through() {
    assert!(login_password(Ok(true)).is_ok());
    let wrong = login_password(Ok(false)).unwrap_err();
    assert_eq!(status(&wrong), 401);
    assert_eq!(wrong.message, "Invalid password");
    for failure in [PasswordError::MalformedHash, PasswordError::HashingFailed] {
        let broken = login_password(Err(failure)).unwrap_err();
        assert_eq!(status(&broken), 500);
        assert_eq!(broken.message, "Password verification failed");
    }
}

#[test]
fn login_reply_wraps_the_token_or_reports_that_there_is_none() {
    let reply = login_reply(String::from("alice"), Ok(String::from("abc.def.ghi"))).unwrap();
    assert_eq!(
        reply.set_cookie,
        "token=abc.def.ghi; HttpOnly; Secure; SameSite=Strict; Path=/; Max-Age=86400"
    );
    assert_eq!(reply.message, "Login successful");
    assert_eq!(reply.username, "alice");
    let error = login_reply(String::from("alice"), Err(SigningError)).unwrap_err();
    assert_eq!(status(&error), 500);
    assert_eq!(error.message, "Failed to create token");
}

//! What the request handlers decide.
//!
//! A handler talks to the record store and to the client; this module holds
//! the part in between. Each function takes what the store answered and says
//! what the client is told: which reply, or which error under which status
//! code. Where a handler needs the store twice, it is two functions, one for
//! each answer.

use vstd::prelude::*;
use vstd::string::*;

use crate::auth::{authenticate_outcome, AuthFailure};
use crate::cookie::{is_whitespace, token_pair_is_read_back, SEPARATOR};
use crate::errors::{failure, outcome_view, AppError, AppErrorView, StatusCode, StoreError};
use crate::models::{CreateProduct, CreateUserRequest, LoginRequest, Product, UpdateProduct, User};
use crate::password::{hash_password, verify_outcome, verify_password, PasswordError};
use crate::token::{
    create_jwt, hs256_token, is_token_text, ClaimsView, SigningError, TOKEN_LIFETIME,
};

verus! {

/// The row that a registration adds to the store.
#[derive(Debug)]
pub struct NewUser {
    pub username: String,
    pub password_hash: String,
}

/// What a successful registration answers.
#[derive(Debug)]
pub struct RegisterReply {
    pub message: String,
    pub user_id: i32,
}

/// A registration reply as mathematical values.
#[verifier::ext_equal]
pub struct RegisterReplyView {
    pub message: Seq<char>,
    pub user_id: i32,
}

impl View for RegisterReply {
    type V = RegisterReplyView;

    open spec fn view(&self) -> RegisterReplyView {
        RegisterReplyView { message: self.message@, user_id: self.user_id }
    }
}

/// What a successful login answers: the cookie to set and the body.
#[derive(Debug)]
pub struct LoginReply {
    pub set_cookie: String,
    pub message: String,
    pub username: String,
}

/// A login reply as mathematical values.
#[verifier::ext_equal]
pub struct LoginReplyView {
    pub set_cookie: Seq<char>,
    pub message: Seq<char>,
    pub username: Seq<char>,
}

impl View for LoginReply {
    type V = LoginReplyView;

    open spec fn view(&self) -> LoginReplyView {
        LoginReplyView {
            set_cookie: self.set_cookie@,
            message: self.message@,
            username: self.username@,
        }
    }
}

/// The items of the catalog and how many there are.
#[derive(Debug)]
pub struct ItemList {
    pub items: Vec<Product>,
    pub count: usize,
}

/// An item together with what was done to it.
#[derive(Debug)]
pub struct ItemReply {
    pub message: String,
    pub item: Product,
}

/// What a successful deletion answers.
#[derive(Debug)]
pub struct DeleteReply {
    pub message: String,
    pub deleted_id: i32,
}

/// The `Set-Cookie` value that hands a token to the client: kept from
/// scripts, sent over TLS only and to this site only, good for 24 hours.
pub open spec fn session_cookie(token: Seq<char>) -> Seq<char> {
    "token="@ + token + "; HttpOnly; Secure; SameSite=Strict; Path=/; Max-Age=86400"@
}

/// Builds the `Set-Cookie` value for a token.
pub fn set_cookie_value(token: &str) -> (r: String)
    ensures
        r@ == session_cookie(token@),
{
    let mut cookie = String::from_str("token=");
    cookie.append(token);
    cookie.append("; HttpOnly; Secure; SameSite=Strict; Path=/; Max-Age=86400");
    cookie
}

/// What a registration is told once its password has been hashed: the row to
/// insert, or a 423 where hashing failed.
pub fn register_hashed(username: String, hashed: Result<String, PasswordError>) -> (r: Result<
    NewUser,
    AppError,
>)
    ensures
        match hashed {
            Ok(hash) => r == Ok::<NewUser, AppError>(NewUser { username, password_hash: hash }),
            Err(_) => r matches Err(error) && error@ == failure("Failed do hash string"@, 423),
        },
{
    match hashed {
        Ok(password_hash) => Ok(NewUser { username, password_hash }),
        Err(_) => Err(AppError::new("Failed do hash string", StatusCode::locked())),
    }
}

/// Begins a registration: hashes the password and names the row to insert.
/// The row carries the username as given and a hash that verifies against
/// the password as given.
pub fn register(payload: CreateUserRequest) -> (r: Result<NewUser, AppError>)
    ensures
        match r {
            Ok(row) => row.username == payload.username && verify_outcome(
                payload.password@,
                row.password_hash@,
            ) == Ok::<bool, PasswordError>(true),
            Err(error) => error@ == failure("Failed do hash string"@, 423),
        },
{
    let hashed = hash_password(payload.password.as_str());
    register_hashed(payload.username, hashed)
}

/// What a registration answers once the store has been asked to insert the
/// row.
pub open spec fn register_outcome(username: Seq<char>, inserted: Result<i32, StoreError>) -> Result<
    RegisterReplyView,
    AppErrorView,
> {
    match inserted {
        Ok(id) => Ok(
            RegisterReplyView {
                message: "Usuário "@ + username + " criado com sucesso"@,
                user_id: id,
            },
        ),
        Err(_) => Err(failure("User already exists"@, 409)),
    }
}

/// Ends a registration: the new user's id, or a 409 where the store refused
/// the row.
pub fn register_reply(username: &str, inserted: Result<i32, StoreError>) -> (r: Result<
    RegisterReply,
    AppError,
>)
    ensures
        outcome_view(r) == register_outcome(username@, inserted),
{
    match inserted {
        Ok(user_id) => {
            let mut message = String::from_str("Usuário ");
            message.append(username);
            message.append(" criado com sucesso");
            Ok(RegisterReply { message, user_id })
        },
        Err(_) => Err(AppError::new("User already exists", StatusCode::conflict())),
    }
}

/// How a failed search for a user is reported: a 404 where there is no such
/// user, a 500 otherwise.
pub open spec fn user_lookup_failure(error: StoreError) -> AppErrorView {
    match error {
        StoreError::RowNotFound => failure("User not found"@, 404),
        _ => failure("Database error"@, 500),
    }
}

/// Why a login stops at the password, if it does: a stored hash that is no
/// hash is a 500, a password that does not match it a 401.
pub open spec fn password_refusal(verified: Result<bool, PasswordError>) -> Option<AppErrorView> {
    match verified {
        Err(_) => Some(failure("Password verification failed"@, 500)),
        Ok(false) => Some(failure("Invalid password"@, 401)),
        Ok(true) => None,
    }
}

/// What a login answers once the password is accepted: the token in a
/// session cookie, or a 500 where none could be signed.
pub open spec fn login_reply_outcome(username: Seq<char>, token: Option<Seq<char>>) -> Result<
    LoginReplyView,
    AppErrorView,
> {
    match token {
        Some(token) => Ok(
            LoginReplyView {
                set_cookie: session_cookie(token),
                message: "Login successful"@,
                username,
            },
        ),
        None => Err(failure("Failed to create token"@, 500)),
    }
}

/// What a login answers, given what the store found under the username: the
/// first of the three steps to fail decides, and the token is issued at `now`
/// for the username as the store holds it.
pub open spec fn login_outcome(
    password: Seq<char>,
    found: Result<User, StoreError>,
    secret: Seq<char>,
    now: usize,
) -> Result<LoginReplyView, AppErrorView> {
    match found {
        Err(error) => Err(user_lookup_failure(error)),
        Ok(user) => match password_refusal(verify_outcome(password, user.password_hash@)) {
            Some(refusal) => Err(refusal),
            None => login_reply_outcome(
                user.username@,
                hs256_token(user.username@, (now + TOKEN_LIFETIME) as u64, secret),
            ),
        },
    }
}

/// The first step of a login: the user as found, or why there is none.
pub fn login_user(found: Result<User, StoreError>) -> (r: Result<User, AppError>)
    ensures
        match found {
            Ok(user) => r == Ok::<User, AppError>(user),
            Err(error) => r matches Err(e) && e@ == user_lookup_failure(error),
        },
{
    match found {
        Ok(user) => Ok(user),
        Err(StoreError::RowNotFound) => Err(
            AppError::new("User not found", StatusCode::not_found()),
        ),
        Err(_) => Err(AppError::new("Database error", StatusCode::internal_server_error())),
    }
}

/// The second step of a login: whether the verdict on the password lets it
/// go on.
pub fn login_password(verified: Result<bool, PasswordError>) -> (r: Result<(), AppError>)
    ensures
        match password_refusal(verified) {
            Some(refusal) => r matches Err(e) && e@ == refusal,
            None => r is Ok,
        },
{
    match verified {
        Err(_) => Err(
            AppError::new("Password verification failed", StatusCode::internal_server_error()),
        ),
        Ok(false) => Err(AppError::new("Invalid password", StatusCode::unauthorized())),
        Ok(true) => Ok(()),
    }
}

/// The third step of a login: the reply that carries the token issued for
/// `username`.
pub fn login_reply(username: String, issued: Result<String, SigningError>) -> (r: Result<
    LoginReply,
    AppError,
>)
    ensures
        outcome_view(r) == login_reply_outcome(
            username@,
            match issued {
                Ok(token) => Some(token@),
                Err(_) => None,
            },
        ),
{
    match issued {
        Ok(token) => Ok(
            LoginReply {
                set_cookie: set_cookie_value(token.as_str()),
                message: String::from_str("Login successful"),
                username,
            },
        ),
        Err(_) => Err(
            AppError::new("Failed to create token", StatusCode::internal_server_error()),
        ),
    }
}

/// Logs a user in, given what the store found under the username.
///
/// The cookie of a successful reply, sent back as a request's cookie header,
/// authenticates that request as the user at every instant before the token
/// expires.
pub fn login(payload: &LoginRequest, found: Result<User, StoreError>, secret: &str, now: usize) -> (r:
    Result<LoginReply, AppError>)
    requires
        now + TOKEN_LIFETIME <= usize::MAX,
    ensures
        outcome_view(r) == login_outcome(payload.password@, found, secret@, now),
        r matches Ok(reply) ==> forall|at: usize|
            at < now + TOKEN_LIFETIME ==> #[trigger] authenticate_outcome(
                Some(reply.set_cookie@),
                secret@,
                at,
            ) == Ok::<ClaimsView, AuthFailure>(
                ClaimsView { sub: reply.username@, exp: (now + TOKEN_LIFETIME) as usize },
            ),
{
    let user = match login_user(found) {
        Ok(user) => user,
        Err(e) => {
            return Err(e);
        },
    };
    let verified = verify_password(payload.password.as_str(), user.password_hash.as_str());
    match login_password(verified) {
        Ok(()) => {},
        Err(e) => {
            return Err(e);
        },
    }
    let issued = create_jwt(user.username.as_str(), secret, now);
    proof {
        if issued is Ok {
            session_cookie_is_read_back(issued->Ok_0@);
        }
    }
    login_reply(user.username, issued)
}

/// The session cookie of a token, sent back as a cookie header, carries the
/// token.
pub proof fn session_cookie_is_read_back(token: Seq<char>)
    requires
        is_token_text(token),
    ensures
        crate::cookie::session_token(session_cookie(token)) == Some(token),
{
    let attributes = "; HttpOnly; Secure; SameSite=Strict; Path=/; Max-Age=86400"@;
    reveal_strlit("; HttpOnly; Secure; SameSite=Strict; Path=/; Max-Age=86400");
    assert(attributes =~= seq![SEPARATOR] + attributes.skip(1));
    assert forall|i: int| 0 <= i < token.len() implies token[i] != SEPARATOR by {
        assert(crate::token::is_token_char(token[i]));
    }
    if token.len() > 0 {
        assert(crate::token::is_token_char(token.last()));
        assert(!is_whitespace(token.last()));
    }
    token_pair_is_read_back(token, attributes.skip(1));
    assert(session_cookie(token) =~= "token="@ + token + seq![SEPARATOR] + attributes.skip(1));
}

/// Lists the catalog: every item found and their number, or a 500.
pub fn list_items(found: Result<Vec<Product>, StoreError>) -> (r: Result<ItemList, AppError>)
    ensures
        match found {
            Ok(items) => r matches Ok(list) && list.items == items && list.count == items.len(),
            Err(_) => r matches Err(error) && error@ == failure("Failed to fetch items"@, 500),
        },
{
    match found {
        Ok(items) => {
            let count = items.len();
            Ok(ItemList { items, count })
        },
        Err(_) => Err(AppError::new("Failed to fetch items", StatusCode::internal_server_error())),
    }
}

/// How a failed search for one item is reported: a 404 where there is no
/// such item, a 500 otherwise.
pub open spec fn item_lookup_failure(error: StoreError) -> AppErrorView {
    match error {
        StoreError::RowNotFound => failure("Item not found"@, 404),
        _ => failure("Database error"@, 500),
    }
}

/// Reports a failed search for one item.
pub fn item_lookup_error(error: StoreError) -> (e: AppError)
    ensures
        e@ == item_lookup_failure(error),
{
    match error {
        StoreError::RowNotFound => AppError::new("Item not found", StatusCode::not_found()),
        _ => AppError::new("Database error", StatusCode::internal_server_error()),
    }
}

/// Shows one item: the item as found, or why it was not.
pub fn get_items(found: Result<Product, StoreError>) -> (r: Result<Product, AppError>)
    ensures
        match found {
            Ok(item) => r == Ok::<Product, AppError>(item),
            Err(error) => r matches Err(e) && e@ == item_lookup_failure(error),
        },
{
    match found {
        Ok(item) => Ok(item),
        Err(error) => Err(item_lookup_error(error)),
    }
}

/// Answers the creation of an item: the item as stored, or a 500.
pub fn create_item(created: Result<Product, StoreError>) -> (r: Result<ItemReply, AppError>)
    ensures
        match created {
            Ok(item) => r matches Ok(reply) && reply.item == item && reply.message@
                == "Item created successfully"@,
            Err(_) => r matches Err(error) && error@ == failure("Failed to create item"@, 500),
        },
{
    match created {
        Ok(item) => Ok(ItemReply { message: String::from_str("Item created successfully"), item }),
        Err(_) => Err(AppError::new("Failed to create item", StatusCode::internal_server_error())),
    }
}

/// Begins the update of an item, given what the store found under its id:
/// what the item is to be made of, each field taken from the change where it
/// gives one and from the current item where it does not.
pub fn update_item(found: Result<Product, StoreError>, payload: UpdateProduct) -> (r: Result<
    CreateProduct,
    AppError,
>)
    ensures
        match found {
            Ok(current) => r == Ok::<CreateProduct, AppError>(payload.applied_to(current)),
            Err(error) => r matches Err(e) && e@ == item_lookup_failure(error),
        },
{
    match found {
        Ok(current) => Ok(payload.apply(current)),
        Err(error) => Err(item_lookup_error(error)),
    }
}

/// Ends the update of an item: the item as stored, or a 500.
pub fn update_item_reply(updated: Result<Product, StoreError>) -> (r: Result<ItemReply, AppError>)
    ensures
        match updated {
            Ok(item) => r matches Ok(reply) && reply.item == item && reply.message@
                == "Item update successfully"@,
            Err(_) => r matches Err(error) && error@ == failure("Failed to update item"@, 500),
        },
{
    match updated {
        Ok(item) => Ok(ItemReply { message: String::from_str("Item update successfully"), item }),
        Err(_) => Err(AppError::new("Failed to update item", StatusCode::internal_server_error())),
    }
}

/// Answers the deletion of an item: the id of what was deleted, or why
/// nothing was.
pub fn delete_items(deleted: Result<i32, StoreError>) -> (r: Result<DeleteReply, AppError>)
    ensures
        match deleted {
            Ok(id) => r matches Ok(reply) && reply.deleted_id == id && reply.message@
                == "Item deleted successfully"@,
            Err(error) => r matches Err(e) && e@ == item_lookup_failure(error),
        },
{
    match deleted {
        Ok(deleted_id) => Ok(
            DeleteReply { message: String::from_str("Item deleted successfully"), deleted_id },
        ),
        Err(error) => Err(item_lookup_error(error)),
    }
}

} // verus!

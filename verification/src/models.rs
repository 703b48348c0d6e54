//! The records of the store and the bodies of the requests that change them.
//!
//! Prices and timestamps are the store's own values. Nothing here looks
//! inside them; they are carried from the store to the response as they are.

use vstd::prelude::*;

verus! {

/// chrono's date and time without a zone: when a record was made or changed.
#[verifier::external_type_specification]
#[verifier::external_body]
pub struct ExNaiveDateTime(chrono::NaiveDateTime);

/// rust_decimal's decimal number: a price.
#[verifier::external_type_specification]
#[verifier::external_body]
pub struct ExDecimal(rust_decimal::Decimal);

/// A registered user. The password itself is never kept, only its hash.
#[derive(Debug)]
pub struct User {
    pub id: i32,
    pub username: String,
    pub password_hash: String,
    pub created_at: chrono::NaiveDateTime,
}

/// The body of a registration request.
#[derive(Debug)]
pub struct CreateUserRequest {
    pub username: String,
    pub password: String,
}

/// The body of a login request.
#[derive(Debug)]
pub struct LoginRequest {
    pub username: String,
    pub password: String,
}

/// An item of the catalog as the store holds it.
#[derive(Debug)]
pub struct Product {
    pub id: i32,
    pub name: String,
    pub description: Option<String>,
    pub price: rust_decimal::Decimal,
    pub category: String,
    pub image_url: Option<String>,
    pub created_at: chrono::NaiveDateTime,
    pub updated_at: chrono::NaiveDateTime,
}

/// What a new item is made of.
#[derive(Debug)]
pub struct CreateProduct {
    pub name: String,
    pub description: Option<String>,
    pub price: rust_decimal::Decimal,
    pub category: String,
    pub image_url: Option<String>,
}

/// A change to an item: each field either gives a new value or is left out.
#[derive(Debug)]
pub struct UpdateProduct {
    pub name: Option<String>,
    pub description: Option<String>,
    pub price: Option<rust_decimal::Decimal>,
    pub category: Option<String>,
    pub image_url: Option<String>,
}

impl UpdateProduct {
    /// What the item `current` is made of once this change is applied: each
    /// field that the change gives replaces the current one, and each field
    /// that it leaves out keeps it.
    pub open spec fn applied_to(self, current: Product) -> CreateProduct {
        CreateProduct {
            name: match self.name {
                Some(name) => name,
                None => current.name,
            },
            description: match self.description {
                Some(description) => Some(description),
                None => current.description,
            },
            price: match self.price {
                Some(price) => price,
                None => current.price,
            },
            category: match self.category {
                Some(category) => category,
                None => current.category,
            },
            image_url: match self.image_url {
                Some(image_url) => Some(image_url),
                None => current.image_url,
            },
        }
    }

    /// Applies this change to the item `current`.
    pub fn apply(self, current: Product) -> (r: CreateProduct)
        ensures
            r == self.applied_to(current),
    {
        CreateProduct {
            name: match self.name {
                Some(name) => name,
                None => current.name,
            },
            description: match self.description {
                Some(description) => Some(description),
                None => current.description,
            },
            price: match self.price {
                Some(price) => price,
                None => current.price,
            },
            category: match self.category {
                Some(category) => category,
                None => current.category,
            },
            image_url: match self.image_url {
                Some(image_url) => Some(image_url),
                None => current.image_url,
            },
        }
    }
}

/// A change that leaves every field out changes nothing, and one that gives
/// every field leaves nothing of the current item but its place in the store.
pub proof fn apply_keeps_or_replaces(change: UpdateProduct, current: Product, other: Product)
    ensures
        change.name is None && change.description is None && change.price is None
            && change.category is None && change.image_url is None ==> change.applied_to(current)
            == (CreateProduct {
            name: current.name,
            description: current.description,
            price: current.price,
            category: current.category,
            image_url: current.image_url,
        }),
        change.name is Some && change.description is Some && change.price is Some
            && change.category is Some && change.image_url is Some ==> change.applied_to(current)
            == change.applied_to(other),
{
}

} // verus!

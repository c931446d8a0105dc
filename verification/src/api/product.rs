use vstd::prelude::*;
use crate::utils::app_error::{database_error, failure, require_row, AppError, Fetched, BAD_REQUEST, NOT_FOUND};
use crate::utils::text::{as_text, text_of};

verus! {

/// A product as the store holds it.
#[derive(Debug, PartialEq, Eq)]
pub struct Product {
    pub id: i64,
    pub title: String,
    pub price: i32,
    pub category: String,
}

/// The body or query of a request about products. Every field may be left
/// out.
#[derive(Debug, PartialEq, Eq)]
pub struct UpsertModel {
    id: Option<i64>,
    title: Option<String>,
    price: Option<i32>,
    category: Option<String>,
}

/// The mathematical content of an [`UpsertModel`].
pub struct UpsertModelView {
    pub id: Option<i64>,
    pub title: Option<Seq<char>>,
    pub price: Option<i32>,
    pub category: Option<Seq<char>>,
}

impl View for UpsertModel {
    type V = UpsertModelView;

    closed spec fn view(&self) -> UpsertModelView {
        UpsertModelView {
            id: self.id,
            title: text_of(self.title),
            price: self.price,
            category: text_of(self.category),
        }
    }
}

impl UpsertModel {
    pub fn new(
        id: Option<i64>,
        title: Option<String>,
        price: Option<i32>,
        category: Option<String>,
    ) -> (m: UpsertModel)
        ensures
            m@ == (UpsertModelView {
                id,
                title: text_of(title),
                price,
                category: text_of(category),
            }),
    {
        UpsertModel { id, title, price, category }
    }

    pub fn id(&self) -> (id: Option<i64>)
        ensures
            id == self@.id,
    {
        self.id
    }

    pub fn title(&self) -> (title: Option<&str>)
        ensures
            match title {
                Some(t) => self@.title == Some(t@),
                None => self@.title is None,
            },
    {
        as_text(&self.title)
    }

    pub fn price(&self) -> (price: Option<i32>)
        ensures
            price == self@.price,
    {
        self.price
    }

    pub fn category(&self) -> (category: Option<&str>)
        ensures
            match category {
                Some(t) => self@.category == Some(t@),
                None => self@.category is None,
            },
    {
        as_text(&self.category)
    }
}

/// How the conditions of a search combine.
#[derive(Clone, Copy, Debug, PartialEq, Eq, Structural)]
pub enum Combine {
    /// A row has to meet every condition. With no condition every row does.
    All,
    /// A row has to meet one of the conditions.
    Any,
}

/// Which products a search asks for.
#[derive(Debug, PartialEq, Eq)]
pub struct ProductFilter {
    pub combine: Combine,
    /// The id is exactly this.
    pub id: Option<i64>,
    /// The title contains this.
    pub title: Option<String>,
    /// The price is exactly this.
    pub price: Option<i32>,
    /// The category contains this.
    pub category: Option<String>,
}

impl ProductFilter {
    /// Whether the filter puts the fields of `params`, and nothing else, as
    /// its conditions.
    pub open spec fn mirrors(self, params: UpsertModelView) -> bool {
        &&& self.id == params.id
        &&& text_of(self.title) == params.title
        &&& self.price == params.price
        &&& text_of(self.category) == params.category
    }
}

/// A product that is yet to be stored.
#[derive(Debug, PartialEq, Eq)]
pub struct NewProduct {
    pub title: String,
    pub price: i32,
    pub category: String,
}

/// A change to the product `id`: the fields that are given replace what the
/// store holds.
#[derive(Debug, PartialEq, Eq)]
pub struct ProductChange {
    pub id: i64,
    pub title: Option<String>,
    pub price: Option<i32>,
    pub category: Option<String>,
}

/// Reads the query of a search for products: the products that meet every
/// condition given.
pub fn get_product(params: UpsertModel) -> (filter: ProductFilter)
    ensures
        filter.combine == Combine::All,
        filter.mirrors(params@),
{
    ProductFilter {
        combine: Combine::All,
        id: params.id,
        title: params.title,
        price: params.price,
        category: params.category,
    }
}

/// Reads the body of a request that creates a product: title, price and
/// category are required and are asked for in this order.
pub fn post_product(product: UpsertModel) -> (r: Result<NewProduct, AppError>)
    ensures
        match (product@.title, product@.price, product@.category) {
            (None, _, _) => r is Err && r->Err_0@ == failure(BAD_REQUEST, "Title is required"@),
            (Some(_), None, _) => r is Err && r->Err_0@ == failure(
                BAD_REQUEST,
                "Price is required"@,
            ),
            (Some(_), Some(_), None) => r is Err && r->Err_0@ == failure(
                BAD_REQUEST,
                "Category is required"@,
            ),
            (Some(title), Some(price), Some(category)) => {
                &&& r is Ok
                &&& r->Ok_0.title@ == title
                &&& r->Ok_0.price == price
                &&& r->Ok_0.category@ == category
            },
        },
{
    let title = match product.title {
        Some(title) => title,
        None => {
            return Err(AppError::new(BAD_REQUEST, "Title is required"));
        },
    };
    let price = match product.price {
        Some(price) => price,
        None => {
            return Err(AppError::new(BAD_REQUEST, "Price is required"));
        },
    };
    let category = match product.category {
        Some(category) => category,
        None => {
            return Err(AppError::new(BAD_REQUEST, "Category is required"));
        },
    };
    Ok(NewProduct { title, price, category })
}

/// Reads the body of a request that changes a product: the id is required.
pub fn put_product(product: UpsertModel) -> (r: Result<ProductChange, AppError>)
    ensures
        match product@.id {
            None => r is Err && r->Err_0@ == failure(BAD_REQUEST, "Product ID not provided"@),
            Some(id) => {
                &&& r is Ok
                &&& r->Ok_0.id == id
                &&& text_of(r->Ok_0.title) == product@.title
                &&& r->Ok_0.price == product@.price
                &&& text_of(r->Ok_0.category) == product@.category
            },
        },
{
    match product.id {
        None => Err(AppError::new(BAD_REQUEST, "Product ID not provided")),
        Some(id) => Ok(
            ProductChange {
                id,
                title: product.title,
                price: product.price,
                category: product.category,
            },
        ),
    }
}

impl ProductChange {
    /// The product after the change, given what the store holds under the
    /// id: each field that the request names is replaced, the others stay.
    pub fn apply(self, fetched: Fetched<Product>) -> (r: Result<Product, AppError>)
        ensures
            match fetched {
                Fetched::Failed => r is Err && r->Err_0@ == database_error(),
                Fetched::Missing => r is Err && r->Err_0@ == failure(
                    NOT_FOUND,
                    "Product not found"@,
                ),
                Fetched::Row(found) => {
                    &&& r is Ok
                    &&& r->Ok_0.id == self.id
                    &&& r->Ok_0.title@ == match self.title {
                        Some(title) => title@,
                        None => found.title@,
                    }
                    &&& r->Ok_0.price == match self.price {
                        Some(price) => price,
                        None => found.price,
                    }
                    &&& r->Ok_0.category@ == match self.category {
                        Some(category) => category@,
                        None => found.category@,
                    }
                },
            },
    {
        let found = require_row(fetched, "Database error", NOT_FOUND, "Product not found")?;
        let title = match self.title {
            Some(title) => title,
            None => found.title,
        };
        let price = match self.price {
            Some(price) => price,
            None => found.price,
        };
        let category = match self.category {
            Some(category) => category,
            None => found.category,
        };
        Ok(Product { id: self.id, title, price, category })
    }
}

/// Reads the query of a request that deletes a product: the first product
/// that meets one of the conditions given is the one to go.
pub fn delete_product(params: UpsertModel) -> (filter: ProductFilter)
    ensures
        filter.combine == Combine::Any,
        filter.mirrors(params@),
{
    ProductFilter {
        combine: Combine::Any,
        id: params.id,
        title: params.title,
        price: params.price,
        category: params.category,
    }
}

/// The product to delete, given what the search found.
pub fn product_to_delete(fetched: Fetched<Product>) -> (r: Result<Product, AppError>)
    ensures
        match fetched {
            Fetched::Row(found) => r == Ok::<Product, AppError>(found),
            Fetched::Missing => r is Err && r->Err_0@ == failure(NOT_FOUND, "Product not found"@),
            Fetched::Failed => r is Err && r->Err_0@ == database_error(),
        },
{
    require_row(fetched, "Database error", NOT_FOUND, "Product not found")
}

} // verus!

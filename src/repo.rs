use vstd::prelude::*;

use crate::model::{
    BodyView, CreateProductRequest, CreateProductResponse, GetProductBody, GetProductResponse,
    Product, ProductView,
};

verus! {

/// The single table that holds the products, keyed by `id`.
pub const TABLE_NAME: &'static str = "ProductTable";

/// One attribute value of a stored item, as far as this library reads it:
/// a string, or a value of any other kind.
#[derive(Debug, Clone, PartialEq)]
pub enum AttrValue {
    S(String),
    Other,
}

impl View for AttrValue {
    type V = Option<Seq<char>>;

    open spec fn view(&self) -> Option<Seq<char>> {
        match self {
            AttrValue::S(s) => Some(s@),
            AttrValue::Other => None,
        }
    }
}

/// A stored item: its attributes, each under its name. Built from the
/// backend's map of attributes, so no name occurs twice.
#[derive(Debug, Clone, PartialEq)]
pub struct Item {
    pub attrs: Vec<(String, AttrValue)>,
}

impl View for Item {
    type V = Seq<(Seq<char>, Option<Seq<char>>)>;

    open spec fn view(&self) -> Seq<(Seq<char>, Option<Seq<char>>)> {
        self.attrs@.map_values(|e: (String, AttrValue)| (e.0@, e.1@))
    }
}

/// Raised when a matched item lacks one of the four string attributes of a
/// product. The backend never writes an item in part, so this means corruption.
#[derive(Debug, Clone, Copy, PartialEq, Eq, Structural)]
pub enum RepoError {
    IntegrityViolation,
}

/// The string value of the first attribute named `key` at or after position `i`.
pub open spec fn attr_from(
    item: Seq<(Seq<char>, Option<Seq<char>>)>,
    key: Seq<char>,
    i: int,
) -> Option<Seq<char>>
    decreases item.len() - i,
{
    if i < 0 || i >= item.len() {
        None
    } else if item[i].0 == key {
        item[i].1
    } else {
        attr_from(item, key, i + 1)
    }
}

/// The string value stored under `key`, if the item has one.
pub open spec fn string_attr(item: Seq<(Seq<char>, Option<Seq<char>>)>, key: Seq<char>) -> Option<
    Seq<char>,
> {
    attr_from(item, key, 0)
}

/// The product that an item holds, if all four attributes are strings.
pub open spec fn decode_spec(item: Seq<(Seq<char>, Option<Seq<char>>)>) -> Option<ProductView> {
    match (
        string_attr(item, "id"@),
        string_attr(item, "name"@),
        string_attr(item, "description"@),
        string_attr(item, "price"@),
    ) {
        (Some(id), Some(name), Some(description), Some(price)) => Some(
            ProductView { id, name, description, price },
        ),
        _ => None,
    }
}

/// The item written for a product: its four fields as string attributes.
pub open spec fn item_spec(p: ProductView) -> Seq<(Seq<char>, Option<Seq<char>>)> {
    seq![
        ("id"@, Some(p.id)),
        ("name"@, Some(p.name)),
        ("description"@, Some(p.description)),
        ("price"@, Some(p.price)),
    ]
}

/// The response owed for the outcome of a write.
pub open spec fn create_response_spec(written: bool) -> (i32, Seq<char>) {
    if written {
        (201, "Product created successfully"@)
    } else {
        (500, "Failed to create product"@)
    }
}

/// The response owed for a lookup that reached the backend: `None` where the
/// matched item is not a whole product.
pub open spec fn found_response_spec(found: Option<Seq<(Seq<char>, Option<Seq<char>>)>>) -> Option<
    (i32, BodyView),
> {
    match found {
        None => Some((404, BodyView::Message("Product not found"@))),
        Some(item) => match decode_spec(item) {
            Some(p) => Some((200, BodyView::Record(p))),
            None => None,
        },
    }
}

/// The view of what a lookup found.
pub open spec fn found_view(found: Option<Item>) -> Option<Seq<(Seq<char>, Option<Seq<char>>)>> {
    match found {
        Some(item) => Some(item@),
        None => None,
    }
}

/// The response owed for a lookup that failed in the backend.
pub open spec fn lookup_failed_spec() -> (i32, BodyView) {
    (500, BodyView::Message("Failed to retrieve product"@))
}

/// Relies on uuid::Uuid::new_v4, a random version-4 identifier, and on its
/// `Display`, which writes the 36-character hyphenated form.
#[verifier::external_body]
fn mint_id() -> (r: String)
    ensures
        r@.len() == 36,
{
    uuid::Uuid::new_v4().to_string()
}

/// Builds the record to store for a create request, under a freshly minted
/// identifier. Each call draws a new identifier, even for equal payloads.
pub fn mint_product(payload: CreateProductRequest) -> (r: Product)
    ensures
        r.id@.len() == 36,
        r.name@ == payload.name@,
        r.description@ == payload.description@,
        r.price@ == payload.price@,
{
    let id = mint_id();
    Product { id, name: payload.name, description: payload.description, price: payload.price }
}

/// The item to write for a product.
pub fn product_item(p: &Product) -> (r: Item)
    ensures
        r@ == item_spec(p@),
{
    let mut attrs: Vec<(String, AttrValue)> = Vec::new();
    attrs.push(("id".to_string(), AttrValue::S(p.id.clone())));
    attrs.push(("name".to_string(), AttrValue::S(p.name.clone())));
    attrs.push(("description".to_string(), AttrValue::S(p.description.clone())));
    attrs.push(("price".to_string(), AttrValue::S(p.price.clone())));
    let r = Item { attrs };
    assert(r@ =~= item_spec(p@));
    r
}

/// Maps the outcome of the write of a new item to the response: success is
/// reported with its status, a failure with a fixed message, never its cause.
pub fn create_response<T, E>(outcome: &Result<T, E>) -> (r: CreateProductResponse)
    ensures
        r@ == create_response_spec(outcome is Ok),
{
    match outcome {
        Ok(_) => CreateProductResponse {
            status_code: 201,
            body: "Product created successfully".to_string(),
        },
        Err(_) => CreateProductResponse {
            status_code: 500,
            body: "Failed to create product".to_string(),
        },
    }
}

/// The string value stored under `key`, if the item has one.
pub fn find_string_attr(item: &Item, key: &String) -> (r: Option<String>)
    ensures
        r matches Some(s) ==> string_attr(item@, key@) == Some(s@),
        r is None ==> string_attr(item@, key@) is None,
{
    let mut i: usize = 0;
    while i < item.attrs.len()
        invariant
            0 <= i <= item.attrs@.len(),
            attr_from(item@, key@, i as int) == string_attr(item@, key@),
        decreases item.attrs@.len() - i,
    {
        let entry = &item.attrs[i];
        assert(item@[i as int] == (entry.0@, entry.1@));
        if entry.0 == *key {
            return match &entry.1 {
                AttrValue::S(s) => Some(s.clone()),
                AttrValue::Other => None,
            };
        }
        i = i + 1;
    }
    None
}

/// Reads the product that a matched item holds; `None` where an attribute
/// of the four is absent or not a string.
pub fn decode_product(item: &Item) -> (r: Option<Product>)
    ensures
        r matches Some(p) ==> decode_spec(item@) == Some(p@),
        r is None ==> decode_spec(item@) is None,
{
    let id = find_string_attr(item, &"id".to_string());
    let name = find_string_attr(item, &"name".to_string());
    let description = find_string_attr(item, &"description".to_string());
    let price = find_string_attr(item, &"price".to_string());
    match (id, name, description, price) {
        (Some(id), Some(name), Some(description), Some(price)) => Some(
            Product { id, name, description, price },
        ),
        _ => None,
    }
}

/// Maps the outcome of a point lookup to the response. A missing item is a
/// normal outcome (404), distinct from a failed lookup (500); a matched item
/// that is not a whole product is an error of its own.
pub fn get_response<E>(outcome: Result<Option<Item>, E>) -> (r: Result<GetProductResponse, RepoError>)
    ensures
        outcome is Err ==> (r matches Ok(resp) && resp@ == lookup_failed_spec()),
        outcome matches Ok(found) ==> match found_response_spec(found_view(found)) {
            Some(v) => r matches Ok(resp) && resp@ == v,
            None => r == Err::<GetProductResponse, RepoError>(RepoError::IntegrityViolation),
        },
{
    match outcome {
        Ok(Some(item)) => match decode_product(&item) {
            Some(p) => Ok(GetProductResponse { status_code: 200, body: GetProductBody::Product(p) }),
            None => Err(RepoError::IntegrityViolation),
        },
        Ok(None) => Ok(
            GetProductResponse {
                status_code: 404,
                body: GetProductBody::String("Product not found".to_string()),
            },
        ),
        Err(_) => Ok(
            GetProductResponse {
                status_code: 500,
                body: GetProductBody::String("Failed to retrieve product".to_string()),
            },
        ),
    }
}

/// A product written as an item is read back whole: decoding the item gives
/// the same four fields, and a lookup that finds it answers 200 with them.
pub proof fn lemma_item_round_trip(p: ProductView)
    ensures
        decode_spec(item_spec(p)) == Some(p),
        found_response_spec(Some(item_spec(p))) == Some((200i32, BodyView::Record(p))),
{
    reveal_strlit("id");
    reveal_strlit("name");
    reveal_strlit("description");
    reveal_strlit("price");
    let item = item_spec(p);
    // the four names differ in length, hence in value
    assert("id"@.len() == 2 && "name"@.len() == 4);
    assert("description"@.len() == 11 && "price"@.len() == 5);
    assert(attr_from(item, "id"@, 0) == Some(p.id));
    assert(attr_from(item, "name"@, 1) == Some(p.name));
    assert(attr_from(item, "name"@, 0) == Some(p.name));
    assert(attr_from(item, "description"@, 2) == Some(p.description));
    assert(attr_from(item, "description"@, 1) == Some(p.description));
    assert(attr_from(item, "description"@, 0) == Some(p.description));
    assert(attr_from(item, "price"@, 3) == Some(p.price));
    assert(attr_from(item, "price"@, 2) == Some(p.price));
    assert(attr_from(item, "price"@, 1) == Some(p.price));
    assert(attr_from(item, "price"@, 0) == Some(p.price));
}

/// Looking up the same stored item twice gives the same response: the
/// response depends on what the lookup found and on nothing else.
pub proof fn lemma_lookup_deterministic(a: Option<Item>, b: Option<Item>)
    requires
        found_view(a) == found_view(b),
    ensures
        found_response_spec(found_view(a)) == found_response_spec(found_view(b)),
{
}

} // verus!

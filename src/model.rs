use vstd::prelude::*;

verus! {

/// A stored product. `id` is minted by the storage adapter on creation.
#[derive(Debug, Clone, PartialEq)]
pub struct Product {
    pub id: String,
    pub name: String,
    pub description: String,
    pub price: String,
}

/// The mathematical value of a `Product`: its four fields as character sequences.
pub struct ProductView {
    pub id: Seq<char>,
    pub name: Seq<char>,
    pub description: Seq<char>,
    pub price: Seq<char>,
}

impl View for Product {
    type V = ProductView;

    open spec fn view(&self) -> ProductView {
        ProductView {
            id: self.id@,
            name: self.name@,
            description: self.description@,
            price: self.price@,
        }
    }
}

/// The payload of a create request; the identifier is never supplied by the caller.
#[derive(Debug, Clone, PartialEq)]
pub struct CreateProductRequest {
    pub name: String,
    pub description: String,
    pub price: String,
}

/// The envelope returned for a create request: a status code and a message.
#[derive(Debug, Clone, PartialEq)]
pub struct CreateProductResponse {
    pub status_code: i32,
    pub body: String,
}

impl View for CreateProductResponse {
    type V = (i32, Seq<char>);

    open spec fn view(&self) -> (i32, Seq<char>) {
        (self.status_code, self.body@)
    }
}

/// A get request. The lookup key travels under the path parameter `"id"`.
/// The parameters are the entries of a map, so no key occurs twice.
#[derive(Debug, Clone, PartialEq)]
pub struct GetProductRequest {
    pub path_parameters: Option<Vec<(String, String)>>,
}

/// The body of a get response: a plain message or a full record. It is
/// rendered without a tag, so consumers tell the two apart by shape.
#[derive(Debug, Clone, PartialEq)]
pub enum GetProductBody {
    String(String),
    Product(Product),
}

/// The mathematical value of a `GetProductBody`.
pub enum BodyView {
    Message(Seq<char>),
    Record(ProductView),
}

impl View for GetProductBody {
    type V = BodyView;

    open spec fn view(&self) -> BodyView {
        match self {
            GetProductBody::String(s) => BodyView::Message(s@),
            GetProductBody::Product(p) => BodyView::Record(p@),
        }
    }
}

/// The envelope returned for a get request.
#[derive(Debug, Clone, PartialEq)]
pub struct GetProductResponse {
    pub status_code: i32,
    pub body: GetProductBody,
}

impl View for GetProductResponse {
    type V = (i32, BodyView);

    open spec fn view(&self) -> (i32, BodyView) {
        (self.status_code, self.body@)
    }
}

} // verus!

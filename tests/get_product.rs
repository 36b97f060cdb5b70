use rust_lambda::handlers::{get_product_step, id_param, GetProductStep};
use rust_lambda::model::{
    CreateProductRequest, GetProductBody, GetProductRequest, GetProductResponse, Product,
};
use rust_lambda::repo::{
    create_response, decode_product, find_string_attr, get_response, mint_product, product_item,
    AttrValue, Item, RepoError,
};

fn params(entries: &[(&str, &str)]) -> Vec<(String, String)> {
    entries.iter().map(|(k, v)| (k.to_string(), v.to_string())).collect()
}

fn lookup_id(request: &GetProductRequest) -> String {
    match get_product_step(request) {
        GetProductStep::Lookup(id) => id,
        GetProductStep::Respond(r) => panic!("unexpected response {:?}", r),
    }
}

#[test]
fn test_get_product_success() {
    let id = String::from("1");
    let body = GetProductResponse {
        status_code: 200,
        body: GetProductBody::Product(Product {
            id: "1".to_string(),
            name: "Test".to_string(),
            description: "Test".to_string(),
            price: "9.99".to_string(),
        }),
    };
    let request = GetProductRequest { path_parameters: Some(params(&[("id", "1")])) };
    assert_eq!(lookup_id(&request), id);
    let stored = Product {
        id: "1".to_string(),
        name: "Test".to_string(),
        description: "Test".to_string(),
        price: "9.99".to_string(),
    };
    let outcome: Result<Option<Item>, String> = Ok(Some(product_item(&stored)));
    let response = get_response(outcome).unwrap();
    assert_eq!(response.status_code, 200);
    assert_eq!(response.body, body.body);
}

#[test]
fn test_get_product_not_found() {
    let id = String::from("999");
    let body = GetProductResponse {
        status_code: 404,
        body: GetProductBody::String("Product not found".to_string()),
    };
    let request = GetProductRequest { path_parameters: Some(params(&[("id", "999")])) };
    assert_eq!(lookup_id(&request), id);
    let outcome: Result<Option<Item>, String> = Ok(None);
    let response = get_response(outcome).unwrap();
    assert_eq!(response.status_code, 404);
    assert_eq!(response.body, body.body);
}

#[test]
fn failed_lookup_answers_500() {
    let outcome: Result<Option<Item>, String> = Err("DynamoDB error".to_string());
    let response = get_response(outcome).unwrap();
    assert_eq!(response.status_code, 500);
    assert_eq!(response.body, GetProductBody::String("Failed to retrieve product".to_string()));
}

#[test]
fn item_missing_an_attribute_is_an_integrity_violation() {
    let item = Item {
        attrs: vec![
            ("id".to_string(), AttrValue::S("1".to_string())),
            ("name".to_string(), AttrValue::S("Test".to_string())),
            ("price".to_string(), AttrValue::S("9.99".to_string())),
        ],
    };
    let outcome: Result<Option<Item>, String> = Ok(Some(item));
    assert_eq!(get_response(outcome), Err(RepoError::IntegrityViolation));
}

#[test]
fn non_string_attribute_is_an_integrity_violation() {
    let item = Item {
        attrs: vec![
            ("id".to_string(), AttrValue::S("1".to_string())),
            ("name".to_string(), AttrValue::S("Test".to_string())),
            ("description".to_string(), AttrValue::S("Test".to_string())),
            ("price".to_string(), AttrValue::Other),
        ],
    };
    assert_eq!(decode_product(&item), None);
    assert_eq!(find_string_attr(&item, &"price".to_string()), None);
    assert_eq!(find_string_attr(&item, &"name".to_string()), Some("Test".to_string()));
}

#[test]
fn attributes_are_found_in_any_order() {
    let item = Item {
        attrs: vec![
            ("price".to_string(), AttrValue::S("2".to_string())),
            ("extra".to_string(), AttrValue::Other),
            ("description".to_string(), AttrValue::S("d".to_string())),
            ("name".to_string(), AttrValue::S("n".to_string())),
            ("id".to_string(), AttrValue::S("x".to_string())),
        ],
    };
    let p = decode_product(&item).unwrap();
    assert_eq!(p.id, "x");
    assert_eq!(p.name, "n");
    assert_eq!(p.description, "d");
    assert_eq!(p.price, "2");
}

#[test]
fn absent_path_parameters_answer_400() {
    let request = GetProductRequest { path_parameters: None };
    match get_product_step(&request) {
        GetProductStep::Respond(r) => {
            assert_eq!(r.status_code, 400);
            assert_eq!(r.body, GetProductBody::String("id is required".to_string()));
        }
        GetProductStep::Lookup(id) => panic!("the store must not be asked, got {}", id),
    }
}

#[test]
fn parameters_without_id_look_up_the_empty_key() {
    let request = GetProductRequest { path_parameters: Some(params(&[("other", "5")])) };
    assert_eq!(lookup_id(&request), "");
    assert_eq!(id_param(&params(&[])), "");
    assert_eq!(id_param(&params(&[("x", "1"), ("id", "42")])), "42");
}

#[test]
fn repeated_lookups_give_identical_responses() {
    let stored = Product {
        id: "7".to_string(),
        name: "a".to_string(),
        description: "b".to_string(),
        price: "c".to_string(),
    };
    let first = get_response::<String>(Ok(Some(product_item(&stored)))).unwrap();
    let second = get_response::<String>(Ok(Some(product_item(&stored)))).unwrap();
    assert_eq!(first.status_code, second.status_code);
    assert_eq!(first.body, second.body);
    assert_eq!(format!("{:?}", first), format!("{:?}", second));
}

#[test]
fn create_then_get_scenario() {
    let request = CreateProductRequest {
        name: "Test Product".to_string(),
        description: "This is a test product".to_string(),
        price: "19.99".to_string(),
    };
    let product = mint_product(request);
    let item = product_item(&product);
    let write: Result<(), String> = Ok(());
    let created = create_response(&write);
    assert_eq!(created.status_code, 201);
    assert_eq!(created.body, "Product created successfully");

    let get = GetProductRequest { path_parameters: Some(vec![("id".to_string(), product.id.clone())]) };
    assert_eq!(lookup_id(&get), product.id);
    let found = get_response::<String>(Ok(Some(item))).unwrap();
    assert_eq!(found.status_code, 200);
    assert_eq!(
        found.body,
        GetProductBody::Product(Product {
            id: product.id.clone(),
            name: "Test Product".to_string(),
            description: "This is a test product".to_string(),
            price: "19.99".to_string(),
        })
    );

    let other = GetProductRequest { path_parameters: Some(params(&[("id", "999")])) };
    assert_eq!(lookup_id(&other), "999");
    let missing = get_response::<String>(Ok(None)).unwrap();
    assert_eq!(missing.status_code, 404);
    assert_eq!(missing.body, GetProductBody::String("Product not found".to_string()));
}

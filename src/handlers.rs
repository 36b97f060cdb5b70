use vstd::prelude::*;

use crate::model::{BodyView, GetProductBody, GetProductRequest, GetProductResponse};

verus! {

/// What the get handler does next: answer at once, or look the key up in
/// the storage port and answer with what the port returns.
#[derive(Debug, Clone, PartialEq)]
pub enum GetProductStep {
    Respond(GetProductResponse),
    Lookup(String),
}

/// The view of a list of path parameters.
pub open spec fn params_view(ps: Seq<(String, String)>) -> Seq<(Seq<char>, Seq<char>)> {
    ps.map_values(|e: (String, String)| (e.0@, e.1@))
}

/// The value of the first parameter named `key` at or after position `i`.
pub open spec fn param_from(ps: Seq<(Seq<char>, Seq<char>)>, key: Seq<char>, i: int) -> Option<
    Seq<char>,
>
    decreases ps.len() - i,
{
    if i < 0 || i >= ps.len() {
        None
    } else if ps[i].0 == key {
        Some(ps[i].1)
    } else {
        param_from(ps, key, i + 1)
    }
}

/// The lookup key carried by present path parameters: the value under
/// `"id"`, or the empty string where there is none.
pub open spec fn id_param_spec(ps: Seq<(Seq<char>, Seq<char>)>) -> Seq<char> {
    match param_from(ps, "id"@, 0) {
        Some(v) => v,
        None => Seq::empty(),
    }
}

/// The response given when the request carries no path parameters at all.
pub open spec fn id_required_spec() -> (i32, BodyView) {
    (400, BodyView::Message("id is required"@))
}

/// The value under `"id"`, or the empty string where the parameters lack it.
pub fn id_param(ps: &Vec<(String, String)>) -> (r: String)
    ensures
        r@ == id_param_spec(params_view(ps@)),
{
    let key = "id".to_string();
    let mut i: usize = 0;
    while i < ps.len()
        invariant
            0 <= i <= ps@.len(),
            key@ == "id"@,
            param_from(params_view(ps@), key@, i as int) == param_from(params_view(ps@), key@, 0),
        decreases ps@.len() - i,
    {
        let entry = &ps[i];
        assert(params_view(ps@)[i as int] == (entry.0@, entry.1@));
        if entry.0 == key {
            return entry.1.clone();
        }
        i = i + 1;
    }
    String::new()
}

/// Decides what the get handler does with a request. Without path
/// parameters it answers 400 and the storage port is never called; with
/// them it looks up the value under `"id"`, the empty string where that
/// entry is missing.
pub fn get_product_step(request: &GetProductRequest) -> (r: GetProductStep)
    ensures
        request.path_parameters is None ==> (r matches GetProductStep::Respond(resp)
            && resp@ == id_required_spec()),
        request.path_parameters matches Some(ps) ==> (r matches GetProductStep::Lookup(id)
            && id@ == id_param_spec(params_view(ps@))),
{
    match &request.path_parameters {
        Some(ps) => GetProductStep::Lookup(id_param(ps)),
        None => GetProductStep::Respond(
            GetProductResponse {
                status_code: 400,
                body: GetProductBody::String("id is required".to_string()),
            },
        ),
    }
}

} // verus!

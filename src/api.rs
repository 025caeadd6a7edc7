//! The HTTP calls of the three commands, described as plain values.
use vstd::prelude::*;
use crate::text::{dec, decimal};

verus! {

/// The HTTP method of a call.
#[derive(PartialEq, Eq, Structural, Clone, Copy, Debug)]
pub enum Method {
    Get,
    Put,
    Post,
}

impl Method {
    /// The method's name as it stands in a request line.
    pub fn name(&self) -> (r: String)
        ensures
            r@ == method_name(*self),
    {
        match self {
            Method::Get => String::from_str("GET"),
            Method::Put => String::from_str("PUT"),
            Method::Post => String::from_str("POST"),
        }
    }
}

/// The name of a method.
pub open spec fn method_name(m: Method) -> Seq<char> {
    match m {
        Method::Get => "GET"@,
        Method::Put => "PUT"@,
        Method::Post => "POST"@,
    }
}

/// One authenticated call to the marketplace API.
pub struct HttpCall {
    pub method: Method,
    pub url: String,
    /// The value of the `Authorization` header.
    pub authorization: String,
    /// The JSON body, when the call sends one.
    pub body: Option<String>,
}

/// The root of every endpoint.
pub open spec fn base_url() -> Seq<char> {
    "https://console.vast.ai/api/v0"@
}

/// The endpoint that schedules maintenance on a machine.
pub open spec fn maintenance_url(machine_id: u64) -> Seq<char> {
    base_url() + "/machines/"@ + dec(machine_id as nat) + "/dnotify"@
}

/// The endpoint that lists the operator's machines.
pub open spec fn list_url() -> Seq<char> {
    base_url() + "/machines"@
}

/// The endpoint that unlists an instance.
pub open spec fn unlist_url(instance_id: u64) -> Seq<char> {
    base_url() + "/instances/"@ + dec(instance_id as nat) + "/unlist"@
}

/// The `Authorization` header for a key.
pub open spec fn bearer_text(api_key: Seq<char>) -> Seq<char> {
    "Bearer "@ + api_key
}

/// Whether `call` is the call `method url` with the key's header and `body`.
pub open spec fn is_call(
    call: HttpCall,
    method: Method,
    url: Seq<char>,
    api_key: Seq<char>,
    body: Option<Seq<char>>,
) -> bool {
    &&& call.method == method
    &&& call.url@ == url
    &&& call.authorization@ == bearer_text(api_key)
    &&& match (call.body, body) {
        (Some(b), Some(c)) => b@ == c,
        (None, None) => true,
        _ => false,
    }
}

fn base() -> (r: String)
    ensures
        r@ == base_url(),
{
    String::from_str("https://console.vast.ai/api/v0")
}

/// The `Authorization` header for a key.
pub fn bearer(api_key: &str) -> (r: String)
    ensures
        r@ == bearer_text(api_key@),
{
    let mut r = String::from_str("Bearer ");
    r.append(api_key);
    r
}

/// The call that schedules maintenance with the serialized request `body`.
pub fn maintenance_call(machine_id: u64, api_key: &str, body: String) -> (r: HttpCall)
    ensures
        is_call(r, Method::Put, maintenance_url(machine_id), api_key@, Some(body@)),
{
    let mut url = base();
    url.append("/machines/");
    url.append(decimal(machine_id).as_str());
    url.append("/dnotify");
    HttpCall { method: Method::Put, url, authorization: bearer(api_key), body: Some(body) }
}

/// The call that lists the operator's machines.
pub fn list_call(api_key: &str) -> (r: HttpCall)
    ensures
        is_call(r, Method::Get, list_url(), api_key@, None),
{
    let mut url = base();
    url.append("/machines");
    HttpCall { method: Method::Get, url, authorization: bearer(api_key), body: None }
}

/// The call that unlists an instance with the serialized request `body`.
pub fn unlist_call(instance_id: u64, api_key: &str, body: String) -> (r: HttpCall)
    ensures
        is_call(r, Method::Post, unlist_url(instance_id), api_key@, Some(body@)),
{
    let mut url = base();
    url.append("/instances/");
    url.append(decimal(instance_id).as_str());
    url.append("/unlist");
    HttpCall { method: Method::Post, url, authorization: bearer(api_key), body: Some(body) }
}

/// Whether an HTTP status code reports success.
pub open spec fn is_success(code: u16) -> bool {
    200 <= code <= 299
}

/// Accepts a listing response by its status: an error that quotes the
/// status line unless the code is in the 2xx range.
pub fn check_list_status(code: u16, status_line: &str) -> (r: Result<(), String>)
    ensures
        is_success(code) <==> r is Ok,
        r is Err ==> r->Err_0@ == "Request failed with status: "@ + status_line@,
{
    if 200 <= code && code <= 299 {
        Ok(())
    } else {
        let mut m = String::from_str("Request failed with status: ");
        m.append(status_line);
        Err(m)
    }
}

} // verus!

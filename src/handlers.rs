//! What each command decides once its input has been collected.
use vstd::prelude::*;
use crate::api::{
    is_call, maintenance_call, maintenance_url, unlist_call, unlist_url, HttpCall, Method,
};
use crate::models::{is_projection, saved_machines, Machine, SavedMachine};
use crate::presenter::{is_machine_table, machine_table};

verus! {

/// How a listing ends.
pub enum ListOutcome {
    /// The table to show and the projection to cache.
    Shown { table: Vec<String>, cache: Vec<SavedMachine> },
    /// The message to show; nothing is cached.
    Failed { message: String },
}

/// Maintenance: the call to make once the operator has confirmed, with the
/// serialized request `body`; none when the operator cancelled.
pub fn handle_maint(machine_id: u64, body: String, confirmed: bool, api_key: &str) -> (r: Option<
    HttpCall,
>)
    ensures
        r is Some <==> confirmed,
        r is Some ==> is_call(r->0, Method::Put, maintenance_url(machine_id), api_key@, Some(body@)),
{
    if confirmed {
        Some(maintenance_call(machine_id, api_key, body))
    } else {
        None
    }
}

/// Unlisting: the call to make once the operator has confirmed, with the
/// serialized request `body`; none when the operator cancelled.
pub fn handle_unlist(instance_id: u64, body: String, confirmed: bool, api_key: &str) -> (r:
    Option<HttpCall>)
    ensures
        r is Some <==> confirmed,
        r is Some ==> is_call(r->0, Method::Post, unlist_url(instance_id), api_key@, Some(body@)),
{
    if confirmed {
        Some(unlist_call(instance_id, api_key, body))
    } else {
        None
    }
}

/// Listing: the machine table and the cache when the listing came back,
/// the error with its context when it did not.
pub fn handle_list(result: Result<Vec<Machine>, String>) -> (r: ListOutcome)
    requires
        result is Ok ==> forall|i: int|
            0 <= i < result->Ok_0@.len() ==> (#[trigger] result->Ok_0@[i]).gpu_occupancy is Some
                ==> result->Ok_0@[i].gpu_occupancy->0@.len() < u64::MAX,
    ensures
        result is Ok <==> r is Shown,
        r is Shown ==> is_machine_table(result->Ok_0@, r->table@.map_values(|l: String| l@))
            && is_projection(result->Ok_0@, r->cache@),
        r is Failed ==> r->message@ == "Failed to list machines: "@ + result->Err_0@,
{
    match result {
        Ok(machines) => {
            let table = machine_table(&machines);
            let cache = saved_machines(&machines);
            ListOutcome::Shown { table, cache }
        },
        Err(e) => {
            let mut message = String::from_str("Failed to list machines: ");
            message.append(e.as_str());
            ListOutcome::Failed { message }
        },
    }
}

} // verus!

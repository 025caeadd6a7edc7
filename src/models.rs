//! The values that travel between the operator, the library and the API.
use vstd::prelude::*;

verus! {

/// A request to put a machine into maintenance mode.
pub struct MaintRequest {
    /// Start of the window, as an RFC 3339 timestamp with offset.
    pub sdate: String,
    /// Length of the window in hours.
    pub duration: u32,
    pub maintenance_reason: String,
    /// One of the four maintenance categories.
    pub maintenance_category: String,
}

impl MaintRequest {
    pub fn new(
        sdate: String,
        duration: u32,
        maintenance_reason: String,
        maintenance_category: String,
    ) -> (r: Self)
        ensures
            r.sdate@ == sdate@,
            r.duration == duration,
            r.maintenance_reason@ == maintenance_reason@,
            r.maintenance_category@ == maintenance_category@,
    {
        MaintRequest { sdate, duration, maintenance_reason, maintenance_category }
    }
}

/// A request to take an instance off the marketplace.
pub struct UnlistRequest {
    pub id: u64,
}

impl UnlistRequest {
    pub fn new(id: u64) -> (r: Self)
        ensures
            r.id == id,
    {
        UnlistRequest { id }
    }
}

/// One machine of a listing. The metrics are fixed-point numbers: the
/// temperature in tenths of a degree Celsius, the reliability score in
/// ten-thousandths (hundredths of a percent), the earning in ten-thousandths
/// of a dollar per hour.
pub struct Machine {
    pub machine_id: u64,
    pub hostname: String,
    pub gpu_max_cur_temp: Option<i64>,
    pub reliability2: Option<i64>,
    /// One space-separated code per GPU; `D` and `I` mark a rented one.
    pub gpu_occupancy: Option<String>,
    pub earn_hour: Option<i64>,
    pub driver_version: Option<String>,
}

/// The body of a listing: the machines under the key `machines`.
pub struct MachinesResponse {
    pub machines: Vec<Machine>,
}

/// What is kept of a machine between runs, to offer it in a selection.
pub struct SavedMachine {
    pub machine_id: u64,
    pub hostname: String,
}

/// Whether `saved` is the `{id, hostname}` projection of `machines`, in order.
pub open spec fn is_projection(machines: Seq<Machine>, saved: Seq<SavedMachine>) -> bool {
    &&& saved.len() == machines.len()
    &&& forall|i: int|
        0 <= i < saved.len() ==> #[trigger] saved[i].machine_id == machines[i].machine_id
            && saved[i].hostname@ == machines[i].hostname@
}

/// The `{id, hostname}` projection of a listing, as it is cached.
pub fn saved_machines(machines: &Vec<Machine>) -> (r: Vec<SavedMachine>)
    ensures
        is_projection(machines@, r@),
{
    let mut r: Vec<SavedMachine> = Vec::new();
    let mut i: usize = 0;
    while i < machines.len()
        invariant
            i <= machines@.len(),
            r@.len() == i,
            forall|j: int|
                0 <= j < i ==> #[trigger] r@[j].machine_id == machines@[j].machine_id
                    && r@[j].hostname@ == machines@[j].hostname@,
        decreases machines@.len() - i,
    {
        let m = &machines[i];
        r.push(SavedMachine { machine_id: m.machine_id, hostname: m.hostname.clone() });
        i = i + 1;
    }
    r
}

} // verus!

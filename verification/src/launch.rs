//! Launch and terminate planning: what one launch invocation submits, and
//! what is read back from the submission's response. The HTTP submission
//! itself happens outside this crate; these functions build the exact request
//! bodies and pick the values the next step uses.

use vstd::prelude::*;

use crate::catalog::{launchable, lookup_instance_type, lookup_model};
use crate::types::{Catalog, CatalogModel, LaunchRequest, LaunchResponse, Region, TerminateRequest};

verus! {

/// Plan one launch of `gpu` with the SSH key `ssh` against a freshly fetched
/// catalog. Returns a request exactly when `gpu` is launchable; the request
/// targets the first region with capacity, carries the one SSH key, and asks
/// for quantity 1 — one invocation never submits more than one request.
pub fn launch_plan(catalog: &Catalog, gpu: &String, ssh: &String) -> (r: Option<LaunchRequest>)
    ensures
        (r is Some) == launchable(catalog.deep_view(), gpu@),
        r matches Some(req) ==> ({
            let avail = lookup_model(catalog.deep_view(), gpu@)->Some_0;
            &&& req@.region_name == avail.regions[0].name
            &&& req@.instance_type_name == gpu@
            &&& req@.ssh_key_names == seq![ssh@]
            &&& req@.quantity == 1
        }),
{
    match lookup_instance_type(catalog, gpu) {
        Some(i) => {
            let entry = &catalog[i].1;
            if entry.regions_with_capacity_available.len() > 0 {
                let first_region: &Region = &entry.regions_with_capacity_available[0];
                let mut keys: Vec<String> = Vec::new();
                keys.push(ssh.clone());
                proof {
                    assert(keys.deep_view() =~= seq![ssh@]);
                }
                Some(
                    LaunchRequest {
                        region_name: first_region.name.clone(),
                        instance_type_name: gpu.clone(),
                        ssh_key_names: keys,
                        quantity: 1,
                    },
                )
            } else {
                None
            }
        },
        None => None,
    }
}

/// The identifier of the newly created instance: the first one the response
/// lists, or `None` when the response lists none.
pub fn first_instance_id(response: &LaunchResponse) -> (r: Option<String>)
    ensures
        (r is Some) == (response@.instance_ids.len() > 0),
        r matches Some(id) ==> id@ == response@.instance_ids[0],
{
    if response.instance_ids.len() > 0 {
        Some(response.instance_ids[0].clone())
    } else {
        None
    }
}

/// The body of a termination submission: exactly the one targeted identifier.
pub fn terminate_request(instance_id: &String) -> (r: TerminateRequest)
    ensures
        r@.instance_ids == seq![instance_id@],
{
    let mut ids: Vec<String> = Vec::new();
    ids.push(instance_id.clone());
    proof {
        assert(ids.deep_view() =~= seq![instance_id@]);
    }
    TerminateRequest { instance_ids: ids }
}

} // verus!

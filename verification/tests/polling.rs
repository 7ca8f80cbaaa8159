use lambda_cloud::catalog::{available_instance_types, lookup_instance_type};
use lambda_cloud::launch::{first_instance_id, launch_plan, terminate_request};
use lambda_cloud::poller::{next_check_in, poll_decision, PollDecision};
use lambda_cloud::types::{
    Catalog, InstanceSpecs, InstanceType, InstanceTypeResponse, LaunchResponse, Region,
};

fn region(name: &str, description: &str) -> Region {
    Region { name: name.to_string(), description: description.to_string() }
}

fn entry(name: &str, regions: Vec<Region>) -> (String, InstanceTypeResponse) {
    (
        name.to_string(),
        InstanceTypeResponse {
            instance_type: InstanceType {
                name: name.to_string(),
                description: format!("{} machine", name),
                price_cents_per_hour: 110,
                specs: InstanceSpecs { vcpus: 26, memory_gib: 200, storage_gib: 512 },
            },
            regions_with_capacity_available: regions,
        },
    )
}

#[test]
fn launch_targets_first_region() {
    let catalog: Catalog = vec![entry(
        "A100",
        vec![region("us-east-1", "Virginia"), region("us-west-2", "Oregon")],
    )];
    let req = launch_plan(&catalog, &"A100".to_string(), &"my-key".to_string()).unwrap();
    assert_eq!(req.region_name, "us-east-1");
    assert_ne!(req.region_name, "us-west-2");
}

#[test]
fn empty_region_list_is_not_launchable() {
    let catalog: Catalog = vec![entry("A100", vec![])];
    let req = launch_plan(&catalog, &"A100".to_string(), &"my-key".to_string());
    assert!(req.is_none());
    let d = poll_decision(&catalog, &"A100".to_string());
    assert_eq!(d, PollDecision::KeepPolling);
}

#[test]
fn missing_type_is_not_launchable() {
    let catalog: Catalog = vec![entry("H100", vec![region("us-east-1", "Virginia")])];
    assert!(launch_plan(&catalog, &"A100".to_string(), &"my-key".to_string()).is_none());
    assert_eq!(poll_decision(&catalog, &"A100".to_string()), PollDecision::KeepPolling);
    assert!(lookup_instance_type(&catalog, &"A100".to_string()).is_none());
}

#[test]
fn poll_interval_clamps_at_zero() {
    assert_eq!(next_check_in(5, 5), 0);
    assert_eq!(next_check_in(5, 7), 0);
    assert_eq!(next_check_in(10, 3), 7);
    assert_eq!(next_check_in(0, 0), 0);
    assert_eq!(next_check_in(10, 0), 10);
}

#[test]
fn one_launch_submits_quantity_one() {
    let catalog: Catalog = vec![entry(
        "A100",
        vec![
            region("us-east-1", "Virginia"),
            region("us-west-2", "Oregon"),
            region("eu-central-1", "Frankfurt"),
        ],
    )];
    let req = launch_plan(&catalog, &"A100".to_string(), &"my-key".to_string()).unwrap();
    assert_eq!(req.quantity, 1);
    assert_eq!(req.ssh_key_names, vec!["my-key".to_string()]);
    assert_eq!(req.instance_type_name, "A100");
}

#[test]
fn scenario_empty_regions_keeps_polling() {
    // catalog {"A100": regions: []}: a tick observes no capacity, never
    // launches, and the loop continues after the clamped sleep.
    let catalog: Catalog = vec![entry("A100", vec![])];
    let d = poll_decision(&catalog, &"A100".to_string());
    assert_eq!(d, PollDecision::KeepPolling);
    assert!(launch_plan(&catalog, &"A100".to_string(), &"k".to_string()).is_none());
    assert_eq!(next_check_in(5, 1), 4);
}

#[test]
fn scenario_capacity_on_first_tick_launches_once() {
    // catalog {"A100": regions: [{"name":"us-east-1"}]}: the first tick
    // observes capacity and issues one request for us-east-1/A100/quantity 1;
    // the returned identifier is extracted and the status line follows the
    // fetched address.
    let catalog: Catalog = vec![entry("A100", vec![region("us-east-1", "Virginia")])];
    assert_eq!(poll_decision(&catalog, &"A100".to_string()), PollDecision::LaunchNow);
    let req = launch_plan(&catalog, &"A100".to_string(), &"my-key".to_string()).unwrap();
    assert_eq!(req.region_name, "us-east-1");
    assert_eq!(req.instance_type_name, "A100");
    assert_eq!(req.quantity, 1);
    let response = LaunchResponse { instance_ids: vec!["i-0123".to_string()] };
    assert_eq!(first_instance_id(&response), Some("i-0123".to_string()));
}

#[test]
fn lookup_finds_the_named_entry() {
    let catalog: Catalog = vec![
        entry("H100", vec![]),
        entry("A100", vec![region("us-east-1", "Virginia")]),
    ];
    assert_eq!(lookup_instance_type(&catalog, &"A100".to_string()), Some(1));
    assert_eq!(lookup_instance_type(&catalog, &"H100".to_string()), Some(0));
    assert_eq!(lookup_instance_type(&catalog, &"B200".to_string()), None);
}

#[test]
fn empty_launch_response_has_no_id() {
    let response = LaunchResponse { instance_ids: vec![] };
    assert_eq!(first_instance_id(&response), None);
}

#[test]
fn terminate_targets_exactly_one_instance() {
    let req = terminate_request(&"i-42".to_string());
    assert_eq!(req.instance_ids, vec!["i-42".to_string()]);
}

#[test]
fn filter_keeps_order_of_available_entries() {
    let catalog: Catalog = vec![
        entry("A10", vec![region("us-east-1", "Virginia")]),
        entry("A100", vec![]),
        entry("H100", vec![region("us-west-2", "Oregon")]),
    ];
    let kept = available_instance_types(&catalog);
    assert_eq!(kept.len(), 2);
    assert_eq!(kept[0].0, "A10");
    assert_eq!(kept[1].0, "H100");
}

//! Data model: records received from or sent to the provider's API, together
//! with their mathematical views. Each record views to a ghost model whose
//! string fields are `Seq<char>`, so that every contract in this crate can be
//! stated over plain mathematical values.

use vstd::prelude::*;

verus! {

/// The JSON envelope every API endpoint returns: `{ "data": <payload> }`.
pub struct ApiResponse<T> {
    pub data: T,
}

/// A provider data-center location.
pub struct Region {
    pub name: String,
    pub description: String,
}

/// Hardware specification of an instance type.
#[derive(Clone, Copy, PartialEq, Eq, Structural, Debug)]
pub struct InstanceSpecs {
    pub vcpus: u32,
    pub memory_gib: u32,
    pub storage_gib: u32,
}

/// A named hardware configuration with price and specs.
pub struct InstanceType {
    pub name: String,
    pub description: String,
    pub price_cents_per_hour: i32,
    pub specs: InstanceSpecs,
}

/// One catalog entry: an instance type paired with the regions that currently
/// report capacity for it. An empty region list means "not launchable now".
pub struct InstanceTypeResponse {
    pub instance_type: InstanceType,
    pub regions_with_capacity_available: Vec<Region>,
}

/// A running (or pending) instance. Every field is optional because the API
/// returns partial data depending on the lifecycle stage.
pub struct Instance {
    pub id: Option<String>,
    pub instance_type: Option<InstanceType>,
    pub status: Option<String>,
    pub ip: Option<String>,
    pub ssh_key_names: Option<Vec<String>>,
}

/// The payload of a successful launch submission.
pub struct LaunchResponse {
    pub instance_ids: Vec<String>,
}

/// The outbound body of a launch submission.
pub struct LaunchRequest {
    pub region_name: String,
    pub instance_type_name: String,
    pub ssh_key_names: Vec<String>,
    pub quantity: u64,
}

/// The outbound body of a termination submission.
pub struct TerminateRequest {
    pub instance_ids: Vec<String>,
}

/// The catalog as fetched from the provider: type name paired with its
/// current availability, in the order the decoded response presented them.
pub type Catalog = Vec<(String, InstanceTypeResponse)>;

pub ghost struct RegionModel {
    pub name: Seq<char>,
    pub description: Seq<char>,
}

pub ghost struct InstanceTypeModel {
    pub name: Seq<char>,
    pub description: Seq<char>,
    pub price_cents_per_hour: int,
    pub specs: InstanceSpecs,
}

pub ghost struct AvailabilityModel {
    pub instance_type: InstanceTypeModel,
    pub regions: Seq<RegionModel>,
}

pub ghost struct InstanceModel {
    pub id: Option<Seq<char>>,
    pub instance_type: Option<InstanceTypeModel>,
    pub status: Option<Seq<char>>,
    pub ip: Option<Seq<char>>,
    pub ssh_key_names: Option<Seq<Seq<char>>>,
}

pub ghost struct LaunchResponseModel {
    pub instance_ids: Seq<Seq<char>>,
}

pub ghost struct LaunchRequestModel {
    pub region_name: Seq<char>,
    pub instance_type_name: Seq<char>,
    pub ssh_key_names: Seq<Seq<char>>,
    pub quantity: u64,
}

pub ghost struct TerminateRequestModel {
    pub instance_ids: Seq<Seq<char>>,
}

/// The catalog's mathematical value: a sequence of (type name, availability).
pub type CatalogModel = Seq<(Seq<char>, AvailabilityModel)>;

impl View for Region {
    type V = RegionModel;

    open spec fn view(&self) -> RegionModel {
        RegionModel { name: self.name@, description: self.description@ }
    }
}

impl DeepView for Region {
    type V = RegionModel;

    open spec fn deep_view(&self) -> RegionModel {
        self@
    }
}

impl View for InstanceType {
    type V = InstanceTypeModel;

    open spec fn view(&self) -> InstanceTypeModel {
        InstanceTypeModel {
            name: self.name@,
            description: self.description@,
            price_cents_per_hour: self.price_cents_per_hour as int,
            specs: self.specs,
        }
    }
}

impl DeepView for InstanceType {
    type V = InstanceTypeModel;

    open spec fn deep_view(&self) -> InstanceTypeModel {
        self@
    }
}

impl View for InstanceTypeResponse {
    type V = AvailabilityModel;

    open spec fn view(&self) -> AvailabilityModel {
        AvailabilityModel {
            instance_type: self.instance_type@,
            regions: self.regions_with_capacity_available.deep_view(),
        }
    }
}

impl DeepView for InstanceTypeResponse {
    type V = AvailabilityModel;

    open spec fn deep_view(&self) -> AvailabilityModel {
        self@
    }
}

impl View for Instance {
    type V = InstanceModel;

    open spec fn view(&self) -> InstanceModel {
        InstanceModel {
            id: self.id.deep_view(),
            instance_type: self.instance_type.deep_view(),
            status: self.status.deep_view(),
            ip: self.ip.deep_view(),
            ssh_key_names: self.ssh_key_names.deep_view(),
        }
    }
}

impl DeepView for Instance {
    type V = InstanceModel;

    open spec fn deep_view(&self) -> InstanceModel {
        self@
    }
}

impl View for LaunchResponse {
    type V = LaunchResponseModel;

    open spec fn view(&self) -> LaunchResponseModel {
        LaunchResponseModel { instance_ids: self.instance_ids.deep_view() }
    }
}

impl DeepView for LaunchResponse {
    type V = LaunchResponseModel;

    open spec fn deep_view(&self) -> LaunchResponseModel {
        self@
    }
}

impl View for LaunchRequest {
    type V = LaunchRequestModel;

    open spec fn view(&self) -> LaunchRequestModel {
        LaunchRequestModel {
            region_name: self.region_name@,
            instance_type_name: self.instance_type_name@,
            ssh_key_names: self.ssh_key_names.deep_view(),
            quantity: self.quantity,
        }
    }
}

impl DeepView for LaunchRequest {
    type V = LaunchRequestModel;

    open spec fn deep_view(&self) -> LaunchRequestModel {
        self@
    }
}

impl View for TerminateRequest {
    type V = TerminateRequestModel;

    open spec fn view(&self) -> TerminateRequestModel {
        TerminateRequestModel { instance_ids: self.instance_ids.deep_view() }
    }
}

impl DeepView for TerminateRequest {
    type V = TerminateRequestModel;

    open spec fn deep_view(&self) -> TerminateRequestModel {
        self@
    }
}

impl Clone for Region {
    /// Cloning a region keeps its value.
    fn clone(&self) -> (c: Self)
        ensures
            c == *self,
    {
        Region { name: self.name.clone(), description: self.description.clone() }
    }
}

impl Clone for InstanceType {
    /// Cloning an instance type keeps its value.
    fn clone(&self) -> (c: Self)
        ensures
            c == *self,
    {
        InstanceType {
            name: self.name.clone(),
            description: self.description.clone(),
            price_cents_per_hour: self.price_cents_per_hour,
            specs: self.specs,
        }
    }
}

impl Clone for InstanceTypeResponse {
    /// Cloning a catalog entry keeps its mathematical value.
    fn clone(&self) -> (c: Self)
        ensures
            c@ == self@,
    {
        let mut regions: Vec<Region> = Vec::new();
        let n = self.regions_with_capacity_available.len();
        let mut i: usize = 0;
        while i < n
            invariant
                n == self.regions_with_capacity_available@.len(),
                i <= n,
                regions@.len() == i,
                forall|j: int|
                    0 <= j < i ==> regions@[j] == self.regions_with_capacity_available@[j],
            decreases n - i,
        {
            regions.push(self.regions_with_capacity_available[i].clone());
            i += 1;
        }
        proof {
            assert(regions.deep_view() =~= self.regions_with_capacity_available.deep_view());
        }
        InstanceTypeResponse {
            instance_type: self.instance_type.clone(),
            regions_with_capacity_available: regions,
        }
    }
}

} // verus!

//! Catalog lookup and availability filtering: which instance type a GPU name
//! refers to, whether it is launchable, and which catalog entries currently
//! have capacity.

use vstd::prelude::*;

use crate::types::{AvailabilityModel, Catalog, CatalogModel, InstanceTypeResponse};

verus! {

/// The availability record the catalog gives for `gpu`: the first entry whose
/// key is `gpu`, or `None` when no entry has that key.
pub open spec fn lookup_model(catalog: CatalogModel, gpu: Seq<char>) -> Option<AvailabilityModel>
    decreases catalog.len(),
{
    if catalog.len() == 0 {
        None
    } else if catalog[0].0 == gpu {
        Some(catalog[0].1)
    } else {
        lookup_model(catalog.drop_first(), gpu)
    }
}

/// A GPU type is launchable exactly when the catalog lists it and its region
/// list is non-empty.
pub open spec fn launchable(catalog: CatalogModel, gpu: Seq<char>) -> bool {
    match lookup_model(catalog, gpu) {
        Some(avail) => avail.regions.len() > 0,
        None => false,
    }
}

/// An entry can be launched into right now: it has at least one region with
/// capacity.
pub open spec fn entry_available(entry: (Seq<char>, AvailabilityModel)) -> bool {
    entry.1.regions.len() > 0
}

/// The catalog restricted to its available entries, order kept.
pub open spec fn available_model(catalog: CatalogModel) -> CatalogModel
    decreases catalog.len(),
{
    if catalog.len() == 0 {
        Seq::empty()
    } else {
        let rest = available_model(catalog.drop_last());
        if entry_available(catalog.last()) {
            rest.push(catalog.last())
        } else {
            rest
        }
    }
}

/// Every entry the availability filter keeps has at least one region with
/// capacity: the filtered catalog never presents an empty-region entry.
pub proof fn lemma_available_entries_have_capacity(catalog: CatalogModel)
    ensures
        forall|j: int|
            0 <= j < available_model(catalog).len() ==> #[trigger] entry_available(
                available_model(catalog)[j],
            ),
    decreases catalog.len(),
{
    if catalog.len() > 0 {
        lemma_available_entries_have_capacity(catalog.drop_last());
        let rest = available_model(catalog.drop_last());
        assert forall|j: int| 0 <= j < available_model(catalog).len() implies #[trigger] entry_available(
            available_model(catalog)[j],
        ) by {
            if j < rest.len() {
                assert(entry_available(rest[j]));
            } else {
                assert(available_model(catalog)[j] == catalog.last());
            }
        }
    }
}

/// Every available entry of the catalog is kept by the availability filter:
/// nothing with capacity is dropped.
pub proof fn lemma_available_entries_are_kept(catalog: CatalogModel, j: int)
    requires
        0 <= j < catalog.len(),
        entry_available(catalog[j]),
    ensures
        available_model(catalog).contains(catalog[j]),
    decreases catalog.len(),
{
    if j == catalog.len() - 1 {
        assert(available_model(catalog).last() == catalog[j]);
    } else {
        lemma_available_entries_are_kept(catalog.drop_last(), j);
        let rest = available_model(catalog.drop_last());
        let k = choose|k: int| 0 <= k < rest.len() && rest[k] == catalog.drop_last()[j];
        assert(available_model(catalog)[k] == catalog[j]);
    }
}

/// Lowest index of the catalog entry named `gpu`, or `None` when the catalog
/// has no entry of that name.
pub fn lookup_instance_type(catalog: &Catalog, gpu: &String) -> (r: Option<usize>)
    ensures
        match r {
            Some(i) => {
                &&& i < catalog@.len()
                &&& catalog.deep_view()[i as int].0 == gpu@
                &&& forall|j: int| 0 <= j < i ==> catalog.deep_view()[j].0 != gpu@
                &&& lookup_model(catalog.deep_view(), gpu@) == Some(
                    catalog.deep_view()[i as int].1,
                )
            },
            None => lookup_model(catalog.deep_view(), gpu@) is None,
        },
{
    let ghost cm = catalog.deep_view();
    let n = catalog.len();
    proof {
        assert(cm.skip(0) =~= cm);
    }
    let mut i: usize = 0;
    while i < n
        invariant
            cm == catalog.deep_view(),
            cm.len() == catalog@.len(),
            n == catalog@.len(),
            i <= n,
            lookup_model(cm, gpu@) == lookup_model(cm.skip(i as int), gpu@),
            forall|j: int| 0 <= j < i ==> cm[j].0 != gpu@,
        decreases n - i,
    {
        let entry: &(String, InstanceTypeResponse) = &catalog[i];
        proof {
            assert(cm.skip(i as int)[0] == cm[i as int]);
        }
        if entry.0 == *gpu {
            return Some(i);
        }
        proof {
            assert(cm.skip(i as int).drop_first() =~= cm.skip(i as int + 1));
        }
        i += 1;
    }
    proof {
        assert(cm.skip(n as int) =~= Seq::empty());
    }
    None
}

/// The catalog entries that currently have capacity, order kept; the result
/// never holds an entry whose region list is empty.
pub fn available_instance_types(catalog: &Catalog) -> (r: Catalog)
    ensures
        r.deep_view() == available_model(catalog.deep_view()),
{
    let ghost cm = catalog.deep_view();
    let n = catalog.len();
    let mut kept: Catalog = Vec::new();
    let mut i: usize = 0;
    while i < n
        invariant
            cm == catalog.deep_view(),
            cm.len() == catalog@.len(),
            n == catalog@.len(),
            i <= n,
            kept.deep_view() == available_model(cm.take(i as int)),
        decreases n - i,
    {
        let entry: &(String, InstanceTypeResponse) = &catalog[i];
        proof {
            assert(cm.take(i as int + 1).drop_last() =~= cm.take(i as int));
            assert(cm.take(i as int + 1).last() == cm[i as int]);
        }
        if entry.1.regions_with_capacity_available.len() > 0 {
            let ghost before = kept.deep_view();
            kept.push((entry.0.clone(), entry.1.clone()));
            proof {
                assert(kept.deep_view() =~= before.push(cm[i as int]));
            }
        }
        i += 1;
    }
    proof {
        assert(cm.take(n as int) =~= cm);
    }
    kept
}

} // verus!

//! Presentation values: the exact cell strings of the listing tables, decimal
//! rendering of the numeric fields, and the fixed placeholder that stands in
//! for every absent optional field. The terminal itself (tables, colors) is
//! outside this crate; these functions fix what each cell says.

use vstd::prelude::*;

use crate::catalog::{available_instance_types, available_model};
use crate::types::{
    AvailabilityModel, Catalog, CatalogModel, Instance, InstanceModel, InstanceTypeModel,
    InstanceTypeResponse, Region, RegionModel,
};

verus! {

/// What a missing optional field is rendered as.
pub open spec fn placeholder_model() -> Seq<char> {
    "N/A"@
}

/// An optional string field renders as its value, or as the placeholder when
/// it is absent.
pub open spec fn field_or_placeholder(field: Option<Seq<char>>) -> Seq<char> {
    match field {
        Some(s) => s,
        None => placeholder_model(),
    }
}

/// Render an optional string field, substituting the fixed placeholder when
/// the field is absent.
pub fn display_or_placeholder(field: &Option<String>) -> (r: String)
    ensures
        r@ == field_or_placeholder(field.deep_view()),
{
    match field {
        Some(s) => s.clone(),
        None => "N/A".to_owned(),
    }
}

/// The decimal digit characters.
pub open spec fn digit_char(d: nat) -> char {
    if d == 0 {
        '0'
    } else if d == 1 {
        '1'
    } else if d == 2 {
        '2'
    } else if d == 3 {
        '3'
    } else if d == 4 {
        '4'
    } else if d == 5 {
        '5'
    } else if d == 6 {
        '6'
    } else if d == 7 {
        '7'
    } else if d == 8 {
        '8'
    } else {
        '9'
    }
}

/// The usual decimal writing of a natural number: no sign, no leading zero
/// except for the number 0 itself.
pub open spec fn decimal_model(n: nat) -> Seq<char>
    decreases n,
{
    if n < 10 {
        seq![digit_char(n)]
    } else {
        decimal_model(n / 10).push(digit_char(n % 10))
    }
}

/// The decimal writing of an integer: a leading minus sign when negative.
pub open spec fn int_decimal_model(n: int) -> Seq<char> {
    if n < 0 {
        seq!['-'] + decimal_model((-n) as nat)
    } else {
        decimal_model(n as nat)
    }
}

fn digit_str(d: u64) -> (r: &'static str)
    requires
        d < 10,
    ensures
        r@ == seq![digit_char(d as nat)],
{
    if d == 0 {
        proof {
            reveal_strlit("0");
            assert("0"@ =~= seq![digit_char(0)]);
        }
        "0"
    } else if d == 1 {
        proof {
            reveal_strlit("1");
            assert("1"@ =~= seq![digit_char(1)]);
        }
        "1"
    } else if d == 2 {
        proof {
            reveal_strlit("2");
            assert("2"@ =~= seq![digit_char(2)]);
        }
        "2"
    } else if d == 3 {
        proof {
            reveal_strlit("3");
            assert("3"@ =~= seq![digit_char(3)]);
        }
        "3"
    } else if d == 4 {
        proof {
            reveal_strlit("4");
            assert("4"@ =~= seq![digit_char(4)]);
        }
        "4"
    } else if d == 5 {
        proof {
            reveal_strlit("5");
            assert("5"@ =~= seq![digit_char(5)]);
        }
        "5"
    } else if d == 6 {
        proof {
            reveal_strlit("6");
            assert("6"@ =~= seq![digit_char(6)]);
        }
        "6"
    } else if d == 7 {
        proof {
            reveal_strlit("7");
            assert("7"@ =~= seq![digit_char(7)]);
        }
        "7"
    } else if d == 8 {
        proof {
            reveal_strlit("8");
            assert("8"@ =~= seq![digit_char(8)]);
        }
        "8"
    } else {
        proof {
            reveal_strlit("9");
            assert("9"@ =~= seq![digit_char(9)]);
        }
        "9"
    }
}

/// Render an unsigned number in decimal.
pub fn u64_to_decimal(n: u64) -> (r: String)
    ensures
        r@ == decimal_model(n as nat),
    decreases n,
{
    if n < 10 {
        digit_str(n).to_owned()
    } else {
        let mut r = u64_to_decimal(n / 10);
        r.append(digit_str(n % 10));
        proof {
            assert(r@ =~= decimal_model((n / 10) as nat).push(digit_char((n % 10) as nat)));
        }
        r
    }
}

/// Render a signed number in decimal, with a minus sign when negative.
pub fn i32_to_decimal(n: i32) -> (r: String)
    ensures
        r@ == int_decimal_model(n as int),
{
    if n < 0 {
        let magnitude: u64 = (-(n as i64)) as u64;
        let mut r = "-".to_owned();
        let digits = u64_to_decimal(magnitude);
        r.append(digits.as_str());
        proof {
            reveal_strlit("-");
            assert("-"@ =~= seq!['-']);
        }
        r
    } else {
        u64_to_decimal(n as u64)
    }
}

/// How a region is written in a listing: its name, then its description in
/// parentheses.
pub open spec fn region_label_model(r: RegionModel) -> Seq<char> {
    r.name + " ("@ + r.description + ")"@
}

/// Render one region as `name (description)`.
pub fn region_label(region: &Region) -> (l: String)
    ensures
        l@ == region_label_model(region@),
{
    let mut l = region.name.clone();
    l.append(" (");
    l.append(region.description.as_str());
    l.append(")");
    l
}

/// The labels of a region list, in order.
pub open spec fn region_labels_model(rs: Seq<RegionModel>) -> Seq<Seq<char>> {
    rs.map_values(|r: RegionModel| region_label_model(r))
}

/// Render every region of a list as `name (description)`, order kept.
pub fn region_labels(regions: &Vec<Region>) -> (labels: Vec<String>)
    ensures
        labels.deep_view() == region_labels_model(regions.deep_view()),
{
    let ghost rm = regions.deep_view();
    let n = regions.len();
    let mut labels: Vec<String> = Vec::new();
    let mut i: usize = 0;
    while i < n
        invariant
            rm == regions.deep_view(),
            rm.len() == regions@.len(),
            n == regions@.len(),
            i <= n,
            labels.deep_view() =~= region_labels_model(rm.take(i as int)),
        decreases n - i,
    {
        let label = region_label(&regions[i]);
        let ghost before = labels.deep_view();
        labels.push(label);
        proof {
            assert(rm[i as int] == regions@[i as int]@);
            assert(labels.deep_view() =~= before.push(label@));
            assert(labels.deep_view() =~= region_labels_model(rm.take(i as int + 1)));
        }
        i += 1;
    }
    proof {
        assert(rm.take(n as int) =~= rm);
    }
    labels
}

/// Comma-separated concatenation, as the listings join their cells.
pub open spec fn join_model(parts: Seq<Seq<char>>) -> Seq<char>
    decreases parts.len(),
{
    if parts.len() == 0 {
        Seq::empty()
    } else if parts.len() == 1 {
        parts[0]
    } else {
        join_model(parts.drop_last()) + ", "@ + parts.last()
    }
}

/// Join strings with `", "` between them.
pub fn join_comma(parts: &Vec<String>) -> (r: String)
    ensures
        r@ == join_model(parts.deep_view()),
{
    let ghost pm = parts.deep_view();
    let n = parts.len();
    let mut r = String::new();
    proof {
        assert(pm.take(0) =~= Seq::<Seq<char>>::empty());
    }
    let mut i: usize = 0;
    while i < n
        invariant
            pm == parts.deep_view(),
            pm.len() == parts@.len(),
            n == parts@.len(),
            i <= n,
            r@ == join_model(pm.take(i as int)),
        decreases n - i,
    {
        if i > 0 {
            r.append(", ");
        }
        r.append(parts[i].as_str());
        proof {
            assert(pm.take(i as int + 1).drop_last() =~= pm.take(i as int));
            assert(pm.take(i as int + 1).last() == pm[i as int]);
            if i == 0 {
                assert(r@ =~= pm[0]);
            }
        }
        i += 1;
    }
    proof {
        assert(pm.take(n as int) =~= pm);
    }
    r
}

/// The cell for an instance's type: the type's name, or the placeholder when
/// the type is absent.
pub open spec fn type_name_or_placeholder(t: Option<InstanceTypeModel>) -> Seq<char> {
    match t {
        Some(m) => m.name,
        None => placeholder_model(),
    }
}

/// The cell for an instance's SSH keys: the names joined with `", "`, or the
/// placeholder when the list is absent.
pub open spec fn keys_or_placeholder(keys: Option<Seq<Seq<char>>>) -> Seq<char> {
    match keys {
        Some(parts) => join_model(parts),
        None => placeholder_model(),
    }
}

/// One row of the running-instances listing: id, type, status, address, SSH
/// keys, each absent field standing as the placeholder independently.
pub open spec fn instance_row_model(m: InstanceModel) -> Seq<Seq<char>> {
    seq![
        field_or_placeholder(m.id),
        type_name_or_placeholder(m.instance_type),
        field_or_placeholder(m.status),
        field_or_placeholder(m.ip),
        keys_or_placeholder(m.ssh_key_names),
    ]
}

/// Render one instance as its listing row.
pub fn instance_row(instance: &Instance) -> (row: Vec<String>)
    ensures
        row.deep_view() == instance_row_model(instance@),
{
    let mut row: Vec<String> = Vec::new();
    row.push(display_or_placeholder(&instance.id));
    let type_cell = match &instance.instance_type {
        Some(t) => t.name.clone(),
        None => "N/A".to_owned(),
    };
    row.push(type_cell);
    row.push(display_or_placeholder(&instance.status));
    row.push(display_or_placeholder(&instance.ip));
    let keys_cell = match &instance.ssh_key_names {
        Some(keys) => join_comma(keys),
        None => "N/A".to_owned(),
    };
    row.push(keys_cell);
    proof {
        assert(row.deep_view() =~= instance_row_model(instance@));
    }
    row
}

/// The rows of the running-instances listing, one per instance, in order.
pub open spec fn instance_rows_model(ms: Seq<InstanceModel>) -> Seq<Seq<Seq<char>>> {
    ms.map_values(|m: InstanceModel| instance_row_model(m))
}

/// Render the running-instances listing.
pub fn instance_rows(instances: &Vec<Instance>) -> (rows: Vec<Vec<String>>)
    ensures
        rows.deep_view() == instance_rows_model(instances.deep_view()),
{
    let ghost im = instances.deep_view();
    let n = instances.len();
    let mut rows: Vec<Vec<String>> = Vec::new();
    let mut i: usize = 0;
    while i < n
        invariant
            im == instances.deep_view(),
            im.len() == instances@.len(),
            n == instances@.len(),
            i <= n,
            rows.deep_view() =~= instance_rows_model(im.take(i as int)),
        decreases n - i,
    {
        let row = instance_row(&instances[i]);
        let ghost before = rows.deep_view();
        rows.push(row);
        proof {
            assert(im[i as int] == instances@[i as int]@);
            assert(rows.deep_view() =~= before.push(instance_row_model(im[i as int])));
            assert(rows.deep_view() =~= instance_rows_model(im.take(i as int + 1)));
        }
        i += 1;
    }
    proof {
        assert(im.take(n as int) =~= im);
    }
    rows
}

/// One row of the instance-types listing: name, description, price, vCPUs,
/// memory, storage, and the joined region labels.
pub open spec fn instance_type_row_model(name: Seq<char>, avail: AvailabilityModel) -> Seq<
    Seq<char>,
> {
    seq![
        name,
        avail.instance_type.description,
        int_decimal_model(avail.instance_type.price_cents_per_hour),
        decimal_model(avail.instance_type.specs.vcpus as nat),
        decimal_model(avail.instance_type.specs.memory_gib as nat),
        decimal_model(avail.instance_type.specs.storage_gib as nat),
        join_model(region_labels_model(avail.regions)),
    ]
}

/// Render one catalog entry as its listing row.
pub fn instance_type_row(name: &String, entry: &InstanceTypeResponse) -> (row: Vec<String>)
    ensures
        row.deep_view() == instance_type_row_model(name@, entry@),
{
    let labels = region_labels(&entry.regions_with_capacity_available);
    let mut row: Vec<String> = Vec::new();
    row.push(name.clone());
    row.push(entry.instance_type.description.clone());
    row.push(i32_to_decimal(entry.instance_type.price_cents_per_hour));
    row.push(u64_to_decimal(entry.instance_type.specs.vcpus as u64));
    row.push(u64_to_decimal(entry.instance_type.specs.memory_gib as u64));
    row.push(u64_to_decimal(entry.instance_type.specs.storage_gib as u64));
    row.push(join_comma(&labels));
    proof {
        assert(row.deep_view() =~= instance_type_row_model(name@, entry@));
    }
    row
}

/// The instance-types listing: one row per catalog entry with capacity, order
/// kept; an entry whose region list is empty never appears.
pub open spec fn available_rows_model(catalog: CatalogModel) -> Seq<Seq<Seq<char>>> {
    available_model(catalog).map_values(
        (|entry: (Seq<char>, AvailabilityModel)| instance_type_row_model(entry.0, entry.1)),
    )
}

/// Render the instance-types listing from a freshly fetched catalog.
pub fn available_instance_type_rows(catalog: &Catalog) -> (rows: Vec<Vec<String>>)
    ensures
        rows.deep_view() == available_rows_model(catalog.deep_view()),
{
    let kept = available_instance_types(catalog);
    let ghost km = kept.deep_view();
    let n = kept.len();
    let mut rows: Vec<Vec<String>> = Vec::new();
    let mut i: usize = 0;
    while i < n
        invariant
            km == kept.deep_view(),
            km.len() == kept@.len(),
            n == kept@.len(),
            i <= n,
            rows.deep_view() =~= km.take(i as int).map_values(
                (|entry: (Seq<char>, AvailabilityModel)| instance_type_row_model(
                    entry.0,
                    entry.1,
                )),
            ),
        decreases n - i,
    {
        let entry: &(String, InstanceTypeResponse) = &kept[i];
        let row = instance_type_row(&entry.0, &entry.1);
        let ghost before = rows.deep_view();
        rows.push(row);
        proof {
            assert(km[i as int] == (kept@[i as int].0@, kept@[i as int].1@));
            assert(rows.deep_view() =~= before.push(
                instance_type_row_model(km[i as int].0, km[i as int].1),
            ));
            assert(rows.deep_view() =~= km.take(i as int + 1).map_values(
                (|entry: (Seq<char>, AvailabilityModel)| instance_type_row_model(
                    entry.0,
                    entry.1,
                )),
            ));
        }
        i += 1;
    }
    proof {
        assert(km.take(n as int) =~= km);
        assert(rows.deep_view() =~= available_rows_model(catalog.deep_view()));
    }
    rows
}

/// The line the launch operation reports after the provisioning wait: the
/// instance's address when it is present, a fixed message otherwise.
pub open spec fn launch_status_model(ip: Option<Seq<char>>) -> Seq<char> {
    match ip {
        Some(addr) => "Instance is active. SSH IP: "@ + addr,
        None => "Instance is active, but IP address is not available yet."@,
    }
}

/// Render the post-launch status line from the fetched instance's address.
pub fn launch_status_line(ip: &Option<String>) -> (r: String)
    ensures
        r@ == launch_status_model(ip.deep_view()),
{
    match ip {
        Some(addr) => {
            let mut r = "Instance is active. SSH IP: ".to_owned();
            r.append(addr.as_str());
            r
        },
        None => "Instance is active, but IP address is not available yet.".to_owned(),
    }
}

} // verus!

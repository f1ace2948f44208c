//! Listing the records of one type.
//!
//! Only the disk is listed: the cache may hold any subset of the records, and the tiers are
//! never merged. What the listing yields is the backend's to say; this module fixes what is
//! asked, and states what a truthful backend yields.

use crate::insert::InsertView;
use crate::model::Tiers;
use crate::path::{
    is_segment, law_record_lies_under_own_prefix, law_scan_prefix_isolates_types, scan_prefix,
    spec_record_path, spec_scan_prefix,
};
use crate::tier::Tier;
use vstd::prelude::*;

verus! {

/// A listing to be asked of a backend: every path of `tier` that starts with `prefix`.
#[derive(Debug)]
pub struct Scan {
    /// The tier to list.
    pub tier: Tier,
    /// The prefix that the listed paths share.
    pub prefix: String,
}

impl Scan {
    /// The listing of all records of the named type: the disk, under the type's prefix.
    pub fn new(record_type: &str) -> (scan: Scan)
        ensures
            scan.tier == Tier::Disk,
            scan.prefix@ == spec_scan_prefix(record_type@),
    {
        Scan { tier: Tier::Disk, prefix: scan_prefix(record_type) }
    }
}

/// What a scan for the named type yields on the given tiers.
pub open spec fn scanned<V>(tiers: Tiers<V>, record_type: Seq<char>) -> Set<Seq<char>> {
    tiers.listed(Tier::Disk, spec_scan_prefix(record_type))
}

/// A scan yields every record of its type that is on disk, and no record of another type,
/// as long as neither type name contains the separator.
pub proof fn law_scan_yields_own_records_only<V>(
    tiers: Tiers<V>,
    record_type: Seq<char>,
    other_type: Seq<char>,
    key: Seq<char>,
)
    requires
        is_segment(record_type),
        is_segment(other_type),
        record_type != other_type,
    ensures
        scanned(tiers, record_type).contains(spec_record_path(record_type, key))
            == tiers.disk.contains_key(spec_record_path(record_type, key)),
        !scanned(tiers, other_type).contains(spec_record_path(record_type, key)),
{
    law_record_lies_under_own_prefix(record_type, key);
    law_scan_prefix_isolates_types(record_type, other_type, key);
}

/// Namespace isolation: inserting a record of one type adds its path to the scan of that
/// type and leaves the scan of every other type as it was, on tiers that never fail and as
/// long as neither type name contains the separator.
pub proof fn law_insert_shows_in_own_scan_only<V>(
    tiers: Tiers<V>,
    record_type: Seq<char>,
    other_type: Seq<char>,
    key: Seq<char>,
    value: V,
)
    requires
        is_segment(record_type),
        is_segment(other_type),
        record_type != other_type,
    ensures
        ({
            let path = spec_record_path(record_type, key);
            let (_, after) = InsertView::begin(path, value).run(tiers);
            &&& scanned(after, record_type) == scanned(tiers, record_type).insert(path)
            &&& scanned(after, other_type) == scanned(tiers, other_type)
        }),
{
    let path = spec_record_path(record_type, key);
    let (_, after) = InsertView::begin(path, value).run(tiers);
    crate::insert::law_insert_writes_through(tiers, path, value);
    law_record_lies_under_own_prefix(record_type, key);
    law_scan_prefix_isolates_types(record_type, other_type, key);
    assert(scanned(after, record_type) =~= scanned(tiers, record_type).insert(path));
    assert(scanned(after, other_type) =~= scanned(tiers, other_type));
}

} // verus!

//! Namespaced paths: where a record or a counter lives inside a tier's flat key space.

use vstd::prelude::*;
use vstd::string::*;

verus! {

/// First segment of every record path.
pub const STRUCTURED_TREE_NAME: &'static str = "STRUCTURED";

/// First segment of every counter path.
pub const SEQUENCE_TREE_NAME: &'static str = "SEQUENCE";

/// A type whose values can be filed as records.
///
/// The name must be the same at every call and in every process, and differ from the name of
/// every other record type in the store; it should not contain `/`, so that no type's paths
/// lie under another's.
pub trait StorageData: Sized {
    /// The type's name as the contracts see it.
    ///
    /// An implementation that is verified states its name here. The default says nothing
    /// about the name: a type that leaves it alone has the name that `name` returns, and is
    /// taken at its word that this is the same string at every call.
    open spec fn spec_name() -> Seq<char> {
        arbitrary::<spec_fn(Self) -> Seq<char>>()(arbitrary::<Self>())
    }

    /// The name under which records of this type are filed: the same string at every call.
    fn name() -> (name: String)
        ensures
            name@ == Self::spec_name(),
    ;
}

/// The separator between the segments of a path.
pub open spec fn separator() -> Seq<char> {
    seq!['/']
}

/// `STRUCTURED/{record_type}/`: the prefix shared by all records of one type.
pub open spec fn spec_scan_prefix(record_type: Seq<char>) -> Seq<char> {
    STRUCTURED_TREE_NAME@ + separator() + record_type + separator()
}

/// `STRUCTURED/{record_type}/{key}`: the path of one record.
pub open spec fn spec_record_path(record_type: Seq<char>, key: Seq<char>) -> Seq<char> {
    spec_scan_prefix(record_type) + key
}

/// `SEQUENCE/{name}`: the path of one counter.
pub open spec fn spec_sequence_path(name: Seq<char>) -> Seq<char> {
    SEQUENCE_TREE_NAME@ + separator() + name
}

/// Whether a name is free of the separator.
pub open spec fn is_segment(name: Seq<char>) -> bool {
    !name.contains('/')
}

/// Builds the prefix under which all records of the named type are filed.
pub fn scan_prefix(record_type: &str) -> (prefix: String)
    ensures
        prefix@ == spec_scan_prefix(record_type@),
{
    proof {
        reveal_strlit("/");
    }
    let mut prefix = String::from_str(STRUCTURED_TREE_NAME);
    prefix.append("/");
    prefix.append(record_type);
    prefix.append("/");
    assert(prefix@ =~= spec_scan_prefix(record_type@));
    prefix
}

/// Builds the path of the record that the named type files under `key`.
pub fn record_path(record_type: &str, key: &str) -> (path: String)
    ensures
        path@ == spec_record_path(record_type@, key@),
{
    let mut path = scan_prefix(record_type);
    path.append(key);
    path
}

/// Builds the path of the counter called `name`.
pub fn sequence_path(name: &str) -> (path: String)
    ensures
        path@ == spec_sequence_path(name@),
{
    proof {
        reveal_strlit("/");
    }
    let mut path = String::from_str(SEQUENCE_TREE_NAME);
    path.append("/");
    path.append(name);
    assert(path@ =~= spec_sequence_path(name@));
    path
}

/// Builds the path of the record of type `T` filed under `key`.
pub fn build_key<T: StorageData>(key: &str) -> (path: String)
    ensures
        path@ == spec_record_path(T::spec_name(), key@),
{
    let record_type = T::name();
    record_path(record_type.as_str(), key)
}

/// A record lies under the prefix of its own type.
pub proof fn law_record_lies_under_own_prefix(record_type: Seq<char>, key: Seq<char>)
    ensures
        spec_scan_prefix(record_type).is_prefix_of(spec_record_path(record_type, key)),
{
    let prefix = spec_scan_prefix(record_type);
    assert((prefix + key).subrange(0, prefix.len() as int) =~= prefix);
}

/// Within one type, two keys share a path only if they are the same key.
pub proof fn law_record_path_tells_keys_apart(
    record_type: Seq<char>,
    key_a: Seq<char>,
    key_b: Seq<char>,
)
    requires
        spec_record_path(record_type, key_a) == spec_record_path(record_type, key_b),
    ensures
        key_a == key_b,
{
    let prefix = spec_scan_prefix(record_type);
    let n = prefix.len() as int;
    assert((prefix + key_a).subrange(n, (prefix + key_a).len() as int) =~= key_a);
    assert((prefix + key_b).subrange(n, (prefix + key_b).len() as int) =~= key_b);
}

/// Namespace isolation: a record of one type never lies under the prefix of another type,
/// whatever its key, as long as neither type name contains the separator.
pub proof fn law_scan_prefix_isolates_types(
    record_type: Seq<char>,
    other_type: Seq<char>,
    key: Seq<char>,
)
    requires
        is_segment(record_type),
        is_segment(other_type),
        record_type != other_type,
    ensures
        !spec_scan_prefix(other_type).is_prefix_of(spec_record_path(record_type, key)),
{
    let head = STRUCTURED_TREE_NAME@ + separator();
    let h = head.len() as int;
    let path = spec_record_path(record_type, key);
    let prefix = spec_scan_prefix(other_type);
    let a = record_type.len() as int;
    let b = other_type.len() as int;
    if prefix.is_prefix_of(path) {
        assert(forall|i: int| 0 <= i < prefix.len() ==> prefix[i] == path.subrange(
            0,
            prefix.len() as int,
        )[i]);
        assert(forall|i: int| 0 <= i < prefix.len() ==> prefix[i] == path[i]);
        if b < a {
            assert(prefix[h + b] == '/');
            assert(path[h + b] == record_type[b]);
            assert(record_type.contains(record_type[b]));
        } else if a < b {
            assert(path[h + a] == '/');
            assert(prefix[h + a] == other_type[a]);
            assert(other_type.contains(other_type[a]));
        } else {
            assert forall|i: int| 0 <= i < a implies record_type[i] == other_type[i] by {
                assert(path[h + i] == record_type[i]);
                assert(prefix[h + i] == other_type[i]);
            }
            assert(record_type =~= other_type);
        }
    }
}

/// Paths of different record types never collide, as long as neither type name contains the
/// separator: a path determines both the type and the key.
pub proof fn law_record_paths_never_collide(
    type_a: Seq<char>,
    key_a: Seq<char>,
    type_b: Seq<char>,
    key_b: Seq<char>,
)
    requires
        is_segment(type_a),
        is_segment(type_b),
        spec_record_path(type_a, key_a) == spec_record_path(type_b, key_b),
    ensures
        type_a == type_b,
        key_a == key_b,
{
    if type_a != type_b {
        law_record_lies_under_own_prefix(type_b, key_b);
        law_scan_prefix_isolates_types(type_a, type_b, key_a);
    }
    law_record_path_tells_keys_apart(type_a, key_a, key_b);
}

/// Two counters share a path only if they have the same name.
pub proof fn law_sequence_path_tells_names_apart(name_a: Seq<char>, name_b: Seq<char>)
    requires
        spec_sequence_path(name_a) == spec_sequence_path(name_b),
    ensures
        name_a == name_b,
{
    let head = SEQUENCE_TREE_NAME@ + separator();
    let n = head.len() as int;
    assert((head + name_a).subrange(n, (head + name_a).len() as int) =~= name_a);
    assert((head + name_b).subrange(n, (head + name_b).len() as int) =~= name_b);
}

/// The record namespace and the counter namespace are disjoint: no record path is a counter
/// path, whatever the type, the key and the counter's name.
pub proof fn law_records_and_counters_are_disjoint(
    record_type: Seq<char>,
    key: Seq<char>,
    name: Seq<char>,
)
    ensures
        spec_record_path(record_type, key) != spec_sequence_path(name),
{
    reveal_strlit("STRUCTURED");
    reveal_strlit("SEQUENCE");
    assert(spec_record_path(record_type, key)[1] == 'T');
    assert(spec_sequence_path(name)[1] == 'E');
}

} // verus!

//! The weight files of a sharded safetensors checkpoint, from the `weight_map` of its index
//! (which maps every tensor name to the file that holds it).

use vstd::prelude::*;
use crate::text::str_eq;

verus! {

/// The file an entry of the weight map names: entries that are not strings name none.
pub open spec fn entry_file(v: Option<String>) -> Option<Seq<char>> {
    match v {
        Some(s) => Some(s@),
        None => None,
    }
}

/// `name` is the file of some entry of the weight map.
pub open spec fn names_file(values: Seq<Option<String>>, name: Seq<char>) -> bool {
    exists|k: int| 0 <= k < values.len() && entry_file(#[trigger] values[k]) == Some(name)
}

/// The first `k` entries' files are all among `files`.
pub open spec fn covers(files: Seq<String>, values: Seq<Option<String>>, k: int) -> bool {
    forall|m: int|
        0 <= m < k && entry_file(#[trigger] values[m]) is Some ==> exists|i: int|
            0 <= i < files.len() && Some((#[trigger] files[i])@) == entry_file(values[m])
}

/// `files` lists the distinct files named by the weight-map entries `values`: each file once,
/// every named file present, nothing else.
pub open spec fn lists_distinct_files(files: Seq<String>, values: Seq<Option<String>>) -> bool {
    &&& forall|i: int, j: int|
        0 <= i < j < files.len() ==> (#[trigger] files[i])@ != (#[trigger] files[j])@
    &&& forall|i: int| 0 <= i < files.len() ==> names_file(values, (#[trigger] files[i])@)
    &&& covers(files, values, values.len() as int)
}

/// The `weight_map` field of a checkpoint index, as far as the file list depends on it.
pub enum WeightMap {
    /// The index has no `weight_map` field.
    Missing,
    /// The `weight_map` field is not an object.
    NotAMap,
    /// The values of the `weight_map` object, in order: `Some` for a string, `None` for any
    /// other value.
    Entries(Vec<Option<String>>),
}

/// The field of a checkpoint index that maps every tensor name to the file holding it.
pub const WEIGHT_MAP_KEY: &'static str = "weight_map";

/// What `serde_json` gives for the field `key` of the JSON text `text`, as far as a file
/// list depends on it: `None` when the text is not valid JSON.
pub uninterp spec fn parsed_map_field(text: Seq<char>, key: Seq<char>) -> Option<WeightMap>;

/// Parses `text` with `serde_json::from_str` into a JSON value and looks up its field `key`
/// with `Value::get`; the entries of an object are taken in the order the parsed map yields
/// them, strings (`Value::as_str`) as `Some`, other values as `None`. The result depends on
/// the two strings alone.
#[verifier::external_body]
fn parse_map_field(text: &str, key: &str) -> (r: Option<WeightMap>)
    ensures
        r == parsed_map_field(text@, key@),
{
    let json: serde_json::Value = serde_json::from_str(text).ok()?;
    Some(match json.get(key) {
        None => WeightMap::Missing,
        Some(serde_json::Value::Object(map)) => {
            WeightMap::Entries(map.values().map(|v| v.as_str().map(|s| s.to_string())).collect())
        },
        Some(_) => WeightMap::NotAMap,
    })
}

/// Why a checkpoint index lists no weight files.
#[derive(Clone, Copy, Debug, PartialEq, Eq, Structural)]
pub enum IndexError {
    /// The index is not valid JSON.
    InvalidJson,
    /// The index has no `weight_map` field.
    Missing,
    /// The `weight_map` field is not an object.
    NotAMap,
}

/// The distinct weight files named by the `weight_map` of the checkpoint index `text`, or
/// why there are none to read.
pub fn index_weight_files(text: &str) -> (r: Result<Vec<String>, IndexError>)
    ensures
        parsed_map_field(text@, WEIGHT_MAP_KEY@) is None <==> r == Err::<Vec<String>, IndexError>(
            IndexError::InvalidJson,
        ),
        parsed_map_field(text@, WEIGHT_MAP_KEY@) matches Some(WeightMap::Missing) <==> r == Err::<
            Vec<String>,
            IndexError,
        >(IndexError::Missing),
        parsed_map_field(text@, WEIGHT_MAP_KEY@) matches Some(WeightMap::NotAMap) <==> r == Err::<
            Vec<String>,
            IndexError,
        >(IndexError::NotAMap),
        parsed_map_field(text@, WEIGHT_MAP_KEY@) matches Some(WeightMap::Entries(values)) ==> (r matches Ok(files)
            && lists_distinct_files(files@, values@)),
{
    match parse_map_field(text, WEIGHT_MAP_KEY) {
        None => Err(IndexError::InvalidJson),
        Some(WeightMap::Missing) => Err(IndexError::Missing),
        Some(WeightMap::NotAMap) => Err(IndexError::NotAMap),
        Some(WeightMap::Entries(values)) => Ok(distinct_weight_files(&values)),
    }
}

/// Whether `name` is among `files`.
fn contains_name(files: &Vec<String>, name: &String) -> (b: bool)
    ensures
        b == exists|i: int| 0 <= i < files@.len() && (#[trigger] files@[i])@ == name@,
{
    let mut i: usize = 0;
    while i < files.len()
        invariant
            i <= files@.len(),
            forall|j: int| 0 <= j < i ==> (#[trigger] files@[j])@ != name@,
        decreases files@.len() - i,
    {
        if str_eq(files[i].as_str(), name.as_str()) {
            return true;
        }
        i = i + 1;
    }
    false
}

/// The distinct files named by the weight map's entries `values` (`None` for an entry that
/// is not a string): each file once, every named file present, nothing else. The files are
/// gathered in a `Vec` that never holds a name twice: vstd specifies `HashSet` insertion
/// only for keys whose hashing it models (integers, `bool` and boxes of them), not `String`.
pub fn distinct_weight_files(values: &Vec<Option<String>>) -> (files: Vec<String>)
    ensures
        lists_distinct_files(files@, values@),
{
    let mut files: Vec<String> = Vec::new();
    let mut k: usize = 0;
    while k < values.len()
        invariant
            k <= values@.len(),
            forall|i: int, j: int|
                0 <= i < j < files@.len() ==> (#[trigger] files@[i])@ != (#[trigger] files@[j])@,
            forall|i: int| 0 <= i < files@.len() ==> names_file(values@, (#[trigger] files@[i])@),
            covers(files@, values@, k as int),
        decreases values@.len() - k,
    {
        match &values[k] {
            Some(name) => {
                if !contains_name(&files, name) {
                    let ghost before = files@;
                    let copy = name.clone();
                    files.push(copy);
                    proof {
                        assert(files@[files@.len() - 1]@ == name@);
                        assert(entry_file(values@[k as int]) == Some(name@));
                        assert forall|m: int|
                            0 <= m < k + 1 && entry_file(#[trigger] values@[m]) is Some implies exists|i: int|
                                0 <= i < files@.len() && Some((#[trigger] files@[i])@) == entry_file(values@[m]) by {
                            if m < k {
                                let i = choose|i: int|
                                    0 <= i < before.len() && Some((#[trigger] before[i])@) == entry_file(values@[m]);
                                assert(files@[i] == before[i]);
                            } else {
                                assert(files@[files@.len() - 1]@ == name@);
                            }
                        }
                    }
                } else {
                    proof {
                        assert(entry_file(values@[k as int]) == Some(name@));
                        assert forall|m: int|
                            0 <= m < k + 1 && entry_file(#[trigger] values@[m]) is Some implies exists|i: int|
                                0 <= i < files@.len() && Some((#[trigger] files@[i])@) == entry_file(values@[m]) by {
                            if m == k {
                                let i = choose|i: int| 0 <= i < files@.len() && (#[trigger] files@[i])@ == name@;
                                assert(Some(files@[i]@) == entry_file(values@[m]));
                            }
                        }
                    }
                }
            },
            None => {},
        }
        k = k + 1;
    }
    files
}

} // verus!

use vstd::prelude::*;
use crate::error::GenError;
use crate::extract::names_view;

verus! {

#[verifier::external_type_specification]
#[verifier::external_body]
#[verifier::reject_recursive_types(K)]
#[verifier::reject_recursive_types(V)]
pub struct ExJsonMap<K, V>(serde_json::Map<K, V>);

#[verifier::external_type_specification]
#[verifier::external_body]
pub struct ExJsonValue(serde_json::Value);

/// The entries of a JSON object map whose values are JSON strings: each key
/// with the text of its string value.
pub uninterp spec fn string_entries(m: serde_json::Map<String, serde_json::Value>) -> Map<Seq<char>, Seq<char>>;

/// Whether every value of a JSON object map is a JSON string.
pub uninterp spec fn only_strings(m: serde_json::Map<String, serde_json::Value>) -> bool;

/// The compact JSON text of an object whose values are the given strings.
pub uninterp spec fn object_text_of(entries: Map<Seq<char>, Seq<char>>) -> Seq<char>;

/// Relies on serde_json::Map::new: the new map has no entries.
#[verifier::external_body]
fn new_object() -> (r: serde_json::Map<String, serde_json::Value>)
    ensures
        string_entries(r).dom() == Set::<Seq<char>>::empty(),
        only_strings(r),
{
    serde_json::Map::new()
}

/// Relies on serde_json::Map::insert: the key is bound to the string value,
/// replacing an earlier value of that key.
#[verifier::external_body]
fn insert_string(m: &mut serde_json::Map<String, serde_json::Value>, k: String, v: String)
    ensures
        string_entries(*final(m)) == string_entries(*old(m)).insert(k@, v@),
        only_strings(*old(m)) ==> only_strings(*final(m)),
{
    m.insert(k, serde_json::Value::String(v));
}

/// Relies on serde_json's `Display for Value` on `Value::Object`: compact JSON
/// text. The map is ordered by key, so the text depends on the entries alone.
#[verifier::external_body]
fn object_text(m: serde_json::Map<String, serde_json::Value>) -> (r: String)
    requires
        only_strings(m),
    ensures
        r@ == object_text_of(string_entries(m)),
{
    serde_json::Value::Object(m).to_string()
}

/// Whether `i` is the position of the first `:` of `s`.
pub open spec fn is_first_colon(s: Seq<char>, i: int) -> bool {
    0 <= i < s.len() && s[i] == ':' && forall|k: int| 0 <= k < i ==> s[k] != ':'
}

pub open spec fn has_colon(s: Seq<char>) -> bool {
    exists|i: int| 0 <= i < s.len() && s[i] == ':'
}

/// The key of a `key:value` entry: what precedes its first `:`.
pub open spec fn key_of(s: Seq<char>) -> Seq<char> {
    let i = choose|i: int| is_first_colon(s, i);
    s.subrange(0, i)
}

/// The value of a `key:value` entry: what follows its first `:`.
pub open spec fn value_of(s: Seq<char>) -> Seq<char> {
    let i = choose|i: int| is_first_colon(s, i);
    s.subrange(i + 1, s.len() as int)
}

/// The object that the entries make, a later entry of a key replacing an earlier one.
pub open spec fn tag_entries(args: Seq<Seq<char>>) -> Map<Seq<char>, Seq<char>>
    decreases args.len(),
{
    if args.len() == 0 {
        Map::empty()
    } else {
        tag_entries(args.drop_last()).insert(key_of(args.last()), value_of(args.last()))
    }
}

proof fn lemma_first_colon_unique(s: Seq<char>, i: int)
    requires
        is_first_colon(s, i),
    ensures
        (choose|j: int| is_first_colon(s, j)) == i,
{
    let j = choose|j: int| is_first_colon(s, j);
    assert(is_first_colon(s, j));
    if j < i {
        assert(s[j] != ':');
    } else if i < j {
        assert(s[i] != ':');
    }
}

/// The position of the first `:` of `s`, if it has one.
pub fn find_colon(s: &str) -> (r: Option<usize>)
    ensures
        match r {
            Some(i) => is_first_colon(s@, i as int),
            None => !has_colon(s@),
        },
{
    let n = s.unicode_len();
    let mut i: usize = 0;
    while i < n
        invariant
            n == s@.len(),
            i <= n,
            forall|k: int| 0 <= k < i ==> s@[k] != ':',
        decreases n - i,
    {
        if s.get_char(i) == ':' {
            return Some(i);
        }
        i = i + 1;
    }
    None
}

/// Turns repeated `key:value` arguments into the text of one JSON object,
/// splitting each on its first `:`. An argument without `:` is an error;
/// the first such is reported.
pub fn vec_to_json_string(args_vector: Vec<String>) -> (r: Result<String, GenError>)
    ensures
        match r {
            Ok(s) => (forall|k: int| 0 <= k < args_vector@.len() ==> has_colon(#[trigger] args_vector@[k]@))
                && s@ == object_text_of(tag_entries(names_view(args_vector@))),
            Err(GenError::MalformedArgument { argument }) => exists|k: int|
                0 <= k < args_vector@.len() && !has_colon(args_vector@[k]@)
                && argument@ == args_vector@[k]@
                && forall|m: int| 0 <= m < k ==> has_colon(#[trigger] args_vector@[m]@),
            Err(_) => false,
        },
{
    let ghost args = names_view(args_vector@);
    let mut map = new_object();
    assert(string_entries(map) =~= tag_entries(args.subrange(0, 0)));
    let mut i: usize = 0;
    while i < args_vector.len()
        invariant
            i <= args_vector@.len(),
            args == names_view(args_vector@),
            only_strings(map),
            string_entries(map) == tag_entries(args.subrange(0, i as int)),
            forall|k: int| 0 <= k < i ==> has_colon(#[trigger] args_vector@[k]@),
        decreases args_vector@.len() - i,
    {
        let entry = args_vector[i].as_str();
        match find_colon(entry) {
            None => {
                return Err(GenError::MalformedArgument { argument: args_vector[i].clone() });
            },
            Some(c) => {
                proof {
                    lemma_first_colon_unique(entry@, c as int);
                    assert(args.subrange(0, i + 1).drop_last() == args.subrange(0, i as int));
                    assert(args[i as int] == entry@);
                }
                let n = entry.unicode_len();
                let key = String::from_str(entry.substring_char(0, c));
                let value = String::from_str(entry.substring_char(c + 1, n));
                insert_string(&mut map, key, value);
            },
        }
        i = i + 1;
    }
    assert(args.subrange(0, args.len() as int) == args);
    Ok(object_text(map))
}

} // verus!

//! Fields in the `application/x-www-form-urlencoded` syntax, as a form's body
//! and a URL's query carry them.

use vstd::prelude::*;
use vstd::string::*;

verus! {

/// The fields that `input` holds, in the order in which they stand there:
/// the name and the value of each, both decoded.
pub uninterp spec fn urlencoded_fields(input: Seq<u8>) -> Seq<(Seq<char>, Seq<char>)>;

/// What a list of fields stands for: the texts of each name and value.
pub open spec fn fields_view(fields: Seq<(String, String)>) -> Seq<(Seq<char>, Seq<char>)> {
    Seq::new(fields.len(), |i: int| (fields[i].0@, fields[i].1@))
}

/// Decodes `input` with `form_urlencoded::parse`. Trusted: the fields are
/// those that [`urlencoded_fields`] names.
#[verifier::external_body]
pub(crate) fn parse(input: &[u8]) -> (fields: Vec<(String, String)>)
    ensures
        fields_view(fields@) == urlencoded_fields(input@),
{
    form_urlencoded::parse(input).into_owned().collect()
}

/// Whether the field at position `i` is the only one called `name`.
pub open spec fn is_only_field(
    fields: Seq<(Seq<char>, Seq<char>)>,
    name: Seq<char>,
    i: int,
) -> bool {
    &&& 0 <= i < fields.len()
    &&& fields[i].0 == name
    &&& forall|j: int| 0 <= j < fields.len() && #[trigger] fields[j].0 == name ==> j == i
}

/// The value of the field called `name`, if there is exactly one such field.
pub open spec fn field(fields: Seq<(Seq<char>, Seq<char>)>, name: Seq<char>) -> Option<Seq<char>> {
    if exists|i: int| is_only_field(fields, name, i) {
        Some(fields[choose|i: int| is_only_field(fields, name, i)].1)
    } else {
        None
    }
}

/// The value of the field called `name`, if there is exactly one such field.
pub fn find_field(fields: &Vec<(String, String)>, name: &str) -> (value: Option<String>)
    ensures
        match value {
            Some(text) => field(fields_view(fields@), name@) == Some(text@),
            None => field(fields_view(fields@), name@) is None,
        },
{
    let key = String::from_str(name);
    let ghost all = fields_view(fields@);
    let mut found: Option<usize> = None;
    let mut repeated = false;
    let mut i: usize = 0;
    while i < fields.len()
        invariant
            0 <= i <= fields.len(),
            key@ == name@,
            all == fields_view(fields@),
            match found {
                None => !repeated && forall|j: int| 0 <= j < i ==> (#[trigger] all[j]).0 != name@,
                Some(k) => {
                    &&& k < i
                    &&& all[k as int].0 == name@
                    &&& repeated <==> exists|j: int|
                        0 <= j < i && j != k && (#[trigger] all[j]).0 == name@
                },
            },
        decreases fields.len() - i,
    {
        if fields[i].0 == key {
            match found {
                None => {
                    found = Some(i);
                },
                Some(_) => {
                    repeated = true;
                    assert(all[i as int].0 == name@);
                },
            }
        }
        i = i + 1;
    }
    match found {
        Some(k) if !repeated => {
            proof {
                assert(is_only_field(all, name@, k as int));
            }
            Some(fields[k].1.clone())
        },
        Some(k) => {
            proof {
                let other = choose|j: int| 0 <= j < i && j != k && (#[trigger] all[j]).0 == name@;
                assert forall|j: int| !is_only_field(all, name@, j) by {
                    if is_only_field(all, name@, j) {
                        assert(all[k as int].0 == name@);
                        assert(all[other].0 == name@);
                    }
                }
            }
            None
        },
        None => {
            None
        },
    }
}

} // verus!

use vstd::prelude::*;

verus! {

/// A variant-typed value as carried by a diagnostics reply.
pub enum Value {
    Str(String),
    Int(i64),
    Bool(bool),
    Dict(Vec<Field>),
}

/// One key of a dictionary value, with what it holds.
pub struct Field {
    pub key: String,
    pub value: Value,
}

/// What the first field named `key` at or after position `i` holds.
pub open spec fn lookup_from(fields: Seq<Field>, key: Seq<char>, i: int) -> Option<Value>
    decreases fields.len() - i,
{
    if i < 0 || i >= fields.len() {
        None
    } else if fields[i].key@ == key {
        Some(fields[i].value)
    } else {
        lookup_from(fields, key, i + 1)
    }
}

/// What the first field named `key` holds, if any field has that name.
pub open spec fn lookup(fields: Seq<Field>, key: Seq<char>) -> Option<Value> {
    lookup_from(fields, key, 0)
}

/// The position of the first field named `key`.
pub fn find_key(fields: &Vec<Field>, key: &String) -> (r: Option<usize>)
    ensures
        match r {
            Some(i) => i < fields@.len() && lookup(fields@, key@) == Some(fields@[i as int].value),
            None => lookup(fields@, key@) is None,
        },
{
    let mut i: usize = 0;
    while i < fields.len()
        invariant
            i <= fields@.len(),
            lookup(fields@, key@) == lookup_from(fields@, key@, i as int),
        decreases fields@.len() - i,
    {
        if fields[i].key == *key {
            return Some(i);
        }
        i = i + 1;
    }
    None
}

} // verus!

//! Optional query parameters: only those with a value are sent.
use vstd::prelude::*;

verus! {

/// The `(name, value)` pairs of `entries` that have a value, in their order.
pub open spec fn present_of(entries: Seq<(&'static str, Option<String>)>) -> Seq<
    (&'static str, String),
>
    decreases entries.len(),
{
    if entries.len() == 0 {
        seq![]
    } else {
        let rest = present_of(entries.drop_last());
        match entries.last().1 {
            Some(v) => rest.push((entries.last().0, v)),
            None => rest,
        }
    }
}

/// Returns the `(name, value)` pairs of `entries` whose value is present, in order.
pub fn present_params(entries: &Vec<(&'static str, Option<String>)>) -> (r: Vec<
    (&'static str, String),
>)
    ensures
        r@ == present_of(entries@),
{
    let mut params: Vec<(&'static str, String)> = Vec::new();
    let mut i: usize = 0;
    while i < entries.len()
        invariant
            i <= entries@.len(),
            params@ == present_of(entries@.subrange(0, i as int)),
        decreases entries@.len() - i,
    {
        assert(entries@.subrange(0, i + 1).drop_last() =~= entries@.subrange(0, i as int));
        match &entries[i].1 {
            Some(v) => params.push((entries[i].0, v.clone())),
            None => {},
        }
        i = i + 1;
    }
    assert(entries@.subrange(0, entries@.len() as int) =~= entries@);
    params
}

} // verus!

use vstd::prelude::*;

verus! {

/// Pairs each field of a CSV record with the header of its column. Where one side is
/// longer, its extra entries have no partner and are left out.
pub fn record_fields(headers: &Vec<String>, record: &Vec<String>) -> (r: Vec<(String, String)>)
    ensures
        r@.len() == if headers@.len() <= record@.len() {
            headers@.len()
        } else {
            record@.len()
        },
        forall|i: int|
            0 <= i < r@.len() ==> (#[trigger] r@[i]).0@ == headers@[i]@ && r@[i].1@ == record@[i]@,
{
    let n = if headers.len() <= record.len() {
        headers.len()
    } else {
        record.len()
    };
    let mut r: Vec<(String, String)> = Vec::new();
    let mut i: usize = 0;
    while i < n
        invariant
            n <= headers@.len(),
            n <= record@.len(),
            i <= n,
            r@.len() == i,
            forall|j: int|
                0 <= j < i ==> (#[trigger] r@[j]).0@ == headers@[j]@ && r@[j].1@ == record@[j]@,
        decreases n - i,
    {
        r.push((headers[i].clone(), record[i].clone()));
        i = i + 1;
    }
    r
}

} // verus!

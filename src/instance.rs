use vstd::prelude::*;

verus! {

/// Whether the layer named `name` is among `available`.
pub open spec fn layer_listed(available: Seq<String>, name: Seq<char>) -> bool {
    exists|j: int| 0 <= j < available.len() && (#[trigger] available[j])@ == name
}

fn is_listed(available: &[String], name: &String) -> (r: bool)
    ensures
        r == layer_listed(available@, name@),
{
    let mut j: usize = 0;
    while j < available.len()
        invariant
            j <= available@.len(),
            forall|k: int| 0 <= k < j ==> (#[trigger] available@[k])@ != name@,
        decreases available@.len() - j,
    {
        if available[j] == *name {
            return true;
        }
        j += 1;
    }
    false
}

/// Whether every validation layer in `required` is offered by the driver, whose layers
/// are `available`.
pub fn check_validation_layer_support(required: &[String], available: &[String]) -> (r: bool)
    ensures
        r == forall|i: int| 0 <= i < required@.len() ==> layer_listed(available@, (#[trigger] required@[i])@),
{
    let mut i: usize = 0;
    while i < required.len()
        invariant
            i <= required@.len(),
            forall|k: int| 0 <= k < i ==> layer_listed(available@, (#[trigger] required@[k])@),
        decreases required@.len() - i,
    {
        if !is_listed(available, &required[i]) {
            return false;
        }
        i += 1;
    }
    true
}

} // verus!

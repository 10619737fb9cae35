use vstd::prelude::*;

verus! {

/// Among the framebuffer configurations the display offers, given by
/// their multisample counts, the one to use: the first with the most
/// samples.
pub fn best_config_index(samples: &Vec<u8>) -> (best: usize)
    requires
        samples@.len() > 0,
    ensures
        best < samples@.len(),
        forall|i: int| 0 <= i < samples@.len() ==> samples@[i] <= samples@[best as int],
        forall|i: int| 0 <= i < best ==> samples@[i] < samples@[best as int],
{
    let mut best: usize = 0;
    let mut i: usize = 1;
    while i < samples.len()
        invariant
            samples@.len() > 0,
            best < i <= samples@.len(),
            forall|k: int| 0 <= k < i ==> samples@[k] <= samples@[best as int],
            forall|k: int| 0 <= k < best ==> samples@[k] < samples@[best as int],
        decreases samples.len() - i,
    {
        if samples[i] > samples[best] {
            best = i;
        }
        i = i + 1;
    }
    best
}

} // verus!

//! The decoder lookup of the inter-node registry.
//!
//! Each actor type that takes part in cross-node delivery contributes one
//! decoder entry, keyed by the actor's type name. The entries themselves hold
//! function pointers and stay with the embedding program; the library decides
//! which entry serves an envelope.
use vstd::prelude::*;
use crate::error::ActorError;

verus! {

/// The entry that serves envelopes for `actor_type`: the first entry whose
/// type name equals it; `InterNodeDecoderMissing(actor_type)` when none does.
pub fn find_decoder(entry_types: &Vec<String>, actor_type: &str) -> (r: Result<usize, ActorError>)
    ensures
        r matches Ok(i) ==> i < entry_types@.len() && entry_types@[i as int]@ == actor_type@
            && forall|j: int| 0 <= j < i ==> #[trigger] entry_types@[j]@ != actor_type@,
        r is Err ==> forall|j: int| 0 <= j < entry_types@.len() ==> #[trigger] entry_types@[j]@ != actor_type@,
        r matches Err(e) ==> (e matches ActorError::InterNodeDecoderMissing(t) && t@ == actor_type@),
{
    let mut i: usize = 0;
    while i < entry_types.len()
        invariant
            i <= entry_types.len(),
            forall|j: int| 0 <= j < i ==> #[trigger] entry_types@[j]@ != actor_type@,
        decreases entry_types.len() - i,
    {
        if entry_types[i].as_str().eq(actor_type) {
            return Ok(i);
        }
        i = i + 1;
    }
    Err(ActorError::InterNodeDecoderMissing(String::from_str(actor_type)))
}

} // verus!

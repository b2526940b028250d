//! Swap identity: the deterministic composite key derived from a sender and a
//! hashlock. A sender has at most one live swap per distinct hashlock, and
//! this key is what enforces it.

use vstd::prelude::*;

verus! {

/// The canonical textual key for a (sender, hashlock) pair: the sender, an
/// underscore, then the hashlock.
pub open spec fn spec_swap_id(sender: Seq<char>, hashlock: Seq<char>) -> Seq<char> {
    sender + seq!['_'] + hashlock
}

/// Derive the composite key for a (sender, hashlock) pair.
pub fn generate_swap_id(sender: &String, hashlock: &String) -> (r: String)
    ensures
        r@ == spec_swap_id(sender@, hashlock@),
{
    let mut id = sender.clone();
    id.append("_");
    id.append(hashlock.as_str());
    proof {
        reveal_strlit("_");
        assert(id@ =~= spec_swap_id(sender@, hashlock@));
    }
    id
}

/// Key derivation is collision-free across senders as long as the hashlocks
/// have one fixed length: equal keys with equal-length hashlocks can only
/// come from the same sender and the same hashlock.
pub proof fn lemma_swap_id_injective(
    sender1: Seq<char>,
    hashlock1: Seq<char>,
    sender2: Seq<char>,
    hashlock2: Seq<char>,
)
    requires
        hashlock1.len() == hashlock2.len(),
        spec_swap_id(sender1, hashlock1) == spec_swap_id(sender2, hashlock2),
    ensures
        sender1 == sender2,
        hashlock1 == hashlock2,
{
    let id1 = spec_swap_id(sender1, hashlock1);
    let id2 = spec_swap_id(sender2, hashlock2);
    assert(id1.len() == sender1.len() + 1 + hashlock1.len());
    assert(id2.len() == sender2.len() + 1 + hashlock2.len());
    assert(sender1.len() == sender2.len());
    assert(sender1 =~= id1.subrange(0, sender1.len() as int));
    assert(sender2 =~= id2.subrange(0, sender2.len() as int));
    assert(hashlock1 =~= id1.subrange(
        sender1.len() as int + 1,
        id1.len() as int,
    ));
    assert(hashlock2 =~= id2.subrange(
        sender2.len() as int + 1,
        id2.len() as int,
    ));
}

} // verus!

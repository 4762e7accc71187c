//! Small sequence lemmas shared by the renderer proofs.

use vstd::prelude::*;

verus! {

/// Concatenation of sequences is associative; broadcast so that chains
/// of appended text normalize on their own.
pub broadcast proof fn lemma_seq_assoc_auto<A>(a: Seq<A>, b: Seq<A>, c: Seq<A>)
    ensures
        #[trigger] ((a + b) + c) == a + (b + c),
{
    assert((a + b) + c =~= a + (b + c));
}

/// Broadcast form of the right identity.
pub broadcast proof fn lemma_seq_empty_right_auto<A>(a: Seq<A>)
    ensures
        #[trigger] (a + Seq::<A>::empty()) == a,
{
    assert(a + Seq::<A>::empty() =~= a);
}

/// Broadcast form of the left identity.
pub broadcast proof fn lemma_seq_empty_left_auto<A>(a: Seq<A>)
    ensures
        #[trigger] (Seq::<A>::empty() + a) == a,
{
    assert(Seq::<A>::empty() + a =~= a);
}

/// Concatenation of sequences is associative.
pub proof fn lemma_seq_assoc<A>(a: Seq<A>, b: Seq<A>, c: Seq<A>)
    ensures
        (a + b) + c == a + (b + c),
{
    assert((a + b) + c =~= a + (b + c));
}

/// The empty sequence is a right identity of concatenation.
pub proof fn lemma_seq_empty_right<A>(a: Seq<A>)
    ensures
        a + Seq::<A>::empty() == a,
{
    assert(a + Seq::<A>::empty() =~= a);
}

/// The empty sequence is a left identity of concatenation.
pub proof fn lemma_seq_empty_left<A>(a: Seq<A>)
    ensures
        Seq::<A>::empty() + a == a,
{
    assert(Seq::<A>::empty() + a =~= a);
}

/// Pushing one element is the same as appending a singleton.
pub proof fn lemma_push_is_add<A>(s: Seq<A>, a: A)
    ensures
        s.push(a) == s + seq![a],
{
    assert(s.push(a) =~= s + seq![a]);
}

} // verus!

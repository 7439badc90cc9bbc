//! Facts about sequences of sequences, and the two ways an argument list grows.

use vstd::prelude::*;
use vstd::string::StringExecFns;

verus! {

/// Flattening one more group appends that group.
pub proof fn lemma_flatten_take_step<A>(groups: Seq<Seq<A>>, i: int)
    requires
        0 <= i < groups.len(),
    ensures
        groups.take(i + 1).flatten() == groups.take(i).flatten() + groups[i],
{
    assert(groups.take(i + 1) == groups.take(i).push(groups[i]));
    groups.take(i).lemma_flatten_push(groups[i]);
}

/// Flattening no group gives nothing, and flattening all of them is the
/// flattening of the whole.
pub proof fn lemma_flatten_take_ends<A>(groups: Seq<Seq<A>>)
    ensures
        groups.take(0).flatten() == Seq::<A>::empty(),
        groups.take(groups.len() as int) == groups,
{
    assert(groups.take(0) == Seq::<Seq<A>>::empty());
    assert(groups.take(groups.len() as int) == groups);
}

/// An item is in the flattening exactly if it is in one of the groups.
pub proof fn lemma_flatten_contains<A>(groups: Seq<Seq<A>>, x: A)
    ensures
        groups.flatten().contains(x) <==> exists|i: int|
            0 <= i < groups.len() && (#[trigger] groups[i]).contains(x),
    decreases groups.len(),
{
    if groups.len() == 0 {
        assert(!groups.flatten().contains(x));
    } else {
        let front = groups.drop_last();
        let last = groups.last();
        lemma_flatten_contains(front, x);
        assert(groups == front.push(last));
        front.lemma_flatten_push(last);
        assert(groups.flatten() == front.flatten() + last);
        if groups.flatten().contains(x) {
            let k = choose|k: int| 0 <= k < groups.flatten().len() && groups.flatten()[k] == x;
            if k < front.flatten().len() {
                assert(front.flatten()[k] == x);
                assert(front.flatten().contains(x));
                let i = choose|i: int| 0 <= i < front.len() && (#[trigger] front[i]).contains(x);
                assert(groups[i].contains(x));
            } else {
                assert(last[k - front.flatten().len()] == x);
                assert(groups[groups.len() - 1].contains(x));
            }
        }
        if exists|i: int| 0 <= i < groups.len() && (#[trigger] groups[i]).contains(x) {
            let i = choose|i: int| 0 <= i < groups.len() && (#[trigger] groups[i]).contains(x);
            if i < front.len() {
                assert(front[i].contains(x));
                assert(front.flatten().contains(x));
                let k = choose|k: int| 0 <= k < front.flatten().len() && front.flatten()[k] == x;
                assert(groups.flatten()[k] == x);
            } else {
                let k = choose|k: int| 0 <= k < last.len() && last[k] == x;
                assert(groups.flatten()[front.flatten().len() + k] == x);
            }
        }
    }
}

/// Appending three runs one after another appends their concatenation.
pub proof fn lemma_concat_three<A>(a: Seq<A>, b: Seq<A>, c: Seq<A>, d: Seq<A>)
    ensures
        a + b + c + d == a + (b + c + d),
{
    assert(a + b + c + d =~= a + (b + c + d));
}

/// Appends `s` to the argument list.
pub fn push_arg(args: &mut Vec<String>, s: String)
    ensures
        final(args).deep_view() == old(args).deep_view().push(s@),
{
    args.push(s);
    assert(args.deep_view() =~= old(args).deep_view().push(s@));
}

/// Appends a copy of `s` to the argument list.
pub fn push_str_arg(args: &mut Vec<String>, s: &str)
    ensures
        final(args).deep_view() == old(args).deep_view().push(s@),
{
    push_arg(args, String::from_str(s));
}

} // verus!

use vstd::prelude::*;

verus! {

/// The views of a list of strings.
pub open spec fn names_view(v: Seq<String>) -> Seq<Seq<char>> {
    v.map_values(|s: String| s@)
}

/// The entry that follows the first occurrence of `cur` in `list`; `cur` itself
/// when it does not occur or occurs only as the last entry.
pub open spec fn next_after(list: Seq<Seq<char>>, cur: Seq<char>) -> Seq<char>
    decreases list.len(),
{
    if list.len() < 2 {
        cur
    } else if list[0] == cur {
        list[1]
    } else {
        next_after(list.drop_first(), cur)
    }
}

/// The entry that precedes the last occurrence of `cur` in `list`; `cur` itself
/// when it does not occur or occurs only as the first entry.
pub open spec fn prev_before(list: Seq<Seq<char>>, cur: Seq<char>) -> Seq<char>
    decreases list.len(),
{
    if list.len() < 2 {
        cur
    } else if list.last() == cur {
        list[list.len() - 2]
    } else {
        prev_before(list.drop_last(), cur)
    }
}

/// Focus after `k` forward steps.
pub open spec fn forward_steps(list: Seq<Seq<char>>, cur: Seq<char>, k: nat) -> Seq<char>
    decreases k,
{
    if k == 0 {
        cur
    } else {
        forward_steps(list, next_after(list, cur), (k - 1) as nat)
    }
}

/// Focus after `k` backward steps.
pub open spec fn backward_steps(list: Seq<Seq<char>>, cur: Seq<char>, k: nat) -> Seq<char>
    decreases k,
{
    if k == 0 {
        cur
    } else {
        backward_steps(list, prev_before(list, cur), (k - 1) as nat)
    }
}

/// The focus after one step through `list`, forward or backward.
pub open spec fn step(list: Seq<Seq<char>>, cur: Seq<char>, forward: bool) -> Seq<char> {
    if forward {
        next_after(list, cur)
    } else {
        prev_before(list, cur)
    }
}

/// Moves the focus `current` one entry forward or backward through `list`. The
/// focus stays where it is when there is no entry to move to.
pub fn step_focus(list: &Vec<String>, current: &String, forward: bool) -> (r: String)
    ensures
        r@ == step(names_view(list@), current@, forward),
{
    let ghost names = names_view(list@);
    let n = list.len();
    if forward {
        let mut i: usize = 0;
        assert(names.skip(0) =~= names);
        while n > 0 && i < n - 1
            invariant
                forward,
                n == list@.len(),
                names == names_view(list@),
                i <= n,
                next_after(names, current@) == next_after(names.skip(i as int), current@),
            decreases n - i,
        {
            assert(names.skip(i as int).drop_first() =~= names.skip(i + 1));
            if list[i] == *current {
                assert(names.skip(i as int)[0] == current@);
                assert(names.skip(i as int)[1] == list@[i + 1]@);
                let r = list[i + 1].clone();
                return r;
            }
            i = i + 1;
        }
        current.clone()
    } else {
        let mut i: usize = n;
        assert(names.take(n as int) =~= names);
        while i >= 2
            invariant
                !forward,
                n == list@.len(),
                names == names_view(list@),
                i <= n,
                prev_before(names, current@) == prev_before(names.take(i as int), current@),
            decreases i,
        {
            assert(names.take(i as int).drop_last() =~= names.take(i - 1));
            if list[i - 1] == *current {
                assert(names.take(i as int).last() == current@);
                assert(names.take(i as int)[i - 2] == list@[i - 2]@);
                let r = list[i - 2].clone();
                return r;
            }
            i = i - 1;
        }
        current.clone()
    }
}

/// A forward step from the entry at `p` of a list without repeats reaches the entry at `p + 1`.
pub proof fn lemma_next_after_index(list: Seq<Seq<char>>, p: int)
    requires
        list.no_duplicates(),
        0 <= p,
        p + 1 < list.len(),
    ensures
        next_after(list, list[p]) == list[p + 1],
    decreases p,
{
    if p > 0 {
        let rest = list.drop_first();
        assert(list[0] != list[p]);
        assert(rest[p - 1] == list[p]);
        lemma_next_after_index(rest, p - 1);
    }
}

/// A backward step from the entry at `p` of a list without repeats reaches the entry at `p - 1`.
pub proof fn lemma_prev_before_index(list: Seq<Seq<char>>, p: int)
    requires
        list.no_duplicates(),
        1 <= p < list.len(),
    ensures
        prev_before(list, list[p]) == list[p - 1],
    decreases list.len(),
{
    if p < list.len() - 1 {
        let rest = list.drop_last();
        assert(list.last() != list[p]);
        assert(rest[p] == list[p]);
        lemma_prev_before_index(rest, p);
    }
}

/// A focus that is not in the list is left where it is, both ways.
pub proof fn lemma_step_absent(list: Seq<Seq<char>>, cur: Seq<char>)
    requires
        !list.contains(cur),
    ensures
        next_after(list, cur) == cur,
        prev_before(list, cur) == cur,
    decreases list.len(),
{
    if list.len() >= 2 {
        assert(list[0] != cur);
        assert(list[list.len() - 1] != cur);
        let f = list.drop_first();
        let l = list.drop_last();
        assert forall|x| f.contains(x) implies list.contains(x) by {
            let i = choose|i: int| 0 <= i < f.len() && f[i] == x;
            assert(list[i + 1] == x);
        }
        assert forall|x| l.contains(x) implies list.contains(x) by {
            let i = choose|i: int| 0 <= i < l.len() && l[i] == x;
            assert(list[i] == x);
        }
        lemma_step_absent(f, cur);
        lemma_step_absent(l, cur);
    }
}

proof fn lemma_forward_steps_index(list: Seq<Seq<char>>, p: int, k: nat)
    requires
        list.no_duplicates(),
        0 <= p,
        p + k < list.len(),
    ensures
        forward_steps(list, list[p], k) == list[p + k],
    decreases k,
{
    if k > 0 {
        lemma_next_after_index(list, p);
        lemma_forward_steps_index(list, p + 1, (k - 1) as nat);
    }
}

proof fn lemma_backward_steps_index(list: Seq<Seq<char>>, p: int, k: nat)
    requires
        list.no_duplicates(),
        0 <= p - k,
        p < list.len(),
    ensures
        backward_steps(list, list[p], k) == list[p - k],
    decreases k,
{
    if k > 0 {
        lemma_prev_before_index(list, p);
        lemma_backward_steps_index(list, p - 1, (k - 1) as nat);
    }
}

proof fn lemma_steps_absent(list: Seq<Seq<char>>, cur: Seq<char>, k: nat)
    requires
        !list.contains(cur),
    ensures
        forward_steps(list, cur, k) == cur,
        backward_steps(list, cur, k) == cur,
    decreases k,
{
    lemma_step_absent(list, cur);
    if k > 0 {
        lemma_steps_absent(list, cur, (k - 1) as nat);
    }
}

/// One more key press after `k` of them moves the focus one `step` further, so
/// `k` calls of `step_focus`, `UserInterface::accounts_key` or
/// `UserInterface::contacts_key` with the same direction key over an unchanged
/// list leave the focus at `forward_steps` or `backward_steps` of where it was.
pub proof fn lemma_steps_one_more(list: Seq<Seq<char>>, cur: Seq<char>, k: nat)
    ensures
        forward_steps(list, cur, k + 1) == step(list, forward_steps(list, cur, k), true),
        backward_steps(list, cur, k + 1) == step(list, backward_steps(list, cur, k), false),
    decreases k,
{
    assert(forward_steps(list, cur, k + 1) == forward_steps(list, next_after(list, cur), k));
    assert(backward_steps(list, cur, k + 1) == backward_steps(list, prev_before(list, cur), k));
    if k > 0 {
        let j = (k - 1) as nat;
        lemma_steps_one_more(list, next_after(list, cur), j);
        lemma_steps_one_more(list, prev_before(list, cur), j);
        assert(j + 1 == k);
    }
}

/// Moving the focus `k` steps forward and then `k` steps backward through an
/// unchanged list without repeats returns it to where it started, provided each
/// forward step found an entry to move to (or the focus is not in the list).
pub proof fn lemma_forward_then_backward(list: Seq<Seq<char>>, cur: Seq<char>, k: nat)
    requires
        list.no_duplicates(),
        list.contains(cur) ==> exists|p: int| 0 <= p && p + k < list.len() && list[p] == cur,
    ensures
        backward_steps(list, forward_steps(list, cur, k), k) == cur,
{
    if list.contains(cur) {
        let p = choose|p: int| 0 <= p && p + k < list.len() && list[p] == cur;
        lemma_forward_steps_index(list, p, k);
        lemma_backward_steps_index(list, p + k, k);
    } else {
        lemma_steps_absent(list, cur, k);
    }
}

} // verus!

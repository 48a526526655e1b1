//! Laws relating sequences of queue operations, stated over the same
//! sequence model that the contracts of `push` and `pop` use: a successful
//! push appends one value at the back of the view, a successful pop removes
//! the first value of the view and returns it.

use vstd::prelude::*;

verus! {

/// The queue contents after pushing the values of `vs`, in order, at the
/// back of a queue whose contents are `s` — one appended value per
/// successful push, as `push`'s contract states.
pub open spec fn after_pushes<T>(s: Seq<T>, vs: Seq<T>) -> Seq<T>
    decreases vs.len(),
{
    if vs.len() == 0 {
        s
    } else {
        after_pushes(s.push(vs[0]), vs.subrange(1, vs.len() as int))
    }
}

/// The values returned by `n` successful pops from a queue whose contents
/// are `s`, in the order they are returned — each pop returns the first
/// element of the view, as `pop`'s contract states.
pub open spec fn popped_values<T>(s: Seq<T>, n: nat) -> Seq<T>
    decreases n,
{
    if n == 0 {
        Seq::empty()
    } else {
        seq![s[0]] + popped_values(s.subrange(1, s.len() as int), (n - 1) as nat)
    }
}

/// The queue contents left after `n` successful pops from a queue whose
/// contents are `s`.
pub open spec fn after_pops<T>(s: Seq<T>, n: nat) -> Seq<T>
    decreases n,
{
    if n == 0 {
        s
    } else {
        after_pops(s.subrange(1, s.len() as int), (n - 1) as nat)
    }
}

proof fn lemma_after_pushes_appends<T>(s: Seq<T>, vs: Seq<T>)
    ensures
        after_pushes(s, vs) == s + vs,
    decreases vs.len(),
{
    if vs.len() == 0 {
        assert(after_pushes(s, vs) =~= s + vs);
    } else {
        lemma_after_pushes_appends(s.push(vs[0]), vs.subrange(1, vs.len() as int));
        assert(s.push(vs[0]) + vs.subrange(1, vs.len() as int) =~= s + vs);
    }
}

proof fn lemma_popped_values_prefix<T>(s: Seq<T>, n: nat)
    requires
        n <= s.len(),
    ensures
        popped_values(s, n) == s.subrange(0, n as int),
    decreases n,
{
    if n == 0 {
        assert(popped_values(s, n) =~= s.subrange(0, 0));
    } else {
        let rest = s.subrange(1, s.len() as int);
        lemma_popped_values_prefix(rest, (n - 1) as nat);
        assert(seq![s[0]] + rest.subrange(0, n - 1) =~= s.subrange(0, n as int));
    }
}

proof fn lemma_after_pops_suffix<T>(s: Seq<T>, n: nat)
    requires
        n <= s.len(),
    ensures
        after_pops(s, n) == s.subrange(n as int, s.len() as int),
    decreases n,
{
    if n == 0 {
        assert(after_pops(s, n) =~= s.subrange(0, s.len() as int));
    } else {
        let rest = s.subrange(1, s.len() as int);
        lemma_after_pops_suffix(rest, (n - 1) as nat);
        assert(rest.subrange(n - 1, rest.len() as int) =~= s.subrange(n as int, s.len() as int));
    }
}

/// FIFO order: pushing the values of `vs` into an empty queue, in order, and
/// then popping that many times returns exactly the values of `vs`, in the
/// order they were pushed. (Each of those pushes succeeds as long as the
/// queue's capacity is at least `vs.len()`, by `push`'s contract.)
pub proof fn lemma_fifo_order<T>(vs: Seq<T>)
    ensures
        popped_values(after_pushes(Seq::<T>::empty(), vs), vs.len()) == vs,
{
    lemma_after_pushes_appends(Seq::<T>::empty(), vs);
    assert(Seq::<T>::empty() + vs =~= vs);
    lemma_popped_values_prefix(vs, vs.len());
    assert(vs.subrange(0, vs.len() as int) =~= vs);
}

/// Length accounting: after pushing the `vs.len()` values of `vs` into an
/// empty queue and then popping `m <= vs.len()` times, exactly
/// `vs.len() - m` values remain.
pub proof fn lemma_length_accounting<T>(vs: Seq<T>, m: nat)
    requires
        m <= vs.len(),
    ensures
        after_pops(after_pushes(Seq::<T>::empty(), vs), m).len() == vs.len() - m,
{
    lemma_after_pushes_appends(Seq::<T>::empty(), vs);
    assert(Seq::<T>::empty() + vs =~= vs);
    lemma_after_pops_suffix(vs, m);
}

} // verus!

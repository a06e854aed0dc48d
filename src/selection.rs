//! Wrap-around cursor arithmetic shared by every list of the state.
use vstd::arithmetic::div_mod::*;
use vstd::prelude::*;

verus! {

/// The cursor after moving forward in a list of `len` items: one step on,
/// wrapping to the start; a cursor over an empty list stays where it is.
pub open spec fn next_index(i: nat, len: nat) -> nat {
    if len == 0 {
        i
    } else {
        ((i + 1) % len) as nat
    }
}

/// The cursor after moving back in a list of `len` items: one step back,
/// wrapping from the start to the last item; over an empty list it stays.
pub open spec fn prev_index(i: nat, len: nat) -> nat {
    if len == 0 {
        i
    } else if i == 0 {
        (len - 1) as nat
    } else {
        (i - 1) as nat
    }
}

/// The item under the cursor, if the cursor points into the list.
pub open spec fn selected<T>(items: Seq<T>, i: nat) -> Option<T> {
    if i < items.len() {
        Some(items[i as int])
    } else {
        None
    }
}

/// The cursor after `k` forward moves.
pub open spec fn advance(i: nat, len: nat, k: nat) -> nat
    decreases k,
{
    if k == 0 {
        i
    } else {
        next_index(advance(i, len, (k - 1) as nat), len)
    }
}

/// The cursor after `k` backward moves.
pub open spec fn retreat(i: nat, len: nat, k: nat) -> nat
    decreases k,
{
    if k == 0 {
        i
    } else {
        prev_index(retreat(i, len, (k - 1) as nat), len)
    }
}

/// Moves a cursor forward over a list of `len` items.
pub fn step_next(i: usize, len: usize) -> (r: usize)
    ensures
        r == next_index(i as nat, len as nat),
{
    if len == 0 {
        i
    } else {
        let j: usize = i % len;
        proof {
            lemma_add_mod_noop(i as int, 1, len as int);
            lemma_mod_twice(i as int, len as int);
            if len > 1 {
                lemma_small_mod(1, len as nat);
            } else {
                assert((j + 1) % 1 == 0) by (nonlinear_arith);
                assert((i + 1) % 1 == 0) by (nonlinear_arith);
            }
        }
        (j + 1) % len
    }
}

/// Moves a cursor backward over a list of `len` items.
pub fn step_prev(i: usize, len: usize) -> (r: usize)
    ensures
        r == prev_index(i as nat, len as nat),
{
    if len == 0 {
        i
    } else if i == 0 {
        len - 1
    } else {
        i - 1
    }
}

/// Within a list of `len` items, `k` forward moves from cursor `i` land on
/// `(i + k) mod len`.
proof fn lemma_advance_mod(i: nat, len: nat, k: nat)
    requires
        i < len,
    ensures
        advance(i, len, k) == (i + k) % len,
    decreases k,
{
    if k == 0 {
        lemma_small_mod(i, len);
    } else {
        lemma_advance_mod(i, len, (k - 1) as nat);
        let a = advance(i, len, (k - 1) as nat);
        lemma_add_mod_noop((i + k - 1) as int, 1, len as int);
        lemma_mod_twice((i + k - 1) as int, len as int);
        if len > 1 {
            lemma_small_mod(1, len);
        } else {
            assert((a + 1) % 1 == 0) by (nonlinear_arith);
            assert((i + k) % 1 == 0) by (nonlinear_arith);
        }
    }
}

/// Within a list of `len` items, `k` backward moves from cursor `i` land on
/// `(i - k) mod len`.
proof fn lemma_retreat_mod(i: nat, len: nat, k: nat)
    requires
        i < len,
    ensures
        retreat(i, len, k) == (i as int - k as int) % (len as int),
    decreases k,
{
    if k == 0 {
        lemma_small_mod(i, len);
    } else {
        lemma_retreat_mod(i, len, (k - 1) as nat);
        let a = retreat(i, len, (k - 1) as nat);
        let x = i - (k - 1);
        lemma_fundamental_div_mod(x, len as int);
        lemma_fundamental_div_mod(x - 1, len as int);
        lemma_mod_bound(x, len as int);
        lemma_mod_bound(x - 1, len as int);
        let q = x / (len as int);
        assert(x == q * len + a) by (nonlinear_arith)
            requires
                x == (len as int) * q + x % (len as int),
                a == x % (len as int),
        ;
        assert((q - 1) * len == q * len - len) by (nonlinear_arith);
        if a == 0 {
            lemma_fundamental_div_mod_converse(x - 1, len as int, q - 1, len - 1);
        } else {
            lemma_fundamental_div_mod_converse(x - 1, len as int, q, a - 1);
        }
    }
}

/// Moving forward through a whole non-empty list brings the cursor back to
/// where it started, and so does moving backward through it.
pub proof fn lemma_full_cycle(i: nat, len: nat)
    requires
        i < len,
    ensures
        advance(i, len, len) == i,
        retreat(i, len, len) == i,
{
    lemma_advance_mod(i, len, len);
    lemma_retreat_mod(i, len, len);
    lemma_mod_add_multiples_vanish(i as int, len as int);
    lemma_mod_sub_multiples_vanish(i as int, len as int);
    lemma_small_mod(i, len);
}

/// Moving the cursor over an empty list leaves it unchanged, whatever its
/// value.
pub proof fn lemma_empty_list_keeps_cursor(i: nat)
    ensures
        next_index(i, 0) == i,
        prev_index(i, 0) == i,
        selected(Seq::<nat>::empty(), i) is None,
{
}

} // verus!

//! Building text output: decimal integers and repeated pieces.
use vstd::prelude::*;
use vstd::string::StringExecFns;

verus! {

/// The decimal digit `d` (`0 <= d < 10`).
pub open spec fn digit_text(d: int) -> Seq<char> {
    if d == 0 {
        "0"@
    } else if d == 1 {
        "1"@
    } else if d == 2 {
        "2"@
    } else if d == 3 {
        "3"@
    } else if d == 4 {
        "4"@
    } else if d == 5 {
        "5"@
    } else if d == 6 {
        "6"@
    } else if d == 7 {
        "7"@
    } else if d == 8 {
        "8"@
    } else {
        "9"@
    }
}

/// The decimal representation of `n`, as `{}` formats an unsigned integer.
pub open spec fn nat_text(n: nat) -> Seq<char>
    decreases n,
{
    if n < 10 {
        digit_text(n as int)
    } else {
        nat_text(n / 10) + digit_text((n % 10) as int)
    }
}

/// The decimal representation of `i`, as `{}` formats a signed integer.
pub open spec fn int_text(i: int) -> Seq<char> {
    if i < 0 {
        "-"@ + nat_text((-i) as nat)
    } else {
        nat_text(i as nat)
    }
}

/// `f(0) + f(1) + ... + f(n - 1)`.
pub open spec fn concat_n<A>(n: nat, f: spec_fn(int) -> Seq<A>) -> Seq<A>
    decreases n,
{
    if n == 0 {
        Seq::empty()
    } else {
        concat_n((n - 1) as nat, f) + f(n - 1)
    }
}

/// `f(0) + sep + f(1) + sep + ... + f(n - 1)`.
pub open spec fn join_n(n: nat, f: spec_fn(int) -> Seq<char>, sep: Seq<char>) -> Seq<char> {
    concat_n(
        n,
        |i: int|
            if i == 0 {
                f(i)
            } else {
                sep + f(i)
            },
    )
}

/// Appends `s`.
pub fn push_str(out: &mut String, s: &str)
    ensures
        final(out)@ == old(out)@ + s@,
{
    out.append(s);
}

fn push_digit(out: &mut String, d: u64)
    requires
        d < 10,
    ensures
        final(out)@ == old(out)@ + digit_text(d as int),
{
    if d == 0 {
        out.append("0");
    } else if d == 1 {
        out.append("1");
    } else if d == 2 {
        out.append("2");
    } else if d == 3 {
        out.append("3");
    } else if d == 4 {
        out.append("4");
    } else if d == 5 {
        out.append("5");
    } else if d == 6 {
        out.append("6");
    } else if d == 7 {
        out.append("7");
    } else if d == 8 {
        out.append("8");
    } else {
        out.append("9");
    }
}

/// Appends the decimal representation of `n`.
pub fn push_u64(out: &mut String, n: u64)
    ensures
        final(out)@ == old(out)@ + nat_text(n as nat),
    decreases n,
{
    if n >= 10 {
        push_u64(out, n / 10);
        push_digit(out, n % 10);
        assert(final(out)@ =~= old(out)@ + nat_text(n as nat));
    } else {
        push_digit(out, n);
    }
}

/// Appends the decimal representation of `n`.
pub fn push_usize(out: &mut String, n: usize)
    ensures
        final(out)@ == old(out)@ + nat_text(n as nat),
{
    push_u64(out, n as u64);
}

/// Appends the decimal representation of `i`.
pub fn push_i64(out: &mut String, i: i64)
    requires
        i > i64::MIN,
    ensures
        final(out)@ == old(out)@ + int_text(i as int),
{
    if i < 0 {
        out.append("-");
        push_u64(out, (-i) as u64);
        assert(final(out)@ =~= old(out)@ + int_text(i as int));
    } else {
        push_u64(out, i as u64);
    }
}

/// Appends the decimal representation of `i`.
pub fn push_i32(out: &mut String, i: i32)
    ensures
        final(out)@ == old(out)@ + int_text(i as int),
{
    push_i64(out, i as i64);
}

/// A string holding the decimal representation of `n`.
pub fn usize_text(n: usize) -> (s: String)
    ensures
        s@ == nat_text(n as nat),
{
    let mut s = String::new();
    push_usize(&mut s, n);
    assert(s@ =~= nat_text(n as nat));
    s
}

/// Pieces that are all `k` long: the whole is `n * k` long, and piece `i`
/// stands at `i * k`.
pub proof fn lemma_concat_n_uniform<A>(n: nat, f: spec_fn(int) -> Seq<A>, k: nat)
    requires
        forall|j: int| 0 <= j < n ==> #[trigger] f(j).len() == k,
    ensures
        concat_n(n, f).len() == n * k,
        forall|i: int|
            0 <= i < n ==> #[trigger] concat_n(n, f).subrange(i * k, i * k + k) == f(i),
    decreases n,
{
    if n > 0 {
        let m = (n - 1) as nat;
        lemma_concat_n_uniform(m, f, k);
        let head = concat_n(m, f);
        let whole = concat_n(n, f);
        assert(m * k + k == n * k) by (nonlinear_arith)
            requires
                m + 1 == n,
        ;
        assert forall|i: int| 0 <= i < n implies #[trigger] whole.subrange(i * k, i * k + k)
            == f(i) by {
            if i == m {
                assert(whole.subrange(i * k, i * k + k) =~= f(i));
            } else {
                assert(i * k + k <= m * k) by (nonlinear_arith)
                    requires
                        0 <= i < m,
                ;
                assert(0 <= i * k) by (nonlinear_arith)
                    requires
                        0 <= i,
                ;
                assert(whole.subrange(i * k, i * k + k) =~= head.subrange(i * k, i * k + k));
            }
        }
    } else {
        assert(n * k == 0) by (nonlinear_arith)
            requires
                n == 0,
        ;
    }
}

/// `whole` is `pre`, then `part`, then `post`: `part` stands in `whole`
/// with `pre` before it and `post` after it.
pub open spec fn is_split<A>(whole: Seq<A>, pre: Seq<A>, part: Seq<A>, post: Seq<A>) -> bool {
    whole == pre + part + post
}

/// `join_n` only looks at the first `n` pieces.
pub proof fn lemma_join_agree(
    n: nat,
    f: spec_fn(int) -> Seq<char>,
    g: spec_fn(int) -> Seq<char>,
    sep: Seq<char>,
)
    requires
        forall|i: int| 0 <= i < n ==> #[trigger] f(i) == g(i),
    ensures
        join_n(n, f, sep) == join_n(n, g, sep),
{
    let a = |i: int|
        if i == 0 {
            f(i)
        } else {
            sep + f(i)
        };
    let b = |i: int|
        if i == 0 {
            g(i)
        } else {
            sep + g(i)
        };
    assert forall|i: int| 0 <= i < n implies #[trigger] a(i) == b(i) by {
        assert(f(i) == g(i));
    }
    lemma_concat_n_agree(n, a, b);
}

/// `concat_n` only looks at the first `n` pieces.
pub proof fn lemma_concat_n_agree<A>(n: nat, f: spec_fn(int) -> Seq<A>, g: spec_fn(int) -> Seq<A>)
    requires
        forall|i: int| 0 <= i < n ==> #[trigger] f(i) == g(i),
    ensures
        concat_n(n, f) == concat_n(n, g),
    decreases n,
{
    if n > 0 {
        lemma_concat_n_agree((n - 1) as nat, f, g);
    }
}

} // verus!

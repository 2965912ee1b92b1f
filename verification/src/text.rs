//! Text predicates and string building behind the orchestrator's rules:
//! substring containment (trigger words), prefix matching (routing), joining
//! output lines, and rendering of fixed-point scores with four decimal places.

use vstd::prelude::*;

verus! {

/// `needle` occurs in `hay` starting at position `i`.
pub open spec fn matches_at(hay: Seq<char>, needle: Seq<char>, i: int) -> bool {
    0 <= i && i + needle.len() <= hay.len() && hay.subrange(i, i + needle.len()) == needle
}

/// `needle` occurs somewhere in `hay` (plain substring containment).
pub open spec fn contains_sub(hay: Seq<char>, needle: Seq<char>) -> bool {
    exists|i: int| matches_at(hay, needle, i)
}

/// `prefix` is a prefix of `s`.
pub open spec fn has_prefix(s: Seq<char>, prefix: Seq<char>) -> bool {
    prefix.len() <= s.len() && s.subrange(0, prefix.len() as int) == prefix
}

/// The views of a sequence of strings.
pub open spec fn seq_views(s: Seq<String>) -> Seq<Seq<char>> {
    s.map_values(|x: String| x@)
}

pub proof fn lemma_seq_views_push(s: Seq<String>, x: String)
    ensures
        seq_views(s.push(x)) == seq_views(s).push(x@),
{
    assert(seq_views(s.push(x)) =~= seq_views(s).push(x@));
}

/// Whether `needle` matches `hay` at position `i`, by character comparison.
fn matches_at_exec(hay: &str, needle: &str, i: usize, needle_len: usize) -> (r: bool)
    requires
        needle_len == needle@.len(),
        i + needle_len <= hay@.len(),
        hay@.len() <= usize::MAX,
    ensures
        r == matches_at(hay@, needle@, i as int),
{
    let mut k: usize = 0;
    while k < needle_len
        invariant
            needle_len == needle@.len(),
            i + needle_len <= hay@.len(),
            hay@.len() <= usize::MAX,
            k <= needle_len,
            forall|m: int| 0 <= m < k ==> hay@[i + m] == needle@[m],
        decreases needle_len - k,
    {
        if hay.get_char(i + k) != needle.get_char(k) {
            proof {
                if matches_at(hay@, needle@, i as int) {
                    assert(hay@.subrange(i as int, i + needle@.len())[k as int]
                        == needle@[k as int]);
                }
            }
            return false;
        }
        k += 1;
    }
    proof {
        assert(hay@.subrange(i as int, i + needle@.len()) =~= needle@);
    }
    true
}

/// Whether `hay` contains `needle` as a substring.
pub fn str_contains(hay: &str, needle: &str) -> (r: bool)
    ensures
        r == contains_sub(hay@, needle@),
{
    let hay_len = hay.unicode_len();
    let needle_len = needle.unicode_len();
    if needle_len > hay_len {
        proof {
            assert(forall|i: int| !matches_at(hay@, needle@, i));
        }
        return false;
    }
    if needle_len == 0 {
        proof {
            assert(hay@.subrange(0, 0) =~= needle@);
            assert(matches_at(hay@, needle@, 0));
        }
        return true;
    }
    let mut i: usize = 0;
    while i <= hay_len - needle_len
        invariant
            hay_len == hay@.len(),
            needle_len == needle@.len(),
            1 <= needle_len <= hay_len,
            i <= hay_len - needle_len + 1,
            forall|j: int| 0 <= j < i ==> !matches_at(hay@, needle@, j),
        decreases hay_len - needle_len + 1 - i,
    {
        if matches_at_exec(hay, needle, i, needle_len) {
            return true;
        }
        i += 1;
    }
    proof {
        assert forall|j: int| !matches_at(hay@, needle@, j) by {
            if 0 <= j < i as int {
            } else if j >= i as int {
                assert(j + needle@.len() > hay@.len());
            }
        }
    }
    false
}

/// Whether `prefix` is a prefix of `s`.
pub fn str_has_prefix(s: &str, prefix: &str) -> (r: bool)
    ensures
        r == has_prefix(s@, prefix@),
{
    let s_len = s.unicode_len();
    let p_len = prefix.unicode_len();
    if p_len > s_len {
        return false;
    }
    let r = matches_at_exec(s, prefix, 0, p_len);
    proof {
        assert(s@.subrange(0, 0int + prefix@.len()) == s@.subrange(0, prefix@.len() as int));
    }
    r
}

/// The items joined with a single newline between consecutive items,
/// starting from position `i`.
pub open spec fn join_from(items: Seq<Seq<char>>, i: int) -> Seq<char>
    decreases items.len() - i,
{
    if i < 0 || i >= items.len() {
        Seq::empty()
    } else if i == items.len() - 1 {
        items[i]
    } else {
        items[i] + seq!['\n'] + join_from(items, i + 1)
    }
}

/// The items joined with a single newline between consecutive items.
pub open spec fn join_lines(items: Seq<Seq<char>>) -> Seq<char> {
    join_from(items, 0)
}

/// Joins the strings with a newline between consecutive items.
pub fn join_with_newlines(items: &Vec<String>) -> (r: String)
    ensures
        r@ == join_lines(seq_views(items@)),
{
    let n = items.len();
    let mut out = String::new();
    let mut i: usize = 0;
    while i < n
        invariant
            n == items@.len(),
            i <= n,
            out@ + join_from(seq_views(items@), i as int) == join_lines(seq_views(items@)),
            i == n ==> out@ == join_lines(seq_views(items@)),
        decreases n - i,
    {
        let ghost prev = out@;
        let ghost v = seq_views(items@);
        out.append(items[i].as_str());
        if i + 1 < n {
            out.append("\n");
            proof {
                reveal_strlit("\n");
                assert(("\n")@ =~= seq!['\n']);
                assert(join_from(v, i as int) == v[i as int] + seq!['\n'] + join_from(v, i + 1));
                assert(out@ + join_from(v, i + 1) =~= prev + join_from(v, i as int));
            }
        } else {
            proof {
                assert(join_from(v, i as int) == v[i as int]);
                assert(out@ + join_from(v, i + 1) =~= prev + join_from(v, i as int));
                assert(out@ =~= prev + join_from(v, i as int));
            }
        }
        i += 1;
    }
    proof {
        assert(out@ + Seq::<char>::empty() =~= out@);
    }
    out
}

/// The decimal digit character for `d` (`0 <= d <= 9`).
pub open spec fn dec_digit(d: int) -> char {
    if d == 0 {
        '0'
    } else if d == 1 {
        '1'
    } else if d == 2 {
        '2'
    } else if d == 3 {
        '3'
    } else if d == 4 {
        '4'
    } else if d == 5 {
        '5'
    } else if d == 6 {
        '6'
    } else if d == 7 {
        '7'
    } else if d == 8 {
        '8'
    } else {
        '9'
    }
}

/// The decimal representation of `n`, most significant digit first,
/// without leading zeros.
pub open spec fn dec_rep(n: nat) -> Seq<char>
    decreases n,
{
    if n < 10 {
        seq![dec_digit(n as int)]
    } else {
        dec_rep(n / 10) + seq![dec_digit((n % 10) as int)]
    }
}

/// `n` rendered as exactly four digits, zero padded (`n < 10000`).
pub open spec fn dec_pad4(n: nat) -> Seq<char> {
    seq![
        dec_digit((n / 1000) as int),
        dec_digit(((n / 100) % 10) as int),
        dec_digit(((n / 10) % 10) as int),
        dec_digit((n % 10) as int),
    ]
}

/// A magnitude in ten-thousandths rendered with four decimal places.
pub open spec fn fixed4_rep_mag(m: nat) -> Seq<char> {
    dec_rep(m / 10000) + seq!['.'] + dec_pad4(m % 10000)
}

/// A value in ten-thousandths rendered with a sign and four decimal places,
/// the way `0.8500` renders the value `8500`.
pub open spec fn fixed4_rep(v: int) -> Seq<char> {
    if v < 0 {
        seq!['-'] + fixed4_rep_mag((-v) as nat)
    } else {
        fixed4_rep_mag(v as nat)
    }
}

/// Appends the single digit `d` to `out`.
fn append_digit(out: &mut String, d: u64)
    requires
        d <= 9,
    ensures
        final(out)@ == old(out)@ + seq![dec_digit(d as int)],
{
    let ghost prev = old(out)@;
    if d == 0 {
        out.append("0");
        proof {
            reveal_strlit("0");
            assert(("0")@ =~= seq![dec_digit(0)]);
            assert(out@ =~= prev + seq![dec_digit(0)]);
        }
    } else if d == 1 {
        out.append("1");
        proof {
            reveal_strlit("1");
            assert(("1")@ =~= seq![dec_digit(1)]);
            assert(out@ =~= prev + seq![dec_digit(1)]);
        }
    } else if d == 2 {
        out.append("2");
        proof {
            reveal_strlit("2");
            assert(("2")@ =~= seq![dec_digit(2)]);
            assert(out@ =~= prev + seq![dec_digit(2)]);
        }
    } else if d == 3 {
        out.append("3");
        proof {
            reveal_strlit("3");
            assert(("3")@ =~= seq![dec_digit(3)]);
            assert(out@ =~= prev + seq![dec_digit(3)]);
        }
    } else if d == 4 {
        out.append("4");
        proof {
            reveal_strlit("4");
            assert(("4")@ =~= seq![dec_digit(4)]);
            assert(out@ =~= prev + seq![dec_digit(4)]);
        }
    } else if d == 5 {
        out.append("5");
        proof {
            reveal_strlit("5");
            assert(("5")@ =~= seq![dec_digit(5)]);
            assert(out@ =~= prev + seq![dec_digit(5)]);
        }
    } else if d == 6 {
        out.append("6");
        proof {
            reveal_strlit("6");
            assert(("6")@ =~= seq![dec_digit(6)]);
            assert(out@ =~= prev + seq![dec_digit(6)]);
        }
    } else if d == 7 {
        out.append("7");
        proof {
            reveal_strlit("7");
            assert(("7")@ =~= seq![dec_digit(7)]);
            assert(out@ =~= prev + seq![dec_digit(7)]);
        }
    } else if d == 8 {
        out.append("8");
        proof {
            reveal_strlit("8");
            assert(("8")@ =~= seq![dec_digit(8)]);
            assert(out@ =~= prev + seq![dec_digit(8)]);
        }
    } else {
        out.append("9");
        proof {
            reveal_strlit("9");
            assert(("9")@ =~= seq![dec_digit(9)]);
            assert(out@ =~= prev + seq![dec_digit(9)]);
        }
    }
}

/// Appends the decimal representation of `n` to `out`.
fn append_decimal(out: &mut String, n: u64)
    ensures
        final(out)@ == old(out)@ + dec_rep(n as nat),
    decreases n,
{
    if n >= 10 {
        let ghost prev = old(out)@;
        append_decimal(out, n / 10);
        append_digit(out, n % 10);
        proof {
            assert(out@ =~= prev + dec_rep(n as nat));
        }
    } else {
        append_digit(out, n);
    }
}

/// Renders a value in ten-thousandths with four decimal places, the way
/// `{:.4}` renders the corresponding real value.
pub fn fixed4_string(v: i64) -> (r: String)
    ensures
        r@ == fixed4_rep(v as int),
{
    let mut out = String::new();
    let mag: u64;
    if v < 0 {
        out.append("-");
        mag = (-(v as i128)) as u64;
        proof {
            reveal_strlit("-");
            assert(("-")@ =~= seq!['-']);
            assert(mag as int == -(v as int));
        }
    } else {
        mag = v as u64;
    }
    let ghost sign = out@;
    append_decimal(&mut out, mag / 10000);
    out.append(".");
    let frac = mag % 10000;
    append_digit(&mut out, frac / 1000);
    append_digit(&mut out, (frac / 100) % 10);
    append_digit(&mut out, (frac / 10) % 10);
    append_digit(&mut out, frac % 10);
    proof {
        reveal_strlit(".");
        assert((".")@ =~= seq!['.']);
        assert((frac as nat) / 100 % 10 == ((frac / 100) % 10) as nat);
        assert(dec_pad4(frac as nat) =~= seq![
            dec_digit((frac / 1000) as int),
            dec_digit(((frac / 100) % 10) as int),
            dec_digit(((frac / 10) % 10) as int),
            dec_digit((frac % 10) as int),
        ]);
        assert(out@ =~= sign + fixed4_rep_mag(mag as nat));
        if v < 0 {
            assert(out@ =~= fixed4_rep(v as int));
        } else {
            assert(sign =~= Seq::<char>::empty());
            assert(out@ =~= fixed4_rep(v as int));
        }
    }
    out
}

} // verus!

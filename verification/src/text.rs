use vstd::prelude::*;
use vstd::string::*;

verus! {

/// The character of a decimal digit.
pub open spec fn digit_char(d: int) -> char {
    if d == 0 { '0' } else if d == 1 { '1' } else if d == 2 { '2' } else if d == 3 { '3' }
    else if d == 4 { '4' } else if d == 5 { '5' } else if d == 6 { '6' } else if d == 7 { '7' }
    else if d == 8 { '8' } else { '9' }
}

/// The decimal text of a natural number, without leading zeros.
pub open spec fn decimal(n: nat) -> Seq<char>
    decreases n,
{
    if n < 10 {
        seq![digit_char(n as int)]
    } else {
        decimal(n / 10).push(digit_char((n % 10) as int))
    }
}

fn digit_str(d: u64) -> (s: &'static str)
    requires
        d < 10,
    ensures
        s@ == seq![digit_char(d as int)],
{
    if d == 0 { proof { reveal_strlit("0"); } "0" }
    else if d == 1 { proof { reveal_strlit("1"); } "1" }
    else if d == 2 { proof { reveal_strlit("2"); } "2" }
    else if d == 3 { proof { reveal_strlit("3"); } "3" }
    else if d == 4 { proof { reveal_strlit("4"); } "4" }
    else if d == 5 { proof { reveal_strlit("5"); } "5" }
    else if d == 6 { proof { reveal_strlit("6"); } "6" }
    else if d == 7 { proof { reveal_strlit("7"); } "7" }
    else if d == 8 { proof { reveal_strlit("8"); } "8" }
    else { proof { reveal_strlit("9"); } "9" }
}

/// Appends the decimal text of `n` to `out`.
pub fn push_decimal(out: &mut String, n: u64)
    ensures
        final(out)@ == old(out)@ + decimal(n as nat),
    decreases n,
{
    if n < 10 {
        out.append(digit_str(n));
    } else {
        push_decimal(out, n / 10);
        out.append(digit_str(n % 10));
    }
}

} // verus!

verus! {

/// The decimal text of an integer, with a leading minus sign when negative.
pub open spec fn decimal_i32(x: int) -> Seq<char> {
    if x < 0 {
        seq!['-'] + decimal((-x) as nat)
    } else {
        decimal(x as nat)
    }
}

/// Appends the decimal text of `x` to `out`.
pub fn push_decimal_i32(out: &mut String, x: i32)
    ensures
        final(out)@ == old(out)@ + decimal_i32(x as int),
{
    if x < 0 {
        out.append("-");
        proof {
            reveal_strlit("-");
        }
        let m: u64 = (0i64 - (x as i64)) as u64;
        push_decimal(out, m);
        assert(final(out)@ =~= old(out)@ + decimal_i32(x as int)) by {
            assert(old(out)@ + seq!['-'] + decimal(m as nat) =~= old(out)@ + (seq!['-'] + decimal(m as nat)));
        }
    } else {
        push_decimal(out, x as u64);
    }
}

} // verus!

verus! {

/// The parts joined, with `sep` between each two.
pub open spec fn seq_join(parts: Seq<Seq<char>>, sep: Seq<char>) -> Seq<char>
    decreases parts.len(),
{
    if parts.len() == 0 {
        Seq::empty()
    } else if parts.len() == 1 {
        parts[0]
    } else {
        seq_join(parts.drop_last(), sep) + sep + parts.last()
    }
}

/// The texts of a list of strings.
pub open spec fn texts(parts: Seq<String>) -> Seq<Seq<char>> {
    parts.map_values(|s: String| s@)
}

/// Joins strings with a separator between each two.
pub fn join_strings(parts: &Vec<String>, sep: &str) -> (s: String)
    ensures
        s@ == seq_join(texts(parts@), sep@),
{
    let mut s = String::new();
    let mut i: usize = 0;
    while i < parts.len()
        invariant
            i <= parts.len(),
            s@ == seq_join(texts(parts@.take(i as int)), sep@),
        decreases parts.len() - i,
    {
        proof {
            assert(texts(parts@.take(i + 1)).drop_last() =~= texts(parts@.take(i as int)));
            assert(texts(parts@.take(i + 1)).last() == parts@[i as int]@);
        }
        if i > 0 {
            s.append(sep);
        }
        s.append(parts[i].as_str());
        i = i + 1;
    }
    proof {
        assert(parts@.take(parts@.len() as int) =~= parts@);
    }
    s
}

} // verus!

verus! {

/// Whether the keys of a list of pairs are all different, as the keys of a map are.
pub open spec fn distinct_keys<V>(pairs: Seq<(String, V)>) -> bool {
    forall|i: int, j: int| 0 <= i < j < pairs.len() ==> #[trigger] pairs[i].0@ != #[trigger] pairs[j].0@
}

/// Whether text `a` comes before text `b` in the order of strings: character
/// by character, by code point, a proper prefix first.
pub open spec fn text_before(a: Seq<char>, b: Seq<char>) -> bool {
    exists|k: int|
        0 <= k <= a.len() && k <= b.len() && #[trigger] a.take(k) == b.take(k) && ((k == a.len()
            && k < b.len()) || (k < a.len() && k < b.len() && (a[k] as u32) < (b[k] as u32)))
}

/// Whether the keys of a list of pairs increase strictly, as the keys of an
/// ordered map are walked.
pub open spec fn ascending_keys<V>(pairs: Seq<(String, V)>) -> bool {
    forall|i: int, j: int| 0 <= i < j < pairs.len() ==> text_before(#[trigger] pairs[i].0@, #[trigger] pairs[j].0@)
}

/// Keys in increasing order are all different.
pub proof fn law_ascending_keys_are_distinct<V>(pairs: Seq<(String, V)>)
    requires
        ascending_keys(pairs),
    ensures
        distinct_keys(pairs),
{
    assert forall|i: int, j: int| 0 <= i < j < pairs.len() implies #[trigger] pairs[i].0@
        != #[trigger] pairs[j].0@ by {
        assert(text_before(pairs[i].0@, pairs[j].0@));
    }
}

/// Whether text `a` comes before text `b` in the order of strings.
pub fn text_is_before(a: &str, b: &str) -> (r: bool)
    ensures
        r == text_before(a@, b@),
{
    let n = a.unicode_len();
    let m = b.unicode_len();
    let mut i: usize = 0;
    while i < n && i < m
        invariant
            n == a@.len(),
            m == b@.len(),
            i <= n,
            i <= m,
            a@.take(i as int) == b@.take(i as int),
        decreases n - i,
    {
        let x = a.get_char(i);
        let y = b.get_char(i);
        if x != y {
            proof {
                if (x as u32) < (y as u32) {
                    assert(a@.take(i as int) == b@.take(i as int));
                } else {
                    assert forall|k: int|
                        0 <= k <= a@.len() && k <= b@.len() && #[trigger] a@.take(k) == b@.take(k)
                        implies !((k == a@.len() && k < b@.len()) || (k < a@.len() && k < b@.len()
                        && (a@[k] as u32) < (b@[k] as u32))) by {
                        if k > i {
                            assert(a@.take(k)[i as int] == b@.take(k)[i as int]);
                        }
                        if k < i {
                            assert(a@.take(i as int)[k] == b@.take(i as int)[k]);
                        }
                    }
                }
            }
            return (x as u32) < (y as u32);
        }
        proof {
            assert(a@.take(i + 1) =~= a@.take(i as int).push(x));
            assert(b@.take(i + 1) =~= b@.take(i as int).push(y));
        }
        i = i + 1;
    }
    proof {
        if n < m {
            assert(a@.take(n as int) == b@.take(n as int));
        } else {
            assert forall|k: int|
                0 <= k <= a@.len() && k <= b@.len() && #[trigger] a@.take(k) == b@.take(k)
                implies !((k == a@.len() && k < b@.len()) || (k < a@.len() && k < b@.len()
                && (a@[k] as u32) < (b@[k] as u32))) by {
                if k < i {
                    assert(a@.take(i as int)[k] == b@.take(i as int)[k]);
                }
            }
        }
    }
    n < m
}

/// Whether the keys of a list of pairs increase strictly.
pub fn keys_ascending<V>(pairs: &Vec<(String, V)>) -> (b: bool)
    ensures
        b == ascending_keys(pairs@),
{
    let n = pairs.len();
    let mut i: usize = 0;
    while i < n
        invariant
            n == pairs@.len(),
            i <= n,
            forall|x: int, y: int|
                0 <= x < i && x < y < n ==> text_before(#[trigger] pairs@[x].0@, #[trigger] pairs@[y].0@),
        decreases n - i,
    {
        let mut j: usize = i + 1;
        while j < n
            invariant
                n == pairs@.len(),
                i < n,
                i < j <= n,
                forall|x: int, y: int|
                    0 <= x < i && x < y < n ==> text_before(#[trigger] pairs@[x].0@, #[trigger] pairs@[y].0@),
                forall|y: int| i < y < j ==> text_before(pairs@[i as int].0@, #[trigger] pairs@[y].0@),
            decreases n - j,
        {
            if !text_is_before(pairs[i].0.as_str(), pairs[j].0.as_str()) {
                return false;
            }
            j = j + 1;
        }
        i = i + 1;
    }
    true
}

/// Whether the keys of a list of pairs are all different.
pub fn keys_distinct<V>(pairs: &Vec<(String, V)>) -> (b: bool)
    ensures
        b == distinct_keys(pairs@),
{
    let n = pairs.len();
    let mut i: usize = 0;
    while i < n
        invariant
            n == pairs@.len(),
            i <= n,
            forall|x: int, y: int|
                0 <= x < i && x < y < n ==> #[trigger] pairs@[x].0@ != #[trigger] pairs@[y].0@,
        decreases n - i,
    {
        let mut j: usize = i + 1;
        while j < n
            invariant
                n == pairs@.len(),
                i < n,
                i < j <= n,
                forall|x: int, y: int|
                    0 <= x < i && x < y < n ==> #[trigger] pairs@[x].0@ != #[trigger] pairs@[y].0@,
                forall|y: int| i < y < j ==> pairs@[i as int].0@ != #[trigger] pairs@[y].0@,
            decreases n - j,
        {
            if pairs[i].0.eq(&pairs[j].0) {
                return false;
            }
            j = j + 1;
        }
        i = i + 1;
    }
    true
}

} // verus!

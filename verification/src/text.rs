//! Text rendering used to build query strings, headers and paths.
use vstd::prelude::*;
use vstd::string::*;

verus! {

/// The view of an optional string.
pub open spec fn opt_text(s: Option<String>) -> Option<Seq<char>> {
    match s {
        Some(v) => Some(v@),
        None => None,
    }
}

/// The decimal digit `d` (for `d < 10`) as a character.
pub open spec fn digit_char(d: nat) -> char {
    if d == 0 {
        '0'
    } else if d == 1 {
        '1'
    } else if d == 2 {
        '2'
    } else if d == 3 {
        '3'
    } else if d == 4 {
        '4'
    } else if d == 5 {
        '5'
    } else if d == 6 {
        '6'
    } else if d == 7 {
        '7'
    } else if d == 8 {
        '8'
    } else {
        '9'
    }
}

/// The shortest decimal rendering of `n`, without sign or leading zeros.
pub open spec fn decimal(n: nat) -> Seq<char>
    decreases n,
{
    if n < 10 {
        seq![digit_char(n)]
    } else {
        decimal(n / 10).push(digit_char(n % 10))
    }
}

/// The decimal rendering of an integer, with a leading `-` when it is negative.
pub open spec fn signed_decimal(n: int) -> Seq<char> {
    if n < 0 {
        seq!['-'] + decimal((-n) as nat)
    } else {
        decimal(n as nat)
    }
}

/// How `bool` is written in a query string.
pub open spec fn bool_text(b: bool) -> Seq<char> {
    if b {
        "true"@
    } else {
        "false"@
    }
}

/// The strings of `parts` joined with `sep` between neighbours.
pub open spec fn join(parts: Seq<Seq<char>>, sep: Seq<char>) -> Seq<char>
    decreases parts.len(),
{
    if parts.len() == 0 {
        Seq::empty()
    } else if parts.len() == 1 {
        parts[0]
    } else {
        join(parts.drop_last(), sep) + sep + parts.last()
    }
}

/// The views of a sequence of string slices.
pub open spec fn str_views(parts: Seq<&str>) -> Seq<Seq<char>> {
    parts.map_values(|s: &str| s@)
}

/// Whether `c` is one of the characters `0` to `9`.
pub open spec fn is_digit(c: char) -> bool {
    '0' as int <= c as int && c as int <= '9' as int
}

/// The number that a string of decimal digits denotes.
pub open spec fn digits_value(s: Seq<char>) -> int
    decreases s.len(),
{
    if s.len() == 0 {
        0
    } else {
        digits_value(s.drop_last()) * 10 + (s.last() as int - '0' as int)
    }
}

/// The decimal rendering of a number is made of digits only, has no leading
/// zero, and reads back as that number: no number is written as another.
proof fn lemma_digit_char(d: nat)
    requires
        d < 10,
    ensures
        is_digit(digit_char(d)),
        digit_char(d) as int - '0' as int == d,
        d > 0 ==> digit_char(d) != '0',
{
}

pub proof fn lemma_decimal_reads_back(n: nat)
    ensures
        decimal(n).len() >= 1,
        forall|i: int| 0 <= i < decimal(n).len() ==> is_digit(#[trigger] decimal(n)[i]),
        n > 0 ==> decimal(n)[0] != '0',
        digits_value(decimal(n)) == n,
    decreases n,
{
    if n < 10 {
        lemma_digit_char(n);
        assert(decimal(n).drop_last() =~= Seq::<char>::empty());
        assert(digits_value(Seq::<char>::empty()) == 0);
        assert(decimal(n).last() == digit_char(n));
    } else {
        lemma_digit_char(n % 10);
        lemma_decimal_reads_back(n / 10);
        let d = decimal(n);
        assert(d.drop_last() =~= decimal(n / 10));
        assert(d.last() == digit_char(n % 10));
        assert(digits_value(d) == digits_value(decimal(n / 10)) * 10 + (digit_char(n % 10) as int - '0' as int));
        assert((n / 10) * 10 + n % 10 == n);
        assert forall|i: int| 0 <= i < d.len() implies is_digit(#[trigger] d[i]) by {
            if i < d.len() - 1 {
                assert(d[i] == decimal(n / 10)[i]);
            }
        }
        assert(d[0] == decimal(n / 10)[0]);
    }
}

/// Where the `i`-th part starts in the parts joined with a separator of length `sep_len`.
pub open spec fn join_offset(parts: Seq<Seq<char>>, sep_len: nat, i: int) -> int
    decreases i,
{
    if i <= 0 {
        0
    } else {
        join_offset(parts, sep_len, i - 1) + parts[i - 1].len() + sep_len
    }
}

proof fn lemma_join_offset_prefix(parts: Seq<Seq<char>>, sep_len: nat, i: int)
    requires
        parts.len() >= 1,
        0 <= i <= parts.len() - 1,
    ensures
        join_offset(parts.drop_last(), sep_len, i) == join_offset(parts, sep_len, i),
    decreases i,
{
    if i > 0 {
        lemma_join_offset_prefix(parts, sep_len, i - 1);
    }
}

proof fn lemma_join_offset_grows(parts: Seq<Seq<char>>, sep_len: nat, i: int, j: int)
    requires
        0 <= i <= j <= parts.len(),
    ensures
        join_offset(parts, sep_len, i) <= join_offset(parts, sep_len, j),
    decreases j - i,
{
    if i < j {
        lemma_join_offset_grows(parts, sep_len, i, j - 1);
    }
}

/// Joining lays the parts out in order with the separator between every pair of
/// neighbours and nowhere else: part `i` starts at `join_offset(parts, |sep|, i)`,
/// one separator follows every part but the last, and nothing else is written.
#[verifier::rlimit(60)]
pub proof fn lemma_join_layout(parts: Seq<Seq<char>>, sep: Seq<char>)
    requires
        parts.len() >= 1,
    ensures
        join(parts, sep).len() == join_offset(parts, sep.len(), parts.len() as int) - sep.len(),
        forall|i: int|
            0 <= i < parts.len() ==> join(parts, sep).subrange(
                join_offset(parts, sep.len(), i),
                join_offset(parts, sep.len(), i) + parts[i].len(),
            ) == #[trigger] parts[i],
        forall|i: int|
            0 <= i < parts.len() - 1 ==> #[trigger] join(parts, sep).subrange(
                join_offset(parts, sep.len(), i) + parts[i].len(),
                join_offset(parts, sep.len(), i + 1),
            ) == sep,
    decreases parts.len(),
{
    let n = parts.len() as int;
    let k = sep.len();
    if n == 1 {
        assert(join(parts, sep).subrange(0, parts[0].len() as int) =~= parts[0]);
    } else {
        let pre = parts.drop_last();
        lemma_join_layout(pre, sep);
        let jp = join(pre, sep);
        let j = join(parts, sep);
        assert(j == jp + sep + parts.last());
        assert forall|i: int| 0 <= i <= n - 1 implies join_offset(pre, k, i) == join_offset(parts, k, i) by {
            lemma_join_offset_prefix(parts, k, i);
        }
        assert(jp.len() == join_offset(parts, k, n - 1) - k);
        assert forall|i: int| 0 <= i < n implies j.subrange(
            join_offset(parts, k, i),
            join_offset(parts, k, i) + parts[i].len(),
        ) == #[trigger] parts[i] by {
            lemma_join_offset_grows(parts, k, 0, i);
            if i < n - 1 {
                lemma_join_offset_grows(parts, k, i + 1, n - 1);
                assert(pre[i] == parts[i]);
                assert(jp.subrange(join_offset(pre, k, i), join_offset(pre, k, i) + pre[i].len()) == pre[i]);
                assert(j.subrange(join_offset(parts, k, i), join_offset(parts, k, i) + parts[i].len())
                    =~= jp.subrange(join_offset(pre, k, i), join_offset(pre, k, i) + pre[i].len()));
            } else {
                assert(j.subrange(join_offset(parts, k, i), join_offset(parts, k, i) + parts[i].len())
                    =~= parts.last());
            }
        }
        assert forall|i: int| 0 <= i < n - 1 implies #[trigger] j.subrange(
            join_offset(parts, k, i) + parts[i].len(),
            join_offset(parts, k, i + 1),
        ) == sep by {
            lemma_join_offset_grows(parts, k, 0, i);
            if i < n - 2 {
                lemma_join_offset_grows(parts, k, i + 2, n - 1);
                assert(pre[i] == parts[i]);
                assert(jp.subrange(join_offset(pre, k, i) + pre[i].len(), join_offset(pre, k, i + 1)) == sep);
                assert(j.subrange(join_offset(parts, k, i) + parts[i].len(), join_offset(parts, k, i + 1))
                    =~= jp.subrange(join_offset(pre, k, i) + pre[i].len(), join_offset(pre, k, i + 1)));
            } else {
                assert(j.subrange(join_offset(parts, k, i) + parts[i].len(), join_offset(parts, k, i + 1))
                    =~= sep);
            }
        }
    }
}

fn digit_str(d: u64) -> (r: &'static str)
    requires
        d < 10,
    ensures
        r@ == seq![digit_char(d as nat)],
{
    proof {
        reveal_strlit("0");
        reveal_strlit("1");
        reveal_strlit("2");
        reveal_strlit("3");
        reveal_strlit("4");
        reveal_strlit("5");
        reveal_strlit("6");
        reveal_strlit("7");
        reveal_strlit("8");
        reveal_strlit("9");
    }
    if d == 0 {
        "0"
    } else if d == 1 {
        "1"
    } else if d == 2 {
        "2"
    } else if d == 3 {
        "3"
    } else if d == 4 {
        "4"
    } else if d == 5 {
        "5"
    } else if d == 6 {
        "6"
    } else if d == 7 {
        "7"
    } else if d == 8 {
        "8"
    } else {
        "9"
    }
}

/// Appends the decimal rendering of `n` to `s`.
pub fn push_decimal(s: &mut String, n: u64)
    ensures
        final(s)@ == old(s)@ + decimal(n as nat),
    decreases n,
{
    if n >= 10 {
        push_decimal(s, n / 10);
        s.append(digit_str(n % 10));
        assert(s@ == old(s)@ + decimal(n as nat));
    } else {
        s.append(digit_str(n));
    }
}

/// The decimal rendering of an unsigned integer (what `to_string` gives for it).
pub fn u64_to_text(n: u64) -> (r: String)
    ensures
        r@ == decimal(n as nat),
{
    let mut s = String::new();
    push_decimal(&mut s, n);
    s
}

/// The decimal rendering of a signed integer (what `to_string` gives for it).
pub fn i64_to_text(n: i64) -> (r: String)
    ensures
        r@ == signed_decimal(n as int),
{
    let mut s = String::new();
    if n < 0 {
        proof {
            reveal_strlit("-");
        }
        s.append("-");
        let magnitude: u64 = (0i128 - (n as i128)) as u64;
        push_decimal(&mut s, magnitude);
    } else {
        push_decimal(&mut s, n as u64);
    }
    s
}

/// `true` or `false` (what `to_string` gives for a `bool`).
pub fn bool_to_text(b: bool) -> (r: String)
    ensures
        r@ == bool_text(b),
{
    if b {
        String::from_str("true")
    } else {
        String::from_str("false")
    }
}

/// Copies a string slice into an owned string.
pub fn owned(s: &str) -> (r: String)
    ensures
        r@ == s@,
{
    String::from_str(s)
}

/// `a` followed by `b`, as one string.
pub fn concat2(a: &str, b: &str) -> (r: String)
    ensures
        r@ == a@ + b@,
{
    let mut s = String::from_str(a);
    s.append(b);
    s
}

/// `a` followed by `b` followed by `c`, as one string.
pub fn concat3(a: &str, b: &str, c: &str) -> (r: String)
    ensures
        r@ == a@ + b@ + c@,
{
    let mut s = String::from_str(a);
    s.append(b);
    s.append(c);
    s
}

/// Joins the parts with `sep` between neighbours (what `[&str]::join` gives).
pub fn join_strs(parts: &[&str], sep: &str) -> (r: String)
    ensures
        r@ == join(str_views(parts@), sep@),
{
    let mut s = String::new();
    let ghost views = str_views(parts@);
    let mut i: usize = 0;
    while i < parts.len()
        invariant
            i <= parts.len(),
            views == str_views(parts@),
            views.len() == parts@.len(),
            s@ == join(views.take(i as int), sep@),
        decreases parts.len() - i,
    {
        assert(views.take(i + 1).drop_last() =~= views.take(i as int));
        assert(views[i as int] == parts@[i as int]@);
        if i > 0 {
            s.append(sep);
        }
        s.append(parts[i]);
        i = i + 1;
    }
    assert(views.take(parts.len() as int) =~= views);
    s
}

} // verus!

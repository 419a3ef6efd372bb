//! Character-level string utilities: equality, prefix test, whitespace
//! trimming, decimal numerals, path segments and joining, each specified
//! over the `Seq<char>` view.

use vstd::prelude::*;

verus! {

/// True iff `p` is a prefix of `s`.
pub open spec fn spec_starts_with(s: Seq<char>, p: Seq<char>) -> bool {
    p.len() <= s.len() && s.subrange(0, p.len() as int) == p
}

/// Character-for-character equality of two string slices.
pub fn str_eq(a: &str, b: &str) -> (r: bool)
    ensures
        r == (a@ == b@),
{
    let alen = a.unicode_len();
    let blen = b.unicode_len();
    if alen != blen {
        return false;
    }
    let mut i: usize = 0;
    while i < alen
        invariant
            alen == a@.len(),
            blen == b@.len(),
            alen == blen,
            i <= alen,
            forall|j: int| 0 <= j < i ==> a@[j] == b@[j],
        decreases alen - i,
    {
        if a.get_char(i) != b.get_char(i) {
            return false;
        }
        i += 1;
    }
    proof {
        assert(a@ =~= b@);
    }
    true
}

/// True iff `s` begins with the prefix `p`.
pub fn str_starts_with(s: &str, p: &str) -> (r: bool)
    ensures
        r == spec_starts_with(s@, p@),
{
    let slen = s.unicode_len();
    let plen = p.unicode_len();
    if plen > slen {
        return false;
    }
    let mut i: usize = 0;
    while i < plen
        invariant
            slen == s@.len(),
            plen == p@.len(),
            plen <= slen,
            i <= plen,
            forall|j: int| 0 <= j < i ==> s@[j] == p@[j],
        decreases plen - i,
    {
        if s.get_char(i) != p.get_char(i) {
            proof {
                assert(s@.subrange(0, p@.len() as int)[i as int] != p@[i as int]);
            }
            return false;
        }
        i += 1;
    }
    proof {
        assert(s@.subrange(0, p@.len() as int) =~= p@);
    }
    true
}

/// The whitespace characters recognized when trimming command output and
/// operator input: space, horizontal tab, line feed, carriage return.
pub open spec fn spec_is_ws(c: char) -> bool {
    c == ' ' || c == '\t' || c == '\n' || c == '\r'
}

/// `s` with leading whitespace removed.
pub open spec fn spec_trim_start(s: Seq<char>) -> Seq<char>
    decreases s.len(),
{
    if s.len() > 0 && spec_is_ws(s[0]) {
        spec_trim_start(s.drop_first())
    } else {
        s
    }
}

/// `s` with trailing whitespace removed.
pub open spec fn spec_trim_end(s: Seq<char>) -> Seq<char>
    decreases s.len(),
{
    if s.len() > 0 && spec_is_ws(s[s.len() - 1]) {
        spec_trim_end(s.drop_last())
    } else {
        s
    }
}

/// `s` with leading and trailing whitespace removed.
pub open spec fn spec_trim(s: Seq<char>) -> Seq<char> {
    spec_trim_end(spec_trim_start(s))
}

/// Whether `c` counts as whitespace for trimming.
pub fn is_ws_char(c: char) -> (b: bool)
    ensures
        b == spec_is_ws(c),
{
    c == ' ' || c == '\t' || c == '\n' || c == '\r'
}

/// A slice of `s` holding `s` without its leading and trailing whitespace.
pub fn str_trim<'a>(s: &'a str) -> (r: &'a str)
    ensures
        r@ == spec_trim(s@),
{
    let n = s.unicode_len();
    proof {
        assert(s@.subrange(0, n as int) =~= s@);
    }
    let mut start: usize = 0;
    while start < n && is_ws_char(s.get_char(start))
        invariant
            n == s@.len(),
            start <= n,
            spec_trim_start(s@) == spec_trim_start(s@.subrange(start as int, n as int)),
        decreases n - start,
    {
        proof {
            assert(s@.subrange(start as int, n as int).drop_first() =~= s@.subrange(
                start + 1,
                n as int,
            ));
        }
        start += 1;
    }
    proof {
        assert(spec_trim_start(s@) == s@.subrange(start as int, n as int));
    }
    let mut end: usize = n;
    while end > start && is_ws_char(s.get_char(end - 1))
        invariant
            n == s@.len(),
            start <= end <= n,
            spec_trim_start(s@) == s@.subrange(start as int, n as int),
            spec_trim_end(s@.subrange(start as int, n as int)) == spec_trim_end(
                s@.subrange(start as int, end as int),
            ),
        decreases end,
    {
        proof {
            assert(s@.subrange(start as int, end as int).drop_last() =~= s@.subrange(
                start as int,
                end - 1,
            ));
        }
        end -= 1;
    }
    proof {
        assert(spec_trim_end(s@.subrange(start as int, end as int)) == s@.subrange(
            start as int,
            end as int,
        ));
    }
    s.substring_char(start, end)
}

/// A decimal digit.
pub open spec fn spec_is_digit(c: char) -> bool {
    48 <= c as u32 && c as u32 <= 57
}

/// The numeric value of a decimal digit.
pub open spec fn spec_digit_value(c: char) -> nat {
    (c as u32 - 48) as nat
}

/// The numeric value of a digit sequence, most significant digit first.
pub open spec fn spec_digits_value(s: Seq<char>) -> nat
    decreases s.len(),
{
    if s.len() == 0 {
        0
    } else {
        spec_digits_value(s.drop_last()) * 10 + spec_digit_value(s[s.len() - 1])
    }
}

/// A non-empty sequence made of decimal digits only.
pub open spec fn spec_all_digits(s: Seq<char>) -> bool {
    s.len() > 0 && forall|i: int| 0 <= i < s.len() ==> spec_is_digit(s[i])
}

/// The digit body of a numeral: an optional leading plus sign is skipped.
pub open spec fn spec_numeral_body(s: Seq<char>) -> Seq<char> {
    if s.len() > 0 && s[0] == '+' {
        s.drop_first()
    } else {
        s
    }
}

/// Whether `s` denotes an unsigned 64-bit integer: an optional plus sign,
/// then decimal digits, with a value that fits in the type.
pub open spec fn spec_parses_as_u64(s: Seq<char>) -> bool {
    spec_all_digits(spec_numeral_body(s)) && spec_digits_value(spec_numeral_body(s)) <= u64::MAX
}

/// The value of a digit sequence never shrinks when more digits follow.
proof fn lemma_digits_value_take_le(s: Seq<char>, j: int)
    requires
        0 <= j <= s.len(),
    ensures
        spec_digits_value(s.take(j)) <= spec_digits_value(s),
    decreases s.len() - j,
{
    if j < s.len() {
        assert(s.take(j + 1).drop_last() =~= s.take(j));
        assert(s.take(j + 1)[j] == s[j]);
        lemma_digits_value_take_le(s, j + 1);
    } else {
        assert(s.take(j) =~= s);
    }
}

/// Parses a decimal numeral, exactly when `spec_parses_as_u64` holds of it.
pub fn parse_u64(s: &str) -> (r: Option<u64>)
    ensures
        r is Some <==> spec_parses_as_u64(s@),
        r matches Some(n) ==> n == spec_digits_value(spec_numeral_body(s@)),
{
    let n = s.unicode_len();
    let offset: usize = if n > 0 && s.get_char(0) == '+' {
        1
    } else {
        0
    };
    let ghost body = spec_numeral_body(s@);
    proof {
        assert(body =~= s@.subrange(offset as int, n as int));
    }
    if offset == n {
        return None;
    }
    let mut acc: u64 = 0;
    let mut i: usize = offset;
    while i < n
        invariant
            n == s@.len(),
            offset <= i <= n,
            offset < n,
            body == spec_numeral_body(s@),
            body == s@.subrange(offset as int, n as int),
            forall|j: int| offset <= j < i ==> spec_is_digit(s@[j]),
            acc == spec_digits_value(s@.subrange(offset as int, i as int)),
        decreases n - i,
    {
        let c = s.get_char(i);
        let v = c as u32;
        if v < 48 || v > 57 {
            proof {
                assert(body[i - offset] == s@[i as int]);
                assert(!spec_is_digit(body[i - offset]));
                assert(!spec_all_digits(body));
            }
            return None;
        }
        let d: u64 = (v - 48) as u64;
        proof {
            assert(s@.subrange(offset as int, i + 1).drop_last() =~= s@.subrange(
                offset as int,
                i as int,
            ));
            assert(s@.subrange(offset as int, i + 1).last() == s@[i as int]);
        }
        if acc > (u64::MAX - d) / 10 {
            proof {
                vstd::arithmetic::div_mod::lemma_fundamental_div_mod((u64::MAX - d) as int, 10);
                assert(acc * 10 + d > u64::MAX);
                assert(spec_digits_value(s@.subrange(offset as int, i + 1)) > u64::MAX);
                assert(body.take(i + 1 - offset) =~= s@.subrange(offset as int, i + 1));
                lemma_digits_value_take_le(body, i + 1 - offset);
                assert(spec_digits_value(body) > u64::MAX);
            }
            return None;
        }
        proof {
            vstd::arithmetic::div_mod::lemma_fundamental_div_mod((u64::MAX - d) as int, 10);
            assert(acc * 10 + d <= u64::MAX);
        }
        acc = acc * 10 + d;
        i += 1;
    }
    proof {
        assert(s@.subrange(offset as int, n as int) =~= body);
        assert(spec_all_digits(body));
    }
    Some(acc)
}

/// The suffix of `s` after its last separator character, or all of `s` when
/// no separator occurs. A trailing separator yields the empty segment.
pub open spec fn spec_last_segment(s: Seq<char>) -> Seq<char>
    decreases s.len(),
{
    if s.len() == 0 {
        Seq::empty()
    } else {
        let prev = spec_last_segment(s.drop_last());
        if s.last() == '/' {
            Seq::empty()
        } else {
            prev.push(s.last())
        }
    }
}

/// A slice of `path` holding its last `/`-separated segment.
pub fn last_segment<'a>(path: &'a str) -> (r: &'a str)
    ensures
        r@ == spec_last_segment(path@),
{
    let n = path.unicode_len();
    let mut seg_start: usize = 0;
    let mut i: usize = 0;
    while i < n
        invariant
            n == path@.len(),
            seg_start <= i <= n,
            spec_last_segment(path@.take(i as int)) == path@.subrange(seg_start as int, i as int),
        decreases n - i,
    {
        let c = path.get_char(i);
        proof {
            assert(path@.take(i + 1).drop_last() =~= path@.take(i as int));
            assert(path@.take(i + 1).last() == path@[i as int]);
        }
        if c == '/' {
            seg_start = i + 1;
            proof {
                assert(path@.subrange(i + 1, i + 1) =~= Seq::<char>::empty());
            }
        } else {
            proof {
                assert(path@.subrange(seg_start as int, i as int).push(path@[i as int])
                    =~= path@.subrange(seg_start as int, i + 1));
            }
        }
        i += 1;
    }
    proof {
        assert(path@.take(n as int) =~= path@);
    }
    path.substring_char(seg_start, n)
}

/// The elements of `args` joined with single spaces.
pub open spec fn spec_join_with_spaces(args: Seq<Seq<char>>) -> Seq<char>
    decreases args.len(),
{
    if args.len() == 0 {
        Seq::empty()
    } else if args.len() == 1 {
        args[0]
    } else {
        spec_join_with_spaces(args.drop_last()) + seq![' '] + args.last()
    }
}

/// Joins the given strings with single spaces, as a shell command line.
#[verifier::rlimit(30)]
pub fn join_with_spaces(args: &Vec<String>) -> (r: String)
    ensures
        r@ == spec_join_with_spaces(args.deep_view()),
{
    let ghost dv = args.deep_view();
    proof {
        assert(dv.len() == args@.len());
    }
    let mut out = String::new();
    let mut i: usize = 0;
    while i < args.len()
        invariant
            dv == args.deep_view(),
            dv.len() == args@.len(),
            i <= args.len(),
            out@ == spec_join_with_spaces(dv.take(i as int)),
        decreases args.len() - i,
    {
        proof {
            assert(dv.take(i + 1).drop_last() =~= dv.take(i as int));
            assert(dv.take(i + 1).last() == dv[i as int]);
        }
        if i > 0 {
            out.append(" ");
            proof {
                reveal_strlit(" ");
                assert(" "@ =~= seq![' ']);
            }
        }
        out.append(args[i].as_str());
        i += 1;
    }
    proof {
        assert(dv.take(dv.len() as int) =~= dv);
    }
    out
}

} // verus!

//! Single byte ranges from an HTTP `Range` header (`bytes=start-end` or
//! `bytes=start-`).
use vstd::prelude::*;

use crate::decimal::{decimal_text, lemma_decimal_text, parse_usize, usize_value};

verus! {

/// The unit prefix that a supported header starts with.
pub open spec fn bytes_prefix() -> Seq<char> {
    seq!['b', 'y', 't', 'e', 's', '=']
}

pub open spec fn has_bytes_prefix(h: Seq<char>) -> bool {
    h.len() >= 6 && h.take(6) == bytes_prefix()
}

/// What follows the unit prefix.
pub open spec fn range_spec_text(h: Seq<char>) -> Seq<char> {
    h.skip(6)
}

pub open spec fn no_dash(s: Seq<char>) -> bool {
    forall|k: int| 0 <= k < s.len() ==> s[k] != '-'
}

/// `s[i]` is the one `-` in `s`.
pub open spec fn single_dash_at(s: Seq<char>, i: int) -> bool {
    0 <= i < s.len() && s[i] == '-' && no_dash(s.take(i)) && no_dash(s.skip(i + 1))
}

/// Splitting `s` on `-` gives exactly two parts.
pub open spec fn has_single_dash(s: Seq<char>) -> bool {
    exists|i: int| single_dash_at(s, i)
}

pub open spec fn dash_index(s: Seq<char>) -> int {
    choose|i: int| single_dash_at(s, i)
}

/// The part before the `-`.
pub open spec fn first_part(s: Seq<char>) -> Seq<char> {
    s.take(dash_index(s))
}

/// The part after the `-`.
pub open spec fn second_part(s: Seq<char>) -> Seq<char> {
    s.skip(dash_index(s) + 1)
}

/// The inclusive range `(start, end)` that header `h` asks for in a
/// resource of `total` bytes, or `None` where the header is not a single
/// satisfiable range. An empty end means the last byte.
pub open spec fn spec_parse_range(h: Seq<char>, total: int) -> Option<(int, int)> {
    if !has_bytes_prefix(h) || !has_single_dash(range_spec_text(h)) {
        None
    } else {
        let rest = range_spec_text(h);
        match usize_value(first_part(rest)) {
            None => None,
            Some(start) => {
                let end = if second_part(rest).len() == 0 {
                    Some(total - 1)
                } else {
                    usize_value(second_part(rest))
                };
                match end {
                    None => None,
                    Some(end) => if start <= end && end < total {
                        Some((start, end))
                    } else {
                        None
                    },
                }
            },
        }
    }
}

/// Where `s` is `a`, a `-` and `b`, with no `-` in `a` or `b`, the two
/// parts are `a` and `b`.
proof fn lemma_split_at_dash(s: Seq<char>, i: int)
    requires
        single_dash_at(s, i),
    ensures
        has_single_dash(s),
        dash_index(s) == i,
        first_part(s) == s.take(i),
        second_part(s) == s.skip(i + 1),
{
    assert forall|j: int| single_dash_at(s, j) implies j == i by {
        if j < i {
            assert(s.take(i)[j] == s[j]);
        } else if j > i {
            assert(s.take(j)[i] == s[i]);
        }
    }
    assert(single_dash_at(s, dash_index(s)));
}

/// Parses a `Range` header against a resource of `content_length` bytes.
/// A result is always a satisfiable range: `start <= end < content_length`.
pub fn parse_range(range: &str, content_length: usize) -> (r: Option<(usize, usize)>)
    ensures
        match r {
            Some((start, end)) => spec_parse_range(range@, content_length as int) == Some(
                (start as int, end as int),
            ),
            None => spec_parse_range(range@, content_length as int) is None,
        },
        r matches Some((start, end)) ==> start <= end < content_length,
{
    let n = range.unicode_len();
    if n < 6 || range.get_char(0) != 'b' || range.get_char(1) != 'y' || range.get_char(2) != 't'
        || range.get_char(3) != 'e' || range.get_char(4) != 's' || range.get_char(5) != '=' {
        proof {
            if range@.len() >= 6 && range@.take(6) == bytes_prefix() {
                assert(range@.take(6)[0] == 'b');
                assert(range@.take(6)[1] == 'y');
                assert(range@.take(6)[2] == 't');
                assert(range@.take(6)[3] == 'e');
                assert(range@.take(6)[4] == 's');
                assert(range@.take(6)[5] == '=');
            }
        }
        return None;
    }
    assert(range@.take(6) =~= bytes_prefix());
    let rest = range.substring_char(6, n);
    assert(rest@ =~= range_spec_text(range@));
    let m = rest.unicode_len();
    // the first `-`
    let mut i: usize = 0;
    while i < m && rest.get_char(i) != '-'
        invariant
            i <= m,
            m == rest@.len(),
            no_dash(rest@.take(i as int)),
        decreases m - i,
    {
        assert(rest@.take(i + 1)[i as int] == rest@[i as int]);
        i = i + 1;
        assert forall|k: int| 0 <= k < i implies rest@.take(i as int)[k] != '-' by {
            if k < i - 1 {
                assert(rest@.take(i as int)[k] == rest@.take(i - 1)[k]);
            }
        }
    }
    if i == m {
        proof {
            assert forall|j: int| !single_dash_at(rest@, j) by {
                if 0 <= j < rest@.len() {
                    assert(rest@.take(i as int)[j] == rest@[j]);
                }
            }
        }
        return None;
    }
    // no second `-`
    let mut j: usize = i + 1;
    while j < m
        invariant
            i < j <= m,
            m == rest@.len(),
            rest@[i as int] == '-',
            rest@ == range_spec_text(range@),
            has_bytes_prefix(range@),
            no_dash(rest@.take(i as int)),
            forall|k: int| i < k < j ==> rest@[k] != '-',
        decreases m - j,
    {
        if rest.get_char(j) == '-' {
            proof {
                assert forall|x: int| !single_dash_at(rest@, x) by {
                    if x == i {
                        assert(rest@.skip(x + 1)[j - i - 1] == rest@[j as int]);
                    } else if 0 <= x < i {
                        assert(rest@.take(i as int)[x] == rest@[x]);
                    } else if x > i && x < rest@.len() {
                        assert(rest@.take(x)[i as int] == rest@[i as int]);
                    }
                }
            }
            return None;
        }
        j = j + 1;
    }
    assert(no_dash(rest@.skip(i + 1))) by {
        assert forall|k: int| 0 <= k < rest@.skip(i + 1).len() implies #[trigger] rest@.skip(
            i + 1,
        )[k] != '-' by {
            assert(rest@.skip(i + 1)[k] == rest@[i + 1 + k]);
        }
    }
    proof {
        lemma_split_at_dash(rest@, i as int);
    }
    let first = rest.substring_char(0, i);
    let second = rest.substring_char(i + 1, m);
    assert(first@ =~= first_part(rest@));
    assert(second@ =~= second_part(rest@));
    let start = match parse_usize(first) {
        Some(v) => v,
        None => {
            return None;
        },
    };
    let end = if second.unicode_len() == 0 {
        if content_length == 0 {
            return None;
        }
        content_length - 1
    } else {
        match parse_usize(second) {
            Some(v) => v,
            None => {
                return None;
            },
        }
    };
    if start <= end && end < content_length {
        Some((start, end))
    } else {
        None
    }
}

/// The header that asks for bytes `start` through `end`.
pub open spec fn closed_range_header(start: nat, end: nat) -> Seq<char> {
    bytes_prefix() + decimal_text(start) + seq!['-'] + decimal_text(end)
}

/// The header that asks for everything from byte `start` on.
pub open spec fn open_range_header(start: nat) -> Seq<char> {
    bytes_prefix() + decimal_text(start) + seq!['-']
}

proof fn lemma_header_parts(h: Seq<char>, a: Seq<char>, b: Seq<char>)
    requires
        h == bytes_prefix() + a + seq!['-'] + b,
        no_dash(a),
        no_dash(b),
    ensures
        has_bytes_prefix(h),
        has_single_dash(range_spec_text(h)),
        first_part(range_spec_text(h)) == a,
        second_part(range_spec_text(h)) == b,
{
    assert(h.take(6) =~= bytes_prefix());
    let rest = range_spec_text(h);
    assert(rest =~= a + seq!['-'] + b);
    assert(rest.take(a.len() as int) =~= a);
    assert(rest.skip(a.len() as int + 1) =~= b);
    assert(rest[a.len() as int] == '-');
    lemma_split_at_dash(rest, a.len() as int);
}

proof fn lemma_decimal_no_dash(n: nat)
    ensures
        no_dash(decimal_text(n)),
{
    lemma_decimal_text(n);
    assert forall|k: int| 0 <= k < decimal_text(n).len() implies decimal_text(n)[k] != '-' by {
        if decimal_text(n)[k] == '-' {
            assert(decimal_text(n).contains('-'));
        }
    }
}

/// A header naming a satisfiable range in decimal gives back exactly that
/// range.
pub proof fn lemma_parse_closed_range(start: usize, end: usize, total: usize)
    requires
        start <= end < total,
    ensures
        spec_parse_range(closed_range_header(start as nat, end as nat), total as int) == Some(
            (start as int, end as int),
        ),
{
    let h = closed_range_header(start as nat, end as nat);
    lemma_decimal_no_dash(start as nat);
    lemma_decimal_no_dash(end as nat);
    lemma_decimal_text(start as nat);
    lemma_decimal_text(end as nat);
    lemma_header_parts(h, decimal_text(start as nat), decimal_text(end as nat));
}

/// An open range from byte `start` runs to the last byte.
pub proof fn lemma_parse_open_range(start: usize, total: usize)
    requires
        start < total,
    ensures
        spec_parse_range(open_range_header(start as nat), total as int) == Some(
            (start as int, total - 1),
        ),
{
    let h = open_range_header(start as nat);
    assert(h =~= bytes_prefix() + decimal_text(start as nat) + seq!['-'] + Seq::<char>::empty());
    lemma_decimal_no_dash(start as nat);
    lemma_decimal_text(start as nat);
    lemma_header_parts(h, decimal_text(start as nat), Seq::<char>::empty());
}

/// A range comes out only of a header with the `bytes=` prefix, exactly one
/// `-`, a start that is a number, an end that is a number or empty, and
/// bounds with `start <= end < total`; every other header gives none.
pub proof fn lemma_range_only_when_well_formed(h: Seq<char>, total: int)
    ensures
        spec_parse_range(h, total) matches Some((start, end)) ==> {
            &&& has_bytes_prefix(h)
            &&& has_single_dash(range_spec_text(h))
            &&& usize_value(first_part(range_spec_text(h))) == Some(start)
            &&& second_part(range_spec_text(h)).len() == 0 ==> end == total - 1
            &&& second_part(range_spec_text(h)).len() != 0 ==> usize_value(
                second_part(range_spec_text(h)),
            ) == Some(end)
            &&& 0 <= start <= end < total
        },
{
    if let Some((start, end)) = spec_parse_range(h, total) {
        let rest = range_spec_text(h);
        assert(usize_value(first_part(rest)) matches Some(s) && 0 <= s);
    }
}

} // verus!

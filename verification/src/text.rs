//! Decimal formatting and parsing: progress strings, `Range` header values,
//! and the total length read out of a `Content-Range` header.

use vstd::prelude::*;
use vstd::string::StringExecFns;

verus! {

/// The character for one decimal digit.
pub open spec fn digit_char(d: int) -> char {
    if d == 0 {
        '0'
    } else if d == 1 {
        '1'
    } else if d == 2 {
        '2'
    } else if d == 3 {
        '3'
    } else if d == 4 {
        '4'
    } else if d == 5 {
        '5'
    } else if d == 6 {
        '6'
    } else if d == 7 {
        '7'
    } else if d == 8 {
        '8'
    } else {
        '9'
    }
}

/// The decimal rendering of a number, most significant digit first.
pub open spec fn dec_rep(n: nat) -> Seq<char>
    decreases n,
{
    if n < 10 {
        seq![digit_char(n as int)]
    } else {
        dec_rep(n / 10).push(digit_char((n % 10) as int))
    }
}

/// Render a number in decimal.
pub fn usize_to_string(n: usize) -> (s: String)
    ensures
        s@ == dec_rep(n as nat),
    decreases n,
{
    let d: usize = n % 10;
    let digit: &str = if d == 0 {
        "0"
    } else if d == 1 {
        "1"
    } else if d == 2 {
        "2"
    } else if d == 3 {
        "3"
    } else if d == 4 {
        "4"
    } else if d == 5 {
        "5"
    } else if d == 6 {
        "6"
    } else if d == 7 {
        "7"
    } else if d == 8 {
        "8"
    } else {
        "9"
    };
    proof {
        reveal_strlit("0");
        reveal_strlit("1");
        reveal_strlit("2");
        reveal_strlit("3");
        reveal_strlit("4");
        reveal_strlit("5");
        reveal_strlit("6");
        reveal_strlit("7");
        reveal_strlit("8");
        reveal_strlit("9");
        assert(digit@ =~= seq![digit_char(d as int)]);
    }
    if n < 10 {
        let mut s = String::new();
        s.append(digit);
        proof {
            assert(s@ =~= dec_rep(n as nat));
        }
        s
    } else {
        let mut s = usize_to_string(n / 10);
        s.append(digit);
        proof {
            assert(s@ =~= dec_rep(n as nat));
        }
        s
    }
}

/// The `"<finished>/<total>"` progress rendering.
pub open spec fn progress_rep(finished: nat, total: nat) -> Seq<char> {
    dec_rep(finished) + seq!['/'] + dec_rep(total)
}

/// Render a progress pair as `"<finished>/<total>"`.
pub fn format_progress(finished: usize, total: usize) -> (s: String)
    ensures
        s@ == progress_rep(finished as nat, total as nat),
{
    let mut s = usize_to_string(finished);
    s.append("/");
    proof {
        reveal_strlit("/");
        assert(s@ =~= dec_rep(finished as nat) + seq!['/']);
    }
    let t = usize_to_string(total);
    s.append(t.as_str());
    proof {
        assert(s@ =~= progress_rep(finished as nat, total as nat));
    }
    s
}

/// The value of an HTTP `Range` header for an inclusive byte sub-range.
pub open spec fn range_header_rep(lo: nat, hi: nat) -> Seq<char> {
    "bytes="@ + dec_rep(lo) + seq!['-'] + dec_rep(hi)
}

/// Render `"bytes=<lo>-<hi>"` for an inclusive byte sub-range.
pub fn range_header_value(lo: usize, hi: usize) -> (s: String)
    ensures
        s@ == range_header_rep(lo as nat, hi as nat),
{
    let mut s = String::from_str("bytes=");
    let l = usize_to_string(lo);
    s.append(l.as_str());
    s.append("-");
    proof {
        reveal_strlit("-");
        assert(s@ =~= "bytes="@ + dec_rep(lo as nat) + seq!['-']);
    }
    let h = usize_to_string(hi);
    s.append(h.as_str());
    proof {
        assert(s@ =~= range_header_rep(lo as nat, hi as nat));
    }
    s
}

/// The reply to a progress query for an id no registered task carries.
pub open spec fn unknown_id_rep(id: nat) -> Seq<char> {
    "Unknown id "@ + dec_rep(id)
}

/// Render the reply to a progress query for an unknown id.
pub fn unknown_id_message(id: usize) -> (s: String)
    ensures
        s@ == unknown_id_rep(id as nat),
{
    let mut s = String::from_str("Unknown id ");
    let d = usize_to_string(id);
    s.append(d.as_str());
    proof {
        assert(s@ =~= unknown_id_rep(id as nat));
    }
    s
}

/// An ASCII decimal digit, as a byte.
pub open spec fn is_digit(b: u8) -> bool {
    48 <= b <= 57
}

/// Every byte of the sequence is a decimal digit.
pub open spec fn all_digits(s: Seq<u8>) -> bool {
    forall|i: int| 0 <= i < s.len() ==> is_digit(#[trigger] s[i])
}

/// The numeric value of a sequence of decimal digit bytes.
pub open spec fn dec_value(s: Seq<u8>) -> nat
    decreases s.len(),
{
    if s.len() == 0 {
        0
    } else {
        (dec_value(s.drop_last()) * 10 + (s.last() - 48)) as nat
    }
}

/// Appending digits never makes the value smaller.
proof fn lemma_dec_value_prefix_le(s: Seq<u8>, i: int)
    requires
        0 <= i <= s.len(),
        all_digits(s),
    ensures
        dec_value(s.subrange(0, i)) <= dec_value(s),
    decreases s.len() - i,
{
    if i < s.len() {
        let p = s.subrange(0, i);
        let q = s.subrange(0, i + 1);
        assert(q.drop_last() =~= p);
        assert(dec_value(q) == dec_value(p) * 10 + (q.last() - 48));
        assert(dec_value(p) * 10 >= dec_value(p)) by (nonlinear_arith);
        lemma_dec_value_prefix_le(s, i + 1);
    } else {
        assert(s.subrange(0, i) =~= s);
    }
}

/// Parse a non-empty, all-digit byte sequence as a decimal number.
/// Returns `Some` exactly when the input is a well-formed decimal numeral
/// whose value fits in `usize`.
pub fn parse_usize(s: &[u8]) -> (r: Option<usize>)
    ensures
        r is Some <==> s@.len() > 0 && all_digits(s@) && dec_value(s@) <= usize::MAX,
        r is Some ==> r->0 == dec_value(s@),
{
    if s.len() == 0 {
        return None;
    }
    let mut acc: usize = 0;
    let mut i: usize = 0;
    while i < s.len()
        invariant
            0 <= i <= s@.len(),
            s@.len() > 0,
            all_digits(s@.subrange(0, i as int)),
            acc == dec_value(s@.subrange(0, i as int)),
        decreases s@.len() - i,
    {
        let b = s[i];
        if b < 48 || b > 57 {
            return None;
        }
        let d = (b - 48) as usize;
        if acc > (usize::MAX - d) / 10 {
            proof {
                let p = s@.subrange(0, i as int + 1);
                assert(p.drop_last() =~= s@.subrange(0, i as int));
                assert(dec_value(p) == acc * 10 + d);
                assert(acc * 10 + d > usize::MAX) by (nonlinear_arith)
                    requires
                        acc > (usize::MAX - d) / 10,
                        d < 10,
                ;
                if all_digits(s@) {
                    lemma_dec_value_prefix_le(s@, i as int + 1);
                }
            }
            return None;
        }
        proof {
            let p = s@.subrange(0, i as int + 1);
            assert(p.drop_last() =~= s@.subrange(0, i as int));
            assert(acc * 10 + d <= usize::MAX) by (nonlinear_arith)
                requires
                    acc <= (usize::MAX - d) / 10,
                    d < 10,
            ;
        }
        acc = acc * 10 + d;
        i = i + 1;
    }
    proof {
        assert(s@.subrange(0, s@.len() as int) =~= s@);
    }
    Some(acc)
}

/// The start of the suffix after the last `'/'`: the whole sequence when no
/// `'/'` occurs.
pub open spec fn after_last_slash(s: Seq<u8>) -> int
    decreases s.len(),
{
    if s.len() == 0 {
        0
    } else if s.last() == 47 {
        s.len() as int
    } else {
        after_last_slash(s.drop_last())
    }
}

/// Read the total byte length out of a `Content-Range` header value such as
/// `bytes 0-0/146515`: the decimal numeral after the last `'/'`, or the whole
/// value when no `'/'` occurs. Returns `Some` exactly when that suffix is a
/// well-formed numeral that fits in `usize`.
pub fn parse_content_length(s: &[u8]) -> (r: Option<usize>)
    ensures
        ({
            let suffix = s@.subrange(after_last_slash(s@), s@.len() as int);
            &&& (r is Some <==> suffix.len() > 0 && all_digits(suffix) && dec_value(suffix)
                <= usize::MAX)
            &&& (r is Some ==> r->0 == dec_value(suffix))
        }),
{
    let start = suffix_start_upto(s, s.len());
    proof {
        assert(s@.subrange(0, s@.len() as int) =~= s@);
    }
    let tail: &[u8] = vstd::slice::slice_subrange(s, start, s.len());
    parse_usize(tail)
}

/// Where the suffix after the last `'/'` begins, within the first `j` bytes.
fn suffix_start_upto(s: &[u8], j: usize) -> (start: usize)
    requires
        j <= s@.len(),
    ensures
        start == after_last_slash(s@.subrange(0, j as int)),
        start <= j,
    decreases j,
{
    if j == 0 {
        0
    } else if s[j - 1] == 47 {
        proof {
            assert(s@.subrange(0, j as int).last() == 47);
        }
        j
    } else {
        proof {
            assert(s@.subrange(0, j as int).drop_last() =~= s@.subrange(0, j as int - 1));
            assert(s@.subrange(0, j as int).last() != 47);
        }
        suffix_start_upto(s, j - 1)
    }
}

} // verus!

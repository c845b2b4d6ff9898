//! Byte-level text handling for the control-interface entries: whitespace
//! trimming and base-10 integer parsing, with exact specifications.

use vstd::prelude::*;

verus! {

/// The bytes that whitespace trimming removes at either end of ASCII text:
/// space (32) and the control characters tab (9) through carriage return (13).
pub open spec fn is_space_byte(b: u8) -> bool {
    b == 32 || (9 <= b && b <= 13)
}

/// `s` with every trailing whitespace byte removed.
pub open spec fn trim_end_spec(s: Seq<u8>) -> Seq<u8>
    decreases s.len(),
{
    if s.len() > 0 && is_space_byte(s.last()) {
        trim_end_spec(s.drop_last())
    } else {
        s
    }
}

/// `s` with every leading whitespace byte removed.
pub open spec fn trim_start_spec(s: Seq<u8>) -> Seq<u8>
    decreases s.len(),
{
    if s.len() > 0 && is_space_byte(s.first()) {
        trim_start_spec(s.skip(1))
    } else {
        s
    }
}

/// `s` with whitespace removed from both ends.
pub open spec fn trim_spec(s: Seq<u8>) -> Seq<u8> {
    trim_start_spec(trim_end_spec(s))
}

fn byte_is_space(b: u8) -> (r: bool)
    ensures
        r == is_space_byte(b),
{
    b == 32 || (9 <= b && b <= 13)
}

proof fn lemma_trim_end_take(s: Seq<u8>, end: int)
    requires
        0 <= end <= s.len(),
        forall|k: int| end <= k < s.len() ==> is_space_byte(s[k]),
    ensures
        trim_end_spec(s) == trim_end_spec(s.take(end)),
    decreases s.len() - end,
{
    if end == s.len() {
        assert(s.take(end) =~= s);
    } else {
        assert(is_space_byte(s.last()));
        assert(s.drop_last() =~= s.take(s.len() - 1));
        lemma_trim_end_take(s.take(s.len() - 1), end);
        assert(s.take(s.len() - 1).take(end) =~= s.take(end));
    }
}

proof fn lemma_trim_start_skip(s: Seq<u8>, i: int)
    requires
        0 <= i <= s.len(),
        forall|k: int| 0 <= k < i ==> is_space_byte(s[k]),
    ensures
        trim_start_spec(s) == trim_start_spec(s.skip(i)),
    decreases i,
{
    if i == 0 {
        assert(s.skip(0) =~= s);
    } else {
        assert(is_space_byte(s.first()));
        lemma_trim_start_skip(s.skip(1), i - 1);
        assert(s.skip(1).skip(i - 1) =~= s.skip(i));
    }
}

fn copy_range(s: &Vec<u8>, from: usize, to: usize) -> (r: Vec<u8>)
    requires
        from <= to <= s@.len(),
    ensures
        r@ == s@.subrange(from as int, to as int),
{
    let mut r: Vec<u8> = Vec::new();
    let mut i: usize = from;
    proof {
        assert(r@ =~= s@.subrange(from as int, from as int));
    }
    while i < to
        invariant
            from <= i <= to <= s@.len(),
            r@ == s@.subrange(from as int, i as int),
        decreases to - i,
    {
        r.push(s[i]);
        proof {
            assert(s@.subrange(from as int, i + 1) =~= s@.subrange(from as int, i as int).push(
                s@[i as int],
            ));
        }
        i = i + 1;
    }
    r
}

/// Removes trailing whitespace, as `str::trim_end` does on ASCII text.
pub fn trim_end(s: &Vec<u8>) -> (r: Vec<u8>)
    ensures
        r@ == trim_end_spec(s@),
{
    let mut end: usize = s.len();
    while end > 0 && byte_is_space(s[end - 1])
        invariant
            end <= s@.len(),
            forall|k: int| end <= k < s@.len() ==> is_space_byte(s@[k]),
        decreases end,
    {
        end = end - 1;
    }
    proof {
        lemma_trim_end_take(s@, end as int);
        if end > 0 {
            assert(s@.take(end as int).last() == s@[end - 1]);
        }
    }
    copy_range(s, 0, end)
}

/// Removes leading and trailing whitespace, as `str::trim` does on ASCII text.
pub fn trim(s: &Vec<u8>) -> (r: Vec<u8>)
    ensures
        r@ == trim_spec(s@),
{
    let mut end: usize = s.len();
    while end > 0 && byte_is_space(s[end - 1])
        invariant
            end <= s@.len(),
            forall|k: int| end <= k < s@.len() ==> is_space_byte(s@[k]),
        decreases end,
    {
        end = end - 1;
    }
    let mut start: usize = 0;
    while start < end && byte_is_space(s[start])
        invariant
            start <= end <= s@.len(),
            forall|k: int| end <= k < s@.len() ==> is_space_byte(s@[k]),
            forall|k: int| 0 <= k < start ==> is_space_byte(s@[k]),
        decreases end - start,
    {
        start = start + 1;
    }
    proof {
        lemma_trim_end_take(s@, end as int);
        if end > 0 {
            assert(s@.take(end as int).last() == s@[end - 1]);
        }
        let te = s@.take(end as int);
        assert(trim_end_spec(s@) == te);
        lemma_trim_start_skip(te, start as int);
        assert(te.skip(start as int) =~= s@.subrange(start as int, end as int));
        if start < end {
            assert(s@.subrange(start as int, end as int).first() == s@[start as int]);
        }
    }
    copy_range(s, start, end)
}

/// A base-10 digit byte, `0` (48) through `9` (57).
pub open spec fn is_digit_byte(b: u8) -> bool {
    48 <= b && b <= 57
}

pub open spec fn all_digits(s: Seq<u8>) -> bool {
    forall|i: int| 0 <= i < s.len() ==> is_digit_byte(s[i])
}

/// The number denoted by a sequence of digit bytes, most significant first.
pub open spec fn digits_value(s: Seq<u8>) -> int
    decreases s.len(),
{
    if s.len() == 0 {
        0
    } else {
        digits_value(s.drop_last()) * 10 + (s.last() - 48)
    }
}

/// The number denoted by text of the shape accepted when parsing a base-10
/// signed integer: an optional `+` (43) or `-` (45) sign followed by at least
/// one digit. `None` on any other text.
pub open spec fn int_text_value(s: Seq<u8>) -> Option<int> {
    if s.len() > 0 && (s[0] == 43 || s[0] == 45) {
        let ds = s.skip(1);
        if ds.len() > 0 && all_digits(ds) {
            if s[0] == 45 {
                Some(-digits_value(ds))
            } else {
                Some(digits_value(ds))
            }
        } else {
            None
        }
    } else {
        if s.len() > 0 && all_digits(s) {
            Some(digits_value(s))
        } else {
            None
        }
    }
}

/// What parsing text as an `i32` yields: the denoted number when the text is
/// well formed and the number fits, `None` otherwise.
pub open spec fn spec_parse_i32(s: Seq<u8>) -> Option<i32> {
    match int_text_value(s) {
        Some(v) => if -2147483648 <= v && v <= 2147483647 {
            Some(v as i32)
        } else {
            None
        },
        None => None,
    }
}

proof fn lemma_digits_value_nonneg(s: Seq<u8>)
    requires
        all_digits(s),
    ensures
        digits_value(s) >= 0,
    decreases s.len(),
{
    if s.len() > 0 {
        assert(all_digits(s.drop_last()));
        lemma_digits_value_nonneg(s.drop_last());
        assert(is_digit_byte(s.last()));
    }
}

/// The number denoted by a digit sequence is at least the number denoted by
/// any of its prefixes.
proof fn lemma_digits_value_prefix_le(s: Seq<u8>, i: int)
    requires
        all_digits(s),
        0 <= i <= s.len(),
    ensures
        digits_value(s.take(i)) <= digits_value(s),
    decreases s.len() - i,
{
    if i == s.len() {
        assert(s.take(i) =~= s);
    } else {
        assert(all_digits(s.drop_last()));
        lemma_digits_value_prefix_le(s.drop_last(), i);
        lemma_digits_value_nonneg(s.drop_last());
        assert(s.drop_last().take(i) =~= s.take(i));
        assert(is_digit_byte(s.last()));
    }
}

proof fn lemma_digits_value_snoc(s: Seq<u8>, i: int)
    requires
        0 <= i < s.len(),
    ensures
        digits_value(s.take(i + 1)) == digits_value(s.take(i)) * 10 + (s[i] - 48),
{
    assert(s.take(i + 1).drop_last() =~= s.take(i));
    assert(s.take(i + 1).last() == s[i]);
}

/// Parses text as a base-10 signed 32-bit integer, exactly as
/// `spec_parse_i32` describes: an optional sign, then at least one digit,
/// rejecting text whose value does not fit in an `i32`.
pub fn parse_i32(text: &Vec<u8>) -> (r: Option<i32>)
    ensures
        r == spec_parse_i32(text@),
{
    let n = text.len();
    if n == 0 {
        return None;
    }
    let b0 = text[0];
    let has_sign = b0 == 43 || b0 == 45;
    let neg = b0 == 45;
    let off: usize = if has_sign {
        1
    } else {
        0
    };
    if n == off {
        return None;
    }
    let ghost ds = text@.skip(off as int);
    proof {
        if !has_sign {
            assert(text@.skip(0) =~= text@);
        }
    }
    let mut mag: i64 = 0;
    let mut i: usize = off;
    while i < n
        invariant
            off <= i <= n,
            n == text@.len(),
            off == 1 || off == 0,
            has_sign ==> off == 1,
            !has_sign ==> off == 0 && ds == text@,
            has_sign ==> ds == text@.skip(1),
            b0 == text@[0],
            has_sign == (b0 == 43 || b0 == 45),
            neg == (b0 == 45),
            off < n,
            ds.len() == n - off,
            forall|k: int| 0 <= k < i - off ==> is_digit_byte(ds[k]),
            mag == digits_value(ds.take(i - off)),
            0 <= mag <= 2147483648,
        decreases n - i,
    {
        let b = text[i];
        if b < 48 || 57 < b {
            proof {
                assert(ds[i - off] == text@[i as int]);
                assert(!is_digit_byte(ds[i - off]));
                assert(!all_digits(ds));
            }
            return None;
        }
        mag = mag * 10 + ((b - 48) as i64);
        proof {
            lemma_digits_value_snoc(ds, i - off);
            assert(ds[i - off] == text@[i as int]);
        }
        if mag > 2147483648 {
            proof {
                if all_digits(ds) {
                    lemma_digits_value_prefix_le(ds, i + 1 - off);
                    assert(digits_value(ds) >= mag);
                }
            }
            return None;
        }
        i = i + 1;
    }
    proof {
        assert(ds.take(n - off) =~= ds);
        assert(digits_value(ds) == mag);
        assert(all_digits(ds));
    }
    if neg {
        let v = -mag;
        proof {
            assert(-2147483648 <= v && v <= 0);
        }
        Some(v as i32)
    } else if mag > 2147483647 {
        proof {
            assert(int_text_value(text@) == Some(digits_value(ds)));
        }
        None
    } else {
        Some(mag as i32)
    }
}

} // verus!

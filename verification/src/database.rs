use vstd::prelude::*;
use vstd::string::StringSliceAdditionalSpecFns;

verus! {

/// The pool size used when `MAX_CONN` is missing or unreadable.
pub const DEFAULT_MAX_CONN: u32 = 16;

/// The characters that Unicode's `White_Space` property holds.
pub open spec fn unicode_white_space(c: char) -> bool {
    let v = c as u32;
    ||| 0x09 <= v <= 0x0D
    ||| v == 0x20
    ||| v == 0x85
    ||| v == 0xA0
    ||| v == 0x1680
    ||| 0x2000 <= v <= 0x200A
    ||| v == 0x2028
    ||| v == 0x2029
    ||| v == 0x202F
    ||| v == 0x205F
    ||| v == 0x3000
}

/// `t` is `s` without its leading and trailing white space.
pub open spec fn is_trimmed(s: Seq<char>, t: Seq<char>) -> bool {
    exists|i: int, j: int|
        0 <= i <= j <= s.len() && t == s.subrange(i, j) && (forall|k: int|
            0 <= k < i ==> unicode_white_space(#[trigger] s[k])) && (forall|k: int|
            j <= k < s.len() ==> unicode_white_space(#[trigger] s[k])) && (t.len() > 0
            ==> !unicode_white_space(t[0]) && !unicode_white_space(t[t.len() - 1]))
}

/// Calls `str::trim`: as its documentation says, the result is `s` with leading
/// and trailing white space, in the sense of Unicode's `White_Space` property,
/// removed.
#[verifier::external_body]
fn trim_text(s: &str) -> (r: &str)
    ensures
        is_trimmed(s@, r@),
{
    s.trim()
}

/// The value of a run of ASCII decimal digits.
pub open spec fn digits_value(d: Seq<u8>) -> int
    decreases d.len(),
{
    if d.len() == 0 {
        0
    } else {
        digits_value(d.drop_last()) * 10 + (d.last() - 48)
    }
}

/// Every byte is an ASCII decimal digit.
pub open spec fn all_digits(d: Seq<u8>) -> bool {
    forall|i: int| 0 <= i < d.len() ==> 48 <= #[trigger] d[i] <= 57
}

/// How `str::parse::<u32>` reads the bytes `b`: an optional `+`, then at least one
/// decimal digit and nothing else, with a value that fits in a `u32`.
pub open spec fn parse_u32_spec(b: Seq<u8>) -> Option<u32> {
    let d = if b.len() > 0 && b[0] == 43 {
        b.drop_first()
    } else {
        b
    };
    if d.len() > 0 && all_digits(d) && digits_value(d) <= u32::MAX {
        Some(digits_value(d) as u32)
    } else {
        None
    }
}

proof fn lemma_digits_value_grows(d: Seq<u8>, i: int)
    requires
        all_digits(d),
        0 <= i < d.len(),
    ensures
        digits_value(d.take(i + 1)) == digits_value(d.take(i)) * 10 + (d[i] - 48),
        digits_value(d.take(i + 1)) >= digits_value(d.take(i)),
{
    assert(d.take(i + 1).drop_last() == d.take(i));
    assert(digits_value(d.take(i)) >= 0) by {
        lemma_digits_value_nonneg(d.take(i));
    }
}

proof fn lemma_digits_value_nonneg(d: Seq<u8>)
    requires
        all_digits(d),
    ensures
        digits_value(d) >= 0,
    decreases d.len(),
{
    if d.len() > 0 {
        assert(all_digits(d.drop_last()));
        lemma_digits_value_nonneg(d.drop_last());
    }
}

proof fn lemma_digits_value_monotone(d: Seq<u8>, i: int, j: int)
    requires
        all_digits(d),
        0 <= i <= j <= d.len(),
    ensures
        digits_value(d.take(i)) <= digits_value(d.take(j)),
    decreases j - i,
{
    if i < j {
        lemma_digits_value_monotone(d, i, j - 1);
        lemma_digits_value_grows(d, j - 1);
    }
}

/// Reads an unsigned decimal number the way `str::parse::<u32>` does.
pub fn parse_u32(s: &str) -> (r: Option<u32>)
    ensures
        r == parse_u32_spec(s.spec_bytes()),
{
    let b = s.as_bytes();
    let ghost bytes = b@;
    let n = b.len();
    let start: usize = if n > 0 && b[0] == 43 {
        1
    } else {
        0
    };
    let ghost d = if n > 0 && b@[0] == 43 {
        bytes.drop_first()
    } else {
        bytes
    };
    assert(d == bytes.subrange(start as int, n as int));
    if start >= n {
        return None;
    }
    let mut acc: u64 = 0;
    let mut i: usize = start;
    while i < n
        invariant
            b@ == bytes,
            bytes == s.spec_bytes(),
            d == (if bytes.len() > 0 && bytes[0] == 43 {
                bytes.drop_first()
            } else {
                bytes
            }),
            n == bytes.len(),
            start <= i <= n,
            d == bytes.subrange(start as int, n as int),
            all_digits(d.take(i - start)),
            acc == digits_value(d.take(i - start)),
            acc <= u32::MAX,
        decreases n - i,
    {
        let c = b[i];
        if c < 48 || c > 57 {
            proof {
                assert(d[i - start] == c);
            }
            return None;
        }
        let next: u64 = acc * 10 + (c - 48) as u64;
        proof {
            assert(d.take(i + 1 - start).drop_last() == d.take(i - start));
            assert(d.take(i + 1 - start).last() == c);
            assert(all_digits(d.take(i + 1 - start)));
        }
        if next > 4294967295 {
            proof {
                if all_digits(d) {
                    lemma_digits_value_monotone(d, i + 1 - start, d.len() as int);
                    assert(d.take(d.len() as int) == d);
                }
            }
            return None;
        }
        acc = next;
        i = i + 1;
    }
    proof {
        assert(d.take(n - start) == d);
    }
    Some(acc as u32)
}

/// The pool size from the `MAX_CONN` setting: its text without surrounding white
/// space, read as a `u32`; `DEFAULT_MAX_CONN` when the setting is missing or does
/// not read as one.
pub fn max_conn_setting(raw: Option<&str>) -> (r: u32)
    ensures
        raw is None ==> r == DEFAULT_MAX_CONN,
        raw matches Some(text) ==> exists|t: Seq<char>|
            is_trimmed(text@, t) && r == match #[trigger] parse_u32_spec(vstd::utf8::encode_utf8(t)) {
                Some(n) => n,
                None => DEFAULT_MAX_CONN,
            },
{
    match raw {
        None => DEFAULT_MAX_CONN,
        Some(text) => {
            let t = trim_text(text);
            let r = match parse_u32(t) {
                Some(n) => n,
                None => DEFAULT_MAX_CONN,
            };
            assert(is_trimmed(text@, t@) && r == match parse_u32_spec(vstd::utf8::encode_utf8(t@)) {
                Some(n) => n,
                None => DEFAULT_MAX_CONN,
            });
            r
        },
    }
}

} // verus!

use vstd::prelude::*;
use vstd::string::StringExecFns;
use vstd::std_specs::convert::TryFromSpecImpl;
use vstd::std_specs::cmp::PartialEqSpecImpl;

verus! {

/// Number of bytes in the UTF-8 encoding of `s`, as `str::len` reports it.
pub open spec fn byte_len(s: Seq<char>) -> usize {
    vstd::utf8::encode_utf8(s).len() as usize
}

/// The decimal digit `d` (`0 <= d < 10`) as a character.
pub open spec fn digit_char(d: nat) -> char {
    ((48 + d) as u32) as char
}

/// The decimal representation of `n`, without leading zeros.
pub open spec fn decimal(n: nat) -> Seq<char>
    decreases n,
{
    if n < 10 {
        seq![digit_char(n)]
    } else {
        decimal(n / 10).push(digit_char(n % 10))
    }
}

/// The single-character string for the decimal digit `d`.
fn digit_str(d: usize) -> (r: &'static str)
    requires
        d < 10,
    ensures
        r@ == seq![digit_char(d as nat)],
{
    proof {
        reveal_strlit("0");
        reveal_strlit("1");
        reveal_strlit("2");
        reveal_strlit("3");
        reveal_strlit("4");
        reveal_strlit("5");
        reveal_strlit("6");
        reveal_strlit("7");
        reveal_strlit("8");
        reveal_strlit("9");
    }
    match d {
        0 => "0",
        1 => "1",
        2 => "2",
        3 => "3",
        4 => "4",
        5 => "5",
        6 => "6",
        7 => "7",
        8 => "8",
        _ => "9",
    }
}

/// Appends the decimal representation of `n` to `out`.
pub fn push_decimal(out: &mut String, n: usize)
    ensures
        final(out)@ == old(out)@ + decimal(n as nat),
    decreases n,
{
    if n >= 10 {
        push_decimal(out, n / 10);
    }
    out.append(digit_str(n % 10));
}

/// What std's `Debug` writes for the string slice `s`: the text between double
/// quotes, with quotes, backslashes and unprintable characters escaped.
pub uninterp spec fn str_debug_text(s: Seq<char>) -> Seq<char>;

/// Renders `s` with std's `Debug` for `str` (`format!("{:?}", s)`). The text is named
/// by `str_debug_text`; which characters are escaped, and how, is not stated.
#[verifier::external_body]
fn debug_text(s: &str) -> (r: String)
    ensures
        r@ == str_debug_text(s@),
{
    format!("{:?}", s)
}

/// A string that holds at most `S` bytes.
pub struct LenLimitedString<const S: usize> {
    size: usize,
    data: String,
}

impl<const S: usize> View for LenLimitedString<S> {
    type V = Seq<char>;

    /// The characters of the string.
    closed spec fn view(&self) -> Seq<char> {
        self.data@
    }
}

impl<const S: usize> LenLimitedString<S> {
    /// The limit is recorded with every value, and the content never exceeds it.
    #[verifier::type_invariant]
    closed spec fn inv(self) -> bool {
        &&& self.size == S
        &&& byte_len(self.data@) <= S
    }

    fn new(s: String) -> (r: Self)
        requires
            byte_len(s@) <= S,
        ensures
            r@ == s@,
    {
        Self { size: S, data: s }
    }

    /// The length of the content in bytes; it never exceeds the limit `S`.
    pub fn len(&self) -> (r: usize)
        ensures
            r == byte_len(self@),
            r <= S,
    {
        proof {
            use_type_invariant(self);
        }
        self.data.as_str().len()
    }

    /// The debug form: `LenLimitedString { data: <debug text of the content>,
    /// maxSize: <the limit>, realSize: <the length in bytes> }`.
    pub fn debug_string(&self) -> (r: String)
        ensures
            r@ == "LenLimitedString { data: "@ + str_debug_text(self@) + ", maxSize: "@ + decimal(
                S as nat,
            ) + ", realSize: "@ + decimal(byte_len(self@) as nat) + " }"@,
    {
        proof {
            use_type_invariant(self);
        }
        let mut out = String::from_str("LenLimitedString { data: ");
        let data = debug_text(self.data.as_str());
        out.append(data.as_str());
        out.append(", maxSize: ");
        push_decimal(&mut out, self.size);
        out.append(", realSize: ");
        push_decimal(&mut out, self.data.as_str().len());
        out.append(" }");
        out
    }
}

impl<const S: usize> std::ops::Deref for LenLimitedString<S> {
    type Target = str;

    /// The content as a string slice.
    fn deref(&self) -> (r: &str)
        ensures
            r@ == self@,
    {
        self.data.as_str()
    }
}

impl<const S: usize> Clone for LenLimitedString<S> {
    fn clone(&self) -> (r: Self)
        ensures
            r == *self,
    {
        proof {
            use_type_invariant(self);
        }
        LenLimitedString { size: self.size, data: self.data.clone() }
    }
}

impl<'a, const S: usize> vstd::std_specs::convert::FromSpecImpl<&'a LenLimitedString<S>> for LenLimitedString<S> {
    open spec fn obeys_from_spec() -> bool {
        true
    }

    open spec fn from_spec(d: &'a LenLimitedString<S>) -> Self {
        *d
    }
}

impl<'a, const S: usize> From<&'a LenLimitedString<S>> for LenLimitedString<S> {
    /// A second value with the same content.
    fn from(d: &'a LenLimitedString<S>) -> (r: Self) {
        d.clone()
    }
}

impl<const S: usize> vstd::std_specs::convert::FromSpecImpl<LenLimitedString<S>> for String {
    open spec fn obeys_from_spec() -> bool {
        false
    }

    open spec fn from_spec(d: LenLimitedString<S>) -> String {
        arbitrary()
    }
}

impl<const S: usize> From<LenLimitedString<S>> for String {
    /// The content, giving up the limit.
    fn from(d: LenLimitedString<S>) -> (r: String)
        ensures
            r@ == d@,
    {
        d.data
    }
}

impl<const S: usize> Default for LenLimitedString<S> {
    /// The empty string.
    fn default() -> (r: Self)
        ensures
            r@ == Seq::<char>::empty(),
    {
        proof {
            assert(vstd::utf8::encode_utf8(Seq::<char>::empty()).len() == 0) by {
                reveal_with_fuel(vstd::utf8::encode_utf8, 1);
            }
        }
        Self { size: S, data: String::new() }
    }
}

impl<const S: usize> PartialEq for LenLimitedString<S> {
    /// Two values are equal when their contents are.
    fn eq(&self, other: &Self) -> (r: bool) {
        self.data == other.data
    }
}

impl<const S: usize> PartialEqSpecImpl for LenLimitedString<S> {
    open spec fn obeys_eq_spec() -> bool {
        true
    }

    open spec fn eq_spec(&self, other: &Self) -> bool {
        self@ == other@
    }
}

/// The error of a string that is longer than the limit: `found` bytes where at most
/// `expect` are allowed.
#[derive(Debug)]
pub struct SizeError {
    found: usize,
    expect: usize,
}

impl SizeError {
    /// The length that was offered.
    pub closed spec fn spec_found(&self) -> usize {
        self.found
    }

    /// The limit that was exceeded.
    pub closed spec fn spec_expect(&self) -> usize {
        self.expect
    }

    /// The length that was offered.
    pub fn found(&self) -> (r: usize)
        ensures
            r == self.spec_found(),
    {
        self.found
    }

    /// The limit that was exceeded.
    pub fn expect(&self) -> (r: usize)
        ensures
            r == self.spec_expect(),
    {
        self.expect
    }

    /// The message `size limit is <expect> but get size <found>`.
    pub fn to_string(&self) -> (r: String)
        ensures
            r@ == "size limit is "@ + decimal(self.spec_expect() as nat) + " but get size "@ + decimal(
                self.spec_found() as nat,
            ),
    {
        let mut out = String::new();
        out.append("size limit is ");
        push_decimal(&mut out, self.expect);
        out.append(" but get size ");
        push_decimal(&mut out, self.found);
        out
    }
}

impl<const S: usize> TryFromSpecImpl<String> for LenLimitedString<S> {
    open spec fn obeys_try_from_spec() -> bool {
        false
    }

    open spec fn try_from_spec(v: String) -> Result<Self, SizeError> {
        arbitrary()
    }
}

impl<const S: usize> TryFrom<String> for LenLimitedString<S> {
    type Error = SizeError;

    /// Accepts `value` when its UTF-8 encoding holds at most `S` bytes; otherwise
    /// reports its length against the limit.
    fn try_from(value: String) -> (r: Result<Self, SizeError>)
        ensures
            byte_len(value@) <= S ==> (r matches Ok(s) && s@ == value@),
            byte_len(value@) > S ==> (r matches Err(e) && e.spec_found() == byte_len(value@)
                && e.spec_expect() == S),
    {
        let l = value.as_str().len();
        if S >= l {
            Ok(Self::new(value))
        } else {
            Err(SizeError { found: l, expect: S })
        }
    }
}

} // verus!

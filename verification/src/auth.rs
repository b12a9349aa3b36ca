use vstd::prelude::*;
use vstd::string::StringSliceAdditionalSpecFns;
use crypto::digest::Digest;

verus! {

/// The pattern that an e-mail address has to match.
pub const EMAIL_REGEX: &'static str = r#"^(([^<>()\[\]\\.,;:\s@"]+(\.[^<>()\[\]\\.,;:\s@"]+)*)|(".+"))@((\[[0-9]{1,3}\.[0-9]{1,3}\.[0-9]{1,3}\.[0-9]{1,3}])|(([a-zA-Z\-0-9]+\.)+[a-zA-Z]{2,}))$"#;

/// What the regex crate answers when `pattern` is compiled with `Regex::new` and
/// asked `is_match(text)`; `None` where the pattern does not compile.
pub uninterp spec fn regex_is_match(pattern: Seq<char>, text: Seq<char>) -> Option<bool>;

/// Calls `regex::Regex::new(pattern)` and, when that succeeds, `Regex::is_match(text)`.
/// The answer is named by `regex_is_match`; which texts a pattern matches is not stated.
#[verifier::external_body]
fn compiled_regex_is_match(pattern: &str, text: &str) -> (r: Option<bool>)
    ensures
        r == regex_is_match(pattern@, text@),
{
    match regex::Regex::new(pattern) {
        Ok(re) => Some(re.is_match(text)),
        Err(_) => None,
    }
}

/// Decides on an e-mail address from what the pattern check answered: it must
/// match, and it may hold at most 128 bytes.
pub fn email_acceptable(pattern_match: Option<bool>, email: &str) -> (ok: bool)
    ensures
        ok == (pattern_match == Some(true) && email.len() <= 128),
{
    match pattern_match {
        Some(m) => m && email.len() <= 128,
        None => false,
    }
}

/// An e-mail address is accepted when it matches `EMAIL_REGEX` and holds at most
/// 128 bytes.
pub fn check_email_avaiable(email: &str) -> (ok: bool)
    ensures
        ok == (regex_is_match(EMAIL_REGEX@, email@) == Some(true) && email.len() <= 128),
{
    email_acceptable(compiled_regex_is_match(EMAIL_REGEX, email), email)
}

/// Decides from the number of accounts that already use an address whether it is
/// still free: it is when no account uses it, or when the count could not be read.
pub fn check_email_used(count: Option<i64>) -> (free: bool)
    ensures
        free == (count is None || count == Some(0i64)),
{
    match count {
        Some(num) => num == 0,
        None => true,
    }
}

/// A user name is accepted when it holds at most 32 bytes.
pub fn check_name_size(name: &str) -> (ok: bool)
    ensures
        ok == (name.len() <= 32),
{
    name.len() <= 32
}

/// A password is accepted when it holds between 8 and 64 bytes.
pub fn check_password_size(passwd: &str) -> (ok: bool)
    ensures
        ok == (8 <= passwd.len() <= 64),
{
    let s = passwd.len();
    if s < 8 || s > 64 {
        false
    } else {
        true
    }
}

/// The lowercase hexadecimal digit for `v` (`0 <= v < 16`).
pub open spec fn hex_digit(v: int) -> char {
    if v < 10 {
        ((48 + v) as u32) as char
    } else {
        ((87 + v) as u32) as char
    }
}

/// Two lowercase hexadecimal digits for each byte, high nibble first.
pub open spec fn hex_lower(bytes: Seq<u8>) -> Seq<char>
    decreases bytes.len(),
{
    if bytes.len() == 0 {
        Seq::empty()
    } else {
        hex_lower(bytes.drop_last()).push(hex_digit(bytes.last() as int / 16)).push(
            hex_digit(bytes.last() as int % 16),
        )
    }
}

/// The SHA3-256 digest of `input`, as rust-crypto's `Sha3::sha3_256` computes it.
pub uninterp spec fn sha3_256_digest(input: Seq<u8>) -> Seq<u8>;

/// Hashes a password: rust-crypto's `Sha3::sha3_256` over the UTF-8 bytes of
/// `password` (`input_str`), rendered by `result_str` as lowercase hexadecimal,
/// two digits per byte. The digest itself is named by `sha3_256_digest`; what
/// SHA3 computes is not stated. `result_str` renders the 32 bytes of a 256-bit
/// digest, so the text has 64 characters.
#[verifier::external_body]
pub fn password_hash(password: &str) -> (r: String)
    ensures
        r@ == hex_lower(sha3_256_digest(password.spec_bytes())),
        r@.len() == 64,
{
    let mut hasher = crypto::sha3::Sha3::sha3_256();
    hasher.input_str(password);
    hasher.result_str()
}


/// The largest span a `std::time::Duration` holds, in nanoseconds.
pub const MAX_SPAN_NANOS: u128 = 18_446_744_073_709_551_615_999_999_999;

/// Reads the system clock with `std::time::SystemTime::now`, as signed nanoseconds
/// from the Unix epoch: `duration_since(UNIX_EPOCH)` gives the span after the
/// epoch, and for a clock set before it the error carries the span before it, which
/// counts negative. Nothing is stated about the reading but that, each span being a
/// `Duration`, it lies within `MAX_SPAN_NANOS` of the epoch.
#[verifier::external_body]
fn clock_now() -> (r: i128)
    ensures
        -(MAX_SPAN_NANOS as int) <= r <= MAX_SPAN_NANOS,
{
    match std::time::SystemTime::now().duration_since(std::time::UNIX_EPOCH) {
        Ok(d) => d.as_nanos() as i128,
        Err(e) => -(e.duration().as_nanos() as i128),
    }
}

/// A session token: it carries `data` and dies at `death_time` (signed nanoseconds
/// from the Unix epoch), `life_time` nanoseconds after it was issued, or earlier when
/// it is killed.
pub struct AuthKey<T> {
    pub death_time: i128,
    pub life_time: u128,
    pub death: bool,
    pub data: T,
}

/// `now` is a moment that the system clock can report.
pub open spec fn clock_range(now: int) -> bool {
    -(MAX_SPAN_NANOS as int) <= now <= MAX_SPAN_NANOS
}

impl<T> AuthKey<T> {
    /// The key is still honoured at time `now`: it was not killed and has not
    /// expired.
    pub open spec fn accepts(&self, now: int) -> bool {
        !self.death && now <= self.death_time
    }

    /// The key was issued at `now` for `data`, to live `life_time`.
    pub open spec fn issued(&self, data: T, life_time: int, now: int) -> bool {
        &&& self.death_time == now + life_time
        &&& self.life_time == life_time
        &&& !self.death
        &&& self.data == data
    }

    /// The moment a key issued at `now` for `life_time` dies.
    pub fn death_time_at(now: i128, life_time: u128) -> (r: i128)
        requires
            clock_range(now as int),
            life_time <= MAX_SPAN_NANOS,
        ensures
            r == now + life_time,
    {
        now + life_time as i128
    }

    /// The moment a key issued now for `life_time` dies.
    pub fn load_death_time(life_time: u128) -> (r: i128)
        requires
            life_time <= MAX_SPAN_NANOS,
        ensures
            clock_range(r - life_time),
    {
        let now = clock_now();
        Self::death_time_at(now, life_time)
    }

    /// A live key for `data`, issued at `now`.
    pub fn new_at(data: T, life_time: u128, now: i128) -> (r: Self)
        requires
            clock_range(now as int),
            life_time <= MAX_SPAN_NANOS,
        ensures
            r.issued(data, life_time as int, now as int),
    {
        let death_time = Self::death_time_at(now, life_time);
        AuthKey { death_time, data, death: false, life_time }
    }

    /// A live key for `data`, issued now.
    pub fn new(data: T, life_time: u128) -> (r: Self)
        requires
            life_time <= MAX_SPAN_NANOS,
        ensures
            exists|now: int| clock_range(now) && #[trigger] r.issued(data, life_time as int, now),
    {
        let now = clock_now();
        let r = Self::new_at(data, life_time, now);
        assert(r.issued(data, life_time as int, now as int));
        r
    }

    /// Kills the key: from now on it is refused.
    pub fn kill(&mut self)
        ensures
            final(self).death,
            final(self).death_time == old(self).death_time,
            final(self).life_time == old(self).life_time,
            final(self).data == old(self).data,
    {
        self.death = true;
    }

    /// Checks the key at time `now`: a key that was killed or has expired is
    /// refused (`None`); any other one is renewed, issued afresh at `now` for its
    /// lifetime and data.
    pub fn refresh_at(self, now: i128) -> (r: Option<Self>)
        requires
            clock_range(now as int),
            self.life_time <= MAX_SPAN_NANOS,
        ensures
            r is Some <==> self.accepts(now as int),
            r matches Some(k) ==> k.issued(self.data, self.life_time as int, now as int),
    {
        if now > self.death_time || self.death {
            None
        } else {
            Some(Self::new_at(self.data, self.life_time, now))
        }
    }

    /// Checks a key read back from a cookie against the clock: a missing, killed or
    /// expired key is refused; any other one is renewed for its lifetime from now.
    /// A key that no clock reading can have outlived is always renewed.
    pub fn from_cookie(parsed: Option<Self>) -> (r: Option<Self>)
        requires
            parsed matches Some(k) ==> k.life_time <= MAX_SPAN_NANOS,
        ensures
            parsed is None ==> r is None,
            parsed matches Some(k) && k.death ==> r is None,
            parsed matches Some(k) && (forall|now: int| clock_range(now) ==> #[trigger] k.accepts(now))
                ==> r is Some,
            parsed matches Some(k) && !k.death && r is None ==> exists|now: int|
                clock_range(now) && !#[trigger] parsed->0.accepts(now),
            r matches Some(n) ==> parsed matches Some(k) && exists|now: int|
                clock_range(now) && k.accepts(now) && #[trigger] n.issued(
                    k.data,
                    k.life_time as int,
                    now,
                ),
    {
        match parsed {
            None => None,
            Some(k) => {
                let ghost old_key = k;
                let now = clock_now();
                let r = k.refresh_at(now);
                proof {
                    if r is Some {
                        assert(r->0.issued(old_key.data, old_key.life_time as int, now as int));
                    } else if !old_key.death {
                        assert(!old_key.accepts(now as int));
                    }
                }
                r
            },
        }
    }
}

/// A killed key is refused at every moment.
pub proof fn lemma_killed_key_refused<T>(k: AuthKey<T>)
    requires
        k.death,
    ensures
        forall|now: int| !#[trigger] k.accepts(now),
{
}

/// A key issued at `issued_at` for `life_time` is honoured exactly up to
/// `issued_at + life_time`.
pub proof fn lemma_issued_key_lifetime<T>(k: AuthKey<T>, data: T, life_time: int, issued_at: int)
    requires
        k.issued(data, life_time, issued_at),
    ensures
        forall|now: int| #[trigger] k.accepts(now) <==> now <= issued_at + life_time,
{
}
} // verus!

//! Named settings, and how their text reads as numbers and booleans.
use vstd::prelude::*;
use crate::error::IpcError;
use crate::text::str_equal;

verus! {

/// A character of the Unicode `White_Space` property.
pub open spec fn is_white_space(c: char) -> bool {
    ('\u{9}' <= c && c <= '\u{d}') || c == ' ' || c == '\u{85}' || c == '\u{a0}' || c == '\u{1680}'
        || ('\u{2000}' <= c && c <= '\u{200a}') || c == '\u{2028}' || c == '\u{2029}' || c
        == '\u{202f}' || c == '\u{205f}' || c == '\u{3000}'
}

/// `s` without its leading white space.
pub open spec fn trim_start_of(s: Seq<char>) -> Seq<char>
    decreases s.len(),
{
    if s.len() > 0 && is_white_space(s[0]) {
        trim_start_of(s.drop_first())
    } else {
        s
    }
}

/// `s` without its trailing white space.
pub open spec fn trim_end_of(s: Seq<char>) -> Seq<char>
    decreases s.len(),
{
    if s.len() > 0 && is_white_space(s.last()) {
        trim_end_of(s.drop_last())
    } else {
        s
    }
}

/// `s` without its leading and trailing white space.
pub open spec fn trim_of(s: Seq<char>) -> Seq<char> {
    trim_end_of(trim_start_of(s))
}

/// What `str::to_lowercase` makes of a string.
pub uninterp spec fn lower_of(s: Seq<char>) -> Seq<char>;

/// Relies on `str::trim`: the string without its leading and trailing
/// characters of the Unicode `White_Space` property.
#[verifier::external_body]
fn trim(s: &str) -> (r: &str)
    ensures
        r@ == trim_of(s@),
{
    s.trim()
}

/// Relies on `str::to_lowercase`: the lowercase form of the string.
#[verifier::external_body]
fn lowercase(s: &str) -> (r: String)
    ensures
        r@ == lower_of(s@),
{
    s.to_lowercase()
}

/// Value of an ASCII digit or letter in bases up to 36; 36 for any other
/// character.
pub open spec fn digit_value(c: char) -> int {
    if '0' <= c && c <= '9' {
        c as int - '0' as int
    } else if 'a' <= c && c <= 'z' {
        c as int - 'a' as int + 10
    } else if 'A' <= c && c <= 'Z' {
        c as int - 'A' as int + 10
    } else {
        36
    }
}

/// Value of a run of digits, most significant first.
pub open spec fn digits_value(s: Seq<char>, radix: int) -> int
    decreases s.len(),
{
    if s.len() == 0 {
        0
    } else {
        digits_value(s.drop_last(), radix) * radix + digit_value(s.last())
    }
}

/// The integer that `s` writes in base `radix`: an optional `+` or `-`
/// followed by at least one digit of that base, and nothing else.
pub open spec fn radix_value(s: Seq<char>, radix: int) -> Option<int> {
    let signed = s.len() > 0 && (s[0] == '-' || s[0] == '+');
    let body = if signed { s.drop_first() } else { s };
    if body.len() == 0 || exists|i: int| 0 <= i < body.len() && digit_value(body[i]) >= radix {
        None
    } else if s[0] == '-' {
        Some(-digits_value(body, radix))
    } else {
        Some(digits_value(body, radix))
    }
}

pub open spec fn i32_in_radix(s: Seq<char>, radix: int) -> Option<i32> {
    match radix_value(s, radix) {
        Some(v) => if i32::MIN <= v && v <= i32::MAX { Some(v as i32) } else { None },
        None => None,
    }
}

pub open spec fn i64_in_radix(s: Seq<char>, radix: int) -> Option<i64> {
    match radix_value(s, radix) {
        Some(v) => if i64::MIN <= v && v <= i64::MAX { Some(v as i64) } else { None },
        None => None,
    }
}

/// Relies on `i32::from_str_radix`: an optional sign and digits of the
/// base, with overflow an error.
#[verifier::external_body]
pub(crate) fn parse_i32(s: &str, radix: u32) -> (r: Option<i32>)
    requires
        2 <= radix <= 36,
    ensures
        r == i32_in_radix(s@, radix as int),
{
    i32::from_str_radix(s, radix).ok()
}

/// Relies on `i64::from_str_radix`: an optional sign and digits of the
/// base, with overflow an error.
#[verifier::external_body]
fn parse_i64(s: &str, radix: u32) -> (r: Option<i64>)
    requires
        2 <= radix <= 36,
    ensures
        r == i64_in_radix(s@, radix as int),
{
    i64::from_str_radix(s, radix).ok()
}

/// An integer setting is read as decimal first, then as hexadecimal.
pub open spec fn int_setting(s: Seq<char>) -> Result<i32, IpcError> {
    match i32_in_radix(s, 10) {
        Some(v) => Ok(v),
        None => match i32_in_radix(s, 16) {
            Some(v) => Ok(v),
            None => Err(IpcError::NumberFormat),
        },
    }
}

pub open spec fn long_setting(s: Seq<char>) -> Result<i64, IpcError> {
    match i64_in_radix(s, 10) {
        Some(v) => Ok(v),
        None => match i64_in_radix(s, 16) {
            Some(v) => Ok(v),
            None => Err(IpcError::NumberFormat),
        },
    }
}

/// A boolean setting, given in lowercase: `true`, `false`, or anything
/// else, which stands for the default.
pub open spec fn bool_setting(lowered: Seq<char>, default_value: bool) -> bool {
    if lowered == "true"@ {
        true
    } else if lowered == "false"@ {
        false
    } else {
        default_value
    }
}

/// The value last set for `name`.
pub open spec fn lookup(props: Seq<(Seq<char>, Seq<char>)>, name: Seq<char>) -> Option<Seq<char>>
    decreases props.len(),
{
    if props.len() == 0 {
        None
    } else if props.last().0 == name {
        Some(props.last().1)
    } else {
        lookup(props.drop_last(), name)
    }
}

/// The `name` setting of `props` as an `i32`.
pub open spec fn conf_int(props: Seq<(Seq<char>, Seq<char>)>, name: Seq<char>, default_value: i32) -> Result<i32, IpcError> {
    match lookup(props, name) {
        Some(v) => int_setting(trim_of(v)),
        None => Ok(default_value),
    }
}

/// The `name` setting of `props` as an `i64`.
pub open spec fn conf_long(props: Seq<(Seq<char>, Seq<char>)>, name: Seq<char>, default_value: i64) -> Result<i64, IpcError> {
    match lookup(props, name) {
        Some(v) => long_setting(trim_of(v)),
        None => Ok(default_value),
    }
}

/// The `name` setting of `props` as a `bool`.
pub open spec fn conf_bool(props: Seq<(Seq<char>, Seq<char>)>, name: Seq<char>, default_value: bool) -> bool {
    match lookup(props, name) {
        Some(v) => bool_setting(lower_of(trim_of(v)), default_value),
        None => default_value,
    }
}

/// Reads the integer setting `value`, already trimmed.
pub fn parse_int_setting(value: &str) -> (r: Result<i32, IpcError>)
    ensures
        r == int_setting(value@),
{
    match parse_i32(value, 10) {
        Some(v) => Ok(v),
        None => match parse_i32(value, 16) {
            Some(v) => Ok(v),
            None => Err(IpcError::NumberFormat),
        },
    }
}

/// Reads the long setting `value`, already trimmed.
pub fn parse_long_setting(value: &str) -> (r: Result<i64, IpcError>)
    ensures
        r == long_setting(value@),
{
    match parse_i64(value, 10) {
        Some(v) => Ok(v),
        None => match parse_i64(value, 16) {
            Some(v) => Ok(v),
            None => Err(IpcError::NumberFormat),
        },
    }
}

/// Reads the boolean setting `lowered`, already trimmed and lowercased.
pub fn parse_bool_setting(lowered: &str, default_value: bool) -> (r: bool)
    ensures
        r == bool_setting(lowered@, default_value),
{
    if str_equal(lowered, "true") {
        true
    } else if str_equal(lowered, "false") {
        false
    } else {
        default_value
    }
}

/// A set of named settings. A name set twice holds the later value.
#[derive(Clone, Debug)]
pub struct Configuration {
    props: Vec<(String, String)>,
}

impl View for Configuration {
    type V = Seq<(Seq<char>, Seq<char>)>;

    closed spec fn view(&self) -> Seq<(Seq<char>, Seq<char>)> {
        self.props@.map_values(|p: (String, String)| (p.0@, p.1@))
    }
}

impl Configuration {
    /// A configuration with no settings: every lookup yields its default.
    pub fn new() -> (r: Configuration)
        ensures
            r@ == Seq::<(Seq<char>, Seq<char>)>::empty(),
    {
        let r = Configuration { props: Vec::new() };
        assert(r@ =~= Seq::<(Seq<char>, Seq<char>)>::empty());
        r
    }

    pub fn set(&mut self, name: &str, value: &str)
        ensures
            final(self)@ == old(self)@.push((name@, value@)),
    {
        self.props.push((name.to_owned(), value.to_owned()));
        assert(self@ =~= old(self)@.push((name@, value@)));
    }

    /// The value of the `name` setting, or `default_value` where it is not
    /// set.
    pub fn get(&self, name: &str, default_value: Option<&str>) -> (r: Option<String>)
        ensures
            match lookup(self@, name@) {
                Some(v) => r is Some && r->0@ == v,
                None => match default_value {
                    Some(d) => r is Some && r->0@ == d@,
                    None => r is None,
                },
            },
    {
        let mut i = self.props.len();
        assert(self@.take(i as int) =~= self@);
        while i > 0
            invariant
                i <= self.props@.len(),
                lookup(self@, name@) == lookup(self@.take(i as int), name@),
            decreases i,
        {
            i = i - 1;
            assert(self@.take(i as int + 1).drop_last() =~= self@.take(i as int));
            if str_equal(self.props[i].0.as_str(), name) {
                return Some(self.props[i].1.clone());
            }
        }
        assert(self@.take(0) =~= Seq::<(Seq<char>, Seq<char>)>::empty());
        match default_value {
            Some(d) => Some(d.to_owned()),
            None => None,
        }
    }

    /// The value of the `name` setting without surrounding white space.
    pub fn get_trimmed(&self, name: &str) -> (r: Option<String>)
        ensures
            match lookup(self@, name@) {
                Some(v) => r is Some && r->0@ == trim_of(v),
                None => r is None,
            },
    {
        match self.get(name, None) {
            Some(v) => Some(trim(v.as_str()).to_owned()),
            None => None,
        }
    }

    /// As [`Configuration::get_trimmed`], with `default_value` where the
    /// setting is absent.
    pub fn get_trimmed_with_default(&self, name: &str, default_value: &str) -> (r: String)
        ensures
            r@ == match lookup(self@, name@) {
                Some(v) => trim_of(v),
                None => default_value@,
            },
    {
        match self.get_trimmed(name) {
            Some(v) => v,
            None => default_value.to_owned(),
        }
    }

    /// The `name` setting as an `i32`; `default_value` where it is absent,
    /// an error where it is not a number.
    pub fn get_int(&self, name: &str, default_value: i32) -> (r: Result<i32, IpcError>)
        ensures
            r == conf_int(self@, name@, default_value),
    {
        match self.get_trimmed(name) {
            Some(v) => parse_int_setting(v.as_str()),
            None => Ok(default_value),
        }
    }

    /// The `name` setting as an `i64`; `default_value` where it is absent,
    /// an error where it is not a number.
    pub fn get_long(&self, name: &str, default_value: i64) -> (r: Result<i64, IpcError>)
        ensures
            r == conf_long(self@, name@, default_value),
    {
        match self.get_trimmed(name) {
            Some(v) => parse_long_setting(v.as_str()),
            None => Ok(default_value),
        }
    }

    /// The `name` setting as a `bool`: `true` or `false` in any case;
    /// `default_value` where it is absent or anything else.
    pub fn get_bool(&self, name: &str, default_value: bool) -> (r: bool)
        ensures
            r == conf_bool(self@, name@, default_value),
    {
        match self.get_trimmed(name) {
            Some(v) => {
                let lowered = lowercase(v.as_str());
                parse_bool_setting(lowered.as_str(), default_value)
            },
            None => default_value,
        }
    }
}

} // verus!

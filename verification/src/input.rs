//! What the user types into a settings field: how it is read as a value,
//! and the rules the value is checked by.
use vstd::prelude::*;
use base64::Engine as _;
use crate::formdata::{FormValue, FormValueView};
use crate::order::chars_of;

verus! {

broadcast use vstd::string::group_string_axioms;

/// Why a text is not an integer, as std's `str::parse` reports it.
#[derive(Debug, Clone, Copy, PartialEq, Eq, Structural)]
pub enum IntErrorKind {
    Empty,
    InvalidDigit,
    PosOverflow,
    NegOverflow,
}

impl IntErrorKind {
    /// The message std's `ParseIntError` shows for this kind.
    pub open spec fn spec_message(self) -> Seq<char> {
        match self {
            IntErrorKind::Empty => "cannot parse integer from empty string"@,
            IntErrorKind::InvalidDigit => "invalid digit found in string"@,
            IntErrorKind::PosOverflow => "number too large to fit in target type"@,
            IntErrorKind::NegOverflow => "number too small to fit in target type"@,
        }
    }

    /// The message std's `ParseIntError` shows for this kind.
    pub fn message(&self) -> (r: &'static str)
        ensures
            r@ == self.spec_message(),
    {
        match self {
            IntErrorKind::Empty => "cannot parse integer from empty string",
            IntErrorKind::InvalidDigit => "invalid digit found in string",
            IntErrorKind::PosOverflow => "number too large to fit in target type",
            IntErrorKind::NegOverflow => "number too small to fit in target type",
        }
    }
}

pub open spec fn is_digit(c: char) -> bool {
    '0' <= c && c <= '9'
}

pub open spec fn digit_value(c: char) -> int {
    (c as u32) - ('0' as u32)
}

/// The digits `ds` read left to right into a number within `min..=max`,
/// negated when `negative`: the first character that is no digit, or the
/// first digit that takes the number out of range, is the error.
pub open spec fn read_digits(ds: Seq<char>, negative: bool, min: int, max: int) -> Result<int, IntErrorKind>
    decreases ds.len(),
{
    if ds.len() == 0 {
        Ok(0)
    } else {
        match read_digits(ds.drop_last(), negative, min, max) {
            Err(e) => Err(e),
            Ok(acc) => {
                let c = ds.last();
                if !is_digit(c) {
                    Err(IntErrorKind::InvalidDigit)
                } else {
                    let v = if negative {
                        acc * 10 - digit_value(c)
                    } else {
                        acc * 10 + digit_value(c)
                    };
                    if v > max {
                        Err(IntErrorKind::PosOverflow)
                    } else if v < min {
                        Err(IntErrorKind::NegOverflow)
                    } else {
                        Ok(v)
                    }
                }
            },
        }
    }
}

/// An integer within `min..=max` read from `s` as std's `str::parse` reads
/// it: an optional sign (`-` only when negative numbers exist) and at
/// least one decimal digit.
pub open spec fn read_integer(s: Seq<char>, min: int, max: int) -> Result<int, IntErrorKind> {
    if s.len() == 0 {
        Err(IntErrorKind::Empty)
    } else if (s[0] == '+' || s[0] == '-') && s.len() == 1 {
        Err(IntErrorKind::InvalidDigit)
    } else if s[0] == '+' {
        read_digits(s.drop_first(), false, min, max)
    } else if s[0] == '-' && min < 0 {
        read_digits(s.drop_first(), true, min, max)
    } else {
        read_digits(s, false, min, max)
    }
}

proof fn lemma_read_digits_range(ds: Seq<char>, negative: bool, min: int, max: int)
    requires
        min <= 0 <= max,
    ensures
        read_digits(ds, negative, min, max) matches Ok(v) ==> min <= v <= max,
    decreases ds.len(),
{
    if ds.len() > 0 {
        lemma_read_digits_range(ds.drop_last(), negative, min, max);
    }
}

/// Reads the digits `cs[start..]` as `read_digits` does.
fn read_digits_exec(cs: &Vec<char>, start: usize, negative: bool, min: i64, max: i64) -> (r: Result<
    i64,
    IntErrorKind,
>)
    requires
        start <= cs.len(),
        min <= 0 <= max,
        i32::MIN <= min,
        max <= u32::MAX,
    ensures
        match read_digits(cs@.skip(start as int), negative, min as int, max as int) {
            Ok(v) => r == Ok::<i64, IntErrorKind>(v as i64),
            Err(e) => r == Err::<i64, IntErrorKind>(e),
        },
{
    let ghost ds = cs@.skip(start as int);
    let mut acc: i64 = 0;
    let mut i: usize = start;
    proof {
        assert(ds.take(0) =~= Seq::<char>::empty());
    }
    while i < cs.len()
        invariant
            start <= i <= cs.len(),
            ds == cs@.skip(start as int),
            min <= 0 <= max,
            i32::MIN <= min,
            max <= u32::MAX,
            read_digits(ds.take(i - start), negative, min as int, max as int) == Ok::<int, IntErrorKind>(
                acc as int,
            ),
            min <= acc <= max,
        decreases cs.len() - i,
    {
        let c = cs[i];
        proof {
            assert(ds.take(i - start + 1).drop_last() =~= ds.take(i - start));
            assert(ds.take(i - start + 1).last() == c);
        }
        if !('0' <= c && c <= '9') {
            proof {
                lemma_read_digits_prefix_error(ds, (i - start + 1) as int, negative, min as int, max as int);
            }
            return Err(IntErrorKind::InvalidDigit);
        }
        let d = (c as u32 - '0' as u32) as i64;
        let v = if negative {
            acc * 10 - d
        } else {
            acc * 10 + d
        };
        if v > max {
            proof {
                lemma_read_digits_prefix_error(ds, (i - start + 1) as int, negative, min as int, max as int);
            }
            return Err(IntErrorKind::PosOverflow);
        }
        if v < min {
            proof {
                lemma_read_digits_prefix_error(ds, (i - start + 1) as int, negative, min as int, max as int);
            }
            return Err(IntErrorKind::NegOverflow);
        }
        acc = v;
        i = i + 1;
    }
    proof {
        assert(ds.take(i - start) =~= ds);
    }
    Ok(acc)
}

/// An error in a prefix of the digits is the error of all of them.
proof fn lemma_read_digits_prefix_error(ds: Seq<char>, n: int, negative: bool, min: int, max: int)
    requires
        0 <= n <= ds.len(),
        read_digits(ds.take(n), negative, min, max) is Err,
    ensures
        read_digits(ds, negative, min, max) == read_digits(ds.take(n), negative, min, max),
    decreases ds.len() - n,
{
    if n < ds.len() {
        assert(ds.take(n + 1).drop_last() =~= ds.take(n));
        lemma_read_digits_prefix_error(ds, n + 1, negative, min, max);
    } else {
        assert(ds.take(n) =~= ds);
    }
}

/// Reads an `i32` from `s`: std's `str::parse::<i32>`.
pub fn parse_i32(s: &str) -> (r: Result<i32, IntErrorKind>)
    ensures
        match read_integer(s@, i32::MIN as int, i32::MAX as int) {
            Ok(v) => r == Ok::<i32, IntErrorKind>(v as i32),
            Err(e) => r == Err::<i32, IntErrorKind>(e),
        },
{
    match parse_integer(s, i32::MIN as i64, i32::MAX as i64) {
        Ok(v) => Ok(v as i32),
        Err(e) => Err(e),
    }
}

/// Reads a `u32` from `s`: std's `str::parse::<u32>`.
pub fn parse_u32(s: &str) -> (r: Result<u32, IntErrorKind>)
    ensures
        match read_integer(s@, 0, u32::MAX as int) {
            Ok(v) => r == Ok::<u32, IntErrorKind>(v as u32),
            Err(e) => r == Err::<u32, IntErrorKind>(e),
        },
{
    match parse_integer(s, 0, u32::MAX as i64) {
        Ok(v) => Ok(v as u32),
        Err(e) => Err(e),
    }
}

fn parse_integer(s: &str, min: i64, max: i64) -> (r: Result<i64, IntErrorKind>)
    requires
        min <= 0 <= max,
        i32::MIN <= min,
        max <= u32::MAX,
    ensures
        match read_integer(s@, min as int, max as int) {
            Ok(v) => r == Ok::<i64, IntErrorKind>(v as i64) && min <= v <= max,
            Err(e) => r == Err::<i64, IntErrorKind>(e),
        },
{
    let cs = chars_of(s);
    if cs.len() == 0 {
        return Err(IntErrorKind::Empty);
    }
    let first = cs[0];
    if (first == '+' || first == '-') && cs.len() == 1 {
        return Err(IntErrorKind::InvalidDigit);
    }
    let r = if first == '+' {
        proof {
            assert(cs@.skip(1) =~= s@.drop_first());
            lemma_read_digits_range(s@.drop_first(), false, min as int, max as int);
        }
        read_digits_exec(&cs, 1, false, min, max)
    } else if first == '-' && min < 0 {
        proof {
            assert(cs@.skip(1) =~= s@.drop_first());
            lemma_read_digits_range(s@.drop_first(), true, min as int, max as int);
        }
        read_digits_exec(&cs, 1, true, min, max)
    } else {
        proof {
            assert(cs@.skip(0) =~= s@);
            lemma_read_digits_range(s@, false, min as int, max as int);
        }
        read_digits_exec(&cs, 0, false, min, max)
    };
    r
}

/// The standard base64 text (RFC 4648 alphabet, with padding) of these bytes.
pub open spec fn base64_text(bytes: Seq<u8>) -> Seq<char>
    decreases bytes.len(),
{
    if bytes.len() == 0 {
        Seq::empty()
    } else if bytes.len() == 1 {
        let x = bytes[0] as int;
        seq![base64_digit(x / 4), base64_digit((x % 4) * 16), '=', '=']
    } else if bytes.len() == 2 {
        let x = bytes[0] as int;
        let y = bytes[1] as int;
        seq![base64_digit(x / 4), base64_digit((x % 4) * 16 + y / 16), base64_digit((y % 16) * 4), '=']
    } else {
        let x = bytes[0] as int;
        let y = bytes[1] as int;
        let z = bytes[2] as int;
        seq![
            base64_digit(x / 4),
            base64_digit((x % 4) * 16 + y / 16),
            base64_digit((y % 16) * 4 + z / 64),
            base64_digit(z % 64),
        ] + base64_text(bytes.subrange(3, bytes.len() as int))
    }
}

/// The digit of the standard base64 alphabet for a six-bit value.
pub open spec fn base64_digit(v: int) -> char {
    if v < 26 {
        (65 + v) as char
    } else if v < 52 {
        (97 + v - 26) as char
    } else if v < 62 {
        (48 + v - 52) as char
    } else if v == 62 {
        '+'
    } else {
        '/'
    }
}

/// The bytes this standard base64 text decodes to, `None` for a text the
/// decoder refuses.
pub uninterp spec fn base64_bytes(text: Seq<char>) -> Option<Seq<u8>>;

/// `base64`'s `STANDARD` engine, `encode`: the padded standard base64 text
/// of the bytes, which that engine's `decode` turns back into the bytes.
#[verifier::external_body]
pub(crate) fn base64_encode(bytes: &[u8]) -> (r: String)
    ensures
        r@ == base64_text(bytes@),
        base64_bytes(r@) == Some(bytes@),
{
    base64::engine::general_purpose::STANDARD.encode(bytes)
}

/// `base64`'s `STANDARD` engine, `decode`. The engine requires canonical
/// padding and no trailing bits, so it takes exactly the texts that its
/// `encode` makes: the bytes it gives back encode to the text, and a text it
/// refuses is the encoding of no bytes. A refusal carries the message of its
/// `DecodeError`, which is not stated.
#[verifier::external_body]
pub(crate) fn base64_decode(text: &str) -> (r: Result<Vec<u8>, String>)
    ensures
        r matches Ok(b) ==> base64_bytes(text@) == Some(b@),
        r is Err ==> base64_bytes(text@) is None,
        r matches Ok(b) ==> base64_text(b@) == text@,
        r is Err ==> forall|b: Seq<u8>| base64_text(b) != text@,
{
    base64::engine::general_purpose::STANDARD.decode(text).map_err(|e| e.to_string())
}

/// Whether `hostaddr` reads the text as a host address, a domain or an IP
/// address with an optional port.
pub uninterp spec fn host_addr_accepts(s: Seq<char>) -> bool;

/// `hostaddr`'s `HostAddr<String>` parsed from the text; a refusal carries
/// the message of its `ParseHostAddrError`, which is not stated.
#[verifier::external_body]
pub(crate) fn check_host_addr(s: &str) -> (r: Result<(), String>)
    ensures
        r is Ok == host_addr_accepts(s@),
{
    s.parse::<hostaddr::HostAddr<String>>().map(|_| ()).map_err(|e| e.to_string())
}

/// Byte strings as base64 text, as the settings show keys.
pub trait Base64EncoderExt {
    fn base64_encode(&self) -> String;
}

impl Base64EncoderExt for Vec<u8> {
    fn base64_encode(&self) -> (r: String)
        ensures
            r@ == base64_text(self@),
    {
        base64_encode(self.as_slice())
    }
}

/// The place of a 32-bit floating point number with these bits in the
/// order of numbers, `None` for not-a-number: both zeros at 0, positive
/// numbers by their bits, negative ones by their negated magnitude bits.
pub open spec fn float_rank(bits: u32) -> Option<int> {
    let magnitude = bits & 0x7fff_ffff;
    if magnitude > 0x7f80_0000 {
        None
    } else if magnitude == 0 {
        Some(0)
    } else if bits == magnitude {
        Some(magnitude as int)
    } else {
        Some(-(magnitude as int))
    }
}

fn float_rank_of(bits: u32) -> (r: Option<i64>)
    ensures
        match float_rank(bits) {
            Some(x) => r == Some(x as i64),
            None => r is None,
        },
{
    let magnitude = bits & 0x7fff_ffff;
    if magnitude > 0x7f80_0000 {
        None
    } else if magnitude == 0 {
        Some(0)
    } else if bits == magnitude {
        Some(magnitude as i64)
    } else {
        Some(-(magnitude as i64))
    }
}

/// Whether the number with bits `v` lies in `min..=max`, as floating point
/// comparison tells: never for not-a-number.
pub open spec fn float_in_range(v: u32, min: u32, max: u32) -> bool {
    match (float_rank(v), float_rank(min), float_rank(max)) {
        (Some(x), Some(lo), Some(hi)) => lo <= x <= hi,
        _ => false,
    }
}

/// A rule a settings field's value must follow, with the message shown when
/// it does not.
#[derive(Debug, Clone, Copy)]
pub enum Validator {
    Any,
    UnsignedRange { min: u32, max: u32, message: &'static str },
    SignedRange { min: i32, max: i32, message: &'static str },
    /// the text's length in bytes
    TextLength { min: usize, max: usize, message: &'static str },
    /// numbers given by their bits; zero passes too when `zero_allowed`
    FloatRange { min_bits: u32, max_bits: u32, zero_allowed: bool, message: &'static str },
    HostAddress,
}

impl Validator {
    /// The kind of value the rule reads.
    pub open spec fn reads(&self, v: FormValueView) -> bool {
        match *self {
            Validator::Any => true,
            Validator::UnsignedRange { .. } => v is UnsignedInt32,
            Validator::SignedRange { .. } => v is Int32,
            Validator::TextLength { .. } => v is String,
            Validator::FloatRange { .. } => v is Float32,
            Validator::HostAddress => v is String,
        }
    }

    /// Whether the value follows the rule.
    pub open spec fn spec_accepts(&self, v: FormValueView) -> bool {
        match *self {
            Validator::Any => true,
            Validator::UnsignedRange { min, max, .. } => match v {
                FormValueView::UnsignedInt32(x) => min <= x <= max,
                _ => false,
            },
            Validator::SignedRange { min, max, .. } => match v {
                FormValueView::Int32(x) => min <= x <= max,
                _ => false,
            },
            Validator::TextLength { min, max, .. } => match v {
                FormValueView::String(s) => min <= (vstd::utf8::encode_utf8(s).len() as usize) <= max,
                _ => false,
            },
            Validator::FloatRange { min_bits, max_bits, zero_allowed, .. } => match v {
                FormValueView::Float32(b) => (zero_allowed && float_rank(b) == Some(0int))
                    || float_in_range(b, min_bits, max_bits),
                _ => false,
            },
            Validator::HostAddress => match v {
                FormValueView::String(s) => host_addr_accepts(s),
                _ => false,
            },
        }
    }

    /// Checks a value against the rule: the rule's message when it fails
    /// (for a host address, the parser's).
    pub fn validate(&self, v: &FormValue) -> (r: Result<(), String>)
        requires
            self.reads(v@),
        ensures
            r is Ok == self.spec_accepts(v@),
            r matches Err(m) ==> match *self {
                Validator::UnsignedRange { message, .. } => m@ == message@,
                Validator::SignedRange { message, .. } => m@ == message@,
                Validator::TextLength { message, .. } => m@ == message@,
                Validator::FloatRange { message, .. } => m@ == message@,
                _ => true,
            },
    {
        match self {
            Validator::Any => Ok(()),
            Validator::UnsignedRange { min, max, message } => {
                let x = v.as_u32();
                assert(v@ == FormValueView::UnsignedInt32(x));
                if *min <= x && x <= *max {
                    Ok(())
                } else {
                    Err((*message).to_string())
                }
            },
            Validator::SignedRange { min, max, message } => {
                let x = v.as_i32();
                assert(v@ == FormValueView::Int32(x));
                if *min <= x && x <= *max {
                    Ok(())
                } else {
                    Err((*message).to_string())
                }
            },
            Validator::TextLength { min, max, message } => {
                let t = v.as_string();
                assert(v@ == FormValueView::String(t@));
                let n = t.as_str().len();
                if *min <= n && n <= *max {
                    Ok(())
                } else {
                    Err((*message).to_string())
                }
            },
            Validator::FloatRange { min_bits, max_bits, zero_allowed, message } => {
                let b = v.as_f32_bits();
                assert(v@ == FormValueView::Float32(b));
                let x = float_rank_of(b);
                let zero_ok = *zero_allowed && x == Some(0i64);
                let in_range = match (x, float_rank_of(*min_bits), float_rank_of(*max_bits)) {
                    (Some(x), Some(lo), Some(hi)) => lo <= x && x <= hi,
                    _ => false,
                };
                if zero_ok || in_range {
                    Ok(())
                } else {
                    Err((*message).to_string())
                }
            },
            Validator::HostAddress => {
                let t = v.as_string();
                assert(v@ == FormValueView::String(t@));
                check_host_addr(t.as_str())
            },
        }
    }
}

/// The message a rule gives a value it refuses, where the rule holds it:
/// `Any` refuses nothing, and a host address is explained by the parser.
pub open spec fn rejection_text(v: Validator) -> Option<Seq<char>> {
    match v {
        Validator::UnsignedRange { message, .. } => Some(message@),
        Validator::SignedRange { message, .. } => Some(message@),
        Validator::TextLength { message, .. } => Some(message@),
        Validator::FloatRange { message, .. } => Some(message@),
        _ => None,
    }
}

/// A refusal by the rule: its message, where the rule holds one.
pub open spec fn refused_by(e: InputError, v: Validator) -> bool {
    e matches InputError::Invalid(m) && (rejection_text(v) matches Some(t) ==> m@ == t)
}

/// The value a floating point field takes from its typed text, already
/// read as the bits of a 32-bit number (or refused, with the reader's
/// message), then checked by its rule.
pub fn submit_float(validator: &Validator, parsed: Result<u32, String>) -> (r: Result<FormValue, InputError>)
    requires
        validator.reads(FormValueView::Float32(0)),
    ensures
        parsed matches Err(m) ==> r == Err::<FormValue, InputError>(InputError::Float(m)),
        parsed matches Ok(b) ==> (r is Ok <==> validator.spec_accepts(FormValueView::Float32(b))),
        parsed matches Ok(b) ==> (r matches Ok(v) ==> v@ == FormValueView::Float32(b)),
        parsed is Ok ==> (r matches Err(e) ==> refused_by(e, *validator)),
{
    match parsed {
        Ok(b) => {
            let value = FormValue::Float32(b);
            match validator.validate(&value) {
                Ok(()) => Ok(value),
                Err(m) => Err(InputError::Invalid(m)),
            }
        },
        Err(m) => Err(InputError::Float(m)),
    }
}

/// What a settings field reads its typed text as.
#[derive(Debug, Clone, Copy, PartialEq, Eq, Structural)]
pub enum InputKind {
    Text,
    Int32,
    UnsignedInt32,
    Float32,
    Base64,
}

/// Why a typed text was not taken.
#[derive(Debug, Clone, PartialEq, Eq)]
pub enum InputError {
    Integer(IntErrorKind),
    Float(String),
    Base64(String),
    Invalid(String),
}

/// The value a typed text is read as, before the rule is checked.
pub open spec fn spec_read_input(kind: InputKind, text: Seq<char>) -> Option<FormValueView> {
    match kind {
        InputKind::Text => Some(FormValueView::String(text)),
        InputKind::Int32 => match read_integer(text, i32::MIN as int, i32::MAX as int) {
            Ok(v) => Some(FormValueView::Int32(v as i32)),
            Err(_) => None,
        },
        InputKind::UnsignedInt32 => match read_integer(text, 0, u32::MAX as int) {
            Ok(v) => Some(FormValueView::UnsignedInt32(v as u32)),
            Err(_) => None,
        },
        InputKind::Float32 => None,
        InputKind::Base64 => if text.len() == 0 {
            Some(bytes_value(Seq::empty()))
        } else {
            match base64_bytes(text) {
                Some(b) => Some(bytes_value(b)),
                None => None,
            }
        },
    }
}

/// A byte string as a form value: the sequence of its bytes.
pub open spec fn bytes_value(b: Seq<u8>) -> FormValueView {
    FormValueView::Vec(Seq::new(b.len(), |i: int| FormValueView::UnsignedInt8(b[i])))
}

/// The value a typed text makes for a field: read as the field's kind,
/// then checked by its rule. An empty base64 text is the empty byte string
/// and is not checked.
pub fn submit_input(kind: InputKind, validator: &Validator, text: &str) -> (r: Result<FormValue, InputError>)
    requires
        kind == InputKind::Text ==> validator.reads(FormValueView::String(text@)),
        kind == InputKind::Int32 ==> validator.reads(FormValueView::Int32(0)),
        kind == InputKind::UnsignedInt32 ==> validator.reads(FormValueView::UnsignedInt32(0)),
        kind != InputKind::Float32,
        kind == InputKind::Base64 ==> *validator matches Validator::Any,
    ensures
        spec_read_input(kind, text@) is None ==> r is Err,
        spec_read_input(kind, text@) matches Some(v) ==> (r is Ok <==> (
        (kind == InputKind::Base64 && text@.len() == 0) || validator.spec_accepts(v))),
        r matches Ok(v) ==> spec_read_input(kind, text@) == Some(v@),
        kind == InputKind::Int32 ==> (read_integer(text@, i32::MIN as int, i32::MAX as int) matches Err(e) ==> r
            == Err::<FormValue, InputError>(InputError::Integer(e))),
        kind == InputKind::UnsignedInt32 ==> (read_integer(text@, 0, u32::MAX as int) matches Err(e) ==> r
            == Err::<FormValue, InputError>(InputError::Integer(e))),
        kind == InputKind::Base64 && spec_read_input(kind, text@) is None ==> (r matches Err(e) && e is Base64),
        spec_read_input(kind, text@) is Some ==> (r matches Err(e) ==> refused_by(e, *validator)),
{
    let value = match kind {
        InputKind::Text => FormValue::String(text.to_string()),
        InputKind::Int32 => match parse_i32(text) {
            Ok(v) => FormValue::Int32(v),
            Err(e) => {
                return Err(InputError::Integer(e));
            },
        },
        InputKind::UnsignedInt32 => match parse_u32(text) {
            Ok(v) => FormValue::UnsignedInt32(v),
            Err(e) => {
                return Err(InputError::Integer(e));
            },
        },
        InputKind::Float32 => {
            return Err(InputError::Float(String::new()));
        },
        InputKind::Base64 => {
            if text.unicode_len() == 0 {
                let empty: Vec<u8> = Vec::new();
                let v = FormValue::from_bytes(&empty);
                assert(v@ == bytes_value(Seq::empty()));
                return Ok(v);
            }
            match base64_decode(text) {
                Ok(bytes) => FormValue::from_bytes(&bytes),
                Err(m) => {
                    return Err(InputError::Base64(m));
                },
            }
        },
    };
    match validator.validate(&value) {
        Ok(()) => Ok(value),
        Err(m) => Err(InputError::Invalid(m)),
    }
}

} // verus!

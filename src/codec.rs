//! Value codecs: how the bytes of a capture become a value.
//!
//! Every codec first checks that the capture is UTF-8 text; integers are then read by
//! std's `from_str_radix` in base 10, or in base 16 / 2 through the [`Hex`] and [`Binary`]
//! adapters, and text is taken as it stands.

use crate::error::{outcome, Failure, IntError, TryParseError};
use core::convert::Infallible;
use core::num::IntErrorKind;
use vstd::prelude::*;
use vstd::utf8::{decode_utf8, valid_utf8};

verus! {

/// The value of one digit character in the given radix, if it is a digit of that radix:
/// `0`-`9`, then `a`-`z` and `A`-`Z` for ten to thirty-five.
pub open spec fn digit_value(c: char, radix: nat) -> Option<int> {
    let d: int = if '0' <= c && c <= '9' {
        (c as u32) - ('0' as u32)
    } else if 'a' <= c && c <= 'z' {
        (c as u32) - ('a' as u32) + 10
    } else if 'A' <= c && c <= 'Z' {
        (c as u32) - ('A' as u32) + 10
    } else {
        36
    };
    if d < radix {
        Some(d)
    } else {
        None
    }
}

/// The value of a non-empty run of digits of the radix, most significant first.
pub open spec fn digits_value(s: Seq<char>, radix: nat) -> Option<int>
    decreases s.len(),
{
    if s.len() == 0 {
        None
    } else {
        match digit_value(s.last(), radix) {
            None => None,
            Some(d) => if s.len() == 1 {
                Some(d)
            } else {
                match digits_value(s.drop_last(), radix) {
                    Some(v) => Some(v * radix + d),
                    None => None,
                }
            },
        }
    }
}

/// The value of a numeral: an optional `+` (or `-` where negative values exist) followed
/// by digits of the radix only.
pub open spec fn numeral_value(s: Seq<char>, radix: nat, signed: bool) -> Option<int> {
    if s.len() > 0 && s[0] == '+' {
        digits_value(s.drop_first(), radix)
    } else if signed && s.len() > 0 && s[0] == '-' {
        match digits_value(s.drop_first(), radix) {
            Some(v) => Some(-v),
            None => None,
        }
    } else {
        digits_value(s, radix)
    }
}

/// How many characters at the start of `s` are digits of the radix.
pub open spec fn leading_digits(s: Seq<char>, radix: nat) -> nat
    decreases s.len(),
{
    if s.len() == 0 || digit_value(s[0], radix) is None {
        0
    } else {
        1 + leading_digits(s.drop_first(), radix)
    }
}

/// `s` without the sign that std takes in front of the digits: `+`, or `-` where negative
/// values exist.
pub open spec fn unsigned_part(s: Seq<char>, signed: bool) -> Seq<char> {
    if s.len() > 0 && (s[0] == '+' || (signed && s[0] == '-')) {
        s.drop_first()
    } else {
        s
    }
}

/// Whether `text` is not empty and either is a sign alone, or holds a character that is
/// not a digit of the radix while the digits in front of it give a value of the type
/// whose values run from `lo` to `hi`.
pub open spec fn invalid_digit_in_range(text: Seq<char>, radix: nat, lo: int, hi: int) -> bool {
    let body = unsigned_part(text, lo < 0);
    let k = leading_digits(body, radix);
    let prefix = if k == 0 {
        0
    } else {
        match digits_value(body.take(k as int), radix) {
            Some(v) => v,
            None => 0,
        }
    };
    let value = if lo < 0 && text.len() > 0 && text[0] == '-' {
        -prefix
    } else {
        prefix
    };
    &&& text.len() > 0
    &&& (body.len() == 0 || k < body.len())
    &&& lo <= value <= hi
}

/// What std's `from_str_radix` returns on `text` for the primitive integer type whose
/// values run from `lo` to `hi` (the bounds tell the ten types apart), the value widened
/// to `int`. It depends on its arguments alone.
pub uninterp spec fn radix_parse(text: Seq<char>, radix: u32, lo: int, hi: int) -> Result<int, IntError>;

/// What std documents of `from_str_radix`: a numeral in range gives its value, one out of
/// range an overflow, an empty text `Empty`, a sign alone or a character that is not a
/// digit, reached while the value still fits, `InvalidDigit`, and anything else some error.
pub open spec fn radix_rules(text: Seq<char>, radix: u32, lo: int, hi: int, r: Result<int, IntError>) -> bool {
    &&& text.len() == 0 ==> r == Err::<int, IntError>(IntError::Empty)
    &&& match numeral_value(text, radix as nat, lo < 0) {
        Some(n) => if n > hi {
            r == Err::<int, IntError>(IntError::PosOverflow)
        } else if n < lo {
            r == Err::<int, IntError>(IntError::NegOverflow)
        } else {
            r == Ok::<int, IntError>(n)
        },
        None => r is Err,
    }
    &&& invalid_digit_in_range(text, radix as nat, lo, hi) ==> r == Err::<int, IntError>(
        IntError::InvalidDigit,
    )
    &&& r != Err::<int, IntError>(IntError::Zero)
}

/// Relies on `core::str::from_utf8`: it accepts exactly the valid UTF-8 byte sequences and
/// gives the text they encode.
#[verifier::external_body]
pub(crate) fn text_of(bytes: &[u8]) -> (r: Option<&str>)
    ensures
        r is Some <==> valid_utf8(bytes@),
        r matches Some(s) ==> s@ == decode_utf8(bytes@),
{
    core::str::from_utf8(bytes).ok()
}

/// A primitive integer type that std can read from text in a given radix.
pub trait Integer: Sized {
    /// The smallest value of the type.
    spec fn lo() -> int;

    /// The largest value of the type.
    spec fn hi() -> int;

    /// The value of `n`, which lies between `lo()` and `hi()`, in this type.
    spec fn from_int(n: int) -> Self;

    /// Reads `text` as an optional sign followed by digits of `radix`.
    fn from_radix(text: &str, radix: u32) -> (r: Result<Self, IntError>)
        requires
            2 <= radix <= 36,
        ensures
            match radix_parse(text@, radix, Self::lo(), Self::hi()) {
                Ok(n) => r == Ok::<Self, IntError>(Self::from_int(n)),
                Err(e) => r == Err::<Self, IntError>(e),
            },
            radix_rules(
                text@,
                radix,
                Self::lo(),
                Self::hi(),
                radix_parse(text@, radix, Self::lo(), Self::hi()),
            ),
    ;
}

/// The model of decoding `bytes` as an integer in `radix`.
pub open spec fn int_decode<T: Integer>(bytes: Seq<u8>, radix: u32) -> Result<T, Failure<IntError>> {
    if !valid_utf8(bytes) {
        Err(Failure::InvalidUtf8)
    } else {
        match radix_parse(decode_utf8(bytes), radix, T::lo(), T::hi()) {
            Ok(n) => Ok(T::from_int(n)),
            Err(e) => Err(Failure::Inner(e)),
        }
    }
}

/// What std documents of reading `bytes` as an integer in `radix`, when they are text.
pub open spec fn int_rules<T: Integer>(bytes: Seq<u8>, radix: u32) -> bool {
    valid_utf8(bytes) ==> radix_rules(
        decode_utf8(bytes),
        radix,
        T::lo(),
        T::hi(),
        radix_parse(decode_utf8(bytes), radix, T::lo(), T::hi()),
    )
}

/// Decodes `bytes` as UTF-8 text holding an integer numeral in `radix`.
pub fn decode_int<T: Integer>(bytes: &[u8], radix: u32) -> (r: Result<T, TryParseError<IntError>>)
    requires
        2 <= radix <= 36,
    ensures
        match r {
            Ok(v) => int_decode::<T>(bytes@, radix) == Ok::<T, Failure<IntError>>(v),
            Err(e) => int_decode::<T>(bytes@, radix) == Err::<T, Failure<IntError>>(e@),
        },
        int_rules::<T>(bytes@, radix),
{
    match text_of(bytes) {
        None => Err(TryParseError::InvalidUtf8String),
        Some(text) => match T::from_radix(text, radix) {
            Ok(v) => Ok(v),
            Err(e) => Err(TryParseError::Inner(e)),
        },
    }
}

/// A type whose values can be decoded from the bytes of a capture.
pub trait TryParse: Sized + View {
    /// What the codec reports when the text does not hold a value of the type.
    type Err;

    /// The model of decoding `bytes`.
    spec fn decode(bytes: Seq<u8>) -> Result<<Self as View>::V, Failure<Self::Err>>;

    /// What else is known of decoding `bytes`, beyond the model.
    spec fn decode_rules(bytes: Seq<u8>) -> bool;

    /// Decodes the whole of `bytes` into a value.
    fn try_parse(bytes: &[u8]) -> (r: Result<Self, TryParseError<Self::Err>>)
        ensures
            outcome(r) == Self::decode(bytes@),
            Self::decode_rules(bytes@),
    ;
}

impl TryParse for String {
    type Err = Infallible;

    /// Text is any valid UTF-8, taken as it stands.
    open spec fn decode(bytes: Seq<u8>) -> Result<Seq<char>, Failure<Infallible>> {
        if valid_utf8(bytes) {
            Ok(decode_utf8(bytes))
        } else {
            Err(Failure::InvalidUtf8)
        }
    }

    open spec fn decode_rules(bytes: Seq<u8>) -> bool {
        true
    }

    fn try_parse(bytes: &[u8]) -> (r: Result<String, TryParseError<Infallible>>) {
        match text_of(bytes) {
            None => Err(TryParseError::InvalidUtf8String),
            Some(text) => Ok(text.to_owned()),
        }
    }
}

/// An integer read in base 16.
pub struct Hex<T>(T);

/// An integer read in base 2.
pub struct Binary<T>(T);

impl<T> Hex<T> {
    /// Wraps a value.
    pub fn new(val: T) -> (r: Self)
        ensures
            r@ == val,
    {
        Hex(val)
    }

    /// The wrapped value.
    pub fn into_inner(self) -> (r: T)
        ensures
            r == self@,
    {
        self.0
    }
}

impl<T> View for Hex<T> {
    type V = T;

    closed spec fn view(&self) -> T {
        self.0
    }
}

impl<T> Binary<T> {
    /// Wraps a value.
    pub fn new(val: T) -> (r: Self)
        ensures
            r@ == val,
    {
        Binary(val)
    }

    /// The wrapped value.
    pub fn into_inner(self) -> (r: T)
        ensures
            r == self@,
    {
        self.0
    }
}

impl<T> View for Binary<T> {
    type V = T;

    closed spec fn view(&self) -> T {
        self.0
    }
}

impl<T: Integer> TryParse for Hex<T> {
    type Err = IntError;

    open spec fn decode(bytes: Seq<u8>) -> Result<T, Failure<IntError>> {
        int_decode::<T>(bytes, 16)
    }

    open spec fn decode_rules(bytes: Seq<u8>) -> bool {
        int_rules::<T>(bytes, 16)
    }

    fn try_parse(bytes: &[u8]) -> (r: Result<Hex<T>, TryParseError<IntError>>) {
        match decode_int::<T>(bytes, 16) {
            Ok(v) => Ok(Hex(v)),
            Err(e) => Err(e),
        }
    }
}

impl<T: Integer> TryParse for Binary<T> {
    type Err = IntError;

    open spec fn decode(bytes: Seq<u8>) -> Result<T, Failure<IntError>> {
        int_decode::<T>(bytes, 2)
    }

    open spec fn decode_rules(bytes: Seq<u8>) -> bool {
        int_rules::<T>(bytes, 2)
    }

    fn try_parse(bytes: &[u8]) -> (r: Result<Binary<T>, TryParseError<IntError>>) {
        match decode_int::<T>(bytes, 2) {
            Ok(v) => Ok(Binary(v)),
            Err(e) => Err(e),
        }
    }
}

/// The result of a `u8` parse with the value widened to `int`.
pub open spec fn widen_u8(r: Result<u8, IntError>) -> Result<int, IntError> {
    match r {
        Ok(v) => Ok(v as int),
        Err(e) => Err(e),
    }
}

/// Relies on `u8::from_str_radix`, std's reader of an optional sign and digits,
/// and on `ParseIntError::kind`, whose kinds are carried over one for one (`Zero`, the one
/// kind besides the four named, stands for any other).
#[verifier::external_body]
fn u8_from_radix(text: &str, radix: u32) -> (r: Result<u8, IntError>)
    requires
        2 <= radix <= 36,
    ensures
        radix_parse(text@, radix, 0, u8::MAX as int) == widen_u8(r),
        radix_rules(text@, radix, 0, u8::MAX as int, widen_u8(r)),
{
    match u8::from_str_radix(text, radix) {
        Ok(v) => Ok(v),
        Err(e) => Err(match e.kind() {
            IntErrorKind::Empty => IntError::Empty,
            IntErrorKind::InvalidDigit => IntError::InvalidDigit,
            IntErrorKind::PosOverflow => IntError::PosOverflow,
            IntErrorKind::NegOverflow => IntError::NegOverflow,
            _ => IntError::Zero,
        }),
    }
}

impl Integer for u8 {
    open spec fn lo() -> int {
        0
    }

    open spec fn hi() -> int {
        u8::MAX as int
    }

    open spec fn from_int(n: int) -> u8 {
        n as u8
    }

    fn from_radix(text: &str, radix: u32) -> (r: Result<u8, IntError>) {
        u8_from_radix(text, radix)
    }
}

impl TryParse for u8 {
    type Err = IntError;

    open spec fn decode(bytes: Seq<u8>) -> Result<u8, Failure<IntError>> {
        int_decode::<u8>(bytes, 10)
    }

    open spec fn decode_rules(bytes: Seq<u8>) -> bool {
        int_rules::<u8>(bytes, 10)
    }

    fn try_parse(bytes: &[u8]) -> (r: Result<u8, TryParseError<IntError>>) {
        decode_int::<u8>(bytes, 10)
    }
}

/// The result of a `i8` parse with the value widened to `int`.
pub open spec fn widen_i8(r: Result<i8, IntError>) -> Result<int, IntError> {
    match r {
        Ok(v) => Ok(v as int),
        Err(e) => Err(e),
    }
}

/// Relies on `i8::from_str_radix`, std's reader of an optional sign and digits,
/// and on `ParseIntError::kind`, whose kinds are carried over one for one (`Zero`, the one
/// kind besides the four named, stands for any other).
#[verifier::external_body]
fn i8_from_radix(text: &str, radix: u32) -> (r: Result<i8, IntError>)
    requires
        2 <= radix <= 36,
    ensures
        radix_parse(text@, radix, i8::MIN as int, i8::MAX as int) == widen_i8(r),
        radix_rules(text@, radix, i8::MIN as int, i8::MAX as int, widen_i8(r)),
{
    match i8::from_str_radix(text, radix) {
        Ok(v) => Ok(v),
        Err(e) => Err(match e.kind() {
            IntErrorKind::Empty => IntError::Empty,
            IntErrorKind::InvalidDigit => IntError::InvalidDigit,
            IntErrorKind::PosOverflow => IntError::PosOverflow,
            IntErrorKind::NegOverflow => IntError::NegOverflow,
            _ => IntError::Zero,
        }),
    }
}

impl Integer for i8 {
    open spec fn lo() -> int {
        i8::MIN as int
    }

    open spec fn hi() -> int {
        i8::MAX as int
    }

    open spec fn from_int(n: int) -> i8 {
        n as i8
    }

    fn from_radix(text: &str, radix: u32) -> (r: Result<i8, IntError>) {
        i8_from_radix(text, radix)
    }
}

impl TryParse for i8 {
    type Err = IntError;

    open spec fn decode(bytes: Seq<u8>) -> Result<i8, Failure<IntError>> {
        int_decode::<i8>(bytes, 10)
    }

    open spec fn decode_rules(bytes: Seq<u8>) -> bool {
        int_rules::<i8>(bytes, 10)
    }

    fn try_parse(bytes: &[u8]) -> (r: Result<i8, TryParseError<IntError>>) {
        decode_int::<i8>(bytes, 10)
    }
}

/// The result of a `u16` parse with the value widened to `int`.
pub open spec fn widen_u16(r: Result<u16, IntError>) -> Result<int, IntError> {
    match r {
        Ok(v) => Ok(v as int),
        Err(e) => Err(e),
    }
}

/// Relies on `u16::from_str_radix`, std's reader of an optional sign and digits,
/// and on `ParseIntError::kind`, whose kinds are carried over one for one (`Zero`, the one
/// kind besides the four named, stands for any other).
#[verifier::external_body]
fn u16_from_radix(text: &str, radix: u32) -> (r: Result<u16, IntError>)
    requires
        2 <= radix <= 36,
    ensures
        radix_parse(text@, radix, 0, u16::MAX as int) == widen_u16(r),
        radix_rules(text@, radix, 0, u16::MAX as int, widen_u16(r)),
{
    match u16::from_str_radix(text, radix) {
        Ok(v) => Ok(v),
        Err(e) => Err(match e.kind() {
            IntErrorKind::Empty => IntError::Empty,
            IntErrorKind::InvalidDigit => IntError::InvalidDigit,
            IntErrorKind::PosOverflow => IntError::PosOverflow,
            IntErrorKind::NegOverflow => IntError::NegOverflow,
            _ => IntError::Zero,
        }),
    }
}

impl Integer for u16 {
    open spec fn lo() -> int {
        0
    }

    open spec fn hi() -> int {
        u16::MAX as int
    }

    open spec fn from_int(n: int) -> u16 {
        n as u16
    }

    fn from_radix(text: &str, radix: u32) -> (r: Result<u16, IntError>) {
        u16_from_radix(text, radix)
    }
}

impl TryParse for u16 {
    type Err = IntError;

    open spec fn decode(bytes: Seq<u8>) -> Result<u16, Failure<IntError>> {
        int_decode::<u16>(bytes, 10)
    }

    open spec fn decode_rules(bytes: Seq<u8>) -> bool {
        int_rules::<u16>(bytes, 10)
    }

    fn try_parse(bytes: &[u8]) -> (r: Result<u16, TryParseError<IntError>>) {
        decode_int::<u16>(bytes, 10)
    }
}

/// The result of a `i16` parse with the value widened to `int`.
pub open spec fn widen_i16(r: Result<i16, IntError>) -> Result<int, IntError> {
    match r {
        Ok(v) => Ok(v as int),
        Err(e) => Err(e),
    }
}

/// Relies on `i16::from_str_radix`, std's reader of an optional sign and digits,
/// and on `ParseIntError::kind`, whose kinds are carried over one for one (`Zero`, the one
/// kind besides the four named, stands for any other).
#[verifier::external_body]
fn i16_from_radix(text: &str, radix: u32) -> (r: Result<i16, IntError>)
    requires
        2 <= radix <= 36,
    ensures
        radix_parse(text@, radix, i16::MIN as int, i16::MAX as int) == widen_i16(r),
        radix_rules(text@, radix, i16::MIN as int, i16::MAX as int, widen_i16(r)),
{
    match i16::from_str_radix(text, radix) {
        Ok(v) => Ok(v),
        Err(e) => Err(match e.kind() {
            IntErrorKind::Empty => IntError::Empty,
            IntErrorKind::InvalidDigit => IntError::InvalidDigit,
            IntErrorKind::PosOverflow => IntError::PosOverflow,
            IntErrorKind::NegOverflow => IntError::NegOverflow,
            _ => IntError::Zero,
        }),
    }
}

impl Integer for i16 {
    open spec fn lo() -> int {
        i16::MIN as int
    }

    open spec fn hi() -> int {
        i16::MAX as int
    }

    open spec fn from_int(n: int) -> i16 {
        n as i16
    }

    fn from_radix(text: &str, radix: u32) -> (r: Result<i16, IntError>) {
        i16_from_radix(text, radix)
    }
}

impl TryParse for i16 {
    type Err = IntError;

    open spec fn decode(bytes: Seq<u8>) -> Result<i16, Failure<IntError>> {
        int_decode::<i16>(bytes, 10)
    }

    open spec fn decode_rules(bytes: Seq<u8>) -> bool {
        int_rules::<i16>(bytes, 10)
    }

    fn try_parse(bytes: &[u8]) -> (r: Result<i16, TryParseError<IntError>>) {
        decode_int::<i16>(bytes, 10)
    }
}

/// The result of a `u32` parse with the value widened to `int`.
pub open spec fn widen_u32(r: Result<u32, IntError>) -> Result<int, IntError> {
    match r {
        Ok(v) => Ok(v as int),
        Err(e) => Err(e),
    }
}

/// Relies on `u32::from_str_radix`, std's reader of an optional sign and digits,
/// and on `ParseIntError::kind`, whose kinds are carried over one for one (`Zero`, the one
/// kind besides the four named, stands for any other).
#[verifier::external_body]
fn u32_from_radix(text: &str, radix: u32) -> (r: Result<u32, IntError>)
    requires
        2 <= radix <= 36,
    ensures
        radix_parse(text@, radix, 0, u32::MAX as int) == widen_u32(r),
        radix_rules(text@, radix, 0, u32::MAX as int, widen_u32(r)),
{
    match u32::from_str_radix(text, radix) {
        Ok(v) => Ok(v),
        Err(e) => Err(match e.kind() {
            IntErrorKind::Empty => IntError::Empty,
            IntErrorKind::InvalidDigit => IntError::InvalidDigit,
            IntErrorKind::PosOverflow => IntError::PosOverflow,
            IntErrorKind::NegOverflow => IntError::NegOverflow,
            _ => IntError::Zero,
        }),
    }
}

impl Integer for u32 {
    open spec fn lo() -> int {
        0
    }

    open spec fn hi() -> int {
        u32::MAX as int
    }

    open spec fn from_int(n: int) -> u32 {
        n as u32
    }

    fn from_radix(text: &str, radix: u32) -> (r: Result<u32, IntError>) {
        u32_from_radix(text, radix)
    }
}

impl TryParse for u32 {
    type Err = IntError;

    open spec fn decode(bytes: Seq<u8>) -> Result<u32, Failure<IntError>> {
        int_decode::<u32>(bytes, 10)
    }

    open spec fn decode_rules(bytes: Seq<u8>) -> bool {
        int_rules::<u32>(bytes, 10)
    }

    fn try_parse(bytes: &[u8]) -> (r: Result<u32, TryParseError<IntError>>) {
        decode_int::<u32>(bytes, 10)
    }
}

/// The result of a `i32` parse with the value widened to `int`.
pub open spec fn widen_i32(r: Result<i32, IntError>) -> Result<int, IntError> {
    match r {
        Ok(v) => Ok(v as int),
        Err(e) => Err(e),
    }
}

/// Relies on `i32::from_str_radix`, std's reader of an optional sign and digits,
/// and on `ParseIntError::kind`, whose kinds are carried over one for one (`Zero`, the one
/// kind besides the four named, stands for any other).
#[verifier::external_body]
fn i32_from_radix(text: &str, radix: u32) -> (r: Result<i32, IntError>)
    requires
        2 <= radix <= 36,
    ensures
        radix_parse(text@, radix, i32::MIN as int, i32::MAX as int) == widen_i32(r),
        radix_rules(text@, radix, i32::MIN as int, i32::MAX as int, widen_i32(r)),
{
    match i32::from_str_radix(text, radix) {
        Ok(v) => Ok(v),
        Err(e) => Err(match e.kind() {
            IntErrorKind::Empty => IntError::Empty,
            IntErrorKind::InvalidDigit => IntError::InvalidDigit,
            IntErrorKind::PosOverflow => IntError::PosOverflow,
            IntErrorKind::NegOverflow => IntError::NegOverflow,
            _ => IntError::Zero,
        }),
    }
}

impl Integer for i32 {
    open spec fn lo() -> int {
        i32::MIN as int
    }

    open spec fn hi() -> int {
        i32::MAX as int
    }

    open spec fn from_int(n: int) -> i32 {
        n as i32
    }

    fn from_radix(text: &str, radix: u32) -> (r: Result<i32, IntError>) {
        i32_from_radix(text, radix)
    }
}

impl TryParse for i32 {
    type Err = IntError;

    open spec fn decode(bytes: Seq<u8>) -> Result<i32, Failure<IntError>> {
        int_decode::<i32>(bytes, 10)
    }

    open spec fn decode_rules(bytes: Seq<u8>) -> bool {
        int_rules::<i32>(bytes, 10)
    }

    fn try_parse(bytes: &[u8]) -> (r: Result<i32, TryParseError<IntError>>) {
        decode_int::<i32>(bytes, 10)
    }
}

/// The result of a `u64` parse with the value widened to `int`.
pub open spec fn widen_u64(r: Result<u64, IntError>) -> Result<int, IntError> {
    match r {
        Ok(v) => Ok(v as int),
        Err(e) => Err(e),
    }
}

/// Relies on `u64::from_str_radix`, std's reader of an optional sign and digits,
/// and on `ParseIntError::kind`, whose kinds are carried over one for one (`Zero`, the one
/// kind besides the four named, stands for any other).
#[verifier::external_body]
fn u64_from_radix(text: &str, radix: u32) -> (r: Result<u64, IntError>)
    requires
        2 <= radix <= 36,
    ensures
        radix_parse(text@, radix, 0, u64::MAX as int) == widen_u64(r),
        radix_rules(text@, radix, 0, u64::MAX as int, widen_u64(r)),
{
    match u64::from_str_radix(text, radix) {
        Ok(v) => Ok(v),
        Err(e) => Err(match e.kind() {
            IntErrorKind::Empty => IntError::Empty,
            IntErrorKind::InvalidDigit => IntError::InvalidDigit,
            IntErrorKind::PosOverflow => IntError::PosOverflow,
            IntErrorKind::NegOverflow => IntError::NegOverflow,
            _ => IntError::Zero,
        }),
    }
}

impl Integer for u64 {
    open spec fn lo() -> int {
        0
    }

    open spec fn hi() -> int {
        u64::MAX as int
    }

    open spec fn from_int(n: int) -> u64 {
        n as u64
    }

    fn from_radix(text: &str, radix: u32) -> (r: Result<u64, IntError>) {
        u64_from_radix(text, radix)
    }
}

impl TryParse for u64 {
    type Err = IntError;

    open spec fn decode(bytes: Seq<u8>) -> Result<u64, Failure<IntError>> {
        int_decode::<u64>(bytes, 10)
    }

    open spec fn decode_rules(bytes: Seq<u8>) -> bool {
        int_rules::<u64>(bytes, 10)
    }

    fn try_parse(bytes: &[u8]) -> (r: Result<u64, TryParseError<IntError>>) {
        decode_int::<u64>(bytes, 10)
    }
}

/// The result of a `i64` parse with the value widened to `int`.
pub open spec fn widen_i64(r: Result<i64, IntError>) -> Result<int, IntError> {
    match r {
        Ok(v) => Ok(v as int),
        Err(e) => Err(e),
    }
}

/// Relies on `i64::from_str_radix`, std's reader of an optional sign and digits,
/// and on `ParseIntError::kind`, whose kinds are carried over one for one (`Zero`, the one
/// kind besides the four named, stands for any other).
#[verifier::external_body]
fn i64_from_radix(text: &str, radix: u32) -> (r: Result<i64, IntError>)
    requires
        2 <= radix <= 36,
    ensures
        radix_parse(text@, radix, i64::MIN as int, i64::MAX as int) == widen_i64(r),
        radix_rules(text@, radix, i64::MIN as int, i64::MAX as int, widen_i64(r)),
{
    match i64::from_str_radix(text, radix) {
        Ok(v) => Ok(v),
        Err(e) => Err(match e.kind() {
            IntErrorKind::Empty => IntError::Empty,
            IntErrorKind::InvalidDigit => IntError::InvalidDigit,
            IntErrorKind::PosOverflow => IntError::PosOverflow,
            IntErrorKind::NegOverflow => IntError::NegOverflow,
            _ => IntError::Zero,
        }),
    }
}

impl Integer for i64 {
    open spec fn lo() -> int {
        i64::MIN as int
    }

    open spec fn hi() -> int {
        i64::MAX as int
    }

    open spec fn from_int(n: int) -> i64 {
        n as i64
    }

    fn from_radix(text: &str, radix: u32) -> (r: Result<i64, IntError>) {
        i64_from_radix(text, radix)
    }
}

impl TryParse for i64 {
    type Err = IntError;

    open spec fn decode(bytes: Seq<u8>) -> Result<i64, Failure<IntError>> {
        int_decode::<i64>(bytes, 10)
    }

    open spec fn decode_rules(bytes: Seq<u8>) -> bool {
        int_rules::<i64>(bytes, 10)
    }

    fn try_parse(bytes: &[u8]) -> (r: Result<i64, TryParseError<IntError>>) {
        decode_int::<i64>(bytes, 10)
    }
}

/// The result of a `u128` parse with the value widened to `int`.
pub open spec fn widen_u128(r: Result<u128, IntError>) -> Result<int, IntError> {
    match r {
        Ok(v) => Ok(v as int),
        Err(e) => Err(e),
    }
}

/// Relies on `u128::from_str_radix`, std's reader of an optional sign and digits,
/// and on `ParseIntError::kind`, whose kinds are carried over one for one (`Zero`, the one
/// kind besides the four named, stands for any other).
#[verifier::external_body]
fn u128_from_radix(text: &str, radix: u32) -> (r: Result<u128, IntError>)
    requires
        2 <= radix <= 36,
    ensures
        radix_parse(text@, radix, 0, u128::MAX as int) == widen_u128(r),
        radix_rules(text@, radix, 0, u128::MAX as int, widen_u128(r)),
{
    match u128::from_str_radix(text, radix) {
        Ok(v) => Ok(v),
        Err(e) => Err(match e.kind() {
            IntErrorKind::Empty => IntError::Empty,
            IntErrorKind::InvalidDigit => IntError::InvalidDigit,
            IntErrorKind::PosOverflow => IntError::PosOverflow,
            IntErrorKind::NegOverflow => IntError::NegOverflow,
            _ => IntError::Zero,
        }),
    }
}

impl Integer for u128 {
    open spec fn lo() -> int {
        0
    }

    open spec fn hi() -> int {
        u128::MAX as int
    }

    open spec fn from_int(n: int) -> u128 {
        n as u128
    }

    fn from_radix(text: &str, radix: u32) -> (r: Result<u128, IntError>) {
        u128_from_radix(text, radix)
    }
}

impl TryParse for u128 {
    type Err = IntError;

    open spec fn decode(bytes: Seq<u8>) -> Result<u128, Failure<IntError>> {
        int_decode::<u128>(bytes, 10)
    }

    open spec fn decode_rules(bytes: Seq<u8>) -> bool {
        int_rules::<u128>(bytes, 10)
    }

    fn try_parse(bytes: &[u8]) -> (r: Result<u128, TryParseError<IntError>>) {
        decode_int::<u128>(bytes, 10)
    }
}

/// The result of a `i128` parse with the value widened to `int`.
pub open spec fn widen_i128(r: Result<i128, IntError>) -> Result<int, IntError> {
    match r {
        Ok(v) => Ok(v as int),
        Err(e) => Err(e),
    }
}

/// Relies on `i128::from_str_radix`, std's reader of an optional sign and digits,
/// and on `ParseIntError::kind`, whose kinds are carried over one for one (`Zero`, the one
/// kind besides the four named, stands for any other).
#[verifier::external_body]
fn i128_from_radix(text: &str, radix: u32) -> (r: Result<i128, IntError>)
    requires
        2 <= radix <= 36,
    ensures
        radix_parse(text@, radix, i128::MIN as int, i128::MAX as int) == widen_i128(r),
        radix_rules(text@, radix, i128::MIN as int, i128::MAX as int, widen_i128(r)),
{
    match i128::from_str_radix(text, radix) {
        Ok(v) => Ok(v),
        Err(e) => Err(match e.kind() {
            IntErrorKind::Empty => IntError::Empty,
            IntErrorKind::InvalidDigit => IntError::InvalidDigit,
            IntErrorKind::PosOverflow => IntError::PosOverflow,
            IntErrorKind::NegOverflow => IntError::NegOverflow,
            _ => IntError::Zero,
        }),
    }
}

impl Integer for i128 {
    open spec fn lo() -> int {
        i128::MIN as int
    }

    open spec fn hi() -> int {
        i128::MAX as int
    }

    open spec fn from_int(n: int) -> i128 {
        n as i128
    }

    fn from_radix(text: &str, radix: u32) -> (r: Result<i128, IntError>) {
        i128_from_radix(text, radix)
    }
}

impl TryParse for i128 {
    type Err = IntError;

    open spec fn decode(bytes: Seq<u8>) -> Result<i128, Failure<IntError>> {
        int_decode::<i128>(bytes, 10)
    }

    open spec fn decode_rules(bytes: Seq<u8>) -> bool {
        int_rules::<i128>(bytes, 10)
    }

    fn try_parse(bytes: &[u8]) -> (r: Result<i128, TryParseError<IntError>>) {
        decode_int::<i128>(bytes, 10)
    }
}

} // verus!

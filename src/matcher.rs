//! The runtime matcher: runs a compiled pattern over input bytes.
//!
//! Each segment's literal anchor must begin what is left of the input; the capture then
//! runs up to the segment's delimiter byte, or to the end of the input when there is none,
//! and is decoded as a whole. Nothing is ever retried with a shorter capture.

use crate::codec::{decode_int, int_decode, text_of, TryParse};
use crate::error::{outcome, Failure, IntError, TryParseError};
use crate::pattern::{
    compile_multi_spec, compile_single_spec, span_until, Base, CompiledPattern, PatternModel,
    Segment, SegmentModel,
};
use vstd::prelude::*;
use vstd::slice::{slice_subrange, slice_to_vec};
use vstd::utf8::{decode_utf8, valid_utf8};

verus! {

/// Whether `lit` begins `s`.
pub open spec fn anchored(s: Seq<u8>, lit: Seq<u8>) -> bool {
    lit.len() <= s.len() && s.take(lit.len() as int) == lit
}

/// How long the capture at the start of `body` is: up to the first `delim`, or all of
/// `body` without a delimiter or when `delim` does not occur.
pub open spec fn capture_len(body: Seq<u8>, delim: Option<u8>) -> int {
    match delim {
        None => body.len() as int,
        Some(d) => span_until(body, d) as int,
    }
}

/// One step of a match on the remaining input `s`: when the literal anchor begins `s`,
/// the capture that follows it and what is left after the capture.
pub open spec fn step(s: Seq<u8>, lit: Seq<u8>, delim: Option<u8>) -> Option<(Seq<u8>, Seq<u8>)> {
    if anchored(s, lit) {
        let body = s.skip(lit.len() as int);
        let n = capture_len(body, delim);
        Some((body.take(n), body.skip(n)))
    } else {
        None
    }
}

/// The model of matching a single-value pattern against `input`: the leading anchor
/// must match, then the capture must decode, and then what is left after the capture
/// must equal the trailing literal. The first of these steps that fails ends the match.
pub open spec fn single_outcome<S: TryParse>(p: PatternModel, input: Seq<u8>) -> Result<
    <S as View>::V,
    Failure<S::Err>,
> {
    let seg = p.segments[0];
    match step(input, seg.literal, seg.delimiter) {
        None => Err(Failure::Mismatch(seg.literal, input)),
        Some((cap, rest)) => match S::decode(cap) {
            Err(e) => Err(e),
            Ok(v) => if rest == p.trailing {
                Ok(v)
            } else {
                Err(Failure::Mismatch(p.trailing, rest))
            },
        },
    }
}

/// Whether `lit` begins `s` from index `from` on.
fn begins_with(s: &[u8], from: usize, lit: &[u8]) -> (r: bool)
    requires
        from <= s@.len(),
    ensures
        r == anchored(s@.skip(from as int), lit@),
{
    if lit.len() > s.len() - from {
        return false;
    }
    let mut k: usize = 0;
    while k < lit.len()
        invariant
            k <= lit@.len(),
            from + lit@.len() <= s@.len(),
            s@.len() == s.len(),
            forall|m: int| 0 <= m < k ==> s@[from + m] == lit@[m],
        decreases lit@.len() - k,
    {
        if s[from + k] != lit[k] {
            assert(s@.skip(from as int).take(lit@.len() as int)[k as int] != lit@[k as int]);
            return false;
        }
        k = k + 1;
    }
    assert(s@.skip(from as int).take(lit@.len() as int) =~= lit@);
    true
}

/// Whether the bytes of `s` from index `from` on are exactly `expected`.
fn rest_equals(s: &[u8], from: usize, expected: &[u8]) -> (r: bool)
    requires
        from <= s@.len(),
    ensures
        r == (s@.skip(from as int) == expected@),
{
    if s.len() - from != expected.len() {
        return false;
    }
    let b = begins_with(s, from, expected);
    assert(s@.skip(from as int).take(expected@.len() as int) =~= s@.skip(from as int));
    b
}

/// A copy of the bytes of `s` from index `from` on.
fn rest_of(s: &[u8], from: usize) -> (r: Vec<u8>)
    requires
        from <= s@.len(),
    ensures
        r@ == s@.skip(from as int),
{
    let r = slice_to_vec(slice_subrange(s, from, s.len()));
    assert(r@ =~= s@.skip(from as int));
    r
}

/// Finds one step of a match in `s` from index `start` on: the bounds of the capture.
fn locate(s: &[u8], start: usize, lit: &[u8], delim: Option<u8>) -> (r: Option<(usize, usize)>)
    requires
        start <= s@.len(),
    ensures
        r is Some <==> step(s@.skip(start as int), lit@, delim) is Some,
        r matches Some((a, b)) ==> a <= b <= s@.len() && step(s@.skip(start as int), lit@, delim)
            == Some((s@.subrange(a as int, b as int), s@.skip(b as int))),
{
    if !begins_with(s, start, lit) {
        return None;
    }
    assert(lit@.len() <= s@.skip(start as int).len());
    assert(s@.len() == s.len());
    let a = start + lit.len();
    let ghost body = s@.skip(start as int).skip(lit@.len() as int);
    assert(body =~= s@.subrange(a as int, s@.len() as int));
    let b = match delim {
        None => s.len(),
        Some(d) => crate::pattern::scan_to(s, a, s.len(), d),
    };
    assert(body.take(b - a) =~= s@.subrange(a as int, b as int));
    assert(body.skip(b - a) =~= s@.skip(b as int));
    Some((a, b))
}

/// Runs one segment of a pattern at the cursor: matches the literal anchor `literal`,
/// captures up to `delim` (or to the end of the input without one) and decodes the
/// capture as an `S`. The cursor then stands after the capture; on a mismatch of the
/// anchor it does not move.
pub fn parse_single<S: TryParse>(
    input: &[u8],
    cursor: &mut usize,
    literal: &[u8],
    delim: Option<u8>,
) -> (r: Result<S, TryParseError<S::Err>>)
    requires
        *old(cursor) <= input@.len(),
    ensures
        *final(cursor) <= input@.len(),
        match step(input@.skip(*old(cursor) as int), literal@, delim) {
            None => *final(cursor) == *old(cursor) && outcome(r) == Err::<<S as View>::V, Failure<S::Err>>(
                Failure::Mismatch(literal@, input@.skip(*old(cursor) as int)),
            ),
            Some((cap, rest)) => input@.skip(*final(cursor) as int) == rest && outcome(r) == S::decode(
                cap,
            ) && S::decode_rules(cap),
        },
{
    match locate(input, *cursor, literal, delim) {
        None => Err(TryParseError::ExpectedMismatch(slice_to_vec(literal), rest_of(input, *cursor))),
        Some((a, b)) => {
            *cursor = b;
            S::try_parse(slice_subrange(input, a, b))
        },
    }
}

/// Matches `source` against a single-value pattern and decodes its one capture as an `S`.
pub fn try_parse<S: TryParse>(pattern: &CompiledPattern, source: &[u8]) -> (r: Result<S, TryParseError<S::Err>>)
    requires
        pattern.segments@.len() == 1,
    ensures
        outcome(r) == single_outcome::<S>(pattern@, source@),
        match step(source@, pattern@.segments[0].literal, pattern@.segments[0].delimiter) {
            Some((cap, _)) => S::decode_rules(cap),
            None => true,
        },
{
    let seg = &pattern.segments[0];
    assert(pattern@.segments[0] == seg@);
    assert(source@.skip(0) =~= source@);
    match locate(source, 0, seg.literal.as_slice(), seg.delimiter) {
        None => Err(TryParseError::ExpectedMismatch(slice_to_vec(seg.literal.as_slice()), slice_to_vec(source))),
        Some((a, b)) => {
            let decoded = S::try_parse(slice_subrange(source, a, b));
            if decoded.is_err() {
                decoded
            } else if rest_equals(source, b, pattern.trailing.as_slice()) {
                decoded
            } else {
                Err(TryParseError::ExpectedMismatch(slice_to_vec(pattern.trailing.as_slice()), rest_of(source, b)))
            }
        },
    }
}

/// Matches `source` against a single-value pattern whose placeholder is inline, and
/// writes the decoded value to `dest`; on failure `dest` keeps its value.
pub fn try_parse_into<S: TryParse>(pattern: &CompiledPattern, source: &[u8], dest: &mut S) -> (r: Result<
    (),
    TryParseError<S::Err>,
>)
    requires
        pattern.segments@.len() == 1,
    ensures
        match single_outcome::<S>(pattern@, source@) {
            Ok(v) => r is Ok && final(dest)@ == v,
            Err(e) => r matches Err(x) && x@ == e && *final(dest) == *old(dest),
        },
        match step(source@, pattern@.segments[0].literal, pattern@.segments[0].delimiter) {
            Some((cap, _)) => S::decode_rules(cap),
            None => true,
        },
{
    match try_parse::<S>(pattern, source) {
        Ok(v) => {
            *dest = v;
            Ok(())
        },
        Err(e) => Err(e),
    }
}

/// The model of running the segments `segs` one after another from `input`, every
/// capture decoded as a `T`: the values in order and what is left of the input, or the
/// failure of the first step that fails.
pub open spec fn typed_outcome<T: TryParse>(segs: Seq<SegmentModel>, input: Seq<u8>) -> Result<
    (Seq<<T as View>::V>, Seq<u8>),
    Failure<T::Err>,
>
    decreases segs.len(),
{
    if segs.len() == 0 {
        Ok((seq![], input))
    } else {
        match step(input, segs[0].literal, segs[0].delimiter) {
            None => Err(Failure::Mismatch(segs[0].literal, input)),
            Some((cap, rest)) => match T::decode(cap) {
                Err(e) => Err(e),
                Ok(v) => match typed_outcome::<T>(segs.drop_first(), rest) {
                    Ok((vs, left)) => Ok((seq![v] + vs, left)),
                    Err(e) => Err(e),
                },
            },
        }
    }
}

/// `r` with the values `vs` put in front.
pub open spec fn prefix_values<V, E>(vs: Seq<V>, r: Result<(Seq<V>, Seq<u8>), E>) -> Result<
    (Seq<V>, Seq<u8>),
    E,
> {
    match r {
        Ok((ws, left)) => Ok((vs + ws, left)),
        Err(e) => Err(e),
    }
}

/// A collection of values that can be read by running several segments in a row.
pub trait ParseMultiple: Sized {
    /// What the codec of the values reports.
    type Err;

    /// Whether `r` is what running `segs` from `input` gives, with `left` what is left.
    spec fn parses(
        segs: Seq<SegmentModel>,
        input: Seq<u8>,
        r: Result<Self, TryParseError<Self::Err>>,
        left: Seq<u8>,
    ) -> bool;

    /// Runs the segments one after another from the cursor, which ends after the last
    /// capture.
    fn parse_multiple(input: &[u8], cursor: &mut usize, segments: &[Segment]) -> (r: Result<
        Self,
        TryParseError<Self::Err>,
    >)
        requires
            *old(cursor) <= input@.len(),
        ensures
            *final(cursor) <= input@.len(),
            Self::parses(
                segments@.map_values(|s: Segment| s@),
                input@.skip(*old(cursor) as int),
                r,
                input@.skip(*final(cursor) as int),
            ),
    ;
}

impl<T: TryParse> ParseMultiple for Vec<T> {
    type Err = T::Err;

    open spec fn parses(
        segs: Seq<SegmentModel>,
        input: Seq<u8>,
        r: Result<Vec<T>, TryParseError<T::Err>>,
        left: Seq<u8>,
    ) -> bool {
        match typed_outcome::<T>(segs, input) {
            Ok((vals, rest)) => r matches Ok(v) && v@.map_values(|x: T| x@) == vals && left == rest,
            Err(e) => r matches Err(x) && x@ == e,
        }
    }

    fn parse_multiple(input: &[u8], cursor: &mut usize, segments: &[Segment]) -> (r: Result<
        Vec<T>,
        TryParseError<T::Err>,
    >) {
        let ghost segs = segments@.map_values(|s: Segment| s@);
        let ghost start = *cursor;
        let ghost whole = typed_outcome::<T>(segs, input@.skip(start as int));
        let mut values: Vec<T> = Vec::new();
        let mut i: usize = 0;
        proof {
            assert(segs.skip(0) =~= segs);
            assert(forall|x: Seq<<T as View>::V>| #![auto] seq![] + x =~= x);
            assert(values@.map_values(|x: T| x@) =~= seq![]);
        }
        while i < segments.len()
            invariant
                segs == segments@.map_values(|s: Segment| s@),
                start == *old(cursor),
                i <= segs.len(),
                *cursor <= input@.len(),
                whole == typed_outcome::<T>(segs, input@.skip(start as int)),
                whole == prefix_values(
                    values@.map_values(|x: T| x@),
                    typed_outcome::<T>(segs.skip(i as int), input@.skip(*cursor as int)),
                ),
            decreases segs.len() - i,
        {
            let seg = &segments[i];
            let ghost rest_segs = segs.skip(i as int);
            assert(rest_segs[0] == seg@);
            assert(rest_segs.drop_first() =~= segs.skip(i + 1));
            let ghost pre = *cursor;
            match parse_single::<T>(input, cursor, seg.literal.as_slice(), seg.delimiter) {
                Err(e) => {
                    assert(typed_outcome::<T>(rest_segs, input@.skip(pre as int)) == Err::<
                        (Seq<<T as View>::V>, Seq<u8>),
                        Failure<T::Err>,
                    >(e@));
                    return Err(e);
                },
                Ok(v) => {
                    let ghost before = values@.map_values(|x: T| x@);
                    let ghost vv = v@;
                    values.push(v);
                    proof {
                        assert(values@.map_values(|x: T| x@) =~= before.push(vv));
                        assert(forall|x: Seq<<T as View>::V>| #![auto] before + (seq![vv] + x) =~= before.push(vv) + x);
                    }
                    i = i + 1;
                },
            }
        }
        proof {
            assert(values@.map_values(|x: T| x@) + seq![] =~= values@.map_values(|x: T| x@));
        }
        Ok(values)
    }
}

/// The type that a placeholder's capture is decoded into, in a multi-value match.
#[derive(Debug, Clone, Copy, PartialEq, Eq, Structural)]
pub enum Kind {
    U8,
    I8,
    U16,
    I16,
    U32,
    I32,
    U64,
    I64,
    U128,
    I128,
    Text,
}

/// A decoded value of one of the kinds.
#[derive(Debug, Clone, PartialEq)]
pub enum Value {
    U8(u8),
    I8(i8),
    U16(u16),
    I16(i16),
    U32(u32),
    I32(i32),
    U64(u64),
    I64(i64),
    U128(u128),
    I128(i128),
    Text(String),
}

/// The model of a [`Value`]: an integer or a text.
pub enum ValueModel {
    Int(int),
    Text(Seq<char>),
}

impl View for Value {
    type V = ValueModel;

    open spec fn view(&self) -> ValueModel {
        match self {
            Value::U8(v) => ValueModel::Int(*v as int),
            Value::I8(v) => ValueModel::Int(*v as int),
            Value::U16(v) => ValueModel::Int(*v as int),
            Value::I16(v) => ValueModel::Int(*v as int),
            Value::U32(v) => ValueModel::Int(*v as int),
            Value::I32(v) => ValueModel::Int(*v as int),
            Value::U64(v) => ValueModel::Int(*v as int),
            Value::I64(v) => ValueModel::Int(*v as int),
            Value::U128(v) => ValueModel::Int(*v as int),
            Value::I128(v) => ValueModel::Int(*v as int),
            Value::Text(t) => ValueModel::Text(t@),
        }
    }
}

/// Whether a placeholder of the given base can be decoded as the given kind: text is
/// only read as it stands, never in base 16 or 2.
pub open spec fn kind_fits(kind: Kind, base: Base) -> bool {
    kind is Text ==> base is Decimal
}

/// The model of decoding `bytes` as a `kind` read in `base`.
pub open spec fn decode_value(kind: Kind, base: Base, bytes: Seq<u8>) -> Result<ValueModel, Failure<IntError>> {
    match kind {
        Kind::U8 => match int_decode::<u8>(bytes, base.spec_radix()) {
            Ok(v) => Ok(ValueModel::Int(v as int)),
            Err(e) => Err(e),
        },
        Kind::I8 => match int_decode::<i8>(bytes, base.spec_radix()) {
            Ok(v) => Ok(ValueModel::Int(v as int)),
            Err(e) => Err(e),
        },
        Kind::U16 => match int_decode::<u16>(bytes, base.spec_radix()) {
            Ok(v) => Ok(ValueModel::Int(v as int)),
            Err(e) => Err(e),
        },
        Kind::I16 => match int_decode::<i16>(bytes, base.spec_radix()) {
            Ok(v) => Ok(ValueModel::Int(v as int)),
            Err(e) => Err(e),
        },
        Kind::U32 => match int_decode::<u32>(bytes, base.spec_radix()) {
            Ok(v) => Ok(ValueModel::Int(v as int)),
            Err(e) => Err(e),
        },
        Kind::I32 => match int_decode::<i32>(bytes, base.spec_radix()) {
            Ok(v) => Ok(ValueModel::Int(v as int)),
            Err(e) => Err(e),
        },
        Kind::U64 => match int_decode::<u64>(bytes, base.spec_radix()) {
            Ok(v) => Ok(ValueModel::Int(v as int)),
            Err(e) => Err(e),
        },
        Kind::I64 => match int_decode::<i64>(bytes, base.spec_radix()) {
            Ok(v) => Ok(ValueModel::Int(v as int)),
            Err(e) => Err(e),
        },
        Kind::U128 => match int_decode::<u128>(bytes, base.spec_radix()) {
            Ok(v) => Ok(ValueModel::Int(v as int)),
            Err(e) => Err(e),
        },
        Kind::I128 => match int_decode::<i128>(bytes, base.spec_radix()) {
            Ok(v) => Ok(ValueModel::Int(v as int)),
            Err(e) => Err(e),
        },
        Kind::Text => if valid_utf8(bytes) {
            Ok(ValueModel::Text(decode_utf8(bytes)))
        } else {
            Err(Failure::InvalidUtf8)
        },
    }
}

/// Decodes `bytes` as a `kind` read in `base`.
pub fn decode_as(kind: Kind, base: Base, bytes: &[u8]) -> (r: Result<Value, TryParseError<IntError>>)
    requires
        kind_fits(kind, base),
    ensures
        outcome(r) == decode_value(kind, base, bytes@),
{
    let radix = base.radix();
    match kind {
        Kind::U8 => match decode_int::<u8>(bytes, radix) {
            Ok(v) => Ok(Value::U8(v)),
            Err(e) => Err(e),
        },
        Kind::I8 => match decode_int::<i8>(bytes, radix) {
            Ok(v) => Ok(Value::I8(v)),
            Err(e) => Err(e),
        },
        Kind::U16 => match decode_int::<u16>(bytes, radix) {
            Ok(v) => Ok(Value::U16(v)),
            Err(e) => Err(e),
        },
        Kind::I16 => match decode_int::<i16>(bytes, radix) {
            Ok(v) => Ok(Value::I16(v)),
            Err(e) => Err(e),
        },
        Kind::U32 => match decode_int::<u32>(bytes, radix) {
            Ok(v) => Ok(Value::U32(v)),
            Err(e) => Err(e),
        },
        Kind::I32 => match decode_int::<i32>(bytes, radix) {
            Ok(v) => Ok(Value::I32(v)),
            Err(e) => Err(e),
        },
        Kind::U64 => match decode_int::<u64>(bytes, radix) {
            Ok(v) => Ok(Value::U64(v)),
            Err(e) => Err(e),
        },
        Kind::I64 => match decode_int::<i64>(bytes, radix) {
            Ok(v) => Ok(Value::I64(v)),
            Err(e) => Err(e),
        },
        Kind::U128 => match decode_int::<u128>(bytes, radix) {
            Ok(v) => Ok(Value::U128(v)),
            Err(e) => Err(e),
        },
        Kind::I128 => match decode_int::<i128>(bytes, radix) {
            Ok(v) => Ok(Value::I128(v)),
            Err(e) => Err(e),
        },
        Kind::Text => match text_of(bytes) {
            Some(t) => Ok(Value::Text(t.to_owned())),
            None => Err(TryParseError::InvalidUtf8String),
        },
    }
}

/// `r` with the values `vals` put in front.
pub open spec fn prepend(vals: Seq<ValueModel>, r: Result<Seq<ValueModel>, Failure<IntError>>) -> Result<
    Seq<ValueModel>,
    Failure<IntError>,
> {
    match r {
        Ok(vs) => Ok(vals + vs),
        Err(e) => Err(e),
    }
}

/// The model of a multi-value match of the segments `segs`, then the trailing literal,
/// against `input`, the i-th capture decoded as `kinds[i]`: the values of all
/// placeholders in template order, or the failure of the first step that fails.
pub open spec fn multi_outcome(
    segs: Seq<SegmentModel>,
    trailing: Seq<u8>,
    input: Seq<u8>,
    kinds: Seq<Kind>,
) -> Result<Seq<ValueModel>, Failure<IntError>>
    decreases segs.len(),
{
    if segs.len() == 0 {
        if input == trailing {
            Ok(seq![])
        } else {
            Err(Failure::Mismatch(trailing, input))
        }
    } else {
        match step(input, segs[0].literal, segs[0].delimiter) {
            None => Err(Failure::Mismatch(segs[0].literal, input)),
            Some((cap, rest)) => match decode_value(kinds[0], segs[0].base, cap) {
                Err(e) => Err(e),
                Ok(v) => prepend(
                    seq![v],
                    multi_outcome(segs.drop_first(), trailing, rest, kinds.drop_first()),
                ),
            },
        }
    }
}

/// Splits the values of a match by their placeholders: those of anonymous placeholders
/// in order, and those of inline placeholders with their names, in order.
pub open spec fn split_values<V>(segs: Seq<SegmentModel>, vals: Seq<V>) -> (
    Seq<V>,
    Seq<(Seq<u8>, V)>,
)
    decreases vals.len(),
{
    if segs.len() == 0 || vals.len() == 0 {
        (seq![], seq![])
    } else {
        let (returned, inline) = split_values(segs.drop_last(), vals.drop_last());
        match segs.last().name {
            None => (returned.push(vals.last()), inline),
            Some(n) => (returned, inline.push((n, vals.last()))),
        }
    }
}

/// What a multi-value match gives: the values of the anonymous placeholders, in
/// template order, and the values of the inline placeholders with their names.
#[derive(Debug)]
pub struct Extracted {
    pub values: Vec<Value>,
    pub inline: Vec<(Vec<u8>, Value)>,
}

impl View for Extracted {
    type V = (Seq<ValueModel>, Seq<(Seq<u8>, ValueModel)>);

    open spec fn view(&self) -> (Seq<ValueModel>, Seq<(Seq<u8>, ValueModel)>) {
        (
            self.values@.map_values(|v: Value| v@),
            self.inline@.map_values(|e: (Vec<u8>, Value)| (e.0@, e.1@)),
        )
    }
}

/// The model of a multi-value match, its values split by placeholder.
pub open spec fn scan_outcome(p: PatternModel, input: Seq<u8>, kinds: Seq<Kind>) -> Result<
    (Seq<ValueModel>, Seq<(Seq<u8>, ValueModel)>),
    Failure<IntError>,
> {
    match multi_outcome(p.segments, p.trailing, input, kinds) {
        Ok(vals) => Ok(split_values(p.segments, vals)),
        Err(e) => Err(e),
    }
}

/// Whether `kinds` gives one fitting kind for each placeholder of `p`.
pub open spec fn kinds_fit(p: PatternModel, kinds: Seq<Kind>) -> bool {
    &&& kinds.len() == p.segments.len()
    &&& forall|i: int| 0 <= i < kinds.len() ==> kind_fits(#[trigger] kinds[i], p.segments[i].base)
}

/// The values of the steps of a multi-value match of `segs` against `input` that
/// succeed before the first step that fails; all of them when none fails.
pub open spec fn decoded_before_failure(segs: Seq<SegmentModel>, input: Seq<u8>, kinds: Seq<Kind>) -> Seq<
    ValueModel,
>
    decreases segs.len(),
{
    if segs.len() == 0 {
        seq![]
    } else {
        match step(input, segs[0].literal, segs[0].delimiter) {
            None => seq![],
            Some((cap, rest)) => match decode_value(kinds[0], segs[0].base, cap) {
                Err(_) => seq![],
                Ok(v) => seq![v] + decoded_before_failure(segs.drop_first(), rest, kinds.drop_first()),
            },
        }
    }
}

/// The names and values of the inline placeholders whose steps succeed before the
/// first step of a multi-value match that fails, in template order.
pub open spec fn inline_before_failure(p: PatternModel, input: Seq<u8>, kinds: Seq<Kind>) -> Seq<
    (Seq<u8>, ValueModel),
> {
    let d = decoded_before_failure(p.segments, input, kinds);
    split_values(p.segments.take(d.len() as int), d).1
}

/// Matches `source` against a multi-value pattern, decoding the i-th capture as
/// `kinds[i]`, and appends the value of each inline placeholder to `inline` as soon as
/// its step succeeds: when a later step fails, the values appended before it stay.
/// Returns the values of the anonymous placeholders.
pub fn try_scan_into(
    pattern: &CompiledPattern,
    source: &[u8],
    kinds: &[Kind],
    inline: &mut Vec<(Vec<u8>, Value)>,
) -> (r: Result<Vec<Value>, TryParseError<IntError>>)
    requires
        kinds_fit(pattern@, kinds@),
    ensures
        final(inline)@.map_values(|e: (Vec<u8>, Value)| (e.0@, e.1@)) == old(inline)@.map_values(
            |e: (Vec<u8>, Value)| (e.0@, e.1@),
        ) + inline_before_failure(pattern@, source@, kinds@),
        match r {
            Ok(values) => scan_outcome(pattern@, source@, kinds@) == Ok::<
                (Seq<ValueModel>, Seq<(Seq<u8>, ValueModel)>),
                Failure<IntError>,
            >((values@.map_values(|v: Value| v@), inline_before_failure(pattern@, source@, kinds@))),
            Err(e) => scan_outcome(pattern@, source@, kinds@) == Err::<
                (Seq<ValueModel>, Seq<(Seq<u8>, ValueModel)>),
                Failure<IntError>,
            >(e@),
        },
{
    let ghost segs = pattern@.segments;
    let ghost whole = multi_outcome(segs, pattern@.trailing, source@, kinds@);
    let ghost done = decoded_before_failure(segs, source@, kinds@);
    let ghost start = inline@.map_values(|e: (Vec<u8>, Value)| (e.0@, e.1@));
    let mut values: Vec<Value> = Vec::new();
    let ghost mut vals: Seq<ValueModel> = seq![];
    let mut cursor: usize = 0;
    let mut i: usize = 0;
    proof {
        assert(segs.skip(0) =~= segs);
        assert(kinds@.skip(0) =~= kinds@);
        assert(source@.skip(0) =~= source@);
        assert(forall|x: Seq<ValueModel>| #![auto] seq![] + x =~= x);
        assert(start + seq![] =~= start);
    }
    while i < pattern.segments.len()
        invariant
            segs == pattern@.segments,
            kinds_fit(pattern@, kinds@),
            whole == multi_outcome(segs, pattern@.trailing, source@, kinds@),
            done == decoded_before_failure(segs, source@, kinds@),
            start == old(inline)@.map_values(|e: (Vec<u8>, Value)| (e.0@, e.1@)),
            i <= segs.len(),
            cursor <= source@.len(),
            vals.len() == i,
            whole == prepend(
                vals,
                multi_outcome(segs.skip(i as int), pattern@.trailing, source@.skip(cursor as int), kinds@.skip(i as int)),
            ),
            done == vals + decoded_before_failure(
                segs.skip(i as int),
                source@.skip(cursor as int),
                kinds@.skip(i as int),
            ),
            values@.map_values(|v: Value| v@) == split_values(segs.take(i as int), vals).0,
            inline@.map_values(|e: (Vec<u8>, Value)| (e.0@, e.1@)) == start + split_values(
                segs.take(i as int),
                vals,
            ).1,
        decreases segs.len() - i,
    {
        let seg = &pattern.segments[i];
        let ghost rest_segs = segs.skip(i as int);
        let ghost rest_kinds = kinds@.skip(i as int);
        assert(rest_segs[0] == seg@);
        assert(rest_kinds[0] == kinds@[i as int]);
        assert(rest_segs.drop_first() =~= segs.skip(i + 1));
        assert(rest_kinds.drop_first() =~= kinds@.skip(i + 1));
        match locate(source, cursor, seg.literal.as_slice(), seg.delimiter) {
            None => {
                assert(done =~= vals + seq![]);
                return Err(
                    TryParseError::ExpectedMismatch(slice_to_vec(seg.literal.as_slice()), rest_of(source, cursor)),
                );
            },
            Some((a, b)) => {
                assert(kind_fits(kinds@[i as int], segs[i as int].base));
                match decode_as(kinds[i], seg.base, slice_subrange(source, a, b)) {
                    Err(e) => {
                        assert(done =~= vals + seq![]);
                        return Err(e);
                    },
                    Ok(v) => {
                        let ghost before_values = values@.map_values(|v: Value| v@);
                        let ghost before_inline = inline@.map_values(|e: (Vec<u8>, Value)| (e.0@, e.1@));
                        match &seg.name {
                            None => {
                                values.push(v);
                                assert(values@.map_values(|v: Value| v@) =~= before_values.push(v@));
                                assert(inline@.map_values(|e: (Vec<u8>, Value)| (e.0@, e.1@)) == before_inline);
                            },
                            Some(n) => {
                                let name = slice_to_vec(n.as_slice());
                                inline.push((name, v));
                                assert(inline@.map_values(|e: (Vec<u8>, Value)| (e.0@, e.1@)) =~= before_inline.push((n@, v@)));
                                assert(values@.map_values(|v: Value| v@) == before_values);
                            },
                        }
                        proof {
                            let ghost nv = vals.push(v@);
                            assert(segs.take(i + 1).drop_last() =~= segs.take(i as int));
                            assert(nv.drop_last() =~= vals);
                            assert(segs.take(i + 1).last() == seg@);
                            assert(forall|x: Seq<ValueModel>| #![auto] vals + (seq![v@] + x) =~= nv + x);
                            assert(forall|x: Seq<(Seq<u8>, ValueModel)>, y: (Seq<u8>, ValueModel)|
                                #![auto] (start + x).push(y) =~= start + x.push(y));
                            vals = nv;
                        }
                        cursor = b;
                        i = i + 1;
                    },
                }
            },
        }
    }
    proof {
        assert(segs.take(i as int) =~= segs);
        assert(done =~= vals + seq![]);
    }
    if rest_equals(source, cursor, pattern.trailing.as_slice()) {
        proof {
            assert(vals + seq![] =~= vals);
        }
        Ok(values)
    } else {
        Err(TryParseError::ExpectedMismatch(slice_to_vec(pattern.trailing.as_slice()), rest_of(source, cursor)))
    }
}

/// Matches `source` against a multi-value pattern, decoding the i-th capture as
/// `kinds[i]`. On success it gives the values of all placeholders, split by kind of
/// placeholder; on failure, nothing but the error.
pub fn try_scan(pattern: &CompiledPattern, source: &[u8], kinds: &[Kind]) -> (r: Result<
    Extracted,
    TryParseError<IntError>,
>)
    requires
        kinds_fit(pattern@, kinds@),
    ensures
        match r {
            Ok(x) => scan_outcome(pattern@, source@, kinds@) == Ok::<
                (Seq<ValueModel>, Seq<(Seq<u8>, ValueModel)>),
                Failure<IntError>,
            >(x@),
            Err(e) => scan_outcome(pattern@, source@, kinds@) == Err::<
                (Seq<ValueModel>, Seq<(Seq<u8>, ValueModel)>),
                Failure<IntError>,
            >(e@),
        },
{
    let mut inline: Vec<(Vec<u8>, Value)> = Vec::new();
    let ghost empty = inline@.map_values(|e: (Vec<u8>, Value)| (e.0@, e.1@));
    assert(empty =~= seq![]);
    let r = try_scan_into(pattern, source, kinds, &mut inline);
    proof {
        assert(empty + inline_before_failure(pattern@, source@, kinds@) =~= inline_before_failure(
            pattern@,
            source@,
            kinds@,
        ));
    }
    match r {
        Ok(values) => Ok(Extracted { values, inline }),
        Err(e) => Err(e),
    }
}

/// The model of a multi-value match with every capture decoded as a `T`: the values
/// split by placeholder, once the trailing literal has matched what is left, or the
/// failure of the first step that fails.
pub open spec fn typed_scan_outcome<T: TryParse>(p: PatternModel, input: Seq<u8>) -> Result<
    (Seq<<T as View>::V>, Seq<(Seq<u8>, <T as View>::V)>),
    Failure<T::Err>,
> {
    match typed_outcome::<T>(p.segments, input) {
        Err(e) => Err(e),
        Ok((vals, rest)) => if rest == p.trailing {
            Ok(split_values(p.segments, vals))
        } else {
            Err(Failure::Mismatch(p.trailing, rest))
        },
    }
}

/// Matches `source` against a multi-value pattern, decoding every capture as a `T`.
/// Gives the values of the anonymous placeholders, in template order, and those of the
/// inline placeholders with their names.
pub fn try_scan_as<T: TryParse>(pattern: &CompiledPattern, source: &[u8]) -> (r: Result<
    (Vec<T>, Vec<(Vec<u8>, T)>),
    TryParseError<T::Err>,
>)
    ensures
        match r {
            Ok((values, inline)) => typed_scan_outcome::<T>(pattern@, source@) == Ok::<
                (Seq<<T as View>::V>, Seq<(Seq<u8>, <T as View>::V)>),
                Failure<T::Err>,
            >(
                (
                    values@.map_values(|x: T| x@),
                    inline@.map_values(|e: (Vec<u8>, T)| (e.0@, e.1@)),
                ),
            ),
            Err(e) => typed_scan_outcome::<T>(pattern@, source@) == Err::<
                (Seq<<T as View>::V>, Seq<(Seq<u8>, <T as View>::V)>),
                Failure<T::Err>,
            >(e@),
        },
{
    let ghost segs = pattern@.segments;
    let ghost whole = typed_outcome::<T>(segs, source@);
    let mut values: Vec<T> = Vec::new();
    let mut inline: Vec<(Vec<u8>, T)> = Vec::new();
    let ghost mut vals: Seq<<T as View>::V> = seq![];
    let mut cursor: usize = 0;
    let mut i: usize = 0;
    proof {
        assert(segs.skip(0) =~= segs);
        assert(source@.skip(0) =~= source@);
        assert(forall|x: Seq<<T as View>::V>| #![auto] seq![] + x =~= x);
    }
    while i < pattern.segments.len()
        invariant
            segs == pattern@.segments,
            whole == typed_outcome::<T>(segs, source@),
            i <= segs.len(),
            cursor <= source@.len(),
            vals.len() == i,
            whole == prefix_values(vals, typed_outcome::<T>(segs.skip(i as int), source@.skip(cursor as int))),
            values@.map_values(|x: T| x@) == split_values(segs.take(i as int), vals).0,
            inline@.map_values(|e: (Vec<u8>, T)| (e.0@, e.1@)) == split_values(segs.take(i as int), vals).1,
        decreases segs.len() - i,
    {
        let seg = &pattern.segments[i];
        let ghost rest_segs = segs.skip(i as int);
        assert(rest_segs[0] == seg@);
        assert(rest_segs.drop_first() =~= segs.skip(i + 1));
        match parse_single::<T>(source, &mut cursor, seg.literal.as_slice(), seg.delimiter) {
            Err(e) => {
                return Err(e);
            },
            Ok(v) => {
                let ghost vv = v@;
                let ghost before_values = values@.map_values(|x: T| x@);
                let ghost before_inline = inline@.map_values(|e: (Vec<u8>, T)| (e.0@, e.1@));
                match &seg.name {
                    None => {
                        values.push(v);
                        assert(values@.map_values(|x: T| x@) =~= before_values.push(vv));
                        assert(inline@.map_values(|e: (Vec<u8>, T)| (e.0@, e.1@)) == before_inline);
                    },
                    Some(n) => {
                        let name = slice_to_vec(n.as_slice());
                        inline.push((name, v));
                        assert(inline@.map_values(|e: (Vec<u8>, T)| (e.0@, e.1@)) =~= before_inline.push((n@, vv)));
                        assert(values@.map_values(|x: T| x@) == before_values);
                    },
                }
                proof {
                    let ghost nv = vals.push(vv);
                    assert(segs.take(i + 1).drop_last() =~= segs.take(i as int));
                    assert(nv.drop_last() =~= vals);
                    assert(segs.take(i + 1).last() == seg@);
                    assert(forall|x: Seq<<T as View>::V>| #![auto] vals + (seq![vv] + x) =~= nv + x);
                    vals = nv;
                }
                i = i + 1;
            },
        }
    }
    proof {
        assert(segs.take(i as int) =~= segs);
        assert(vals + seq![] =~= vals);
    }
    if rest_equals(source, cursor, pattern.trailing.as_slice()) {
        Ok((values, inline))
    } else {
        Err(TryParseError::ExpectedMismatch(slice_to_vec(pattern.trailing.as_slice()), rest_of(source, cursor)))
    }
}

/// Compiling a single-value template twice gives the same pattern, and so the same
/// result on every input: a pattern is plain data with no hidden state.
pub proof fn compile_single_is_pure<S: TryParse>(
    template: Seq<u8>,
    first: PatternModel,
    second: PatternModel,
    input: Seq<u8>,
)
    requires
        compile_single_spec(template) == Ok::<PatternModel, crate::error::CompileError>(first),
        compile_single_spec(template) == Ok::<PatternModel, crate::error::CompileError>(second),
    ensures
        first == second,
        single_outcome::<S>(first, input) == single_outcome::<S>(second, input),
{
}

/// Compiling a multi-value template twice gives the same pattern, and so the same
/// result on every input and choice of kinds.
pub proof fn compile_multi_is_pure(
    template: Seq<u8>,
    first: PatternModel,
    second: PatternModel,
    input: Seq<u8>,
    kinds: Seq<Kind>,
)
    requires
        compile_multi_spec(template) == Ok::<PatternModel, crate::error::CompileError>(first),
        compile_multi_spec(template) == Ok::<PatternModel, crate::error::CompileError>(second),
    ensures
        first == second,
        scan_outcome(first, input, kinds) == scan_outcome(second, input, kinds),
{
}

} // verus!

//! The pattern compiler: one left-to-right pass that turns a template into a chain of
//! literal anchors and placeholders.
//!
//! Template syntax: `{}` is a placeholder, `{name}` an inline placeholder bound to `name`,
//! `{:x}` / `{:b}` read in base 16 / 2, `{{` and `}}` stand for literal braces, and any other
//! byte is literal text.

use crate::error::CompileError;
use vstd::prelude::*;
use vstd::slice::{slice_subrange, slice_to_vec};
use vstd::string::StringSliceAdditionalSpecFns;

verus! {

/// The byte that opens a placeholder.
pub const OPEN: u8 = 0x7b;

/// The byte that closes a placeholder.
pub const CLOSE: u8 = 0x7d;

/// The byte that separates a placeholder's name from its base.
pub const COLON: u8 = 0x3a;

/// The byte that selects base 16.
pub const HEX_MARK: u8 = 0x78;

/// The byte that selects base 2.
pub const BINARY_MARK: u8 = 0x62;

/// The base in which a placeholder's integer is read.
#[derive(Debug, Clone, Copy, PartialEq, Eq, Structural)]
pub enum Base {
    Decimal,
    Hex,
    Binary,
}

impl Base {
    /// The radix of the base.
    pub open spec fn spec_radix(self) -> u32 {
        match self {
            Base::Decimal => 10,
            Base::Hex => 16,
            Base::Binary => 2,
        }
    }

    /// The radix of the base.
    pub fn radix(&self) -> (r: u32)
        ensures
            r == self.spec_radix(),
    {
        match self {
            Base::Decimal => 10,
            Base::Hex => 16,
            Base::Binary => 2,
        }
    }
}

/// One link of a compiled pattern: a literal anchor, then a placeholder, then the byte
/// that follows the placeholder in the template, if any, which bounds its capture.
#[derive(Debug)]
pub struct Segment {
    pub literal: Vec<u8>,
    pub name: Option<Vec<u8>>,
    pub base: Base,
    pub delimiter: Option<u8>,
}

/// The model of a [`Segment`].
pub struct SegmentModel {
    pub literal: Seq<u8>,
    pub name: Option<Seq<u8>>,
    pub base: Base,
    pub delimiter: Option<u8>,
}

/// The model of an optional name.
pub open spec fn name_view(name: Option<Vec<u8>>) -> Option<Seq<u8>> {
    match name {
        Some(n) => Some(n@),
        None => None,
    }
}

impl View for Segment {
    type V = SegmentModel;

    open spec fn view(&self) -> SegmentModel {
        SegmentModel {
            literal: self.literal@,
            name: name_view(self.name),
            base: self.base,
            delimiter: self.delimiter,
        }
    }
}

/// A compiled template: its segments in template order, then the trailing literal.
#[derive(Debug)]
pub struct CompiledPattern {
    pub segments: Vec<Segment>,
    pub trailing: Vec<u8>,
}

/// The model of a [`CompiledPattern`].
pub struct PatternModel {
    pub segments: Seq<SegmentModel>,
    pub trailing: Seq<u8>,
}

impl View for CompiledPattern {
    type V = PatternModel;

    open spec fn view(&self) -> PatternModel {
        PatternModel {
            segments: self.segments@.map_values(|s: Segment| s@),
            trailing: self.trailing@,
        }
    }
}

/// How many bytes at the start of `s` differ from `b`.
pub open spec fn span_until(s: Seq<u8>, b: u8) -> nat
    decreases s.len(),
{
    if s.len() == 0 || s[0] == b {
        0
    } else {
        1 + span_until(s.drop_first(), b)
    }
}

/// The name and base that a placeholder's content `c` (the bytes between its braces) gives:
/// the name is what precedes the first colon, if anything does; after that colon there
/// must stand exactly one byte, `x` for base 16 or `b` for base 2. Without a colon the
/// base is 10.
pub open spec fn placeholder_of(c: Seq<u8>) -> Result<(Option<Seq<u8>>, Base), CompileError> {
    let k = span_until(c, COLON) as int;
    let name = if k == 0 {
        None
    } else {
        Some(c.take(k))
    };
    if k >= c.len() {
        Ok((name, Base::Decimal))
    } else if c.len() == k + 2 && c[k + 1] == HEX_MARK {
        Ok((name, Base::Hex))
    } else if c.len() == k + 2 && c[k + 1] == BINARY_MARK {
        Ok((name, Base::Binary))
    } else {
        Err(CompileError::InvalidBase)
    }
}

/// `r` with the segments `segs` put in front.
pub open spec fn prefixed(segs: Seq<SegmentModel>, r: Result<PatternModel, CompileError>) -> Result<
    PatternModel,
    CompileError,
> {
    match r {
        Ok(p) => Ok(PatternModel { segments: segs + p.segments, trailing: p.trailing }),
        Err(e) => Err(e),
    }
}

/// Compiles the template bytes `t` from index `i` on, with `lit` the literal text
/// gathered since the last placeholder.
pub open spec fn compile_from(t: Seq<u8>, i: int, lit: Seq<u8>) -> Result<PatternModel, CompileError>
    decreases t.len() - i,
{
    if i < 0 || i >= t.len() {
        Ok(PatternModel { segments: seq![], trailing: lit })
    } else if t[i] == OPEN {
        if i + 1 >= t.len() {
            Err(CompileError::UnterminatedPlaceholder)
        } else if t[i + 1] == OPEN {
            compile_from(t, i + 2, lit.push(OPEN))
        } else {
            let j = i + 1 + span_until(t.skip(i + 1), CLOSE);
            if j >= t.len() {
                Err(CompileError::UnterminatedPlaceholder)
            } else {
                match placeholder_of(t.subrange(i + 1, j)) {
                    Err(e) => Err(e),
                    Ok((name, base)) => {
                        let seg = SegmentModel {
                            literal: lit,
                            name,
                            base,
                            delimiter: if j + 1 < t.len() {
                                Some(t[j + 1])
                            } else {
                                None
                            },
                        };
                        prefixed(seq![seg], compile_from(t, j + 1, seq![]))
                    },
                }
            }
        }
    } else if t[i] == CLOSE {
        if i + 1 < t.len() && t[i + 1] == CLOSE {
            compile_from(t, i + 2, lit.push(CLOSE))
        } else {
            Err(CompileError::UnterminatedEscape)
        }
    } else {
        compile_from(t, i + 1, lit.push(t[i]))
    }
}

/// The pattern of a template with any number of placeholders, at least one.
pub open spec fn compile_multi_spec(t: Seq<u8>) -> Result<PatternModel, CompileError> {
    match compile_from(t, 0, seq![]) {
        Ok(p) => if p.segments.len() == 0 {
            Err(CompileError::MissingPlaceholder)
        } else {
            Ok(p)
        },
        Err(e) => Err(e),
    }
}

/// The pattern of a template with exactly one placeholder.
pub open spec fn compile_single_spec(t: Seq<u8>) -> Result<PatternModel, CompileError> {
    match compile_multi_spec(t) {
        Ok(p) => if p.segments.len() == 1 {
            Ok(p)
        } else {
            Err(CompileError::TooManyPlaceholders)
        },
        Err(e) => Err(e),
    }
}

/// The first index at or after `from` and before `end` that holds `b`, or `end`.
pub fn scan_to(s: &[u8], from: usize, end: usize, b: u8) -> (r: usize)
    requires
        from <= end <= s@.len(),
    ensures
        r == from + span_until(s@.subrange(from as int, end as int), b),
        r <= end,
{
    let ghost c = s@.subrange(from as int, end as int);
    let mut k: usize = from;
    assert(c.skip(0) =~= c);
    while k < end && s[k] != b
        invariant
            from <= k <= end <= s@.len(),
            c == s@.subrange(from as int, end as int),
            span_until(c, b) == (k - from) + span_until(c.skip(k - from), b),
        decreases end - k,
    {
        proof {
            assert(c.skip(k - from).drop_first() =~= c.skip(k - from + 1));
        }
        k = k + 1;
    }
    assert(k < end ==> c.skip(k - from)[0] == b);
    k
}

/// Reads a placeholder's content, the bytes of `t` from `start` up to `end`.
fn read_placeholder(t: &[u8], start: usize, end: usize) -> (r: Result<(Option<Vec<u8>>, Base), CompileError>)
    requires
        start <= end <= t@.len(),
    ensures
        match r {
            Ok((name, base)) => placeholder_of(t@.subrange(start as int, end as int)) == Ok::<
                (Option<Seq<u8>>, Base),
                CompileError,
            >((name_view(name), base)),
            Err(e) => placeholder_of(t@.subrange(start as int, end as int)) == Err::<
                (Option<Seq<u8>>, Base),
                CompileError,
            >(e),
        },
{
    let ghost c = t@.subrange(start as int, end as int);
    let k = scan_to(t, start, end, COLON);
    let name = if k == start {
        None
    } else {
        let n = slice_to_vec(slice_subrange(t, start, k));
        assert(n@ =~= c.take(k - start));
        Some(n)
    };
    if k == end {
        Ok((name, Base::Decimal))
    } else if end - k == 2 && t[k + 1] == HEX_MARK {
        Ok((name, Base::Hex))
    } else if end - k == 2 && t[k + 1] == BINARY_MARK {
        Ok((name, Base::Binary))
    } else {
        Err(CompileError::InvalidBase)
    }
}

/// Compiles a template with one or more placeholders.
pub fn compile_multi(template: &str) -> (r: Result<CompiledPattern, CompileError>)
    ensures
        match r {
            Ok(p) => compile_multi_spec(template.spec_bytes()) == Ok::<PatternModel, CompileError>(p@),
            Err(e) => compile_multi_spec(template.spec_bytes()) == Err::<PatternModel, CompileError>(e),
        },
        r matches Ok(p) ==> p.segments@.len() >= 1,
{
    let t = template.as_bytes();
    let mut segments: Vec<Segment> = Vec::new();
    let mut lit: Vec<u8> = Vec::new();
    let mut i: usize = 0;
    while i < t.len()
        invariant
            i <= t@.len(),
            t@ == template.spec_bytes(),
            compile_from(t@, 0, seq![]) == prefixed(
                segments@.map_values(|s: Segment| s@),
                compile_from(t@, i as int, lit@),
            ),
        decreases t@.len() - i,
    {
        let c = t[i];
        if c == OPEN {
            if i + 1 >= t.len() {
                return Err(CompileError::UnterminatedPlaceholder);
            }
            if t[i + 1] == OPEN {
                lit.push(OPEN);
                i = i + 2;
            } else {
                let j = scan_to(t, i + 1, t.len(), CLOSE);
                assert(t@.subrange(i + 1, t@.len() as int) =~= t@.skip(i + 1));
                if j >= t.len() {
                    return Err(CompileError::UnterminatedPlaceholder);
                }
                match read_placeholder(t, i + 1, j) {
                    Err(e) => {
                        return Err(e);
                    },
                    Ok((name, base)) => {
                        let delimiter = if j + 1 < t.len() {
                            Some(t[j + 1])
                        } else {
                            None
                        };
                        let seg = Segment { literal: lit, name, base, delimiter };
                        let ghost before = segments@.map_values(|s: Segment| s@);
                        segments.push(seg);
                        assert(segments@.map_values(|s: Segment| s@) =~= before + seq![seg@]);
                        assert(before + (seq![seg@] + seq![]) =~= before + seq![seg@]);
                        lit = Vec::new();
                        i = j + 1;
                        assert(lit@ =~= seq![]);
                        assert(forall|a: Seq<SegmentModel>, b: Seq<SegmentModel>, c: Seq<SegmentModel>|
                            #![auto] a + (b + c) =~= (a + b) + c);
                    },
                }
            }
        } else if c == CLOSE {
            if i + 1 < t.len() && t[i + 1] == CLOSE {
                lit.push(CLOSE);
                i = i + 2;
            } else {
                return Err(CompileError::UnterminatedEscape);
            }
        } else {
            lit.push(c);
            i = i + 1;
        }
    }
    proof {
        assert(segments@.map_values(|s: Segment| s@) + seq![] =~= segments@.map_values(
            |s: Segment| s@,
        ));
    }
    let p = CompiledPattern { segments, trailing: lit };
    if p.segments.len() == 0 {
        Err(CompileError::MissingPlaceholder)
    } else {
        Ok(p)
    }
}

/// Compiles a template with exactly one placeholder.
pub fn compile_single(template: &str) -> (r: Result<CompiledPattern, CompileError>)
    ensures
        match r {
            Ok(p) => compile_single_spec(template.spec_bytes()) == Ok::<PatternModel, CompileError>(p@),
            Err(e) => compile_single_spec(template.spec_bytes()) == Err::<PatternModel, CompileError>(e),
        },
        r matches Ok(p) ==> p.segments@.len() == 1,
{
    let p = compile_multi(template)?;
    if p.segments.len() == 1 {
        Ok(p)
    } else {
        Err(CompileError::TooManyPlaceholders)
    }
}

} // verus!

use strp::{
    compile_multi, compile_single, decode_as, decode_int, parse_single as step, try_parse, try_scan,
    try_scan_as, try_scan_into, Base, CompileError, Hex, IntError, Kind, ParseMultiple, TryParse, TryParseError,
    Value,
};

fn single<S: TryParse>(source: &[u8], template: &str) -> Result<S, TryParseError<S::Err>> {
    let pattern = compile_single(template).expect("template compiles");
    try_parse::<S>(&pattern, source)
}

fn bytes(s: &str) -> Vec<u8> {
    s.as_bytes().to_vec()
}

#[test]
fn whole_input_decodes_as_unsigned() {
    assert_eq!(single::<u32>(b"20", "{}"), Ok(20));
}

#[test]
fn capture_stops_at_delimiter() {
    assert_eq!(single::<String>(b"hello world!", "hello {}!"), Ok("world".to_string()));
}

#[test]
fn anchors_on_both_sides() {
    assert_eq!(single::<String>(b"left middle right", "left {} right"), Ok("middle".to_string()));
    assert_eq!(
        single::<String>(b"LEFT middle right", "left {} right"),
        Err(TryParseError::ExpectedMismatch(bytes("left "), bytes("LEFT middle right")))
    );
}

#[test]
fn four_values_in_order() {
    let pattern = compile_multi("{}, {}, {}, {}").unwrap();
    let r = try_scan(&pattern, b"10, 20, 30, 40", &[Kind::U32; 4]).unwrap();
    assert_eq!(r.values, vec![Value::U32(10), Value::U32(20), Value::U32(30), Value::U32(40)]);
    assert!(r.inline.is_empty());
}

#[test]
fn hex_placeholder_reads_base_sixteen() {
    assert_eq!(single::<Hex<u32>>(b"0x1F", "0x{:x}").map(Hex::into_inner), Ok(31));
    assert_eq!(
        single::<Hex<u32>>(b"0xZZ", "0x{:x}").map(Hex::into_inner),
        Err(TryParseError::Inner(IntError::InvalidDigit))
    );
}

#[test]
fn empty_capture_is_legal() {
    assert_eq!(single::<String>(b"hello world!", "hello world!{}"), Ok(String::new()));
}

#[test]
fn compiling_twice_gives_same_results() {
    let first = compile_single("n = {}!").unwrap();
    let second = compile_single("n = {}!").unwrap();
    for input in ["n = 7!", "n = x!", "m = 7!", "n = 7"] {
        assert_eq!(
            try_parse::<u8>(&first, input.as_bytes()),
            try_parse::<u8>(&second, input.as_bytes())
        );
    }
    let first = compile_multi("{a}-{:x}").unwrap();
    let second = compile_multi("{a}-{:x}").unwrap();
    let kinds = [Kind::U16, Kind::U16];
    for input in ["1-ff", "1-zz", "x-1"] {
        let a = try_scan(&first, input.as_bytes(), &kinds);
        let b = try_scan(&second, input.as_bytes(), &kinds);
        assert_eq!(a.map(|x| (x.values, x.inline)), b.map(|x| (x.values, x.inline)));
    }
}

#[test]
fn brace_escapes_are_literal() {
    assert_eq!(single::<i64>(b"{30}", "{{{}}}"), Ok(30));
}

#[test]
fn compile_records_segments() {
    let p = compile_multi("a{x:b}, {}").unwrap();
    assert_eq!(p.segments.len(), 2);
    assert_eq!(p.segments[0].literal, bytes("a"));
    assert_eq!(p.segments[0].name, Some(bytes("x")));
    assert_eq!(p.segments[0].base, Base::Binary);
    assert_eq!(p.segments[0].delimiter, Some(b','));
    assert_eq!(p.segments[1].literal, bytes(", "));
    assert_eq!(p.segments[1].name, None);
    assert_eq!(p.segments[1].base, Base::Decimal);
    assert_eq!(p.segments[1].delimiter, None);
    assert!(p.trailing.is_empty());
    let p = compile_single("{{x}} {:x} }}").unwrap();
    assert_eq!(p.segments[0].literal, bytes("{x} "));
    assert_eq!(p.segments[0].base, Base::Hex);
    assert_eq!(p.segments[0].delimiter, Some(b' '));
    assert_eq!(p.trailing, bytes(" }"));
}

#[test]
fn base_is_one_mark_after_colon() {
    assert_eq!(compile_single("{a:x}").unwrap().segments[0].base, Base::Hex);
    assert_eq!(compile_single("{a:b}").unwrap().segments[0].name, Some(bytes("a")));
    assert_eq!(compile_single("{a:b:x}").err(), Some(CompileError::InvalidBase));
    assert_eq!(compile_single("{:zx}").err(), Some(CompileError::InvalidBase));
    assert_eq!(compile_single("{:xx}").err(), Some(CompileError::InvalidBase));
    assert_eq!(compile_single("{:}").err(), Some(CompileError::InvalidBase));
    assert_eq!(compile_single("{n:}").err(), Some(CompileError::InvalidBase));
}

#[test]
fn compile_errors() {
    assert_eq!(compile_single("abc {").err(), Some(CompileError::UnterminatedPlaceholder));
    assert_eq!(compile_single("abc {x").err(), Some(CompileError::UnterminatedPlaceholder));
    assert_eq!(compile_single("{} }").err(), Some(CompileError::UnterminatedEscape));
    assert_eq!(compile_single("{:q}").err(), Some(CompileError::InvalidBase));
    assert_eq!(compile_single("no braces").err(), Some(CompileError::MissingPlaceholder));
    assert_eq!(compile_multi("{{}}").err(), Some(CompileError::MissingPlaceholder));
    assert_eq!(compile_single("{} {}").err(), Some(CompileError::TooManyPlaceholders));
    assert_eq!(compile_single("{} {} }").err(), Some(CompileError::UnterminatedEscape));
    assert!(compile_multi("{} {}").is_ok());
}

#[test]
fn decode_error_comes_before_trailing_check() {
    assert_eq!(
        single::<u32>(b"5 apples", "{} pears"),
        Err(TryParseError::ExpectedMismatch(bytes(" pears"), bytes(" apples")))
    );
    assert_eq!(
        single::<u32>(b"x apples", "{} pears"),
        Err(TryParseError::Inner(IntError::InvalidDigit))
    );
}

#[test]
fn invalid_utf8_capture() {
    assert_eq!(single::<String>(&[0x61, 0xff, 0x21], "a{}!"), Err(TryParseError::InvalidUtf8String));
    assert_eq!(single::<u8>(&[0xc3], "{}"), Err(TryParseError::InvalidUtf8String));
    assert_eq!(single::<String>("é!".as_bytes(), "{}!"), Ok("é".to_string()));
}

#[test]
fn integer_errors() {
    assert_eq!(single::<u8>(b"256", "{}"), Err(TryParseError::Inner(IntError::PosOverflow)));
    assert_eq!(single::<i8>(b"-129", "{}"), Err(TryParseError::Inner(IntError::NegOverflow)));
    assert_eq!(single::<u16>(b"", "{}"), Err(TryParseError::Inner(IntError::Empty)));
    assert_eq!(single::<u16>(b"-1", "{}"), Err(TryParseError::Inner(IntError::InvalidDigit)));
    assert_eq!(single::<i16>(b"+", "{}"), Err(TryParseError::Inner(IntError::InvalidDigit)));
}

#[test]
fn integer_widths() {
    assert_eq!(single::<i8>(b"-128", "{}"), Ok(-128));
    assert_eq!(single::<u16>(b"+65535", "{}"), Ok(65535));
    assert_eq!(single::<i32>(b"-2147483648", "{}"), Ok(i32::MIN));
    assert_eq!(single::<i64>(b"9223372036854775807", "{}"), Ok(i64::MAX));
    assert_eq!(
        single::<u128>(b"340282366920938463463374607431768211455", "{}"),
        Ok(u128::MAX)
    );
    assert_eq!(single::<i128>(b"-17", "{}"), Ok(-17));
    assert_eq!(decode_int::<u64>(b"ff", 16), Ok(255));
    assert_eq!(decode_int::<i16>(b"-101", 2), Ok(-5));
}

#[test]
fn step_moves_cursor_past_capture() {
    let input = b"ab12;rest";
    let mut cursor = 0usize;
    let r = step::<u32>(input, &mut cursor, b"ab", Some(b';'));
    assert_eq!(r, Ok(12));
    assert_eq!(cursor, 4);
    let mut cursor = 0usize;
    let r = step::<u32>(input, &mut cursor, b"zz", Some(b';'));
    assert_eq!(r, Err(TryParseError::ExpectedMismatch(bytes("zz"), input.to_vec())));
    assert_eq!(cursor, 0);
}

#[test]
fn decode_each_kind() {
    assert_eq!(decode_as(Kind::I8, Base::Hex, b"-7f"), Ok(Value::I8(-127)));
    assert_eq!(decode_as(Kind::U128, Base::Binary, b"11"), Ok(Value::U128(3)));
    assert_eq!(decode_as(Kind::Text, Base::Decimal, b"hi"), Ok(Value::Text("hi".to_string())));
    assert_eq!(decode_as(Kind::I64, Base::Decimal, b"1x"), Err(TryParseError::Inner(IntError::InvalidDigit)));
}

#[test]
fn multi_failure_is_first_failing_step() {
    let pattern = compile_multi("{}, {}").unwrap();
    assert_eq!(
        try_scan(&pattern, b"1; 2", &[Kind::U8, Kind::U8]).map(|x| x.values),
        Err(TryParseError::Inner(IntError::InvalidDigit))
    );
    assert_eq!(
        try_scan(&pattern, b"1,2", &[Kind::U8, Kind::U8]).map(|x| x.values),
        Err(TryParseError::ExpectedMismatch(bytes(", "), bytes(",2")))
    );
    let pattern = compile_multi("{}-{}.").unwrap();
    assert_eq!(
        try_scan(&pattern, b"1-2!", &[Kind::U8, Kind::U8]).map(|x| x.values),
        Err(TryParseError::Inner(IntError::InvalidDigit))
    );
    assert_eq!(
        try_scan(&pattern, b"1-2", &[Kind::U8, Kind::U8]).map(|x| x.values),
        Err(TryParseError::ExpectedMismatch(bytes("."), bytes("")))
    );
}

#[test]
fn greedy_capture_without_delimiter() {
    let pattern = compile_multi("{}{}").unwrap();
    assert_eq!(
        try_scan(&pattern, b"12", &[Kind::Text, Kind::Text]).map(|x| x.values),
        Ok(vec![Value::Text("12".to_string()), Value::Text(String::new())])
    );
}

#[test]
fn typed_segments_in_a_row() {
    let p = compile_multi("{} {}|").unwrap();
    let mut cursor = 0usize;
    let r = <Vec<u16> as ParseMultiple>::parse_multiple(b"7 8|", &mut cursor, &p.segments);
    assert_eq!(r, Ok(vec![7, 8]));
    assert_eq!(cursor, 3);
    let mut cursor = 0usize;
    let r = <Vec<u16> as ParseMultiple>::parse_multiple(b"7 x|", &mut cursor, &p.segments);
    assert_eq!(r, Err(TryParseError::Inner(IntError::InvalidDigit)));
}

#[test]
fn inline_values_before_a_failing_step_stay() {
    let pattern = compile_multi("{a}, {}, {b}, {c}!").unwrap();
    let kinds = [Kind::U8; 4];
    let mut inline = vec![(bytes("z"), Value::U8(9))];
    let r = try_scan_into(&pattern, b"1, 2, x, 4!", &kinds, &mut inline);
    assert_eq!(r, Err(TryParseError::Inner(IntError::InvalidDigit)));
    assert_eq!(inline, vec![(bytes("z"), Value::U8(9)), (bytes("a"), Value::U8(1))]);

    let mut inline = Vec::new();
    let r = try_scan_into(&pattern, b"1, 2, 3, 4!?", &kinds, &mut inline);
    assert_eq!(r, Err(TryParseError::ExpectedMismatch(bytes("!"), bytes("!?"))));
    assert_eq!(
        inline,
        vec![(bytes("a"), Value::U8(1)), (bytes("b"), Value::U8(3)), (bytes("c"), Value::U8(4))]
    );

    let mut inline = Vec::new();
    let r = try_scan_into(&pattern, b"1, 2, 3, 4!", &kinds, &mut inline);
    assert_eq!(r, Ok(vec![Value::U8(2)]));
    assert_eq!(inline.len(), 3);

    let mut inline = Vec::new();
    let r = try_scan_into(&pattern, b"x, 2, 3, 4!", &kinds, &mut inline);
    assert!(r.is_err());
    assert!(inline.is_empty());
}

#[test]
fn typed_scan_checks_the_trailing_literal() {
    let pattern = compile_multi("{} {x}!").unwrap();
    let r = try_scan_as::<u16>(&pattern, b"3 4!").unwrap();
    assert_eq!(r, (vec![3], vec![(bytes("x"), 4)]));
    assert_eq!(
        try_scan_as::<u16>(&pattern, b"3 4!!"),
        Err(TryParseError::ExpectedMismatch(bytes("!"), bytes("!!")))
    );
    assert_eq!(try_scan_as::<u16>(&pattern, b"3 4?"), Err(TryParseError::Inner(IntError::InvalidDigit)));
    let words = try_scan_as::<String>(&pattern, b"ab cd!").unwrap();
    assert_eq!(words, (vec!["ab".to_string()], vec![(bytes("x"), "cd".to_string())]));
}

use strp::{
    compile_multi, compile_single, try_parse, try_parse_into, try_scan, Binary, Extracted, Hex,
    IntError, Integer, Kind, TryParse, TryParseError, Value,
};

fn one<S: TryParse>(source: &str, template: &str) -> Result<S, TryParseError<S::Err>> {
    let pattern = compile_single(template).expect("template compiles");
    try_parse::<S>(&pattern, source.as_bytes())
}

fn into<S: TryParse>(dest: &mut S, source: &str, template: &str) -> Result<(), TryParseError<S::Err>> {
    let pattern = compile_single(template).expect("template compiles");
    assert!(pattern.segments[0].name.is_some());
    try_parse_into(&pattern, source.as_bytes(), dest)
}

fn hex<T: Integer>(source: &str, template: &str) -> Result<T, TryParseError<IntError>> {
    one::<Hex<T>>(source, template).map(Hex::into_inner)
}

fn bin<T: Integer>(source: &str, template: &str) -> Result<T, TryParseError<IntError>> {
    one::<Binary<T>>(source, template).map(Binary::into_inner)
}

fn many(source: &str, template: &str, kinds: &[Kind]) -> Result<Extracted, TryParseError<IntError>> {
    let pattern = compile_multi(template).expect("template compiles");
    try_scan(&pattern, source.as_bytes(), kinds)
}

fn returned(source: &str, template: &str, kinds: &[Kind]) -> Result<Vec<Value>, TryParseError<IntError>> {
    many(source, template, kinds).map(|x| x.values)
}

fn named(x: &Extracted, name: &str) -> Option<Value> {
    x.inline
        .iter()
        .find(|(n, _)| n.as_slice() == name.as_bytes())
        .map(|(_, v)| v.clone())
}

fn text(s: &str) -> Value {
    Value::Text(s.to_string())
}

#[test]
fn parse_single() {
    assert_eq!(one::<u32>("number: 30", "number: {}"), Ok(30u32));
    assert_eq!(one::<i32>("20", "{}"), Ok(20));
    assert_eq!(one::<i32>("20, 30", "{}, 30"), Ok(20));
    assert_eq!(one::<i32>("hell31o, world!", "hell{}o, world!"), Ok(31));
    assert_eq!(one::<i32>("{30}", "{{{}}}"), Ok(30));
    assert_eq!(one::<String>("hello world!", "hello {}"), Ok("world!".to_string()));
    assert_eq!(one::<String>("hello world!", "hello world!{}"), Ok("".to_string()));
    assert_eq!(one::<String>("hello world!", "hello world{}!"), Ok("".to_string()));
    for s in ["10", "20", "30"] {
        assert_eq!(one::<String>(s, "{}"), Ok(s.to_string()));
    }
    for number in [10, 20, 30] {
        assert_eq!(one::<i32>(&number.to_string(), "{}"), Ok(number));
    }
    assert_eq!(one::<String>("left middle right", "left {} right"), Ok("middle".to_string()));
    assert_eq!(one::<String>("left middle right", "{} middle right"), Ok("left".to_string()));
    assert_eq!(one::<String>("left middle right", "left middle {}"), Ok("right".to_string()));
    assert!(matches!(one::<String>("hello world", "hello world{}!"), Err(_)));
    assert!(matches!(one::<String>("worldstr!", "hello world{}!"), Err(_)));
    assert!(matches!(one::<u32>("", "hello {}"), Err(_)));
}

#[test]
fn parse_multiple() {
    let i = Kind::I32;
    assert_eq!(returned("20 30", "{} {}", &[i, i]), Ok(vec![Value::I32(20), Value::I32(30)]));
    assert_eq!(
        returned("hello50, worl70d!", "hello{}, worl{}d!", &[i, i]),
        Ok(vec![Value::I32(50), Value::I32(70)])
    );
    assert_eq!(
        returned("1,2,3,4,5,6,7,8,9", "1,2,3,{},5,6,7,{},{}", &[i, i, i]),
        Ok(vec![Value::I32(4), Value::I32(8), Value::I32(9)])
    );
    let t = Kind::Text;
    assert_eq!(returned("hello world!", "{} {}", &[t, t]), Ok(vec![text("hello"), text("world!")]));
    assert_eq!(returned("hello world!", "he{}llo world{}!", &[t, t]), Ok(vec![text(""), text("")]));
    assert_eq!(
        returned("1,2,3,4,5,6,7,8,9,10", "{},{},{},{},{},{},{},{},{},{}", &[i; 10]),
        Ok((1..=10).map(Value::I32).collect::<Vec<Value>>())
    );
    assert_eq!(
        returned("1,2,3,4,5,6,7,8,9,10", "{},{},{},{},{},{}", &[i, i, i, i, i, t]),
        Ok(vec![
            Value::I32(1),
            Value::I32(2),
            Value::I32(3),
            Value::I32(4),
            Value::I32(5),
            text("6,7,8,9,10")
        ])
    );
    assert_eq!(
        returned("this is four words!", "{} {} {} {}!", &[t, t, t, t]),
        Ok(vec![text("this"), text("is"), text("four"), text("words")])
    );
    let u = Kind::U32;
    assert!(matches!(returned("hello world20,30!", "world{},{}!", &[u, u]), Err(_)));
    assert!(matches!(returned("10 20 40", "10 20 40 {} {}", &[u, u]), Err(_)));
    assert!(matches!(returned("10 20 30 40 ", "10 {} {} 40", &[u, u]), Err(_)));
    assert!(matches!(returned("10, 20, 30,, 40 ", "{}, {}, {}, {}", &[u, u, u, u]), Err(_)));
}

#[test]
fn parse_single_inline() {
    let mut v = -1;
    let _ = into(&mut v, "20", "{v}");
    assert_eq!(v, 20);

    let mut v = -1;
    let _ = into(&mut v, "20, 30", "{v}, 30");
    assert_eq!(v, 20);

    let mut v = -1;
    let _ = into(&mut v, "hell31o, world!", "hell{v}o, world!");
    assert_eq!(v, 31);

    let mut v = -1;
    let _ = into(&mut v, "{30}", "{{{v}}}");
    assert_eq!(v, 30);

    let mut v = "_".to_string();
    let _ = into(&mut v, "hello world!", "hello {v}");
    assert_eq!(v, "world!".to_string());

    let mut v = "_".to_string();
    let _ = into(&mut v, "hello world!", "hello world!{v}");
    assert_eq!(v, "".to_string());

    let mut v = "_".to_string();
    let _ = into(&mut v, "hello world!", "hello world{v}!");
    assert_eq!(v, "".to_string());

    for s in ["10", "20", "30"] {
        let mut v = "_".to_string();
        let _ = into(&mut v, s, "{v}");
        assert_eq!(v, s.to_string());
    }

    for number in [10, 20, 30] {
        let mut v = -1;
        let _ = into(&mut v, &number.to_string(), "{v}");
        assert_eq!(v, number);
    }

    let mut v = "_".to_string();
    let res = into(&mut v, "hello world", "hello world{v}!");
    assert!(matches!(res, Err(_)));

    let mut v = "_".to_string();
    let res = into(&mut v, "worldstr!", "hello world{v}!");
    assert!(matches!(res, Err(_)));

    let mut v = -1;
    let res = into(&mut v, "", "hello {v}");
    assert!(matches!(res, Err(_)));

    let mut v = -1;
    let res = into(&mut v, "hello, world", "hello world{v}!");
    assert!(matches!(res, Err(_)));
}

#[test]
fn parse_multiple_inlined_mix() {
    let i = Kind::I32;
    let r = many("20, 30", "{v}, {x}", &[i, i]).unwrap();
    assert_eq!((named(&r, "v"), named(&r, "x")), (Some(Value::I32(20)), Some(Value::I32(30))));

    let r = many("10, 20, 30, 40", "{}, {x}, {y}, {z}", &[i; 4]).unwrap();
    assert_eq!(
        (r.values.clone(), named(&r, "x"), named(&r, "y"), named(&r, "z")),
        (vec![Value::I32(10)], Some(Value::I32(20)), Some(Value::I32(30)), Some(Value::I32(40)))
    );

    let r = many("10, 20, 30, 40", "{x}, {}, {y}, {z}", &[i; 4]).unwrap();
    assert_eq!(
        (r.values.clone(), named(&r, "x"), named(&r, "y"), named(&r, "z")),
        (vec![Value::I32(20)], Some(Value::I32(10)), Some(Value::I32(30)), Some(Value::I32(40)))
    );

    let r = many("10, 20, 30, 40", "{x}, {y}, {}, {z}", &[i; 4]).unwrap();
    assert_eq!(
        (r.values.clone(), named(&r, "x"), named(&r, "y"), named(&r, "z")),
        (vec![Value::I32(30)], Some(Value::I32(10)), Some(Value::I32(20)), Some(Value::I32(40)))
    );

    let r = many("10, 20, 30, 40", "{x}, {y}, {z}, {}", &[i; 4]).unwrap();
    assert_eq!(
        (r.values.clone(), named(&r, "x"), named(&r, "y"), named(&r, "z")),
        (vec![Value::I32(40)], Some(Value::I32(10)), Some(Value::I32(20)), Some(Value::I32(30)))
    );

    let t = Kind::Text;
    let r = many("hello world!", "{l}{r}", &[t, t]).unwrap();
    assert_eq!(named(&r, "l"), Some(text("hello world!")));

    let r = many("hello world!", "{l} {r}", &[t, t]).unwrap();
    assert_eq!((named(&r, "l"), named(&r, "r")), (Some(text("hello")), Some(text("world!"))));

    let r = many("10, 10, 20, 20", "{x}, {}, {y}, {}", &[i; 4]).unwrap();
    assert_eq!(r.values, vec![named(&r, "x").unwrap(), named(&r, "y").unwrap()]);
}

#[test]
fn parse_single_special() {
    assert_eq!(hex::<i32>("0xFFFF", "0x{:x}"), Ok(0xffff));
    assert_eq!(hex::<u64>("0xabcdefABCDEF", "0x{:x}"), Ok(0xabcdef_abcdefu64));
    assert_eq!(hex::<i32>("F0234", "{:x}"), Ok(0xf0234));
    assert_eq!(hex::<u64>("0123456789", "{:x}"), Ok(0x0123456789u64));
    assert_eq!(hex::<i32>("0xABCDEF", "0x{:x}"), Ok(0xabcdef));
    assert_eq!(hex::<i32>("0xabcdef", "0x{:x}"), Ok(0xabcdef));
    assert_eq!(bin::<i32>("0b0000", "0b{:b}"), Ok(0));
    assert_eq!(bin::<i32>("0b1011", "0b{:b}"), Ok(0b1011));
    assert!(matches!(bin::<u32>("0b2222", "0b{:b}"), Err(_)));
    assert!(matches!(bin::<u32>("0bFFFF", "0b{:b}"), Err(_)));
    assert!(matches!(hex::<u64>("0xGHJKLMNOPQ", "0x{:x}"), Err(_)));
    assert!(matches!(hex::<u64>("0xABCDEFG", "0x{:x}"), Err(_)));
    assert!(matches!(hex::<u8>("0xABCDEFG", "0x{:x}"), Err(_)));
}

#[test]
fn parse_multiple_special() {
    let i = Kind::I32;
    assert_eq!(
        returned("0b0001 + 0xE = 0xF", "0b{:b} + 0x{:x} = 0x{:x}", &[i; 3]),
        Ok(vec![Value::I32(0b0001), Value::I32(0xE), Value::I32(0xF)])
    );
    assert_eq!(
        returned("0b000 + 0x000", "0b{:b} + 0x{:x}", &[i; 2]),
        Ok(vec![Value::I32(0), Value::I32(0)])
    );
    let u = Kind::U32;
    assert!(matches!(returned("0b1234 0xDEFG", "0b{:b} 0x{:x}", &[u, u]), Err(_)));
    assert!(matches!(returned("0b1234 0xCDEF", "0b{:b} 0x{:x}", &[u, u]), Err(_)));
    assert!(matches!(returned("0b01010 0xDEFG", "0b{:b} 0x{:x}", &[u, u]), Err(_)));
}

#[test]
fn parse_single_special_inline() {
    let mut hex = Hex::new(0u32);
    let _ = into(&mut hex, "hex: 0xFABC", "hex: 0x{hex:x}");
    assert_eq!(hex.into_inner(), 0xFABC);

    let mut bin = Binary::new(0u32);
    let _ = into(&mut bin, "bin: 0b1011", "bin: 0b{bin:b}");
    assert_eq!(bin.into_inner(), 0b1011);
}

fn assign(x: &Extracted, name: &str, dest: &mut i32) {
    if let Some(Value::I32(v)) = named(x, name) {
        *dest = v;
    }
}

#[test]
fn parse_multiple_special_inline() {
    let i = Kind::I32;
    let (mut v0, mut v1, mut v2) = (-1, -1, -1);
    if let Ok(r) = many("0b0001 + 0xE = 0xF", "0b{v0:b} + 0x{v1:x} = 0x{v2:x}", &[i; 3]) {
        assign(&r, "v0", &mut v0);
        assign(&r, "v1", &mut v1);
        assign(&r, "v2", &mut v2);
    }
    assert_eq!((v0, v1, v2), (0b0001, 0xE, 0xF));

    let (mut v0, mut v1) = (-1, -1);
    if let Ok(r) = many("0b000 + 0x000", "0b{v0:b} + 0x{v1:x}", &[i; 2]) {
        assign(&r, "v0", &mut v0);
        assign(&r, "v1", &mut v1);
    }
    assert_eq!((v0, v1), (0, 0));

    let (mut v0, mut v1) = (-1, -1);
    let res = many("0b1234 0xDEFG", "0b{v0:b} 0x{v1:x}", &[i; 2]);
    if let Ok(r) = &res {
        assign(r, "v0", &mut v0);
        assign(r, "v1", &mut v1);
    }
    assert!(matches!(res, Err(_)));
    assert_eq!((v0, v1), (-1, -1));

    let (mut v0, mut v1) = (-1, -1);
    let res = many("0b1234 0xCDEF", "0b{v0:b} 0x{v1:x}", &[i; 2]);
    if let Ok(r) = &res {
        assign(r, "v0", &mut v0);
        assign(r, "v1", &mut v1);
    }
    assert!(matches!(res, Err(_)));
    assert_eq!((v0, v1), (-1, -1));

    let res = many("0b01010 0xDEFG", "0b{v0:b} 0x{v1:x}", &[i; 2]);
    assert!(matches!(res, Err(_)));
}

#[test]
fn parse_multiple_special_inline_mixed() {
    let i = Kind::I32;
    let r = many("0b11111 0xFE", "0b{:b} 0x{hex:x}", &[i; 2]).unwrap();
    assert_eq!(r.values, vec![Value::I32(0b11111)]);
    assert_eq!(named(&r, "hex"), Some(Value::I32(0xFE)));

    let r = many("0b11111 0xFE", "0b{bin:b} 0x{:x}", &[i; 2]).unwrap();
    assert_eq!(r.values, vec![Value::I32(0xFE)]);
    assert_eq!(named(&r, "bin"), Some(Value::I32(0b11111)));
}

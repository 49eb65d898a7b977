use core::cmp::Ordering;
use std::collections::hash_map::DefaultHasher;
use std::hash::{Hash, Hasher};

use regtab::{id, Id, InvalidIdError};

struct Torch;

fn parse(s: &str) -> Result<Id<Torch>, InvalidIdError> {
    Id::parse(s)
}

#[test]
fn parses_module_and_name() {
    let i = parse("core/torch").unwrap();
    assert_eq!(i.module(), "core");
    assert_eq!(i.name(), "torch");
    assert_eq!(i.to_string(), "core/torch");
}

#[test]
fn rejects_wrong_separator_counts() {
    assert_eq!(parse("core/torch/extra").err(), Some(InvalidIdError::InvalidParts));
    assert_eq!(parse("coreonly").err(), Some(InvalidIdError::InvalidParts));
    assert_eq!(parse("").err(), Some(InvalidIdError::InvalidParts));
    assert_eq!(parse("//").err(), Some(InvalidIdError::InvalidParts));
}

#[test]
fn rejects_long_parts() {
    assert_eq!(parse("abcdefghijklm/x").err(), Some(InvalidIdError::Length));
    assert_eq!(parse("x/abcdefghijklm").err(), Some(InvalidIdError::Length));
    // seven two-byte characters: fourteen bytes
    assert_eq!(parse("\u{e9}\u{e9}\u{e9}\u{e9}\u{e9}\u{e9}\u{e9}/x").err(), Some(InvalidIdError::Length));
    assert!(parse("abcdefghijkl/abcdefghijkl").is_ok());
}

#[test]
fn rejects_bad_characters() {
    assert_eq!(parse("/torch").err(), Some(InvalidIdError::InvalidChars));
    assert_eq!(parse("core/").err(), Some(InvalidIdError::InvalidChars));
    assert_eq!(parse("co re/torch").err(), Some(InvalidIdError::InvalidChars));
    assert_eq!(parse("core/t\u{e9}").err(), Some(InvalidIdError::InvalidChars));
    assert!(parse("A-z_0.9/x").is_ok());
}

#[test]
fn round_trips_through_string() {
    for s in ["core/torch", "m/a", "A.b-c_9/zZ", "abcdefghijkl/x"] {
        let i = parse(s).unwrap();
        let back = parse(&i.to_string()).unwrap();
        assert!(back == i);
        assert_eq!(back.to_string(), s);
    }
}

#[test]
fn orders_as_string_form() {
    let a = parse("a/z").unwrap();
    let b = parse("b/a").unwrap();
    let c = parse("b/b").unwrap();
    assert_eq!(a.cmp(&b), Ordering::Less);
    assert_eq!(c.cmp(&b), Ordering::Greater);
    assert_eq!(b.cmp(&b.clone()), Ordering::Equal);
    assert!(a < b && b < c);
    let short = parse("ab/x").unwrap();
    let long = parse("abc/x").unwrap();
    assert_eq!(short.cmp(&long), Ordering::Less);
    for (x, y) in [(&a, &b), (&b, &c), (&c, &a), (&short, &long), (&long, &short)] {
        assert_eq!(x.cmp(y), x.to_string().cmp(&y.to_string()));
    }
}

#[test]
fn orders_as_string_below_separator() {
    let a = parse("a/z").unwrap();
    let dot = parse("a./z").unwrap();
    let dash = parse("a-/x").unwrap();
    assert_eq!(a.cmp(&dot), Ordering::Greater);
    assert_eq!(dot.cmp(&a), Ordering::Less);
    assert_eq!(a.cmp(&dash), Ordering::Greater);
    assert!(dot < a);
    assert_eq!(a.cmp(&dot), a.to_string().cmp(&dot.to_string()));
}

#[test]
fn hash_follows_equality() {
    let h = |i: &Id<u8>| {
        let mut s = DefaultHasher::new();
        i.hash(&mut s);
        s.finish()
    };
    let a: Id<u8> = id("m/a");
    let b: Id<u8> = id("m/a");
    assert_eq!(h(&a), h(&b));
}

#[test]
fn equality_follows_parts() {
    assert!(parse("m/a").unwrap() == parse("m/a").unwrap());
    assert!(parse("m/a").unwrap() != parse("m/b").unwrap());
    assert!(parse("m/a").unwrap() != parse("n/a").unwrap());
}

#[test]
fn id_function_and_from_str() {
    let i: Id<Torch> = id("core/torch");
    assert_eq!(i.to_string(), "core/torch");
    let j: Id<Torch> = "core/torch".parse().unwrap();
    assert!(i == j);
    assert_eq!(j.module(), "core");
    assert_eq!(j.name(), "torch");
    assert_eq!("coreonly".parse::<Id<Torch>>().err(), Some(InvalidIdError::InvalidParts));
    assert_eq!("core/torch/extra".parse::<Id<Torch>>().err(), Some(InvalidIdError::InvalidParts));
    assert_eq!("abcdefghijklm/n".parse::<Id<Torch>>().err(), Some(InvalidIdError::Length));
    let k: Id<Torch> = "abcdefghijkl/m".parse().unwrap();
    assert_eq!(k.module(), "abcdefghijkl");
}

#[test]
fn new_from_parts() {
    let i: Id<Torch> = Id::new(String::from("core"), String::from("torch"));
    assert_eq!(i.to_string(), "core/torch");
}

#[test]
fn error_messages() {
    assert_eq!(InvalidIdError::InvalidParts.message(), "should contain one and only '/' as separator");
    assert_eq!(InvalidIdError::Length.message(), "a part of the id is longer than 12 bytes");
    assert!(InvalidIdError::InvalidChars.message().contains("[a-zA-Z0-9._-]"));
}

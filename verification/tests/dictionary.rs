//! The parser of a dictionary member, run on texts.
//!
//! The six constructs are read here by small stand-in parsers. They skip blanks before a
//! construct, and on failure give back the cursor behind those blanks. The ghost items of
//! `Parse` are never run, and are filled in with nothing.

use dictionary_member::{DictionaryMember, DictionaryMembers, Expected, Parse, ParseError};
use vstd::seq::Seq;

/// How many bytes at the front of `text` belong to a word.
fn word_len(text: &str) -> usize {
    text.find(|c: char| !(c.is_ascii_alphanumeric() || c == '_')).unwrap_or(text.len())
}

/// Takes `keyword` as a whole word from the front of `text`.
fn keyword<'a>(text: &'a str, keyword: &str) -> Option<&'a str> {
    if word_len(text) == keyword.len() && text.starts_with(keyword) {
        Some(&text[keyword.len()..])
    } else {
        None
    }
}

/// An attribute list: `[` and all up to the next `]`.
#[derive(Clone, Debug, PartialEq, Eq, PartialOrd, Ord, Hash)]
struct Attributes<'a>(&'a str);

impl<'a> Parse<'a> for Attributes<'a> {
    type Model = ();

    fn model(&self) {}

    fn spec_parse(_: Seq<char>) -> Result<(Seq<char>, ()), Seq<char>> {
        unreachable!()
    }

    fn lemma_parse_advances(_: Seq<char>) {}

    fn parse(input: &'a str) -> Result<(&'a str, Self), &'a str> {
        let text = input.trim_start();
        if !text.starts_with('[') {
            return Err(text);
        }
        match text.find(']') {
            Some(close) => Ok((&text[close + 1..], Attributes(text[1..close].trim()))),
            None => Err(text),
        }
    }
}

/// The marker `required`.
#[derive(Clone, Debug, PartialEq, Eq, PartialOrd, Ord, Hash)]
struct Required;

impl<'a> Parse<'a> for Required {
    type Model = ();

    fn model(&self) {}

    fn spec_parse(_: Seq<char>) -> Result<(Seq<char>, ()), Seq<char>> {
        unreachable!()
    }

    fn lemma_parse_advances(_: Seq<char>) {}

    fn parse(input: &'a str) -> Result<(&'a str, Self), &'a str> {
        let text = input.trim_start();
        match keyword(text, "required") {
            Some(rest) => Ok((rest, Required)),
            None => Err(text),
        }
    }
}

/// A type: `long`, `short`, `boolean` or `DOMString`, the first two also behind `unsigned`.
#[derive(Clone, Debug, PartialEq, Eq, PartialOrd, Ord, Hash)]
struct Type<'a>(&'a str);

impl<'a> Parse<'a> for Type<'a> {
    type Model = ();

    fn model(&self) {}

    fn spec_parse(_: Seq<char>) -> Result<(Seq<char>, ()), Seq<char>> {
        unreachable!()
    }

    fn lemma_parse_advances(_: Seq<char>) {}

    fn parse(input: &'a str) -> Result<(&'a str, Self), &'a str> {
        let text = input.trim_start();
        if let Some(after_unsigned) = keyword(text, "unsigned") {
            let number = after_unsigned.trim_start();
            for name in ["long", "short"] {
                if let Some(rest) = keyword(number, name) {
                    return Ok((rest, Type(&text[..text.len() - rest.len()])));
                }
            }
            return Err(number);
        }
        for name in ["long", "short", "boolean", "DOMString"] {
            if let Some(rest) = keyword(text, name) {
                return Ok((rest, Type(name)));
            }
        }
        Err(text)
    }
}

/// A name: a word that starts with a letter or `_`.
#[derive(Clone, Debug, PartialEq, Eq, PartialOrd, Ord, Hash)]
struct Identifier<'a>(&'a str);

impl<'a> Parse<'a> for Identifier<'a> {
    type Model = ();

    fn model(&self) {}

    fn spec_parse(_: Seq<char>) -> Result<(Seq<char>, ()), Seq<char>> {
        unreachable!()
    }

    fn lemma_parse_advances(_: Seq<char>) {}

    fn parse(input: &'a str) -> Result<(&'a str, Self), &'a str> {
        let text = input.trim_start();
        let len = word_len(text);
        if text.starts_with(|c: char| c.is_ascii_alphabetic() || c == '_') {
            Ok((&text[len..], Identifier(&text[..len])))
        } else {
            Err(text)
        }
    }
}

/// A default clause: `=` and a word.
#[derive(Clone, Debug, PartialEq, Eq, PartialOrd, Ord, Hash)]
struct Default<'a>(&'a str);

impl<'a> Parse<'a> for Default<'a> {
    type Model = ();

    fn model(&self) {}

    fn spec_parse(_: Seq<char>) -> Result<(Seq<char>, ()), Seq<char>> {
        unreachable!()
    }

    fn lemma_parse_advances(_: Seq<char>) {}

    fn parse(input: &'a str) -> Result<(&'a str, Self), &'a str> {
        let text = input.trim_start();
        let value = match text.strip_prefix('=') {
            Some(after_equals) => after_equals.trim_start(),
            None => return Err(text),
        };
        let len = word_len(value);
        if len == 0 {
            return Err(value);
        }
        Ok((&value[len..], Default(&value[..len])))
    }
}

/// The terminator `;`.
#[derive(Clone, Debug, PartialEq, Eq, PartialOrd, Ord, Hash)]
struct SemiColon;

impl<'a> Parse<'a> for SemiColon {
    type Model = ();

    fn model(&self) {}

    fn spec_parse(_: Seq<char>) -> Result<(Seq<char>, ()), Seq<char>> {
        unreachable!()
    }

    fn lemma_parse_advances(_: Seq<char>) {}

    fn parse(input: &'a str) -> Result<(&'a str, Self), &'a str> {
        let text = input.trim_start();
        match text.strip_prefix(';') {
            Some(rest) => Ok((rest, SemiColon)),
            None => Err(text),
        }
    }
}

/// A terminator that is taken only where something follows it.
#[derive(Clone, Debug, PartialEq, Eq, PartialOrd, Ord, Hash)]
struct FollowedSemiColon;

impl<'a> Parse<'a> for FollowedSemiColon {
    type Model = ();

    fn model(&self) {}

    fn spec_parse(_: Seq<char>) -> Result<(Seq<char>, ()), Seq<char>> {
        unreachable!()
    }

    fn lemma_parse_advances(_: Seq<char>) {}

    fn parse(input: &'a str) -> Result<(&'a str, Self), &'a str> {
        let text = input.trim_start();
        match text.strip_prefix(';') {
            Some(rest) if !rest.is_empty() => Ok((rest, FollowedSemiColon)),
            _ => Err(text),
        }
    }
}

type Member<'a> =
    DictionaryMember<Attributes<'a>, Required, Type<'a>, Identifier<'a>, Default<'a>, SemiColon>;

fn member<'a>(
    attributes: Option<&'a str>,
    required: bool,
    type_: &'a str,
    identifier: &'a str,
    default: Option<&'a str>,
) -> Member<'a> {
    DictionaryMember {
        attributes: attributes.map(Attributes),
        required: if required { Some(Required) } else { None },
        type_: Type(type_),
        identifier: Identifier(identifier),
        default: default.map(Default),
        semi_colon: SemiColon,
    }
}

#[test]
fn should_parse_dictionary_member() {
    let (rest, parsed) = Member::parse("required long num;").unwrap();
    assert_eq!(rest, "");
    assert!(parsed.attributes.is_none());
    assert!(parsed.required.is_some());
    assert_eq!(parsed.identifier.0, "num");
    assert!(parsed.default.is_none());
    assert_eq!(parsed, member(None, true, "long", "num", None));
}

#[test]
fn should_parse_required_with_type_ext_attrs() {
    let (rest, parsed) = Member::parse("required [EnforceRange] unsigned long num;").unwrap();
    assert_eq!(rest, "");
    assert!(parsed.attributes.is_some());
    assert!(parsed.required.is_some());
    assert_eq!(parsed.identifier.0, "num");
    assert!(parsed.default.is_none());
    assert_eq!(parsed, member(Some("EnforceRange"), true, "unsigned long", "num", None));
}

#[test]
fn should_parse_member_attrs_before_required() {
    let (rest, parsed) = Member::parse("[EnforceRange] required unsigned long num;").unwrap();
    assert_eq!(rest, "");
    assert!(parsed.attributes.is_some());
    assert!(parsed.required.is_some());
    assert_eq!(parsed.identifier.0, "num");
    assert!(parsed.default.is_none());
    assert_eq!(parsed, member(Some("EnforceRange"), true, "unsigned long", "num", None));
}

#[test]
fn should_parse_optional_member() {
    let (rest, parsed) = Member::parse("long num;").unwrap();
    assert_eq!(rest, "");
    assert!(parsed.attributes.is_none());
    assert!(parsed.required.is_none());
    assert_eq!(parsed.identifier.0, "num");
    assert!(parsed.default.is_none());
    assert_eq!(parsed, member(None, false, "long", "num", None));
}

#[test]
fn should_parse_optional_member_with_default() {
    let (rest, parsed) = Member::parse("long num = 5;").unwrap();
    assert_eq!(rest, "");
    assert!(parsed.attributes.is_none());
    assert!(parsed.required.is_none());
    assert_eq!(parsed.identifier.0, "num");
    assert!(parsed.default.is_some());
    assert_eq!(parsed, member(None, false, "long", "num", Some("5")));
}

#[test]
fn should_parse_optional_member_with_attrs() {
    let (rest, parsed) = Member::parse("[Clamp] long num;").unwrap();
    assert_eq!(rest, "");
    assert!(parsed.attributes.is_some());
    assert!(parsed.required.is_none());
    assert_eq!(parsed.identifier.0, "num");
    assert!(parsed.default.is_none());
    assert_eq!(parsed, member(Some("Clamp"), false, "long", "num", None));
}

#[test]
fn type_level_attributes_win_over_member_level() {
    let parsed = Member::parse("[Clamp] required [EnforceRange] long num;");
    assert_eq!(parsed, Ok(("", member(Some("EnforceRange"), true, "long", "num", None))));
}

#[test]
fn attributes_and_default_on_an_optional_member() {
    let parsed = Member::parse("[Clamp] boolean flag = true;");
    assert_eq!(parsed, Ok(("", member(Some("Clamp"), false, "boolean", "flag", Some("true")))));
}

#[test]
fn what_follows_the_member_is_left() {
    let parsed = Member::parse("  long a; required short b; };");
    assert_eq!(parsed, Ok((" required short b; };", member(None, false, "long", "a", None))));
    let (rest, _) = parsed.unwrap();
    let parsed = Member::parse(rest);
    assert_eq!(parsed, Ok((" };", member(None, true, "short", "b", None))));
}

#[test]
fn the_members_of_a_dictionary_are_read_one_after_the_other() {
    let mut members: DictionaryMembers<_, _, _, _, _, _> = Vec::new();
    let mut cursor = "required DOMString name; [Clamp] short age = 0; boolean admin; };";
    while let Ok((rest, parsed)) = Member::parse(cursor) {
        members.push(parsed);
        cursor = rest;
    }
    assert_eq!(cursor, " };");
    assert_eq!(
        members,
        vec![
            member(None, true, "DOMString", "name", None),
            member(Some("Clamp"), false, "short", "age", Some("0")),
            member(None, false, "boolean", "admin", None),
        ]
    );
    assert_eq!(Member::parse(cursor), Err(ParseError { expected: Expected::Type, at: "};" }));
}

#[test]
fn missing_terminator_is_reported_behind_the_name() {
    let parsed = Member::parse("long num }");
    assert_eq!(parsed, Err(ParseError { expected: Expected::Terminator, at: "}" }));
    let parsed = Member::parse("required long num");
    assert_eq!(parsed, Err(ParseError { expected: Expected::Terminator, at: "" }));
    let parsed = Member::parse("[Clamp] long num = 5 long other;");
    assert_eq!(parsed, Err(ParseError { expected: Expected::Terminator, at: "long other;" }));
}

#[test]
fn missing_identifier_is_reported_behind_the_type() {
    let parsed = Member::parse("unsigned long ;");
    assert_eq!(parsed, Err(ParseError { expected: Expected::Identifier, at: ";" }));
    let parsed = Member::parse("required [Clamp] long = 5;");
    assert_eq!(parsed, Err(ParseError { expected: Expected::Identifier, at: "= 5;" }));
}

#[test]
fn missing_type_is_reported_where_it_was_sought() {
    let parsed = Member::parse("");
    assert_eq!(parsed, Err(ParseError { expected: Expected::Type, at: "" }));
    let parsed = Member::parse("required [Clamp] ;");
    assert_eq!(parsed, Err(ParseError { expected: Expected::Type, at: ";" }));
    let parsed = Member::parse("[Clamp] unsigned num;");
    assert_eq!(parsed, Err(ParseError { expected: Expected::Type, at: "num;" }));
}

#[test]
fn a_required_member_takes_no_default() {
    let parsed = Member::parse("required long num = 5;");
    assert_eq!(parsed, Err(ParseError { expected: Expected::Terminator, at: "= 5;" }));
}

#[test]
fn an_optional_member_takes_no_attributes_before_its_type() {
    let parsed = Member::parse("[Clamp] [EnforceRange] long num;");
    assert_eq!(parsed, Err(ParseError { expected: Expected::Type, at: "[EnforceRange] long num;" }));
}

#[test]
fn a_word_that_begins_like_the_marker_is_no_marker() {
    let parsed = Member::parse("long required_num;");
    assert_eq!(parsed, Ok(("", member(None, false, "long", "required_num", None))));
    let parsed = Member::parse("requiredlong num;");
    assert_eq!(parsed, Err(ParseError { expected: Expected::Type, at: "requiredlong num;" }));
}

#[test]
fn the_text_of_a_member_reads_as_an_equal_member() {
    for input in [
        "required long num; long next;",
        "[Clamp] required [EnforceRange] unsigned short num;\n};",
        "long num = 5; // five",
        " [Clamp]  long  num ;}",
    ] {
        let (rest, first) = Member::parse(input).unwrap();
        let text = &input[..input.len() - rest.len()];
        assert_eq!(Member::parse(text), Ok(("", first)));
    }
}

#[test]
fn a_terminator_that_looks_ahead_does_not_read_its_own_text_alike() {
    type Ahead<'a> = DictionaryMember<
        Attributes<'a>,
        Required,
        Type<'a>,
        Identifier<'a>,
        Default<'a>,
        FollowedSemiColon,
    >;
    let (rest, _) = Ahead::parse("long num;x").unwrap();
    assert_eq!(rest, "x");
    assert_eq!(Ahead::parse("long num;"), Err(ParseError { expected: Expected::Terminator, at: ";" }));
}

#[test]
fn a_dropped_list_leaves_no_trace() {
    let with_both = Member::parse("[Clamp] required [EnforceRange] long num;");
    let with_one = Member::parse(" required [EnforceRange] long num;");
    assert_eq!(with_both, with_one);
    let before_marker = Member::parse("[EnforceRange] required long num;");
    assert_eq!(with_both, before_marker);
}

#[test]
fn parsing_twice_gives_the_same() {
    for input in ["required long num;", "long num", "[Clamp] long num = 5; long next;", "= 5"] {
        assert_eq!(Member::parse(input), Member::parse(input));
    }
}

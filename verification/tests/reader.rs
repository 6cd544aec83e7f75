use jomini::text::ValueReader;
use jomini::{TextTape, TextToken, Utf8Encoding};
use uiconf::reader::error::{Error, ScalarFailure};
use uiconf::reader::node::{parse_document, Node};
use uiconf::reader::reader::{extend_path, root_fields, Reader};
use uiconf::reader::{check_signed, check_unsigned, Number};
use uiconf::text::{
    contains_name, decimal_string, dotted_string, eq_ignore_case, signed_decimal_string,
    ticked_list_string,
};

fn kind_of(token: &TextToken) -> &'static str {
    match token {
        TextToken::Array { .. } => "array",
        TextToken::Object { .. } => "object",
        TextToken::MixedContainer => "mixed container",
        TextToken::Unquoted(_) => "unquoted scalar",
        TextToken::Quoted(_) => "quoted scalar",
        TextToken::Parameter(_) => "parameter",
        TextToken::UndefinedParameter(_) => "undefined parameter",
        TextToken::Operator(_) => "operator",
        TextToken::End(_) => "end",
        TextToken::Header(_) => "header",
    }
}

fn is_container(token: &TextToken) -> bool {
    matches!(token, TextToken::Array { .. } | TextToken::Object { .. })
}

/// Walks a value with the parser's own readers and with the library's
/// cursor, and holds the one against the other.
fn walk(theirs: &ValueReader<Utf8Encoding>, ours: &Reader, seen: &mut usize) {
    *seen += 1;
    assert_eq!(ours.token_type(), kind_of(theirs.token()), "at {:?}", ours.path());
    match theirs.read_scalar() {
        Ok(scalar) => {
            if ours.is_scalar() {
                assert_eq!(ours.read_scalar().unwrap().as_slice(), scalar.as_bytes());
                assert_eq!(ours.read_string().unwrap(), scalar.to_string());
            }
        }
        Err(_) => assert!(!ours.is_scalar()),
    }
    if !is_container(theirs.token()) {
        assert!(matches!(ours.read_object(), Err(Error::InvalidType { .. })));
        assert!(matches!(ours.read_array(), Err(Error::InvalidType { .. })));
        return;
    }

    let object = theirs.read_object().unwrap();
    let mut fields = object.fields();
    let mut operator = None;
    for (_, op, _) in fields.by_ref() {
        if let Some(op) = op {
            operator = Some(op);
            break;
        }
    }
    let at = dotted_string(ours.path());
    if let Some(op) = operator {
        assert_eq!(
            ours.read_object().err(),
            Some(Error::UnexpectedOperator { op: op.to_string(), at })
        );
    } else if let Some(remainder) = fields.remainder().values().next() {
        let text = match remainder.read_str() {
            Ok(text) => text.to_string(),
            Err(_) => String::new(),
        };
        assert_eq!(
            ours.read_object().err(),
            Some(Error::UnexpectedRemainder { remainder: text, at })
        );
    } else {
        let mine = ours.read_object().unwrap();
        let expected: Vec<_> = object.fields().collect();
        assert_eq!(mine.len(), expected.len(), "fields at {:?}", ours.path());
        for ((key, child), (their_key, _, their_child)) in mine.iter().zip(expected.iter()) {
            assert_eq!(key.as_str(), their_key.read_str());
            assert_eq!(child.path(), &extend_path(ours.path(), key.clone()));
            walk(their_child, child, seen);
        }
    }

    let array = theirs.read_array().unwrap();
    let mine = ours.read_array().unwrap();
    let expected: Vec<_> = array.values().collect();
    assert_eq!(mine.len(), expected.len(), "values at {:?}", ours.path());
    for (index, (child, their_child)) in mine.iter().zip(expected.iter()).enumerate() {
        assert_eq!(child.path(), &extend_path(ours.path(), index.to_string()));
        walk(their_child, child, seen);
    }
}

fn walk_document(document: &[u8]) -> usize {
    let tape = TextTape::from_slice(document).unwrap();
    let nodes = parse_document(document).unwrap();
    let mine = root_fields(&nodes);
    let expected: Vec<_> = tape.utf8_reader().fields().collect();
    assert_eq!(mine.len(), expected.len());
    let mut seen = 0;
    for (field, (key, op, value)) in mine.iter().zip(expected.iter()) {
        assert_eq!(field.key.as_str(), key.read_str());
        assert_eq!(field.operator, op.map(|op| op.to_string()));
        assert_eq!(field.value.path(), &vec![field.key.clone()]);
        walk(value, &field.value, &mut seen);
    }
    seen
}

#[test]
fn cursor_agrees_with_the_parser_on_plain_documents() {
    assert_eq!(walk_document(b"window = { title = \"t\" }"), 4);
    assert!(walk_document(b"a = 1 b = \"two\" c = { d = { e = f } g = {} }") >= 8);
    assert!(walk_document(b"list = { 1 2 3 } nested = { { a b } { c } {} }") >= 11);
    assert_eq!(walk_document(b""), 0);
}

#[test]
fn cursor_agrees_with_the_parser_on_operators() {
    assert!(walk_document(b"a > 1 b = { c < 2 d = 3 } e = { f >= 1 } g != 2 h ?= 3 i == 4") >= 6);
}

#[test]
fn cursor_agrees_with_the_parser_on_mixed_containers() {
    assert!(walk_document(b"a = { b = c d }") >= 1);
    assert!(walk_document(b"a = { b = c d e = f }") >= 1);
    assert!(walk_document(b"a = { 1 2 b = c }") >= 1);
    assert!(walk_document(b"a = { { x = y } b = c 3 }") >= 1);
}

#[test]
fn cursor_agrees_with_the_parser_on_headers_and_parameters() {
    assert!(walk_document(b"color = rgb { 1 2 3 } next = x") >= 2);
    assert!(walk_document(b"a = { color = hsv { 0.1 0.2 0.3 } b = c }") >= 1);
    assert!(walk_document(b"a = { [[scaled] b = c ] d = e }") >= 1);
    assert!(walk_document(b"a = { [[!scaled] b = c ] }") >= 1);
}

#[test]
fn cursor_agrees_with_the_parser_on_quotes_and_escapes() {
    assert!(walk_document(b"\"a key\" = \"a \\\"value\\\" \" b = \"caf\xc3\xa9\" c = caf\xe9") >= 3);
    assert!(walk_document(b"a = \"trailing  \" @var = 1 b = @var c = @[1+2]") >= 4);
}

#[test]
fn document_is_a_tree_of_the_tokens() {
    assert_eq!(
        parse_document(b"a = { b = \"c\" d } f > 2 g = { { e } }"),
        Ok(vec![
            Node::Unquoted(b"a".to_vec()),
            Node::Object {
                mixed: true,
                items: vec![
                    Node::Unquoted(b"b".to_vec()),
                    Node::Quoted(b"c".to_vec()),
                    Node::MixedContainer,
                    Node::Unquoted(b"d".to_vec()),
                ]
            },
            Node::Unquoted(b"f".to_vec()),
            Node::Operator(">".to_string()),
            Node::Unquoted(b"2".to_vec()),
            Node::Unquoted(b"g".to_vec()),
            Node::Array {
                mixed: false,
                items: vec![Node::Array {
                    mixed: false,
                    items: vec![Node::Unquoted(b"e".to_vec())]
                }]
            },
        ])
    );
    assert_eq!(
        parse_document(b"c = rgb { 1 }"),
        Ok(vec![
            Node::Unquoted(b"c".to_vec()),
            Node::Header(b"rgb".to_vec()),
            Node::Array { mixed: false, items: vec![Node::Unquoted(b"1".to_vec())] },
        ])
    );
    assert_eq!(parse_document(b"a = }"), Err(jomini::TextTape::from_slice(b"a = }").unwrap_err().to_string()));
}

#[test]
fn cursor_reads_a_hand_made_tree() {
    let node = Node::Object {
        mixed: false,
        items: vec![
            Node::Unquoted(b"key".to_vec()),
            Node::Array { mixed: false, items: vec![Node::Quoted(b"x".to_vec())] },
        ],
    };
    let reader = Reader::new(&node, vec!["root".to_string()]);
    assert_eq!(reader.token(), &node);
    assert_eq!(reader.path(), &vec!["root".to_string()]);
    assert!(!reader.is_scalar());
    assert_eq!(reader.token_type(), "object");
    let fields = reader.read_object().unwrap();
    assert_eq!(fields.len(), 1);
    assert_eq!(fields[0].0, "key");
    assert_eq!(fields[0].1.path(), &vec!["root".to_string(), "key".to_string()]);
    let values = fields[0].1.read_array().unwrap();
    assert_eq!(values.len(), 1);
    assert_eq!(
        values[0].path(),
        &vec!["root".to_string(), "key".to_string(), "0".to_string()]
    );
    assert_eq!(values[0].read_string(), Ok("x".to_string()));
    assert_eq!(values[0].read::<String>(), Ok("x".to_string()));
    assert_eq!(
        reader.read_scalar().err(),
        Some(Error::InvalidType {
            actual: "object".to_string(),
            expected: "scalar".to_string(),
            at: "root".to_string()
        })
    );
}

#[test]
fn key_without_value_is_a_remainder() {
    let node = Node::Object {
        mixed: false,
        items: vec![
            Node::Unquoted(b"a".to_vec()),
            Node::Unquoted(b"1".to_vec()),
            Node::Unquoted(b"b".to_vec()),
        ],
    };
    let reader = Reader::new(&node, vec![]);
    assert_eq!(
        reader.read_object().err(),
        Some(Error::UnexpectedRemainder { remainder: "b".to_string(), at: String::new() })
    );
}

fn scalar(text: &str) -> Node {
    Node::Unquoted(text.as_bytes().to_vec())
}

#[test]
fn numbers_are_read_in_their_width() {
    let read_at = |text: &str| {
        let node = scalar(text);
        let reader = Reader::new(&node, vec!["n".to_string()]);
        (
            reader.read::<u8>(),
            reader.read::<i8>(),
            reader.read::<u16>(),
            reader.read::<i16>(),
            reader.read::<u32>(),
            reader.read::<i32>(),
            reader.read::<u64>(),
            reader.read::<i64>(),
        )
    };
    let invalid = |actual: &str, expected: &str| Error::InvalidValue {
        actual: actual.to_string(),
        expected: expected.to_string(),
        at: "n".to_string(),
    };
    let failed = |error| Error::ScalarError { error, at: "n".to_string() };

    assert_eq!(
        read_at("127"),
        (Ok(127), Ok(127), Ok(127), Ok(127), Ok(127), Ok(127), Ok(127), Ok(127))
    );
    assert_eq!(
        read_at("255"),
        (Ok(255), Err(invalid("255", "i8")), Ok(255), Ok(255), Ok(255), Ok(255), Ok(255), Ok(255))
    );
    assert_eq!(
        read_at("-129"),
        (
            Err(failed(ScalarFailure::AllDigits)),
            Err(invalid("-129", "i8")),
            Err(failed(ScalarFailure::AllDigits)),
            Ok(-129),
            Err(failed(ScalarFailure::AllDigits)),
            Ok(-129),
            Err(failed(ScalarFailure::AllDigits)),
            Ok(-129)
        )
    );
    assert_eq!(
        read_at("4294967296"),
        (
            Err(invalid("4294967296", "u8")),
            Err(invalid("4294967296", "i8")),
            Err(invalid("4294967296", "u16")),
            Err(invalid("4294967296", "i16")),
            Err(invalid("4294967296", "u32")),
            Err(invalid("4294967296", "i32")),
            Ok(4294967296),
            Ok(4294967296)
        )
    );
    assert_eq!(
        read_at("18446744073709551615").6,
        Ok(u64::MAX)
    );
    assert_eq!(
        read_at("18446744073709551616").6,
        Err(failed(ScalarFailure::Overflow))
    );
    assert_eq!(read_at("-9223372036854775807").7, Ok(-i64::MAX));
    assert_eq!(read_at("-9223372036854775808").7, Err(failed(ScalarFailure::Overflow)));
    assert_eq!(read_at("9223372036854775808").7, Err(failed(ScalarFailure::Overflow)));
    assert_eq!(read_at("-32769").3, Err(invalid("-32769", "i16")));
    assert_eq!(read_at("12a").6, Err(failed(ScalarFailure::AllDigits)));
}

#[test]
fn numbers_out_of_range_name_the_numeral_and_the_type() {
    let node = scalar("0");
    let reader = Reader::new(&node, vec!["a".to_string(), "b".to_string()]);
    assert_eq!(check_unsigned(&reader, 255, 255, "u8"), Ok(255));
    assert_eq!(
        check_unsigned(&reader, 256, 255, "u8"),
        Err(Error::InvalidValue {
            actual: "256".to_string(),
            expected: "u8".to_string(),
            at: "a.b".to_string()
        })
    );
    assert_eq!(check_signed(&reader, -128, -128, 127, "i8"), Ok(-128));
    assert_eq!(
        check_signed(&reader, i64::MIN, -128, 127, "i8"),
        Err(Error::InvalidValue {
            actual: "-9223372036854775808".to_string(),
            expected: "i8".to_string(),
            at: "a.b".to_string()
        })
    );
}

#[test]
fn truth_values_are_yes_and_no() {
    let read_at = |node: Node| Reader::new(&node, vec![]).read::<bool>();
    assert_eq!(read_at(scalar("yes")), Ok(true));
    assert_eq!(read_at(scalar("no")), Ok(false));
    assert_eq!(read_at(Node::Quoted(b"yes".to_vec())), Ok(true));
    assert_eq!(
        read_at(scalar("true")),
        Err(Error::ScalarError { error: ScalarFailure::InvalidBool, at: String::new() })
    );
    assert_eq!(
        read_at(scalar("Yes")),
        Err(Error::ScalarError { error: ScalarFailure::InvalidBool, at: String::new() })
    );
}

#[test]
fn floating_point_numbers_are_read_to_their_bits() {
    let read_at = |text: &str| {
        let node = scalar(text);
        Reader::new(&node, vec![]).read::<Number>()
    };
    assert_eq!(read_at("1.5"), Ok(Number { bits: 1.5f64.to_bits() }));
    assert_eq!(read_at("-0.25"), Ok(Number { bits: (-0.25f64).to_bits() }));
    assert_eq!(read_at("10.0f"), Ok(Number { bits: 10.0f64.to_bits() }));
    assert_eq!(read_at("7"), Ok(Number { bits: 7.0f64.to_bits() }));
    assert_eq!(
        read_at("1e3"),
        Err(Error::ScalarError { error: ScalarFailure::AllDigits, at: String::new() })
    );
    assert_eq!(
        read_at("9007199254740993"),
        Err(Error::ScalarError { error: ScalarFailure::PrecisionLoss, at: String::new() })
    );
}

#[test]
fn strings_are_read_as_the_parser_prints_them() {
    let read_at = |node: Node| Reader::new(&node, vec![]).read::<String>();
    assert_eq!(read_at(scalar("plain")), Ok("plain".to_string()));
    assert_eq!(read_at(Node::Quoted(b"with space  ".to_vec())), Ok("with space".to_string()));
    assert_eq!(read_at(Node::Quoted(b"a\\\"b".to_vec())), Ok("a\"b".to_string()));
    assert_eq!(
        read_at(Node::Array { mixed: false, items: vec![] }),
        Err(Error::InvalidType {
            actual: "array".to_string(),
            expected: "scalar".to_string(),
            at: String::new()
        })
    );
}

#[test]
fn lists_are_read_element_by_element() {
    let node = Node::Array { mixed: false, items: vec![scalar("1"), scalar("2"), scalar("x")] };
    let reader = Reader::new(&node, vec!["l".to_string()]);
    assert_eq!(
        reader.read::<Vec<u8>>(),
        Err(Error::ScalarError { error: ScalarFailure::AllDigits, at: "l.2".to_string() })
    );
    let node = Node::Array { mixed: false, items: vec![scalar("1"), scalar("2")] };
    assert_eq!(Reader::new(&node, vec![]).read::<Vec<u8>>(), Ok(vec![1, 2]));
    assert_eq!(
        Reader::new(&scalar("1"), vec![]).read::<Vec<u8>>(),
        Err(Error::InvalidType {
            actual: "unquoted scalar".to_string(),
            expected: "array".to_string(),
            at: String::new()
        })
    );
}

#[test]
fn numerals_are_decimal() {
    assert_eq!(decimal_string(0), "0");
    assert_eq!(decimal_string(7), "7");
    assert_eq!(decimal_string(10), "10");
    assert_eq!(decimal_string(1234567890), "1234567890");
    assert_eq!(decimal_string(u64::MAX), u64::MAX.to_string());
    assert_eq!(signed_decimal_string(0), "0");
    assert_eq!(signed_decimal_string(-1), "-1");
    assert_eq!(signed_decimal_string(i64::MIN), i64::MIN.to_string());
    assert_eq!(signed_decimal_string(i64::MAX), i64::MAX.to_string());
}

#[test]
fn paths_and_lists_are_joined() {
    assert_eq!(dotted_string(&vec![]), "");
    assert_eq!(dotted_string(&vec!["a".to_string()]), "a");
    assert_eq!(dotted_string(&vec!["a".to_string(), "0".to_string(), "b".to_string()]), "a.0.b");
    assert_eq!(ticked_list_string(&vec![]), "");
    assert_eq!(ticked_list_string(&vec!["a"]), "`a`");
    assert_eq!(ticked_list_string(&vec!["a", "b", "c"]), "`a`, `b`, `c`");
    assert_eq!(
        uiconf::const_concat::concat(&vec!["a"], &vec!["b", "c"]),
        vec!["a", "b", "c"]
    );
    assert_eq!(
        extend_path(&vec!["a".to_string()], "b".to_string()),
        vec!["a".to_string(), "b".to_string()]
    );
}

#[test]
fn names_are_held_against_each_other_without_case() {
    assert!(eq_ignore_case("left", "left"));
    assert!(eq_ignore_case("LeFt", "left"));
    assert!(eq_ignore_case("TOP_DOWN", "top_down"));
    assert!(!eq_ignore_case("left", "lefty"));
    assert!(!eq_ignore_case("left", "lift"));
    assert!(!eq_ignore_case("", "a"));
    assert!(eq_ignore_case("", ""));
    assert!(!eq_ignore_case("\u{212a}", "k"));
    assert!(!eq_ignore_case("@", "`"));
    assert!(!eq_ignore_case("[", "{"));
    assert!(contains_name(&vec!["a", "b"], "b"));
    assert!(!contains_name(&vec!["a", "b"], "B"));
    assert!(!contains_name(&vec![], "a"));
}

#[test]
fn keys_are_decoded_as_text() {
    let nodes = parse_document(b"\"a\\\"b \" = 1 \"caf\xc3\xa9\" = 2").unwrap();
    let fields = root_fields(&nodes);
    assert_eq!(fields.len(), 2);
    assert_eq!(fields[0].key, "a\"b");
    assert_eq!(fields[0].operator, None);
    assert_eq!(fields[0].value.path(), &vec!["a\"b".to_string()]);
    assert_eq!(fields[1].key, "caf\u{e9}");
    let node = Node::Object {
        mixed: false,
        items: vec![Node::Quoted(b"key \n".to_vec()), Node::Unquoted(b"1".to_vec())],
    };
    let inner = Reader::new(&node, vec![]).read_object().unwrap();
    assert_eq!(inner[0].0, "key");
}

use payrex::form::EncodedBody;
use payrex::form::FormValue;
use payrex::form::encode_body;
use payrex::form::flatten;
use payrex::form::form_urlencode;

fn object(entries: Vec<(&str, FormValue)>) -> FormValue {
    FormValue::Object(entries.into_iter().map(|(k, v)| (k.to_string(), v)).collect())
}

fn pairs(flattened: &[(String, String)]) -> Vec<(&str, &str)> {
    flattened.iter().map(|(k, v)| (k.as_str(), v.as_str())).collect()
}

#[test]
fn test_flatten_nested_object() {
    // flatten({"a": {"b": 1}}) yields ("a[b]", "1").
    let v = object(vec![("a", object(vec![("b", FormValue::Int(1))]))]);
    assert_eq!(pairs(&flatten(&v)), vec![("a[b]", "1")]);
}

#[test]
fn test_flatten_array_of_scalars() {
    // flatten({"a": [1, 2]}) yields ("a[0]", "1") and ("a[1]", "2").
    let v = object(vec![("a", FormValue::Array(vec![FormValue::Int(1), FormValue::Int(2)]))]);
    assert_eq!(pairs(&flatten(&v)), vec![("a[0]", "1"), ("a[1]", "2")]);
}

#[test]
fn test_flatten_array_of_objects() {
    // flatten({"a": [{"b": 1}]}) yields ("a[0][b]", "1").
    let v = object(vec![(
        "a",
        FormValue::Array(vec![object(vec![("b", FormValue::Int(1))])]),
    )]);
    assert_eq!(pairs(&flatten(&v)), vec![("a[0][b]", "1")]);
}

#[test]
fn test_flatten_null_emits_nothing() {
    // flatten({"a": null}) yields no pair for "a".
    let v = object(vec![("a", FormValue::Null), ("b", FormValue::Boolean(true))]);
    assert_eq!(pairs(&flatten(&v)), vec![("b", "true")]);
}

#[test]
fn test_flatten_scalars_and_strings() {
    let v = object(vec![
        ("s", FormValue::Text("plain text".to_string())),
        ("n", FormValue::Int(-42)),
        ("u", FormValue::UInt(12_345)),
        ("f", FormValue::Boolean(false)),
    ]);
    assert_eq!(
        pairs(&flatten(&v)),
        vec![("s", "plain text"), ("n", "-42"), ("u", "12345"), ("f", "false")]
    );
}

#[test]
fn test_flatten_deeper_nesting() {
    let v = object(vec![(
        "card",
        object(vec![(
            "options",
            object(vec![("capture", FormValue::Text("manual".to_string()))]),
        )]),
    )]);
    assert_eq!(pairs(&flatten(&v)), vec![("card[options][capture]", "manual")]);
}

#[test]
fn test_flatten_twice_yields_identical_pairs() {
    // Flattening an arrays-free nested object twice yields identical pair
    // sets; the encoder is a pure function of its input.
    let make = || {
        object(vec![
            ("amount", FormValue::Int(10_050)),
            (
                "metadata",
                object(vec![
                    ("order_id", FormValue::Text("12345".to_string())),
                    ("note", FormValue::Text("VIP".to_string())),
                ]),
            ),
            ("captured", FormValue::Boolean(true)),
        ])
    };
    let first = flatten(&make());
    let second = flatten(&make());
    assert_eq!(first, second);
}

#[test]
fn test_encode_body_object_root() {
    let v = object(vec![("a", FormValue::Int(1))]);
    match encode_body(&v) {
        EncodedBody::Form(form) => assert_eq!(pairs(&form), vec![("a", "1")]),
        other => panic!("expected a flattened form, got {:?}", other),
    }
}

#[test]
fn test_encode_body_scalar_root_is_opaque() {
    match encode_body(&FormValue::Text("raw".to_string())) {
        EncodedBody::Opaque(s) => assert_eq!(s, "raw"),
        other => panic!("expected an opaque body, got {:?}", other),
    }
    match encode_body(&FormValue::Null) {
        EncodedBody::Opaque(s) => assert_eq!(s, ""),
        other => panic!("expected an opaque body, got {:?}", other),
    }
}

#[test]
fn test_flatten_empty_object() {
    let v = object(vec![]);
    assert!(flatten(&v).is_empty());
}

#[test]
fn test_flatten_extreme_integers() {
    let v = object(vec![
        ("min", FormValue::Int(i64::MIN)),
        ("max", FormValue::Int(i64::MAX)),
        ("umax", FormValue::UInt(u64::MAX)),
        ("zero", FormValue::Int(0)),
    ]);
    assert_eq!(
        pairs(&flatten(&v)),
        vec![
            ("min", "-9223372036854775808"),
            ("max", "9223372036854775807"),
            ("umax", "18446744073709551615"),
            ("zero", "0"),
        ]
    );
}

#[test]
fn test_form_urlencode() {

    let pairs = vec![
        ("amount".to_string(), "10050".to_string()),
        ("description".to_string(), "a b".to_string()),
        ("metadata[note]".to_string(), "c&d=e".to_string()),
    ];
    assert_eq!(
        form_urlencode(&pairs),
        "amount=10050&description=a+b&metadata%5Bnote%5D=c%26d%3De"
    );
    assert_eq!(form_urlencode(&Vec::new()), "");
}

#[test]
fn test_form_urlencode_multibyte() {

    let pairs = vec![("symbol".to_string(), "\u{20b1}".to_string())];
    assert_eq!(form_urlencode(&pairs), "symbol=%E2%82%B1");
}

#[test]
fn test_flatten_then_urlencode() {

    let v = object(vec![(
        "metadata",
        object(vec![("order id", FormValue::Text("12/345".to_string()))]),
    )]);
    assert_eq!(form_urlencode(&flatten(&v)), "metadata%5Border+id%5D=12%2F345");
}

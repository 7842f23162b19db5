use indexeddb::names::{all_distinct, clone_names, position, same_names};
use indexeddb::order::{compare_bytes, compare_text, compare_texts, Precedence};
use indexeddb::{HostElement, HostValue, KeyPath};

fn texts(all: &[&str]) -> Vec<HostElement<u32>> {
    all.iter().map(|s| HostElement::Text(s.to_string())).collect()
}

fn strings(elements: Vec<HostElement<u32>>) -> Vec<String> {
    elements
        .into_iter()
        .map(|e| match e {
            HostElement::Text(s) => s,
            HostElement::Other(o) => panic!("expected a string, found {:?}", o),
        })
        .collect()
}

fn text(s: &str) -> String {
    s.to_string()
}

#[test]
fn key_path_none_becomes_null() {
    let value: HostValue<u32> = KeyPath::OutOfLine.into_host();
    assert!(matches!(value, HostValue::Null));
}

#[test]
fn key_path_single_becomes_string() {
    let value: HostValue<u32> = KeyPath::Single(text("id")).into_host();
    match value {
        HostValue::Text(s) => assert_eq!(s, "id"),
        other => panic!("expected a string, found {:?}", other),
    }
}

#[test]
fn key_path_multi_becomes_array_of_strings() {
    let value: HostValue<u32> = KeyPath::Multi(vec![text("a"), text("b")]).into_host();
    match value {
        HostValue::Array(l) => assert_eq!(strings(l), vec![text("a"), text("b")]),
        other => panic!("expected an array of strings, found {:?}", other),
    }
}

#[test]
fn null_and_undefined_become_no_key_path() {
    assert_eq!(KeyPath::from_host(HostValue::<u32>::Null), KeyPath::OutOfLine);
    assert_eq!(KeyPath::from_host(HostValue::<u32>::Undefined), KeyPath::OutOfLine);
}

#[test]
fn string_becomes_single() {
    assert_eq!(
        KeyPath::from_host(HostValue::<u32>::Text(text("id"))),
        KeyPath::Single(text("id"))
    );
}

#[test]
fn array_of_strings_becomes_multi() {
    assert_eq!(
        KeyPath::from_host(HostValue::<u32>::Array(texts(&["a", "b"]))),
        KeyPath::Multi(vec![text("a"), text("b")])
    );
}

#[test]
fn key_path_round_trips_through_host_value() {
    let all = vec![
        KeyPath::OutOfLine,
        KeyPath::Single(text("id")),
        KeyPath::Single(text("")),
        KeyPath::Multi(vec![text("a"), text("b")]),
        KeyPath::Multi(vec![text("a")]),
    ];
    for kp in all {
        let host: HostValue<u32> = kp.clone().into_host();
        assert_eq!(KeyPath::from_host(host), kp);
        let host: HostValue<u32> = kp.clone().into_host();
        assert!(host.is_key_path());
    }
}

#[test]
fn single_is_not_multi_of_one() {
    assert_ne!(KeyPath::Single(text("a")), KeyPath::Multi(vec![text("a")]));
    assert_ne!(KeyPath::OutOfLine, KeyPath::Single(text("")));
    assert_ne!(KeyPath::OutOfLine, KeyPath::Multi(vec![]));
}

#[test]
fn multi_equality_is_positional() {
    assert_eq!(
        KeyPath::Multi(vec![text("a"), text("b")]),
        KeyPath::Multi(vec![text("a"), text("b")])
    );
    assert_ne!(
        KeyPath::Multi(vec![text("a"), text("b")]),
        KeyPath::Multi(vec![text("b"), text("a")])
    );
    assert_ne!(
        KeyPath::Multi(vec![text("a"), text("b")]),
        KeyPath::Multi(vec![text("a")])
    );
    assert_ne!(KeyPath::Single(text("a")), KeyPath::Single(text("b")));
}

#[test]
fn ordering_is_structural() {
    assert!(KeyPath::OutOfLine < KeyPath::Single(text("")));
    assert!(KeyPath::Single(text("z")) < KeyPath::Multi(vec![]));
    assert!(KeyPath::Single(text("a")) < KeyPath::Single(text("b")));
    assert!(KeyPath::Multi(vec![text("a")]) < KeyPath::Multi(vec![text("a"), text("b")]));
}

#[test]
fn conversions_into_key_path() {
    assert_eq!(KeyPath::from(()), KeyPath::OutOfLine);
    assert_eq!(KeyPath::from("id"), KeyPath::Single(text("id")));
    assert_eq!(KeyPath::from(text("id")), KeyPath::Single(text("id")));
    assert_eq!(
        KeyPath::from(vec![text("a"), text("b")]),
        KeyPath::Multi(vec![text("a"), text("b")])
    );
    assert_eq!(KeyPath::single("id"), KeyPath::Single(text("id")));
    assert_eq!(KeyPath::multi(&["a", "b"]), KeyPath::Multi(vec![text("a"), text("b")]));
    assert_eq!(KeyPath::multi(&[]), KeyPath::Multi(vec![]));
}

#[test]
fn clone_keeps_the_key_path() {
    let kp = KeyPath::Multi(vec![text("a"), text("b")]);
    assert_eq!(kp.clone(), kp);
    let kp = KeyPath::Single(text("id"));
    assert_eq!(kp.clone(), kp);
}

#[test]
fn host_value_shapes() {
    assert!(HostValue::<u32>::Null.is_nullish());
    assert!(HostValue::<u32>::Undefined.is_nullish());
    assert!(!HostValue::<u32>::Text(text("")).is_nullish());
    assert!(!HostValue::<u32>::Array(vec![]).is_nullish());
    assert!(!HostValue::Other(0u32).is_nullish());
    assert!(HostValue::<u32>::Null.is_key_path());
    assert!(HostValue::<u32>::Undefined.is_key_path());
    assert!(HostValue::<u32>::Text(text("a")).is_key_path());
    assert!(HostValue::<u32>::Array(texts(&["a"])).is_key_path());
    assert!(HostValue::<u32>::Array(vec![]).is_key_path());
    assert!(!HostValue::Other(7u32).is_key_path());
    assert!(!HostValue::Array(vec![HostElement::Other(7u32)]).is_key_path());
    assert!(!HostValue::Array(vec![
        HostElement::Text(text("a")),
        HostElement::Other(7u32),
        HostElement::Text(text("b")),
    ])
    .is_key_path());
    assert!(!HostValue::Array(vec![HostElement::Text(text("a")), HostElement::Other(7u32)])
        .is_key_path());
}

fn samples() -> Vec<KeyPath> {
    vec![
        KeyPath::OutOfLine,
        KeyPath::Single(text("")),
        KeyPath::Single(text("a")),
        KeyPath::Single(text("ab")),
        KeyPath::Single(text("b")),
        KeyPath::Single(text("Z")),
        KeyPath::Single(text("\u{e9}t\u{e9}")),
        KeyPath::Single(text("\u{1f600}")),
        KeyPath::Single(text("\u{ffff}")),
        KeyPath::Multi(vec![]),
        KeyPath::Multi(vec![text("")]),
        KeyPath::Multi(vec![text("a")]),
        KeyPath::Multi(vec![text("a"), text("")]),
        KeyPath::Multi(vec![text("a"), text("b")]),
        KeyPath::Multi(vec![text("ab")]),
        KeyPath::Multi(vec![text("b")]),
        KeyPath::Multi(vec![text("\u{e9}"), text("a")]),
    ]
}

#[test]
fn partial_order_agrees_with_total_order() {
    let all = samples();
    for a in &all {
        for b in &all {
            assert_eq!(a.partial_cmp(b), Some(a.cmp(b)), "{:?} and {:?}", a, b);
        }
    }
}

#[test]
fn order_agrees_with_equality() {
    let all = samples();
    for (i, a) in all.iter().enumerate() {
        for (j, b) in all.iter().enumerate() {
            assert_eq!(a == b, i == j);
            assert_eq!(a.partial_cmp(b) == Some(std::cmp::Ordering::Equal), a == b);
            assert_eq!(a.partial_cmp(b).map(|o| o.reverse()), b.partial_cmp(a));
            assert_eq!(a < b, b > a);
        }
    }
}

#[test]
fn strings_are_ordered_by_their_bytes() {
    assert_eq!(compare_bytes(b"", b""), Precedence::Same);
    assert_eq!(compare_bytes(b"", b"a"), Precedence::Before);
    assert_eq!(compare_bytes(b"a", b""), Precedence::After);
    assert_eq!(compare_bytes(b"ab", b"b"), Precedence::Before);
    assert_eq!(compare_bytes(b"abc", b"abd"), Precedence::Before);
    assert_eq!(compare_bytes(b"abd", b"abc"), Precedence::After);
    assert_eq!(compare_bytes(b"abc", b"abc"), Precedence::Same);
    assert_eq!(compare_bytes(b"abc", b"ab"), Precedence::After);
    assert_eq!(compare_bytes(&[0xff], &[0x00, 0x01]), Precedence::After);
    assert_eq!(compare_text("Z", "a"), Precedence::Before);
    assert_eq!(compare_text("\u{e9}", "z"), Precedence::After);
    assert_eq!(compare_text("id", "id"), Precedence::Same);
    assert_eq!(compare_texts(&vec![text("a")], &vec![text("a"), text("b")]), Precedence::Before);
    assert_eq!(compare_texts(&vec![text("b")], &vec![text("a"), text("b")]), Precedence::After);
    assert_eq!(compare_texts(&vec![], &vec![]), Precedence::Same);
    assert_eq!(
        KeyPath::Single(text("a")).precedence(&KeyPath::Multi(vec![])),
        Precedence::Before
    );
    assert_eq!(KeyPath::Multi(vec![]).precedence(&KeyPath::OutOfLine), Precedence::After);
}

#[test]
fn lists_of_names() {
    let names = vec![text("b"), text("a"), text("c"), text("a")];
    assert_eq!(position(&names, "a"), Some(1));
    assert_eq!(position(&names, "c"), Some(2));
    assert_eq!(position(&names, "d"), None);
    assert_eq!(position(&vec![], "a"), None);
    assert!(!all_distinct(&names));
    assert!(all_distinct(&vec![text("b"), text("a"), text("c")]));
    assert!(all_distinct(&vec![]));
    assert_eq!(clone_names(&names), names);
    assert!(same_names(&names, &clone_names(&names)));
    assert!(!same_names(&names, &vec![text("b"), text("a"), text("c")]));
    assert!(!same_names(&names, &vec![text("b"), text("a"), text("c"), text("b")]));
}

#[test]
fn composed_key_path_needs_a_part() {
    assert!(KeyPath::OutOfLine.is_well_formed());
    assert!(KeyPath::Single(text("")).is_well_formed());
    assert!(KeyPath::Multi(vec![text("a")]).is_well_formed());
    assert!(!KeyPath::Multi(vec![]).is_well_formed());
}

#[test]
fn empty_array_becomes_empty_multi() {
    assert_eq!(KeyPath::from_host(HostValue::<u32>::Array(vec![])), KeyPath::Multi(vec![]));
    let value: HostValue<u32> = KeyPath::Multi(vec![]).into_host();
    match value {
        HostValue::Array(l) => assert!(l.is_empty()),
        other => panic!("expected an array, found {:?}", other),
    }
}

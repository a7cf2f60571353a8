use colossus::datum::{Datum, Number};
use colossus::heap::Heap;

#[test]
fn test_heap_new() {
    let heap = Heap::new();
    assert!(heap.is_empty());
    assert_eq!(heap.len(), 0);
}

#[test]
fn test_heap_default() {
    let heap = Heap::default();
    assert!(heap.is_empty());
}

#[test]
fn test_heap_insert_and_get() {
    let mut heap = Heap::new();

    // Insert a string value
    let old_value = heap.insert("name", Some(Datum::String("John".to_string())));
    assert_eq!(old_value, None);
    assert_eq!(heap.get("name"), Some(&Datum::String("John".to_string())));

    // Insert a number value
    heap.insert("age", Some(Datum::Number(30.into())));
    assert_eq!(heap.get("age"), Some(&Datum::Number(30.into())));

    // Insert a boolean value
    heap.insert("active", Some(Datum::Bool(true)));
    assert_eq!(heap.get("active"), Some(&Datum::Bool(true)));

    // Test non-existent key
    assert_eq!(heap.get("nonexistent"), None);
}

#[test]
fn test_heap_insert_overwrite() {
    let mut heap = Heap::new();

    heap.insert("name", Some(Datum::String("John".to_string())));
    let old_value = heap.insert("name", Some(Datum::String("Jane".to_string())));

    assert_eq!(old_value, Some(Datum::String("John".to_string())));
    assert_eq!(heap.get("name"), Some(&Datum::String("Jane".to_string())));
}

#[test]
fn test_heap_contains_key() {
    let mut heap = Heap::new();

    assert!(!heap.contains_key("name"));

    heap.insert("name", Some(Datum::String("John".to_string())));
    assert!(heap.contains_key("name"));
    assert!(!heap.contains_key("age"));
}

#[test]
fn test_heap_remove() {
    let mut heap = Heap::new();

    heap.insert("name", Some(Datum::String("John".to_string())));
    heap.insert("age", Some(Datum::Number(30.into())));

    assert_eq!(heap.len(), 2);

    let removed = heap.remove("name");
    assert_eq!(removed, Some(Datum::String("John".to_string())));
    assert_eq!(heap.len(), 1);
    assert!(!heap.contains_key("name"));
    assert!(heap.contains_key("age"));

    // Remove non-existent key
    let removed = heap.remove("nonexistent");
    assert_eq!(removed, None);
}

#[test]
fn test_heap_clear() {
    let mut heap = Heap::new();

    heap.insert("name", Some(Datum::String("John".to_string())));
    heap.insert("age", Some(Datum::Number(30.into())));

    assert_eq!(heap.len(), 2);
    assert!(!heap.is_empty());

    heap.clear();

    assert_eq!(heap.len(), 0);
    assert!(heap.is_empty());
}

#[test]
fn test_heap_from_hashmap() {
    let data = vec![
        ("name".to_string(), Some(Datum::String("John".to_string()))),
        ("age".to_string(), Some(Datum::Number(30.into()))),
    ];

    let heap = Heap::from_entries(data);

    assert_eq!(heap.len(), 2);
    assert_eq!(heap.get("name"), Some(&Datum::String("John".to_string())));
    assert_eq!(heap.get("age"), Some(&Datum::Number(30.into())));
}

#[test]
fn test_heap_into_hashmap() {
    let mut heap = Heap::new();
    heap.insert("name", Some(Datum::String("John".to_string())));
    heap.insert("age", Some(Datum::Number(30.into())));

    let data: Vec<(String, Option<Datum>)> = heap.into_entries();

    assert_eq!(data.len(), 2);
    assert_eq!(
        data.iter().find(|(key, _)| key == "name").map(|(_, value)| value),
        Some(&Some(Datum::String("John".to_string())))
    );
    assert_eq!(
        data.iter().find(|(key, _)| key == "age").map(|(_, value)| value),
        Some(&Some(Datum::Number(30.into())))
    );
}

#[test]
fn test_heap_parse_simple_variables() {
    let mut heap = Heap::new();
    heap.insert("name", Some(Datum::String("John".to_string())));
    heap.insert("age", Some(Datum::Number(30.into())));

    let input = Datum::String("Hello ${{name}}, you are ${{age}} years old".to_string());
    let result = heap.parse(Some(input));

    assert_eq!(
        result,
        Some(Datum::String(
            "Hello John, you are 30 years old".to_string()
        ))
    );
}

#[test]
fn test_heap_parse_no_variables() {
    let heap = Heap::new();
    let input = Datum::String("Hello, World!".to_string());
    let result = heap.parse(Some(input.clone()));

    assert_eq!(result, Some(input));
}

#[test]
fn test_heap_parse_unknown_variables() {
    let heap = Heap::new();
    let input = Datum::String("Hello ${{unknown}}".to_string());
    let result = heap.parse(Some(input.clone()));

    // Unknown variables should be left as-is
    assert_eq!(result, Some(input));
}

#[test]
fn test_heap_parse_non_string_values() {
    let heap = Heap::new();

    // Number value
    let number_input = Datum::Number(42.into());
    let result = heap.parse(Some(number_input.clone()));
    assert_eq!(result, Some(number_input));

    // Boolean value
    let bool_input = Datum::Bool(true);
    let result = heap.parse(Some(bool_input.clone()));
    assert_eq!(result, Some(bool_input));

    // Null value
    let null_input = Datum::Null;
    let result = heap.parse(Some(null_input.clone()));
    assert_eq!(result, Some(null_input));
}

#[test]
fn test_heap_parse_none_value() {
    let heap = Heap::new();
    let result = heap.parse(None);
    assert_eq!(result, None);
}

#[test]
fn test_heap_value_to_string() {
    let heap = Heap::new();

    // String
    assert_eq!(
        heap.value_to_string(&Datum::String("test".to_string())),
        "test"
    );

    // Number
    assert_eq!(heap.value_to_string(&Datum::Number(42.into())), "42");

    // Boolean
    assert_eq!(heap.value_to_string(&Datum::Bool(true)), "true");
    assert_eq!(heap.value_to_string(&Datum::Bool(false)), "false");

    // Null
    assert_eq!(heap.value_to_string(&Datum::Null), "null");
}

#[test]
fn test_heap_insert_none_value() {
    let mut heap = Heap::new();

    // Insert None value
    heap.insert("null_key", None);
    assert_eq!(heap.get("null_key"), None);
    assert!(heap.contains_key("null_key"));

    // Insert Some(None) value
    heap.insert("null_key2", Some(Datum::Null));
    assert_eq!(heap.get("null_key2"), Some(&Datum::Null));
}

fn texts(heap: &Heap, input: &str) -> String {
    match heap.parse(Some(Datum::String(input.to_string()))) {
        Some(Datum::String(text)) => text,
        other => panic!("expected a string, got {:?}", other),
    }
}

fn people() -> Heap {
    let mut heap = Heap::new();
    heap.insert("name", Some(Datum::String("John".to_string())));
    heap.insert("age", Some(Datum::Number(30.into())));
    heap
}

#[test]
fn parse_renders_resolved_tokens() {
    assert_eq!(
        texts(&people(), "Hello ${{name}}, you are ${{age}}"),
        "Hello John, you are 30"
    );
}

#[test]
fn parse_leaves_a_missing_token_unchanged() {
    let heap = people();
    assert!(!heap.contains_key("missing"));
    assert_eq!(texts(&heap, "a ${{missing}} b"), "a ${{missing}} b");
    assert_eq!(texts(&heap, "${{name}} ${{missing}}"), "John ${{missing}}");
}

#[test]
fn parse_treats_a_key_without_value_as_missing() {
    let mut heap = Heap::new();
    heap.insert("failed", None);
    assert!(heap.contains_key("failed"));
    assert_eq!(texts(&heap, "x${{failed}}y"), "x${{failed}}y");
}

#[test]
fn parse_trims_the_name_of_a_token() {
    let heap = people();
    assert_eq!(texts(&heap, "${{ name }}"), "John");
    assert_eq!(texts(&heap, "${{\tname\n}}|${{\u{a0}age\u{3000}}}"), "John|30");
    assert_eq!(texts(&heap, "${{ na me }}"), "${{ na me }}");
}

#[test]
fn parse_does_not_scan_a_replacement_again() {
    let mut heap = Heap::new();
    heap.insert("a", Some(Datum::String("${{b}}".to_string())));
    heap.insert("b", Some(Datum::String("B".to_string())));
    assert_eq!(texts(&heap, "${{a}}"), "${{b}}");
    assert_eq!(texts(&heap, "${{a}} ${{b}}"), "${{b}} B");
    assert_eq!(texts(&heap, "${{b}} ${{a}}"), "B ${{b}}");
}

#[test]
fn parse_replaces_every_occurrence_of_a_token() {
    let heap = people();
    assert_eq!(texts(&heap, "${{name}}${{name}} ${{name}}"), "JohnJohn John");
}

#[test]
fn parse_recognises_tokens_by_the_grammar() {
    let heap = people();
    // An empty name is no token.
    assert_eq!(texts(&heap, "${{}}"), "${{}}");
    // A single closing brace ends no token.
    assert_eq!(texts(&heap, "${{name}"), "${{name}");
    assert_eq!(texts(&heap, "${{name} }"), "${{name} }");
    // Without the dollar sign there is no token.
    assert_eq!(texts(&heap, "{{name}}"), "{{name}}");
    assert_eq!(texts(&heap, "Hello {{name}}"), "Hello {{name}}");
    // A name runs up to the first closing brace, and may hold an opening.
    assert_eq!(texts(&heap, "${{x${{name}}"), "${{x${{name}}");
    // A failed start does not hide the token after it.
    assert_eq!(texts(&heap, "${{}${{name}}"), "${{}John");
    assert_eq!(texts(&heap, "$${{name}}}"), "$John}");
    assert_eq!(texts(&heap, "${${{name}}"), "${John");
    assert_eq!(texts(&heap, ""), "");
    assert_eq!(texts(&heap, "é${{name}}ü"), "éJohnü");
}

#[test]
fn parse_keeps_compound_values_with_token_text_unchanged() {
    let heap = people();
    let sequence = Datum::Sequence(vec![Datum::String("${{name}}".to_string())]);
    assert_eq!(heap.parse(Some(sequence.clone())), Some(sequence));
    let mapping = Datum::Mapping(vec![(
        "${{name}}".to_string(),
        Datum::String("${{age}}".to_string()),
    )]);
    assert_eq!(heap.parse(Some(mapping.clone())), Some(mapping));
    let number = Datum::Number(Number::Float("1.5".to_string()));
    assert_eq!(heap.parse(Some(number.clone())), Some(number));
}

#[test]
fn value_to_string_writes_integers_in_decimal() {
    let heap = Heap::new();
    let text = |n: i64| heap.value_to_string(&Datum::Number(Number::Integer(n)));
    assert_eq!(text(0), "0");
    assert_eq!(text(7), "7");
    assert_eq!(text(10), "10");
    assert_eq!(text(-1), "-1");
    assert_eq!(text(1234567890), "1234567890");
    assert_eq!(text(i64::MAX), "9223372036854775807");
    assert_eq!(text(i64::MIN), "-9223372036854775808");
    for n in [-1000i64, -99, -10, 5, 99, 100, 101, 65535, 1 << 40] {
        assert_eq!(text(n), n.to_string());
    }
}

#[test]
fn value_to_string_gives_the_text_of_a_float() {
    let heap = Heap::new();
    let text = |x: f64| heap.value_to_string(&Datum::Number(Number::Float(x.to_string())));
    assert_eq!(text(2.5), "2.5");
    assert_eq!(text(-0.125), "-0.125");
    assert_eq!(text(1.0), "1");
    assert_eq!(text(1e21), "1000000000000000000000");
    assert_eq!(text(f64::INFINITY), "inf");
    assert_eq!(text(f64::NAN), "NaN");
    // Whatever the text, it stands for itself.
    for held in ["1.0", "1.2.3", "", "é", "1é", "€", "0x€", "１２"] {
        assert_eq!(
            heap.value_to_string(&Datum::Number(Number::Float(held.to_string()))),
            held
        );
    }
}

#[test]
fn a_float_in_a_sequence_is_written_as_a_float() {
    let heap = Heap::new();
    let sequence = Datum::Sequence(vec![
        Datum::Number(Number::Float(1.0f64.to_string())),
        Datum::Number(Number::Float(2.5f64.to_string())),
        Datum::Number(1.into()),
    ]);
    let lines: Vec<String> = heap.value_to_string(&sequence).lines().map(String::from).collect();
    assert_eq!(lines, vec!["- 1.0", "- 2.5", "- 1"]);
}

#[test]
fn value_to_string_writes_compound_values_as_yaml() {
    let heap = Heap::new();
    let sequence = Datum::Sequence(vec![
        Datum::Number(1.into()),
        Datum::String("two".to_string()),
        Datum::Bool(true),
        Datum::Null,
    ]);
    let text = heap.value_to_string(&sequence);
    assert_ne!(text, "");
    let lines: Vec<&str> = text.lines().collect();
    assert_eq!(lines, vec!["- 1", "- two", "- true", "- null"]);

    let mapping = Datum::Mapping(vec![
        ("name".to_string(), Datum::String("John".to_string())),
        ("age".to_string(), Datum::Number(30.into())),
    ]);
    let text = heap.value_to_string(&mapping);
    let lines: Vec<&str> = text.lines().collect();
    assert_eq!(lines, vec!["name: John", "age: 30"]);
}

#[test]
fn parse_renders_a_compound_value_as_yaml() {
    let mut heap = Heap::new();
    heap.insert(
        "list",
        Some(Datum::Sequence(vec![Datum::Number(1.into()), Datum::Number(2.into())])),
    );
    let whole = heap.value_to_string(heap.get("list").unwrap());
    assert_eq!(texts(&heap, "<${{list}}>"), format!("<{}>", whole));
}

#[test]
fn insert_returns_no_previous_value_for_a_key_without_value() {
    let mut heap = Heap::new();
    assert_eq!(heap.insert("k", None), None);
    assert_eq!(heap.insert("k", Some(Datum::Bool(false))), None);
    assert_eq!(heap.insert("k", None), Some(Datum::Bool(false)));
    assert_eq!(heap.len(), 1);
    assert_eq!(heap.remove("k"), None);
    assert!(!heap.contains_key("k"));
    assert!(heap.is_empty());
}

#[test]
fn from_entries_lets_the_last_entry_of_a_key_count() {
    let heap = Heap::from_entries(vec![
        ("k".to_string(), Some(Datum::Bool(true))),
        ("other".to_string(), None),
        ("k".to_string(), Some(Datum::Bool(false))),
    ]);
    assert_eq!(heap.len(), 2);
    assert_eq!(heap.get("k"), Some(&Datum::Bool(false)));
    assert!(heap.contains_key("other"));
    assert_eq!(heap.entries().len(), 2);
}

#[test]
fn a_float_whose_text_is_no_number_is_written_as_a_string() {
    let heap = Heap::new();
    let sequence = Datum::Sequence(vec![
        Datum::Number(1.into()),
        Datum::Mapping(vec![(
            "deep".to_string(),
            Datum::Sequence(vec![Datum::Number(Number::Float("1é".to_string()))]),
        )]),
        Datum::Number(Number::Float("€".to_string())),
    ]);
    let same = Datum::Sequence(vec![
        Datum::Number(1.into()),
        Datum::Mapping(vec![(
            "deep".to_string(),
            Datum::Sequence(vec![Datum::String("1é".to_string())]),
        )]),
        Datum::String("€".to_string()),
    ]);
    let text = heap.value_to_string(&sequence);
    assert_ne!(text, "");
    assert_eq!(text, heap.value_to_string(&same));
}

#[test]
fn parse_renders_floats_of_any_text_without_failing() {
    let mut heap = Heap::new();
    heap.insert("odd", Some(Datum::Number(Number::Float("1é".to_string()))));
    heap.insert(
        "list",
        Some(Datum::Sequence(vec![Datum::Number(Number::Float("€".to_string()))])),
    );
    heap.insert("half", Some(Datum::Number(Number::Float("0.5".to_string()))));
    let list = heap.value_to_string(heap.get("list").unwrap());
    assert_eq!(texts(&heap, "<${{odd}}|${{half}}|${{list}}>"), format!("<1é|0.5|{}>", list));
}

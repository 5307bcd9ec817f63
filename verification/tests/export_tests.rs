use simple_prometheus_exporter::{Exporter, ExporterSession};

#[test]
fn test_export() {
    let exporter = Exporter::new();
    let mut s = exporter.session();
    s.export("foo", 1, &[]);
    s.export("bar", 2, &[("baz", "qux")]);

    let string_label = String::from("world");
    s.export("baz", 3, &[("hello", &string_label)]);

    assert_eq!(
        s.to_string(),
        "foo 1\nbar{baz=\"qux\"} 2\nbaz{hello=\"world\"} 3\n"
    )
}

#[test]
fn test_macro() {
    let exporter = Exporter::new();
    let mut s = exporter.session();
    s.export("foo", 1, &[]);
    s.export("bar", 2, &[("baz", "qux")]);

    let string_label = String::from("world");
    s.export("baz", 3, &[("hello", &string_label), ("a", "b")]);

    assert_eq!(
        s.to_string(),
        "foo 1\nbar{baz=\"qux\"} 2\nbaz{hello=\"world\",a=\"b\"} 3\n"
    )
}

#[test]
fn test_global_labels() {
    let mut exporter = Exporter::new();
    exporter.add_global_label("hello", &String::from("world"));

    let mut s = exporter.session();
    s.export("foo", 1, &[]);
    s.export("bar", 2, &[("baz", "qux")]);
    s.export("baz", 3, &[("lorem", "ipsum")]);

    assert_eq!(
        s.to_string(),
        "foo{hello=\"world\"} 1\nbar{hello=\"world\",baz=\"qux\"} 2\nbaz{hello=\"world\",lorem=\"ipsum\"} 3\n"
    )
}

#[test]
fn test_no_labels_no_brace_block() {
    let exporter = Exporter::new();
    let mut s = exporter.session();
    s.export("name", 7, &[]);
    assert_eq!(s.to_string(), "name 7\n");
}

#[test]
fn test_fractional_value_text() {
    let exporter = Exporter::new();
    let mut s = exporter.session();
    let rendered = format!("{}", 1.23f64);
    s.export_text("example", &rendered, &[("foo", "bar")]);
    assert_eq!(s.to_string(), "example{foo=\"bar\"} 1.23\n");
}

#[test]
fn test_integral_float_renders_like_integer() {
    let exporter = Exporter::new();
    let mut s = exporter.session();
    let rendered = format!("{}", 1.0f64);
    s.export_text("foo", &rendered, &[]);
    s.export("foo", 1, &[]);
    assert_eq!(s.to_string(), "foo 1\nfoo 1\n");
}

#[test]
fn test_negative_and_extreme_values() {
    let exporter = Exporter::new();
    let mut s = exporter.session();
    s.export("a", -5, &[]);
    s.export("b", 0, &[]);
    s.export("c", i64::MAX, &[]);
    s.export("d", i64::MIN, &[]);
    assert_eq!(
        s.to_string(),
        "a -5\nb 0\nc 9223372036854775807\nd -9223372036854775808\n"
    );
}

#[test]
fn test_duplicate_keys_kept() {
    let mut exporter = Exporter::new();
    exporter.add_global_label("k", "g1");
    exporter.add_global_label("k", "g2");

    let mut s = exporter.session();
    s.export("m", 4, &[("k", "l1"), ("k", "l2")]);
    assert_eq!(s.to_string(), "m{k=\"g1\",k=\"g2\",k=\"l1\",k=\"l2\"} 4\n");
}

#[test]
fn test_global_labels_stable_across_sessions() {
    let mut exporter = Exporter::new();
    exporter.add_global_label("hello", "world");

    let mut s1 = exporter.session();
    s1.export("foo", 1, &[("a", "b")]);
    let first = s1.to_string();

    let mut s2 = exporter.session();
    s2.export("foo", 1, &[("a", "b")]);
    let second = s2.to_string();

    assert_eq!(first, second);
    assert_eq!(first, "foo{hello=\"world\",a=\"b\"} 1\n");
}

#[test]
fn test_buffer_snapshot_then_more_exports() {
    let exporter = Exporter::new();
    let mut s = exporter.session();
    s.export("one", 1, &[]);
    assert_eq!(s.to_string(), "one 1\n");
    s.export("two", 2, &[]);
    assert_eq!(s.to_string(), "one 1\ntwo 2\n");
}

#[test]
fn test_values_passed_through_unescaped() {
    let exporter = Exporter::new();
    let mut s = exporter.session();
    s.export("m", 1, &[("k", "va\"lue")]);
    assert_eq!(s.to_string(), "m{k=\"va\"lue\"} 1\n");
}

#[test]
fn test_special_float_values_pass_through() {
    let exporter = Exporter::new();
    let mut s = exporter.session();
    s.export_text("nanm", &format!("{}", f64::NAN), &[]);
    s.export_text("infm", &format!("{}", f64::INFINITY), &[]);
    assert_eq!(s.to_string(), "nanm NaN\ninfm inf\n");
}

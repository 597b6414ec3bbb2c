use hyperlight_core::structured_log::{StructuredValue, kv_render, render_i64, render_u64};

#[test]
fn line_renders_message_cid_and_fields() {
    let fields = vec![
        ("key1".to_string(), "1".to_string()),
        ("key2".to_string(), "\"two\"".to_string()),
    ];
    let out = hyperlight_core::structured_log::line("Message", Some("abc-123"), &fields);
    assert_eq!(out, "\"Message\" cid=\"abc-123\" key1=1 key2=\"two\"");
}

#[test]
fn line_without_cid_or_fields_is_just_the_quoted_message() {
    let out = hyperlight_core::structured_log::line("Message", None, &Vec::new());
    assert_eq!(out, "\"Message\"");
}

#[test]
fn kv_render_quotes_strings_and_not_numbers() {
    let (k, v) = kv_render("name", &"value");
    assert_eq!(k, "name");
    assert_eq!(v, "\"value\"");

    let (k, v) = kv_render("count", &42u64);
    assert_eq!(k, "count");
    assert_eq!(v, "42");

    let (_, v) = kv_render("on", &true);
    assert_eq!(v, "true");
    let (_, v) = kv_render("off", &false);
    assert_eq!(v, "false");
    let (_, v) = kv_render("temp", &-40i32);
    assert_eq!(v, "-40");
    let (_, v) = kv_render("owned", &"text".to_string());
    assert_eq!(v, "\"text\"");
}

#[test]
fn unsigned_rendering_is_exact_decimal() {
    assert_eq!(render_u64(0), "0");
    assert_eq!(render_u64(7), "7");
    assert_eq!(render_u64(10), "10");
    assert_eq!(render_u64(12345), "12345");
    assert_eq!(render_u64(u64::MAX), "18446744073709551615");
}

#[test]
fn signed_rendering_handles_the_edges() {
    assert_eq!(render_i64(0), "0");
    assert_eq!(render_i64(-1), "-1");
    assert_eq!(render_i64(42), "42");
    assert_eq!(render_i64(i64::MIN), "-9223372036854775808");
    assert_eq!(render_i64(i64::MAX), "9223372036854775807");
}

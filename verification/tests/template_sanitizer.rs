use candle_vllm::template_sanitizer::sanitize_template;

#[test]
fn test_reverse_slicing() {
    let input = "{{ items[::-1] }}";
    assert_eq!(sanitize_template(input), "{{ items|reverse }}");
}

#[test]
fn test_safe_filter_removal() {
    let input = "{{ value | tojson | safe }}";
    assert_eq!(sanitize_template(input), "{{ value | tojson }}");
}

#[test]
fn test_meta_removal() {
    let input = r#"{%- set meta = message.get("metadata", "") %}{{ meta }}rest"#;
    let result = sanitize_template(input);
    assert!(!result.contains("meta"));
    assert!(result.contains("rest"));
}

#[test]
fn test_arguments_items_fix() {
    let input = "{% for key, val in arguments | items %}";
    let result = sanitize_template(input);
    assert!(result.contains("arguments.items()"));
}

#[test]
fn test_passthrough_clean_template() {
    let input = "<|im_start|>{{ role }}\n{{ content }}<|im_end|>";
    assert_eq!(sanitize_template(input), input);
}

#[test]
fn compact_tojson_safe_is_normalised() {
    assert_eq!(sanitize_template("{{ x|tojson|safe }}"), "{{ x| tojson }}");
}

#[test]
fn bare_safe_filter_is_dropped() {
    assert_eq!(sanitize_template("{{ name | safe }} and {{ other | safe }}"), "{{ name  }} and {{ other  }}");
}

#[test]
fn meta_assignments_stay_without_meta_reference() {
    let input = r#"{% set meta = message.get("metadata", "") %}{{ content }}"#;
    assert_eq!(sanitize_template(input), input);
}

#[test]
fn both_meta_assignment_forms_are_removed() {
    let input = r#"A{% set meta = message.get("metadata", "") %}B{%- set meta = message.get("metadata", "") %}C{{ meta }}D"#;
    assert_eq!(sanitize_template(input), "ABCD");
}

#[test]
fn every_occurrence_is_replaced() {
    assert_eq!(sanitize_template("a[::-1]b[::-1]"), "a|reverseb|reverse");
    assert_eq!(sanitize_template("[::-1][::-1]"), "|reverse|reverse");
}

#[test]
fn non_ascii_text_is_kept() {
    let input = "{{ 名前 }} – ünïcødé [::-1]";
    assert_eq!(sanitize_template(input), "{{ 名前 }} – ünïcødé |reverse");
}

#[test]
fn empty_template() {
    assert_eq!(sanitize_template(""), "");
}

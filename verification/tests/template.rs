use warp_app::localization::replace_placeholders;
use warp_app::template::{extract_single_placeholder_value, extract_template_args, single_placeholder_name};

fn pairs(items: &[(&str, &str)]) -> Vec<(String, String)> {
    items.iter().map(|(k, v)| (k.to_string(), v.to_string())).collect()
}

#[test]
fn template_arguments_are_read_back() {
    assert_eq!(
        extract_template_args("Invalid API key for {provider}. Update it.", "Invalid API key for OpenAI. Update it."),
        Some(pairs(&[("provider", "OpenAI")]))
    );
    assert_eq!(
        extract_template_args("{a} and {b}", "x and y"),
        Some(pairs(&[("a", "x"), ("b", "y")]))
    );
    assert_eq!(extract_template_args("no placeholder", "no placeholder"), Some(Vec::new()));
    assert_eq!(extract_template_args("no placeholder", "something else"), None);
    assert_eq!(extract_template_args("Error: {message}", "Warning: boom"), None);
}

#[test]
fn single_placeholder_helpers() {
    assert_eq!(single_placeholder_name("Context window exceeded: {message}"), Some("message".to_string()));
    assert_eq!(single_placeholder_name("plain"), None);
    assert_eq!(
        extract_single_placeholder_value("Context window exceeded: {message}", "Context window exceeded: too big"),
        Some("too big".to_string())
    );
    assert_eq!(
        extract_single_placeholder_value("Context window exceeded: {message}", "Something else"),
        None
    );
}

#[test]
fn extracted_arguments_fill_the_template_back() {
    let cases = [
        ("Invalid API key for {provider}. Update it.", "Invalid API key for OpenAI. Update it."),
        ("{a} and {b}", "x and y"),
        ("{a}, {a}!", "hi, hi!"),
        ("Error: {message}", "Error: disk full"),
        ("plain text", "plain text"),
    ];
    for (pattern, message) in cases {
        let args = extract_template_args(pattern, message).expect("the message has the pattern's shape");
        assert_eq!(replace_placeholders(pattern, &args), Ok(message.to_string()));
    }
}

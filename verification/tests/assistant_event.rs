use kiro_rs::kiro::model::events::assistant::strip_tool_use_xml_leaks;
use kiro_rs::kiro::model::events::AssistantResponseEvent;

#[test]
fn test_strip_tool_use_xml_leaks() {
    let content =
        "before\n<tool_use id=\"toolu_1\" name=\"Read\">\n{\"path\":\"/a\"}\n</tool_use>\nafter";
    assert_eq!(strip_tool_use_xml_leaks(content), "before\n\nafter");
}

#[test]
fn test_strip_tool_use_xml_leaks_keeps_similar_text() {
    let content = "use <tool_user> as an example";
    assert_eq!(strip_tool_use_xml_leaks(content), content);
}

#[test]
fn test_strip_tool_use_xml_leaks_drops_truncated_open_tag() {
    let content = "before\n\n<tool_use id=\"toolu_1\" name=\"Write\"";
    assert_eq!(strip_tool_use_xml_leaks(content), "before");
}

#[test]
fn test_display() {
    let event = AssistantResponseEvent { content: "test".to_string(), ..Default::default() };
    assert_eq!(event.to_text(), "test");
}

#[test]
fn similar_text_is_kept_even_without_a_closing_bracket() {
    assert_eq!(strip_tool_use_xml_leaks("see <tool_users below"), "see <tool_users below");
    assert_eq!(
        strip_tool_use_xml_leaks("<tool_users and <tool_use>x</tool_use> end"),
        "<tool_users and  end"
    );
}

#[test]
fn what_follows_a_lookalike_or_a_leak_is_treated_the_same() {
    assert_eq!(
        strip_tool_use_xml_leaks("<tool_user><tool_use>x</tool_use>y<tool_use"),
        "<tool_user>y"
    );
}

#[test]
fn several_leaks_are_removed() {
    assert_eq!(
        strip_tool_use_xml_leaks("a<tool_use>1</tool_use>b<tool_use\tx=\"1\">2</tool_use>c"),
        "abc"
    );
}

#[test]
fn a_leak_that_nothing_closes_takes_the_rest_along() {
    assert_eq!(strip_tool_use_xml_leaks("  kept <tool_use>dropped </tool_us"), "kept");
    assert_eq!(strip_tool_use_xml_leaks("kept <tool_use"), "kept");
}

#[test]
fn clean_text_is_only_trimmed() {
    assert_eq!(strip_tool_use_xml_leaks("  今天 天气\u{3000}\n"), "今天 天气");
    assert_eq!(strip_tool_use_xml_leaks(""), "");
}

#[test]
fn an_empty_event_is_empty_text() {
    assert_eq!(AssistantResponseEvent::default().to_text(), "");
    let event = AssistantResponseEvent { content: "x y".to_string() };
    assert_eq!(event.clone().content, "x y");
}

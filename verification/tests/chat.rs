use gemini_rs::chat::Chat;
use gemini_rs::chat::Json;
use gemini_rs::chat::Text;
use gemini_rs::chat::JSON_MIME_TYPE;
use gemini_rs::types::Content;
use gemini_rs::types::HarmBlockThreshold;
use gemini_rs::types::HarmCategory;
use gemini_rs::types::Part;
use gemini_rs::types::Role;
use gemini_rs::types::SafetySettings;
use gemini_rs::types::Schema;
use gemini_rs::types::Type;

#[test]
fn new_chat_is_empty() {
    let c: Chat<Text> = Chat::new("gemini-2.0-flash");
    assert_eq!(c.model(), "gemini-2.0-flash");
    assert!(c.instruction().is_none());
    assert!(c.safety().is_empty());
    assert!(c.history().is_empty());
    assert!(c.current_config().is_none());
}

#[test]
fn config_is_made_on_first_use() {
    let mut c: Chat<Text> = Chat::new("m");
    assert!(c.config().top_k.is_none());
    assert!(c.current_config().is_some());
    c.config_mut().top_k = Some(40);
    assert_eq!(c.config().top_k, Some(40));
    c.config_mut().candidate_count = Some(2);
    assert_eq!(c.config().top_k, Some(40));
    assert_eq!(c.config().candidate_count, Some(2));
}

#[test]
fn to_json_sets_the_mime_type_and_keeps_the_rest() {
    let mut c: Chat<Text> = Chat::new("m");
    c.config_mut().top_k = Some(5);
    c.send_message("hi");
    let c = c.system_instruction("be brief");
    let j: Chat<Json> = c.to_json();
    assert_eq!(JSON_MIME_TYPE, "application/json");
    assert_eq!(
        j.current_config().unwrap().response_mime_type.as_deref(),
        Some("application/json")
    );
    assert_eq!(j.current_config().unwrap().top_k, Some(5));
    assert_eq!(j.model(), "m");
    assert_eq!(j.instruction(), Some("be brief"));
    assert_eq!(j.history().len(), 1);
}

#[test]
fn to_json_without_config_sets_only_the_mime_type() {
    let c: Chat<Text> = Chat::new("m");
    let j = c.to_json();
    let config = j.current_config().unwrap();
    assert_eq!(config.response_mime_type.as_deref(), Some("application/json"));
    assert!(config.top_k.is_none());
    assert!(config.response_schema.is_none());
    assert!(config.stop_sequences.is_none());
}

#[test]
fn response_schema_is_stored() {
    let c: Chat<Text> = Chat::new("m");
    let mut schema = Schema::default();
    schema.schema_type = Some(Type::Object);
    let j = c.to_json().response_schema(schema);
    let config = j.current_config().unwrap();
    assert_eq!(config.response_schema.as_ref().unwrap().schema_type, Some(Type::Object));
    assert_eq!(config.response_mime_type.as_deref(), Some("application/json"));
}

#[test]
fn send_message_appends_a_user_text() {
    let mut c: Chat<Text> = Chat::new("m");
    c.send_message("one");
    c.send_message("two");
    assert_eq!(c.history().len(), 2);
    assert_eq!(c.history()[0].role, Role::User);
    assert_eq!(c.history()[0].parts.len(), 1);
    assert_eq!(c.history()[0].parts[0].text.as_deref(), Some("one"));
    assert_eq!(c.history()[1].parts[0].text.as_deref(), Some("two"));
}

#[test]
fn send_parted_messages_appends_the_parts() {
    let mut c: Chat<Text> = Chat::new("m");
    c.send_parted_messages(vec![Part::text("a"), Part::text("b")]);
    assert_eq!(c.history().len(), 1);
    assert_eq!(c.history()[0].role, Role::User);
    assert_eq!(c.history()[0].parts.len(), 2);
    assert_eq!(c.history()[0].parts[1].text.as_deref(), Some("b"));
}

#[test]
fn history_mut_gives_the_history_itself() {
    let mut c: Chat<Text> = Chat::new("m");
    c.send_message("one");
    c.history_mut().push(Content { role: Role::Model, parts: vec![Part::text("answer")] });
    assert_eq!(c.history().len(), 2);
    assert_eq!(c.history()[1].role, Role::Model);
    c.history_mut().clear();
    assert!(c.history().is_empty());
}

#[test]
fn safety_settings_are_replaced() {
    let mut c: Chat<Text> = Chat::new("m");
    c.safety_settings(vec![SafetySettings {
        category: HarmCategory::HarmCategoryHateSpeech,
        threshold: HarmBlockThreshold::BlockNone,
    }]);
    assert_eq!(c.safety().len(), 1);
    assert_eq!(c.safety()[0].threshold, HarmBlockThreshold::BlockNone);
    c.safety_settings(Vec::new());
    assert!(c.safety().is_empty());
}

#[test]
fn system_instruction_is_replaced() {
    let c: Chat<Text> = Chat::new("m");
    let c = c.system_instruction("first");
    assert_eq!(c.instruction(), Some("first"));
    let c = c.system_instruction("second");
    assert_eq!(c.instruction(), Some("second"));
    assert_eq!(c.model(), "m");
}

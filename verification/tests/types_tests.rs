use zenkit::error::ErrorInfo;
use zenkit::records::{opt_to_string, ChangedArray, ChangedValue, FromTo};
use zenkit::types::{DateTime, 
    AllId, BusinessData, Element, ElementCategoryId, ElementData, JsonMap, List, NumericType,
    PredefinedCategory, TextFormat, UpdateAction, Workspace, ZKObjectID,
};
use zenkit::Error;
use serde_json::Value;

fn list(id: u64, uuid: &str, short_id: &str, name: &str) -> List {
    List {
        id,
        short_id: short_id.to_string(),
        uuid: uuid.to_string(),
        name: name.to_string(),
        item_name: None,
        item_name_plural: None,
        is_building: false,
        is_migrating: false,
        sort_order: None,
        description: String::new(),
        created_at: DateTime { secs: 1577836800, nanos: 0 },
        updated_at: DateTime { secs: 1577836800, nanos: 0 },
        deprecated_at: None,
        origin_created_at: None,
        origin_updated_at: None,
        origin_deprecated_at: None,
        formula_tsort_order: None,
        list_file_policy: None,
        origin_provider: None,
        origin_data: None,
        default_view_modus: 0,
        background_id: None,
        icon_color: None,
        icon_background_color: None,
        workspace_id: 1,
        visibility: 0,
        created_by: 1,
    }
}

fn workspace(id: u64, uuid: &str, short_id: &str, name: &str) -> Workspace {
    Workspace {
        id,
        short_id: short_id.to_string(),
        uuid: uuid.to_string(),
        name: name.to_string(),
        description: None,
        is_default: false,
        created_at: DateTime { secs: 1577836800, nanos: 0 },
        updated_at: DateTime { secs: 1577836800, nanos: 0 },
        deprecated_at: None,
        background_id: None,
        created_by: 1,
        lists: vec![],
    }
}

fn choice(id: u64, uuid: &str, name: &str) -> PredefinedCategory {
    PredefinedCategory {
        id,
        short_id: format!("c{}", id),
        uuid: uuid.to_string(),
        name: name.to_string(),
        color: "ffffff".to_string(),
        created_at: DateTime { secs: 1577836800, nanos: 0 },
        updated_at: DateTime { secs: 1577836800, nanos: 0 },
        deprecated_at: None,
        element_id: 10,
        list_id: 100,
        resource_tags: vec![],
        sort_order: None,
    }
}

fn field(kind: ElementCategoryId, choices: Option<Vec<PredefinedCategory>>) -> Element {
    Element {
        id: 10,
        short_id: "f10".to_string(),
        uuid: "11111111-2222-3333-4444-555555555555".to_string(),
        name: "State".to_string(),
        description: None,
        business_data: BusinessData { fields: JsonMap::new() },
        element_data: ElementData {
            predefined_categories: choices,
            multiple: false,
            child_list: None,
            child_list_uuid: None,
            mirror_element_uuid: None,
            fields: JsonMap::new(),
        },
        is_primary: false,
        is_auto_created: false,
        sort_order: None,
        visible: true,
        created_at: DateTime { secs: 1577836800, nanos: 0 },
        updated_at: DateTime { secs: 1577836800, nanos: 0 },
        deprecated_at: None,
        element_category: kind,
        list_id: 100,
        visible_in_public_list: None,
    }
}

#[test]
fn workspace_is_named_by_each_of_its_four_identifiers() {
    let w = workspace(42, "aaaaaaaa-bbbb-cccc-dddd-eeeeeeeeeeee", "Sk3x9a", "Marketing");
    assert!(w.has_id("42"));
    assert!(w.has_id("aaaaaaaa-bbbb-cccc-dddd-eeeeeeeeeeee"));
    assert!(w.has_id("Sk3x9a"));
    assert!(w.has_id("Marketing"));
    assert!(!w.has_id("marketing"));
    assert!(!w.has_id("MARKETING"));
    assert!(!w.has_id("Market"));
    assert!(!w.has_id("Marketing "));
    assert!(!w.has_id("042"));
    assert!(!w.has_id("+42"));
    assert!(!w.has_id("4"));
    assert!(!w.has_id("sk3x9a"));
    assert!(!w.has_id("AAAAAAAA-BBBB-CCCC-DDDD-EEEEEEEEEEEE"));
    assert!(!w.has_id(""));
    assert_eq!(w.get_id(), 42);
    assert_eq!(w.get_uuid(), "aaaaaaaa-bbbb-cccc-dddd-eeeeeeeeeeee");
    assert_eq!(w.get_description(), "");
}

#[test]
fn list_is_named_by_each_of_its_four_identifiers() {
    let l = list(7, "aaaaaaaa-bbbb-cccc-dddd-eeeeeeeeeeee", "abc123", "Tasks");
    for id in ["7", "aaaaaaaa-bbbb-cccc-dddd-eeeeeeeeeeee", "abc123", "Tasks"] {
        assert!(l.has_id(id), "{}", id);
    }
    for id in ["tasks", "8", "07", "7 ", "ABC123", ""] {
        assert!(!l.has_id(id), "{}", id);
    }
    assert_eq!(ZKObjectID::get_id(&l), 7);
    assert_eq!(ZKObjectID::get_uuid(&l), "aaaaaaaa-bbbb-cccc-dddd-eeeeeeeeeeee");
}

#[test]
fn a_name_made_of_digits_names_the_object_too() {
    let w = workspace(42, "u", "s", "43");
    assert!(w.has_id("42"));
    assert!(w.has_id("43"));
    assert!(!w.has_id("44"));
}

#[test]
fn choice_id_by_name_and_uuid() {
    let f = field(
        ElementCategoryId::Categories,
        Some(vec![
            choice(3, "aaaaaaaa-0000-0000-0000-000000000003", "Open"),
            choice(7, "aaaaaaaa-0000-0000-0000-000000000007", "Done"),
            choice(8, "aaaaaaaa-0000-0000-0000-000000000008", "Done"),
        ]),
    );
    assert_eq!(f.get_choice_id("Done").unwrap(), 7);
    assert_eq!(f.get_choice_id("aaaaaaaa-0000-0000-0000-000000000008").unwrap(), 8);
    match f.get_choice_id("Unknown") {
        Err(Error::NotFound(m)) => assert_eq!(m, "Invalid choice 'Unknown' for field 'State'"),
        other => panic!("{:?}", other),
    }
    assert!(matches!(f.get_choice_id("7"), Err(Error::NotFound(_))));
    assert!(matches!(f.get_choice_id("done"), Err(Error::NotFound(_))));
}

#[test]
fn choice_id_needs_a_categories_field_with_choices() {
    let f = field(ElementCategoryId::Text, Some(vec![choice(7, "u", "Done")]));
    assert!(matches!(f.get_choice_id("Done"), Err(Error::NotFound(_))));
    let f = field(ElementCategoryId::Categories, None);
    assert!(matches!(f.get_choice_id("Done"), Err(Error::NotFound(_))));
    let f = field(ElementCategoryId::Categories, Some(vec![]));
    assert!(matches!(f.get_choice_id("Done"), Err(Error::NotFound(_))));
}

fn with_format(kind: ElementCategoryId, format: Value) -> Element {
    let mut f = field(kind, None);
    f.element_data.fields.insert("format".to_string(), format);
    f
}

fn named_format(name: Value) -> Value {
    let mut m = JsonMap::new();
    m.insert("name".to_string(), name);
    Value::Object(m)
}

#[test]
fn numeric_type_is_read_from_the_format() {
    let int = with_format(ElementCategoryId::Number, named_format(Value::String("integer".into())));
    assert_eq!(int.numeric_type(), Some(NumericType::Integer));
    let dec = with_format(ElementCategoryId::Number, named_format(Value::String("decimal".into())));
    assert_eq!(dec.numeric_type(), Some(NumericType::Decimal));
    let other = with_format(ElementCategoryId::Number, named_format(Value::String("Integer".into())));
    assert_eq!(other.numeric_type(), None);
    let no_text = with_format(ElementCategoryId::Number, named_format(Value::Bool(true)));
    assert_eq!(no_text.numeric_type(), None);
    let no_object = with_format(ElementCategoryId::Number, Value::String("integer".into()));
    assert_eq!(no_object.numeric_type(), None);
    let no_name = with_format(ElementCategoryId::Number, Value::Object(JsonMap::new()));
    assert_eq!(no_name.numeric_type(), None);
    assert_eq!(field(ElementCategoryId::Number, None).numeric_type(), None);
    let text = with_format(ElementCategoryId::Text, named_format(Value::String("integer".into())));
    assert_eq!(text.numeric_type(), None);
}

#[test]
fn element_description_defaults_to_empty() {
    let mut f = field(ElementCategoryId::Text, None);
    assert_eq!(f.get_description(), "");
    f.description = Some("what it is".to_string());
    assert_eq!(f.get_description(), "what it is");
    assert_eq!(ZKObjectID::get_id(&f), 10);
    assert!(f.is_named("State") && f.is_named("10"));
    assert!(f.is_named("11111111-2222-3333-4444-555555555555"));
    assert!(!f.is_named("f10"));
}

#[test]
fn text_format_words() {
    assert_eq!(TextFormat::Plain.to_string(), "plain");
    assert_eq!(TextFormat::HTML.to_string(), "html");
    assert_eq!(TextFormat::Markdown.to_string(), "markdown");
    assert_eq!("plain".parse::<TextFormat>().unwrap(), TextFormat::Plain);
    assert_eq!("markdown".parse::<TextFormat>().unwrap(), TextFormat::Markdown);
    assert_eq!("html".parse::<TextFormat>().unwrap(), TextFormat::HTML);
    assert_eq!(TextFormat::default(), TextFormat::Plain);
    match TextFormat::parse("HTML") {
        Err(Error::Other(m)) => {
            assert_eq!(m, "TextFormat parse error: 'HTML' not 'plain', 'html', or 'markdown'")
        }
        other => panic!("{:?}", other),
    }
}

#[test]
fn update_action_words_and_signs() {
    assert_eq!(UpdateAction::Replace.to_string(), "replace");
    assert_eq!(UpdateAction::Append.to_string(), "append");
    assert_eq!(UpdateAction::Remove.to_string(), "remove");
    assert_eq!(UpdateAction::Null.to_string(), "");
    assert_eq!(UpdateAction::from('='), UpdateAction::Replace);
    assert_eq!(UpdateAction::from('+'), UpdateAction::Append);
    assert_eq!(UpdateAction::from('-'), UpdateAction::Remove);
    assert_eq!(UpdateAction::from('x'), UpdateAction::Null);
    assert_eq!(UpdateAction::Remove.name(), "Remove");
}

#[test]
fn category_codes() {
    assert_eq!(ElementCategoryId::Text.code(), 1);
    assert_eq!(ElementCategoryId::Categories.code(), 6);
    assert_eq!(ElementCategoryId::Persons.code(), 14);
    assert_eq!(ElementCategoryId::Dependencies.code(), 19);
    assert_eq!(ElementCategoryId::from_u64(0), None);
    assert_eq!(ElementCategoryId::from_u64(20), None);
    assert_eq!(ElementCategoryId::from_u64(16), Some(ElementCategoryId::References));
    for n in 1..=19u64 {
        assert_eq!(ElementCategoryId::from_u64(n).unwrap().code(), n);
    }
    assert_eq!(ElementCategoryId::URL.to_string(), "URL");
    assert_eq!(ElementCategoryId::UserCreatedBy.to_string(), "UserCreatedBy");
}

#[test]
fn all_id_texts() {
    assert_eq!(AllId::from(42u64).to_string(), "42");
    assert_eq!(AllId::from(&7u64).to_string(), "7");
    assert_eq!(AllId::from("Tasks").to_string(), "Tasks");
    assert_eq!(AllId::from(String::from("abc")).to_string(), "abc");
    assert_eq!(AllId::from(&String::from("abc")).to_string(), "abc");
    assert_eq!(AllId::ShortId("s1".into()).to_string(), "s1");
    assert_eq!(AllId::UUID("u1".into()).to_string(), "u1");
    assert!(matches!(AllId::from("x"), AllId::Any(_)));
    assert!(matches!(AllId::from(1u64), AllId::ID(1)));
}

fn api_error(code: &str) -> Error {
    Error::ApiError(
        429,
        Some(ErrorInfo {
            name: "LIMIT".to_string(),
            code: code.to_string(),
            status_code: 429,
            message: String::new(),
            description: String::new(),
        }),
    )
}

#[test]
fn rate_limit_is_told_by_the_code() {
    assert!(api_error("D1").is_rate_limit());
    assert!(api_error("D2").is_rate_limit());
    assert!(!api_error("D3").is_rate_limit());
    assert!(!api_error("d1").is_rate_limit());
    assert!(!api_error("").is_rate_limit());
    assert!(!Error::ApiError(429, None).is_rate_limit());
    assert!(!Error::Other("D1".to_string()).is_rate_limit());
    assert!(!Error::NotInitialized.is_rate_limit());
}

#[test]
fn changed_values_by_side() {
    let v = ChangedValue { value_from: Some("a".to_string()), value_to: None };
    assert_eq!(v.get(FromTo::From), &Some("a".to_string()));
    assert_eq!(v.get(FromTo::To), &None);
    assert_eq!(opt_to_string(v.get(FromTo::From)), "a");
    assert_eq!(opt_to_string(v.get(FromTo::To)), "");
    let a = ChangedArray {
        value_from: vec![1u64],
        value_to: vec![2u64, 3],
        value_from_as_strings: vec!["one".to_string()],
        value_to_as_strings: vec!["two".to_string(), "three".to_string()],
    };
    assert_eq!(a.get(FromTo::From), &vec![1]);
    assert_eq!(a.get(FromTo::To), &vec![2, 3]);
    assert_eq!(a.as_strings(FromTo::From), &vec!["one".to_string()]);
    assert_eq!(a.as_strings(FromTo::To).len(), 2);
}

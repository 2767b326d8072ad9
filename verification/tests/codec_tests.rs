use serde_json::{Number, Value};
use zenkit::codec::{DecimalReading, Pending};
use zenkit::types::{DateTime, FloatVal,
    fset_i, fset_id, fset_s, fset_t, fset_vid, fset_vs, fup_i, fup_s, fup_vid, fup_vs, BusinessData,
    Element, ElementCategoryId, ElementData, FieldVal, JsonMap, List, ListInfo, PredefinedCategory,
    TextFormat, UpdateAction, User,
};
use zenkit::{Error, UserCache};

const F_UUID: &str = "11111111-2222-3333-4444-555555555555";

fn choice(id: u64, uuid: &str, name: &str) -> PredefinedCategory {
    PredefinedCategory {
        id,
        short_id: format!("c{}", id),
        uuid: uuid.to_string(),
        name: name.to_string(),
        color: "ffffff".to_string(),
        created_at: DateTime { secs: 1577836800, nanos: 0 },
        updated_at: DateTime { secs: 1577836800, nanos: 0 },
        deprecated_at: None,
        element_id: 10,
        list_id: 100,
        resource_tags: vec![],
        sort_order: None,
    }
}

fn field(name: &str, kind: ElementCategoryId, multiple: bool) -> Element {
    Element {
        id: 10,
        short_id: "f10".to_string(),
        uuid: F_UUID.to_string(),
        name: name.to_string(),
        description: None,
        business_data: BusinessData { fields: JsonMap::new() },
        element_data: ElementData {
            predefined_categories: None,
            multiple,
            child_list: None,
            child_list_uuid: None,
            mirror_element_uuid: None,
            fields: JsonMap::new(),
        },
        is_primary: false,
        is_auto_created: false,
        sort_order: None,
        visible: true,
        created_at: DateTime { secs: 1577836800, nanos: 0 },
        updated_at: DateTime { secs: 1577836800, nanos: 0 },
        deprecated_at: None,
        element_category: kind,
        list_id: 100,
        visible_in_public_list: None,
    }
}

fn number_field(name: &str, subtype: Option<&str>) -> Element {
    let mut f = field(name, ElementCategoryId::Number, false);
    if let Some(word) = subtype {
        let mut format = JsonMap::new();
        format.insert("name".to_string(), Value::String(word.to_string()));
        f.element_data.fields.insert("format".to_string(), Value::Object(format));
    }
    f
}

fn categories_field(name: &str, multiple: bool) -> Element {
    let mut f = field(name, ElementCategoryId::Categories, multiple);
    f.element_data.predefined_categories = Some(vec![
        choice(5, "aaaaaaaa-0000-0000-0000-000000000005", "Open"),
        choice(7, "aaaaaaaa-0000-0000-0000-000000000007", "Done"),
        choice(9, "aaaaaaaa-0000-0000-0000-000000000009", "Done"),
    ]);
    f
}

fn list_of(fields: Vec<Element>) -> ListInfo {
    let list = List {
        id: 100,
        short_id: "l100".to_string(),
        uuid: "99999999-0000-0000-0000-000000000100".to_string(),
        name: "Tasks".to_string(),
        item_name: None,
        item_name_plural: None,
        is_building: false,
        is_migrating: false,
        sort_order: None,
        description: String::new(),
        created_at: DateTime { secs: 1577836800, nanos: 0 },
        updated_at: DateTime { secs: 1577836800, nanos: 0 },
        deprecated_at: None,
        origin_created_at: None,
        origin_updated_at: None,
        origin_deprecated_at: None,
        formula_tsort_order: None,
        list_file_policy: None,
        origin_provider: None,
        origin_data: None,
        default_view_modus: 0,
        background_id: None,
        icon_color: None,
        icon_background_color: None,
        workspace_id: 1,
        visibility: 0,
        created_by: 1,
    };
    ListInfo::new(list, fields)
}

fn user(id: u64, uuid: &str, display: &str, full: &str) -> User {
    User {
        id,
        short_id: format!("u{}", id),
        uuid: uuid.to_string(),
        display_name: display.to_string(),
        full_name: full.to_string(),
        initials: String::new(),
        user_name: display.to_string(),
        background_id: None,
        api_key: None,
        image_link: None,
        is_image_preferred: false,
        anonymous: None,
        locale: None,
        timezone: None,
        is_super_admin: None,
        registered_at: None,
        trello_token: None,
        settings: None,
        email_count: 1,
    }
}

fn roster() -> UserCache {
    let mut cache = UserCache::default();
    cache.replace_all(vec![
        user(1, "bbbbbbbb-0000-0000-0000-000000000001", "alice", "Alice Archer"),
        user(2, "bbbbbbbb-0000-0000-0000-000000000002", "Carol", "Carol Cook"),
    ]);
    cache
}

fn key(suffix: &str) -> String {
    format!("{}_{}", F_UUID, suffix)
}

fn ids(values: &[u64]) -> Value {
    Value::Array(values.iter().map(|v| Value::Number(Number::from(*v))).collect())
}

fn texts(values: &[&str]) -> Value {
    Value::Array(values.iter().map(|v| Value::String(v.to_string())).collect())
}

fn written(r: Result<Pending, Error>) {
    assert!(matches!(r, Ok(Pending::Nothing)), "{:?}", r);
}

fn validation(r: Result<Pending, Error>) -> String {
    match r {
        Err(Error::Validation(m)) => m,
        other => panic!("expected a validation error, got {:?}", other),
    }
}

fn not_found(r: Result<Pending, Error>) -> String {
    match r {
        Err(Error::NotFound(m)) => m,
        other => panic!("expected a not-found error, got {:?}", other),
    }
}

#[test]
fn text_field_takes_plain_text() {
    let li = list_of(vec![field("Title", ElementCategoryId::Text, false)]);
    let mut doc = JsonMap::new();
    written(li.generic_set(&mut doc, fset_s("Title", "hello"), &roster()));
    assert_eq!(doc.get(&key("text")), Some(&Value::String("hello".to_string())));
    assert_eq!(doc.len(), 1);
}

#[test]
fn text_field_takes_formatted_text() {
    let li = list_of(vec![field("Title", ElementCategoryId::Text, false)]);
    let mut doc = JsonMap::new();
    written(li.generic_set(
        &mut doc,
        fset_t("Title", "# head".to_string(), TextFormat::Markdown),
        &roster(),
    ));
    assert_eq!(doc.get(&key("text")), Some(&Value::String("# head".to_string())));
    assert_eq!(doc.get(&key("textType")), Some(&Value::String("markdown".to_string())));
    assert_eq!(doc.len(), 2);
}

#[test]
fn text_field_refuses_append() {
    let li = list_of(vec![field("Title", ElementCategoryId::Text, false)]);
    let mut doc = JsonMap::new();
    let m = validation(li.generic_set(
        &mut doc,
        fup_s("Title", "hello", UpdateAction::Append),
        &roster(),
    ));
    assert_eq!(m, "Invalid value (Str(\"hello\")) or action (Append) for field Title (type Text)");
    assert!(doc.is_empty());
}

#[test]
fn text_field_refuses_a_number() {
    let li = list_of(vec![field("Title", ElementCategoryId::Text, false)]);
    let mut doc = JsonMap::new();
    let m = validation(li.generic_set(&mut doc, fset_i("Title", -3), &roster()));
    assert_eq!(m, "Invalid value (Int(-3)) or action (Null) for field Title (type Text)");
    assert!(doc.is_empty());
}

#[test]
fn field_is_found_by_name_uuid_and_id() {
    let li = list_of(vec![
        field("Other", ElementCategoryId::Checkbox, false),
        field("Title", ElementCategoryId::Text, false),
    ]);
    for name in ["Title", F_UUID, "10"] {
        let mut doc = JsonMap::new();
        let r = li.generic_set(&mut doc, fset_s(name, "x"), &roster());
        if name == "Title" {
            written(r);
            assert_eq!(doc.get(&key("text")), Some(&Value::String("x".to_string())));
        } else {
            // uuid and id are those of the first field too, which is a checkbox
            let m = validation(r);
            assert_eq!(m, "Invalid value (Str(\"x\")) or action (Null) for field Other (type Checkbox)");
        }
    }
}

#[test]
fn unknown_field_is_not_found() {
    let li = list_of(vec![field("Title", ElementCategoryId::Text, false)]);
    let mut doc = JsonMap::new();
    let m = not_found(li.generic_set(&mut doc, fset_s("title", "x"), &roster()));
    assert_eq!(m, "Invalid field 'title' in list Tasks");
    assert!(doc.is_empty());
    assert!(matches!(li.get_field("Nope"), Err(Error::NotFound(_))));
    assert_eq!(li.get_field("Title").unwrap().name, "Title");
}

#[test]
fn number_field_takes_integers() {
    let li = list_of(vec![number_field("Count", Some("integer"))]);
    let mut doc = JsonMap::new();
    written(li.generic_set(&mut doc, fset_i("Count", -12), &roster()));
    assert_eq!(doc.get(&key("number")), Some(&Value::Number(Number::from(-12))));
    written(li.generic_set(&mut doc, fup_i("Count", 13, UpdateAction::Replace), &roster()));
    assert_eq!(doc.get(&key("number")), Some(&Value::Number(Number::from(13))));
    assert_eq!(doc.len(), 1);
}

#[test]
fn integer_field_coerces_text() {
    let li = list_of(vec![number_field("Count", Some("integer"))]);
    let mut doc = JsonMap::new();
    let m = validation(li.generic_set(&mut doc, fset_s("Count", "12.5"), &roster()));
    assert_eq!(m, "Invalid int value 12.5 for field Count");
    assert!(doc.is_empty());
    written(li.generic_set(&mut doc, fset_s("Count", "12"), &roster()));
    assert_eq!(doc.get(&key("number")), Some(&Value::Number(Number::from(12))));
    assert_eq!(doc.get(&key("number")).unwrap().as_i64(), Some(12));
}

#[test]
fn decimal_field_defers_text() {
    let li = list_of(vec![number_field("Price", Some("decimal"))]);
    let mut doc = JsonMap::new();
    let r = li.generic_set(&mut doc, fset_s("Price", "12.5"), &roster());
    assert!(doc.is_empty());
    let req = match r {
        Ok(Pending::Decimal(req)) => req,
        other => panic!("expected a request, got {:?}", other),
    };
    assert_eq!(req.key, key("number"));
    assert_eq!(req.text, "12.5");
    assert_eq!(req.field, "Price");
    let n = Number::from_f64(12.5).unwrap();
    assert!(matches!(req.complete(&mut doc, DecimalReading::Finite(n.clone())), Ok(())));
    assert_eq!(doc.get(&key("number")), Some(&Value::Number(n)));
    assert_eq!(doc.get(&key("number")).unwrap().as_f64(), Some(12.5));
}

#[test]
fn decimal_reading_that_failed_is_refused() {
    let li = list_of(vec![number_field("Price", Some("decimal"))]);
    let mut doc = JsonMap::new();
    let req = match li.generic_set(&mut doc, fset_s("Price", "abc"), &roster()) {
        Ok(Pending::Decimal(req)) => req,
        other => panic!("expected a request, got {:?}", other),
    };
    match req.complete(&mut doc, DecimalReading::Malformed) {
        Err(Error::Validation(m)) => assert_eq!(m, "Invalid float value abc for field Price"),
        other => panic!("{:?}", other),
    }
    assert!(doc.is_empty());
    let req = match li.generic_set(&mut doc, fset_s("Price", "inf"), &roster()) {
        Ok(Pending::Decimal(req)) => req,
        other => panic!("expected a request, got {:?}", other),
    };
    match req.complete(&mut doc, DecimalReading::NotFinite) {
        Err(Error::Validation(m)) => assert_eq!(m, "Float values cannot be Infinite or NaN"),
        other => panic!("{:?}", other),
    }
    assert!(doc.is_empty());
}

#[test]
fn number_field_without_subtype_refuses_text() {
    let li = list_of(vec![number_field("Count", None), number_field("Odd", Some("fraction"))]);
    let mut doc = JsonMap::new();
    let m = validation(li.generic_set(&mut doc, fset_s("Count", "12"), &roster()));
    assert_eq!(m, "Unknown numeric type at field Count");
    assert!(li.get_field("Count").unwrap().numeric_type().is_none());
    assert!(doc.is_empty());
}

#[test]
fn number_field_takes_finite_floats() {
    let li = list_of(vec![number_field("Price", Some("decimal"))]);
    let mut doc = JsonMap::new();
    let n = Number::from_f64(1.25).unwrap();
    let val = ("Price".to_string(), FieldVal::Float(FloatVal::Finite(n.clone())), UpdateAction::Null);
    written(li.generic_set(&mut doc, val, &roster()));
    assert_eq!(doc.get(&key("number")), Some(&Value::Number(n)));
    for not_finite in [FloatVal::NaN, FloatVal::Infinity, FloatVal::NegInfinity] {
        let val = ("Price".to_string(), FieldVal::Float(not_finite), UpdateAction::Null);
        let mut other = JsonMap::new();
        let m = validation(li.generic_set(&mut other, val, &roster()));
        assert_eq!(m, "Float values cannot be Infinite or NaN");
        assert!(other.is_empty());
    }
    let text = list_of(vec![field("Title", ElementCategoryId::Text, false)]);
    let val = ("Title".to_string(), FieldVal::Float(FloatVal::NegInfinity), UpdateAction::Replace);
    let m = validation(text.generic_set(&mut doc, val, &roster()));
    assert_eq!(m, "Invalid value (Float(-inf)) or action (Replace) for field Title (type Text)");
}

#[test]
fn link_and_date_fields_take_text_as_it_is() {
    let li = list_of(vec![field("Home", ElementCategoryId::URL, false)]);
    let mut doc = JsonMap::new();
    written(li.generic_set(&mut doc, fset_s("Home", "https://example.org"), &roster()));
    assert_eq!(doc.get(&key("link")), Some(&Value::String("https://example.org".to_string())));
    let li = list_of(vec![field("Due", ElementCategoryId::Date, false)]);
    let mut doc = JsonMap::new();
    written(li.generic_set(&mut doc, fset_s("Due", "not even a date"), &roster()));
    assert_eq!(doc.get(&key("date")), Some(&Value::String("not even a date".to_string())));
    let m = validation(li.generic_set(&mut doc, fset_i("Due", 5), &roster()));
    assert_eq!(m, "Invalid value (Int(5)) or action (Null) for field Due (type Date)");
}

#[test]
fn person_is_resolved_by_name_whatever_the_case() {
    let li = list_of(vec![field("Owner", ElementCategoryId::Persons, false)]);
    let mut doc = JsonMap::new();
    written(li.generic_set(&mut doc, fup_s("Owner", "ALICE", UpdateAction::Append), &roster()));
    assert_eq!(doc.get(&key("persons")), Some(&ids(&[1])));
    assert_eq!(doc.get("updateAction"), Some(&Value::String("append".to_string())));
    let mut doc = JsonMap::new();
    written(li.generic_set(&mut doc, fset_s("Owner", "carol cook"), &roster()));
    assert_eq!(doc.get(&key("persons")), Some(&ids(&[2])));
    assert_eq!(doc.get("updateAction"), None);
    let mut doc = JsonMap::new();
    written(li.generic_set(
        &mut doc,
        fset_s("Owner", "bbbbbbbb-0000-0000-0000-000000000002"),
        &roster(),
    ));
    assert_eq!(doc.get(&key("persons")), Some(&ids(&[2])));
}

#[test]
fn unknown_person_is_not_found() {
    let li = list_of(vec![field("Owner", ElementCategoryId::Persons, true)]);
    let mut doc = JsonMap::new();
    let m = not_found(li.generic_set(&mut doc, fset_s("Owner", "bob"), &roster()));
    assert_eq!(m, "User not found: 'bob'");
    let m = not_found(li.generic_set(
        &mut doc,
        fset_vs("Owner", vec!["alice".to_string(), "bob".to_string(), "dave".to_string()]),
        &roster(),
    ));
    assert_eq!(m, "User not found: 'bob'");
    assert!(doc.is_empty());
}

#[test]
fn persons_by_names_and_by_ids() {
    let li = list_of(vec![field("Owner", ElementCategoryId::Persons, true)]);
    let mut doc = JsonMap::new();
    written(li.generic_set(
        &mut doc,
        fup_vs("Owner", vec!["Carol".to_string(), "Alice".to_string()], UpdateAction::Remove),
        &roster(),
    ));
    assert_eq!(doc.get(&key("persons")), Some(&ids(&[2, 1])));
    assert_eq!(doc.get("updateAction"), Some(&Value::String("remove".to_string())));
    let mut doc = JsonMap::new();
    written(li.generic_set(&mut doc, fset_vid("Owner", vec![8, 9]), &roster()));
    assert_eq!(doc.get(&key("persons")), Some(&ids(&[8, 9])));
    let mut doc = JsonMap::new();
    written(li.generic_set(&mut doc, fset_id("Owner", 77), &roster()));
    assert_eq!(doc.get(&key("persons")), Some(&ids(&[77])));
    let mut doc = JsonMap::new();
    written(li.generic_set(&mut doc, fset_vs("Owner", vec![]), &roster()));
    assert_eq!(doc.get(&key("persons")), Some(&ids(&[])));
}

#[test]
fn single_person_field_refuses_several() {
    let li = list_of(vec![field("Owner", ElementCategoryId::Persons, false)]);
    let mut doc = JsonMap::new();
    let m = validation(li.generic_set(
        &mut doc,
        fset_vs("Owner", vec!["nobody".to_string(), "alice".to_string()]),
        &roster(),
    ));
    assert_eq!(m, "Field Owner can't accept more than one person but 2 were provided");
    let m = validation(li.generic_set(&mut doc, fset_vid("Owner", vec![1, 2, 3]), &roster()));
    assert_eq!(m, "Field Owner can't accept more than one person but 3 were provided");
    assert!(doc.is_empty());
    written(li.generic_set(&mut doc, fset_vid("Owner", vec![1]), &roster()));
    assert_eq!(doc.get(&key("persons")), Some(&ids(&[1])));
}

#[test]
fn category_is_resolved_by_name_or_uuid() {
    let li = list_of(vec![categories_field("State", true)]);
    let mut doc = JsonMap::new();
    written(li.generic_set(&mut doc, fup_s("State", "Done", UpdateAction::Replace), &roster()));
    assert_eq!(doc.get(&key("categories")), Some(&ids(&[7])));
    assert_eq!(doc.get("updateAction"), Some(&Value::String("replace".to_string())));
    let mut doc = JsonMap::new();
    written(li.generic_set(
        &mut doc,
        fset_s("State", "aaaaaaaa-0000-0000-0000-000000000009"),
        &roster(),
    ));
    assert_eq!(doc.get(&key("categories")), Some(&ids(&[9])));
    let mut doc = JsonMap::new();
    let m = not_found(li.generic_set(&mut doc, fset_s("State", "done"), &roster()));
    assert_eq!(m, "Invalid choice 'done' for field 'State'");
    assert!(doc.is_empty());
}

#[test]
fn categories_by_names_and_by_ids() {
    let li = list_of(vec![categories_field("State", true)]);
    let mut doc = JsonMap::new();
    written(li.generic_set(
        &mut doc,
        fset_vs("State", vec!["Done".to_string(), "Open".to_string()]),
        &roster(),
    ));
    assert_eq!(doc.get(&key("categories")), Some(&ids(&[7, 5])));
    let mut doc = JsonMap::new();
    let m = not_found(li.generic_set(
        &mut doc,
        fset_vs("State", vec!["Done".to_string(), "Later".to_string()]),
        &roster(),
    ));
    assert_eq!(m, "Invalid choice 'Later' for field 'State'");
    assert!(doc.is_empty());
    written(li.generic_set(&mut doc, fup_vid("State", vec![5, 9], UpdateAction::Append), &roster()));
    assert_eq!(doc.get(&key("categories")), Some(&ids(&[5, 9])));
    assert_eq!(doc.get("updateAction"), Some(&Value::String("append".to_string())));
    let mut doc = JsonMap::new();
    written(li.generic_set(&mut doc, fset_i("State", 5), &roster()));
    assert_eq!(doc.get(&key("categories")), Some(&ids(&[5])));
}

#[test]
fn single_valued_categories_field_takes_one_name_only() {
    let li = list_of(vec![categories_field("State", false)]);
    let mut doc = JsonMap::new();
    let m = validation(li.generic_set(
        &mut doc,
        fset_vs("State", vec!["Done".to_string(), "Open".to_string()]),
        &roster(),
    ));
    assert_eq!(m, "Field State can't accept more than one label but 2 were provided");
    assert!(doc.is_empty());
    written(li.generic_set(&mut doc, fset_vs("State", vec!["Done".to_string()]), &roster()));
    assert_eq!(doc.get(&key("categories")), Some(&ids(&[7])));
    let mut doc = JsonMap::new();
    let m = validation(li.generic_set(&mut doc, fset_vid("State", vec![5, 7]), &roster()));
    assert_eq!(m, "Field State can't accept more than one category but 2 were provided");
}

#[test]
fn reference_must_be_a_uuid() {
    let li = list_of(vec![field("Parent", ElementCategoryId::References, false)]);
    let mut doc = JsonMap::new();
    let m = validation(li.generic_set(&mut doc, fset_s("Parent", "not-a-uuid"), &roster()));
    assert_eq!(m, "Not a valid uuid 'not-a-uuid' for field 'Parent'");
    let m = validation(li.generic_set(
        &mut doc,
        fset_s("Parent", "zzzzzzzz-0000-0000-0000-000000000000"),
        &roster(),
    ));
    assert_eq!(m, "Not a valid uuid 'zzzzzzzz-0000-0000-0000-000000000000' for field 'Parent'");
    let m = validation(li.generic_set(
        &mut doc,
        fset_s("Parent", "{abcdef00-1234-5678-9999-abcdefabcdef}"),
        &roster(),
    ));
    assert_eq!(m, "Not a valid uuid '{abcdef00-1234-5678-9999-abcdefabcdef}' for field 'Parent'");
    let m = validation(li.generic_set(
        &mut doc,
        fset_s("Parent", "abcdef0012345678-9999-abcdefabcdef0000"),
        &roster(),
    ));
    assert!(m.starts_with("Not a valid uuid"));
    assert!(doc.is_empty());
    written(li.generic_set(
        &mut doc,
        fup_s("Parent", "abcdef00-1234-5678-9999-ABCDEFabcdef", UpdateAction::Append),
        &roster(),
    ));
    assert_eq!(doc.get(&key("references")), Some(&texts(&["abcdef00-1234-5678-9999-ABCDEFabcdef"])));
    assert_eq!(doc.get("updateAction"), Some(&Value::String("append".to_string())));
}

#[test]
fn references_by_array_and_by_id() {
    let li = list_of(vec![field("Parent", ElementCategoryId::References, true)]);
    let a = "abcdef00-1234-5678-9999-abcdefabcdef";
    let b = "00000000-0000-0000-0000-000000000000";
    let mut doc = JsonMap::new();
    written(li.generic_set(&mut doc, fset_vs("Parent", vec![a.to_string(), b.to_string()]), &roster()));
    assert_eq!(doc.get(&key("references")), Some(&texts(&[a, b])));
    let mut doc = JsonMap::new();
    let m = validation(li.generic_set(
        &mut doc,
        fset_vs("Parent", vec![a.to_string(), "x".to_string(), "y".to_string()]),
        &roster(),
    ));
    assert_eq!(m, "Not a valid uuid 'x' for field 'Parent'");
    assert!(doc.is_empty());
    written(li.generic_set(&mut doc, fset_id("Parent", 4), &roster()));
    assert_eq!(doc.get(&key("references")), Some(&ids(&[4])));
    let m = validation(li.generic_set(&mut doc, fset_vid("Parent", vec![4]), &roster()));
    assert_eq!(m, "Invalid value (ArrID([4])) or action (Null) for field Parent (type References)");
    let single = list_of(vec![field("Parent", ElementCategoryId::References, false)]);
    let m = validation(single.generic_set(
        &mut doc,
        fset_vs("Parent", vec![a.to_string(), b.to_string()]),
        &roster(),
    ));
    assert_eq!(m, "Field Parent can't accept more than one reference but 2 were provided");
}

#[test]
fn other_kinds_take_nothing() {
    let li = list_of(vec![field("Sum", ElementCategoryId::Formula, false)]);
    let mut doc = JsonMap::new();
    let m = validation(li.generic_set(
        &mut doc,
        fup_vs("Sum", vec!["a".to_string(), "b".to_string()], UpdateAction::Remove),
        &roster(),
    ));
    assert_eq!(m, "Invalid value (ArrStr([\"a\", \"b\"])) or action (Remove) for field Sum (type Formula)");
    assert!(doc.is_empty());
}

#[test]
fn a_refused_value_leaves_the_document_as_it_was() {
    let li = list_of(vec![categories_field("State", false)]);
    let mut doc = JsonMap::new();
    doc.insert("kept".to_string(), Value::Bool(true));
    let before = doc.clone();
    assert!(li.generic_set(&mut doc, fset_s("State", "Unknown"), &roster()).is_err());
    assert!(li.generic_set(&mut doc, fset_s("Nope", "x"), &roster()).is_err());
    assert_eq!(doc, before);
}

#[test]
fn field_values_are_shown() {
    assert_eq!(FieldVal::Str("a b".to_string()).to_string(), "a b");
    assert_eq!(FieldVal::Int(-5).to_string(), "-5");
    assert_eq!(FieldVal::Formatted("x".to_string(), TextFormat::HTML).to_string(), "(x,html)");
    assert_eq!(FieldVal::ArrStr(vec![]).to_string(), "[]");
    assert_eq!(
        FieldVal::ArrStr(vec!["a".to_string(), "b".to_string()]).to_string(),
        "[\"a\", \"b\"]"
    );
    assert_eq!(
        FieldVal::ArrStr(vec!["say \"hi\"".to_string(), "a\\b\n".to_string()]).to_string(),
        format!("{:?}", vec!["say \"hi\"", "a\\b\n"])
    );
    assert_eq!(FieldVal::ArrID(vec![1, 20, 300]).to_string(), "[1, 20, 300]");
    assert_eq!(FieldVal::ArrID(vec![]).to_string(), "[]");
    assert_eq!(FieldVal::Float(FloatVal::Finite(Number::from_f64(1.5).unwrap())).to_string(), "1.5");
    assert_eq!(FieldVal::Float(FloatVal::NaN).to_string(), "NaN");
    assert_eq!(FieldVal::Float(FloatVal::Infinity).to_string(), "inf");
    assert_eq!(FieldVal::Float(FloatVal::NegInfinity).to_string(), "-inf");
    assert_eq!(FloatVal::NaN.to_string(), format!("{}", f64::NAN));
    assert_eq!(FloatVal::Infinity.to_string(), format!("{}", f64::INFINITY));
    assert_eq!(FloatVal::NegInfinity.to_string(), format!("{}", f64::NEG_INFINITY));
}

#[test]
fn builders_set_name_value_and_action() {
    let (n, v, a) = fset_s("f", "v");
    assert_eq!(n, "f");
    assert!(matches!(v, FieldVal::Str(ref s) if s == "v"));
    assert_eq!(a, UpdateAction::Null);
    let (_, v, a) = fup_i("f", 3, UpdateAction::Replace);
    assert!(matches!(v, FieldVal::Int(3)));
    assert_eq!(a, UpdateAction::Replace);
    let (_, v, _) = fset_id("f", 9);
    assert!(matches!(v, FieldVal::Int(9)));
    let (_, v, a) = fup_vid("f", vec![1, 2], UpdateAction::Remove);
    assert!(matches!(v, FieldVal::ArrID(ref ids) if ids == &vec![1, 2]));
    assert_eq!(a, UpdateAction::Remove);
    let (_, v, _) = fset_t("f", "t".to_string(), TextFormat::Plain);
    assert!(matches!(v, FieldVal::Formatted(ref s, TextFormat::Plain) if s == "t"));
}

#[test]
fn roster_is_needed_for_persons_by_name_only() {
    let li = list_of(vec![
        field("Owner", ElementCategoryId::Persons, false),
        field("Title", ElementCategoryId::Text, false),
    ]);
    assert!(li.needs_roster(&fset_s("Owner", "alice")));
    assert!(li.needs_roster(&fset_vs("Owner", vec!["alice".to_string()])));
    assert!(!li.needs_roster(&fset_vs("Owner", vec![])));
    assert!(!li.needs_roster(&fset_vs("Owner", vec!["a".to_string(), "b".to_string()])));
    assert!(!li.needs_roster(&fset_id("Owner", 1)));
    assert!(!li.needs_roster(&fset_vid("Owner", vec![1])));
    assert!(!li.needs_roster(&fset_s("Title", "alice")));
    assert!(!li.needs_roster(&fset_s("Nobody", "alice")));
    let many = list_of(vec![field("Owner", ElementCategoryId::Persons, true)]);
    assert!(many.needs_roster(&fset_vs("Owner", vec!["a".to_string(), "b".to_string()])));
}

#[test]
fn field_values_are_told_with_their_kind() {
    assert_eq!(FieldVal::Str("a b".to_string()).to_debug_string(), "Str(\"a b\")");
    assert_eq!(FieldVal::Str("q\"t".to_string()).to_debug_string(), "Str(\"q\\\"t\")");
    assert_eq!(FieldVal::Int(-5).to_debug_string(), "Int(-5)");
    assert_eq!(
        FieldVal::Formatted("x".to_string(), TextFormat::HTML).to_debug_string(),
        "Formatted(\"x\", HTML)"
    );
    assert_eq!(FieldVal::ArrStr(vec![]).to_debug_string(), "ArrStr([])");
    assert_eq!(
        FieldVal::ArrStr(vec!["a".to_string(), "b".to_string()]).to_debug_string(),
        "ArrStr([\"a\", \"b\"])"
    );
    assert_eq!(FieldVal::ArrID(vec![1, 20]).to_debug_string(), "ArrID([1, 20])");
    assert_eq!(
        FieldVal::Float(FloatVal::Finite(Number::from_f64(1.5).unwrap())).to_debug_string(),
        "Float(1.5)"
    );
    assert_eq!(FieldVal::Float(FloatVal::NaN).to_debug_string(), "Float(NaN)");
    assert_eq!(TextFormat::Markdown.name(), "Markdown");
}

use serde_json::{Number, Value};
use zenkit::activity::{classify_change, ChangeShape};
use zenkit::records::{ChangedArray, ChangedValue, DateValue, FromTo, OrderBy, SortDirection};
use zenkit::requests::{response_error, GetEntriesRequest, GetEntriesViewRequest, Pager, PAGE_SIZE};
use zenkit::error::{ErrorInfo, ErrorResult};
use zenkit::types::{DateTime, ChangedData, ElementCategoryId, JsonMap, List, ListInfo, Workspace};
use zenkit::util::pad_right;
use zenkit::Error;

fn object(pairs: Vec<(&str, Value)>) -> Value {
    let mut m = JsonMap::new();
    for (k, v) in pairs {
        m.insert(k.to_string(), v);
    }
    Value::Object(m)
}

fn num(n: u64) -> Value {
    Value::Number(Number::from(n))
}

fn change(kind: Value) -> Value {
    object(vec![("elementcategoryId", kind), ("valueTo", Value::String("x".into()))])
}

#[test]
fn change_of_a_kind_with_a_form_is_typed() {
    for (n, kind) in [
        (1, ElementCategoryId::Text),
        (2, ElementCategoryId::Number),
        (4, ElementCategoryId::Date),
        (6, ElementCategoryId::Categories),
        (14, ElementCategoryId::Persons),
        (16, ElementCategoryId::References),
    ] {
        let record = object(vec![("some-uuid_text", change(num(n)))]);
        match classify_change(&record) {
            ChangeShape::Typed(k, data) => {
                assert_eq!(k, kind);
                assert_eq!(data, &change(num(n)));
            }
            other => panic!("{:?}", other),
        }
    }
}

#[test]
fn change_of_another_kind_is_kept_as_it_is() {
    for n in [3u64, 5, 7, 8, 9, 10, 11, 12, 13, 15, 17, 18, 19] {
        let record = object(vec![("k", change(num(n)))]);
        match classify_change(&record) {
            ChangeShape::Untyped(data) => assert_eq!(data, &change(num(n))),
            other => panic!("{}: {:?}", n, other),
        }
    }
}

#[test]
fn record_without_a_kind_is_kept_whole() {
    for kind in [num(0), num(20), Value::String("1".into()), Value::Null, Value::Number(Number::from(-1))] {
        let record = object(vec![("k", change(kind))]);
        assert!(matches!(classify_change(&record), ChangeShape::Whole));
    }
    let record = object(vec![("k", object(vec![("valueTo", num(1))]))]);
    assert!(matches!(classify_change(&record), ChangeShape::Whole));
    let record = object(vec![("k", Value::Array(vec![change(num(1))]))]);
    assert!(matches!(classify_change(&record), ChangeShape::Whole));
    let record = object(vec![("k", num(1))]);
    assert!(matches!(classify_change(&record), ChangeShape::Whole));
}

#[test]
fn the_first_member_in_key_order_is_the_change() {
    let record = object(vec![("b", change(num(1))), ("a", change(num(6))), ("c", num(3))]);
    assert!(matches!(
        classify_change(&record),
        ChangeShape::Typed(ElementCategoryId::Categories, _)
    ));
    let record = object(vec![("ab", change(num(1))), ("a", change(num(3)))]);
    assert!(matches!(classify_change(&record), ChangeShape::Untyped(_)));
    let record = object(vec![("a", num(0)), ("b", change(num(1)))]);
    assert!(matches!(classify_change(&record), ChangeShape::Whole));
}

#[test]
fn null_is_no_change_and_the_rest_is_malformed() {
    assert!(matches!(classify_change(&Value::Null), ChangeShape::Nothing));
    assert!(matches!(classify_change(&object(vec![])), ChangeShape::Malformed));
    assert!(matches!(classify_change(&num(1)), ChangeShape::Malformed));
    assert!(matches!(classify_change(&Value::String("x".into())), ChangeShape::Malformed));
    assert!(matches!(classify_change(&Value::Array(vec![])), ChangeShape::Malformed));
    assert!(matches!(classify_change(&Value::Bool(false)), ChangeShape::Malformed));
}

#[test]
fn changed_data_is_shown_by_side() {
    let text = ChangedData::Text(ChangedValue { value_from: None, value_to: Some("new".into()) });
    assert_eq!(text.val_to_string(FromTo::From), "");
    assert_eq!(text.val_to_string(FromTo::To), "new");
    let number = ChangedData::Number(ChangedValue { value_from: Some("1.5".into()), value_to: None });
    assert_eq!(number.val_to_string(FromTo::From), "1.5");
    assert_eq!(number.val_to_string(FromTo::To), "");
    let date = ChangedData::Date(ChangedValue {
        value_from: Some(DateValue {
            date: Some("2020-01-01".into()),
            end_date: Some("2020-01-02".into()),
            has_time: false,
            duration: None,
        }),
        value_to: Some(DateValue { date: None, end_date: None, has_time: false, duration: None }),
    });
    assert_eq!(date.val_to_string(FromTo::From), "2020-01-01");
    assert_eq!(date.val_to_string(FromTo::To), "");
    let none = ChangedData::Date(ChangedValue { value_from: None, value_to: None });
    assert_eq!(none.val_to_string(FromTo::From), "");
    let labels = ChangedData::Categories(ChangedArray {
        value_from: vec![1],
        value_to: vec![2, 3],
        value_from_as_strings: vec!["Open".into()],
        value_to_as_strings: vec!["Done".into(), "Late".into()],
    });
    assert_eq!(labels.val_to_string(FromTo::From), "Open");
    assert_eq!(labels.val_to_string(FromTo::To), "Done,Late");
    let persons = ChangedData::Persons(ChangedArray {
        value_from: vec![],
        value_to: vec![7],
        value_from_as_strings: vec![],
        value_to_as_strings: vec!["Ann".into()],
    });
    assert_eq!(persons.val_to_string(FromTo::From), "");
    assert_eq!(persons.val_to_string(FromTo::To), "Ann");
    let refs = ChangedData::References(ChangedArray {
        value_from: vec!["u1".into(), "u2".into()],
        value_to: vec![],
        value_from_as_strings: vec!["one".into(), "two".into()],
        value_to_as_strings: vec![],
    });
    assert_eq!(refs.val_to_string(FromTo::From), "u1,u2");
    assert_eq!(refs.val_to_string(FromTo::To), "");
    assert_eq!(ChangedData::Other(Value::Null).val_to_string(FromTo::To), "<value>");
}

#[test]
fn requests_for_entries() {
    let d = GetEntriesRequest::default();
    assert_eq!(d.filter, Value::Object(JsonMap::new()));
    assert_eq!((d.limit, d.skip, d.allow_deprecated, d.order_by.len()), (0, 0, false, 0));
    let s = GetEntriesRequest::sorted(Some(("updated_at", SortDirection::Desc)), 25, 50);
    assert_eq!(s.filter, Value::Object(JsonMap::new()));
    assert_eq!((s.limit, s.skip, s.allow_deprecated), (25, 50, false));
    assert_eq!(s.order_by.len(), 1);
    let OrderBy { column, direction } = &s.order_by[0];
    assert_eq!(column.as_deref(), Some("updated_at"));
    assert!(matches!(direction, SortDirection::Desc));
    let u = GetEntriesRequest::sorted(None, 1, 2);
    assert_eq!((u.limit, u.skip, u.order_by.len()), (1, 2, 0));
    let v = GetEntriesViewRequest::default();
    assert_eq!(v.filter, Value::Object(JsonMap::new()));
    assert_eq!((v.group_by_element_id, v.limit, v.skip), (0, 0, 0));
    assert!(!v.allow_deprecated && !v.task_style);
}

#[test]
fn pages_are_asked_for_until_one_is_empty() {
    let mut pager = Pager::new();
    let mut sizes = vec![500usize, 500, 120, 0].into_iter();
    let mut skips = vec![];
    loop {
        let req = pager.request();
        assert_eq!(req.limit, PAGE_SIZE);
        assert_eq!(req.limit, 500);
        skips.push(req.skip);
        if !pager.advance(sizes.next().unwrap()) {
            break;
        }
    }
    assert_eq!(skips, vec![0, 500, 1000, 1120]);
    assert_eq!(pager.received(), 1120);
    assert_eq!(Pager::new().received(), 0);
}

fn details(code: &str) -> ErrorResult {
    ErrorResult {
        error: ErrorInfo {
            name: "N".into(),
            code: code.into(),
            status_code: 429,
            message: "m".into(),
            description: "d".into(),
        },
    }
}

#[test]
fn status_tells_success_from_failure() {
    for status in [200u16, 201, 204, 299] {
        assert!(response_error(status, None).is_none());
        assert!(response_error(status, Some(details("D1"))).is_none());
    }
    for status in [0u16, 100, 199, 300, 404, 429, 500, u16::MAX] {
        match response_error(status, None) {
            Some(Error::ApiError(s, None)) => assert_eq!(s, status),
            other => panic!("{:?}", other),
        }
    }
    match response_error(429, Some(details("D2"))) {
        Some(e) => {
            assert!(e.is_rate_limit());
            match e {
                Error::ApiError(429, Some(info)) => assert_eq!(info.code, "D2"),
                other => panic!("{:?}", other),
            }
        }
        None => panic!("429 is no success"),
    }
    assert!(!response_error(400, Some(details("A1"))).unwrap().is_rate_limit());
}

#[test]
fn objects_are_shown_in_a_line() {
    let list = List {
        id: 42,
        short_id: "s".into(),
        uuid: "the-uuid".into(),
        name: "Tasks".into(),
        item_name: None,
        item_name_plural: None,
        is_building: false,
        is_migrating: false,
        sort_order: None,
        description: String::new(),
        created_at: DateTime { secs: 1577836800, nanos: 0 },
        updated_at: DateTime { secs: 1577836800, nanos: 0 },
        deprecated_at: None,
        origin_created_at: None,
        origin_updated_at: None,
        origin_deprecated_at: None,
        formula_tsort_order: None,
        list_file_policy: None,
        origin_provider: None,
        origin_data: None,
        default_view_modus: 0,
        background_id: None,
        icon_color: None,
        icon_background_color: None,
        workspace_id: 3,
        visibility: 0,
        created_by: 1,
    };
    assert_eq!(list.to_string(), "42      the-uuid Tasks");
    assert_eq!(list.to_string(), format!("{:<7} {} {}", 42, "the-uuid", "Tasks"));
    let w = Workspace {
        id: 123456789,
        short_id: "s".into(),
        uuid: "u".into(),
        name: "Wide".into(),
        description: Some("about".into()),
        is_default: true,
        created_at: DateTime { secs: 1577836800, nanos: 0 },
        updated_at: DateTime { secs: 1577836800, nanos: 0 },
        deprecated_at: None,
        background_id: None,
        created_by: 1,
        lists: vec![],
    };
    assert_eq!(w.to_string(), "123456789 u Wide");
    assert_eq!(w.get_description(), "about");
    let li = ListInfo::new(list, vec![]);
    assert_eq!(li.to_string(), "ListInfo(42,the-uuid,Tasks, nFields:0, ws:3)");
    assert_eq!(li.get_id(), 42);
    assert_eq!(li.get_uuid(), "the-uuid");
    assert!(li.has_id("Tasks") && li.has_id("42") && !li.has_id("3"));
    assert_eq!(li.list().workspace_id, 3);
    assert_eq!(pad_right("abc".to_string(), 5), "abc  ");
    assert_eq!(pad_right("abcdef".to_string(), 5), "abcdef");
    assert_eq!(pad_right("äb".to_string(), 4), "äb  ");
    assert_eq!(pad_right(String::new(), 0), "");
}

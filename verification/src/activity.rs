//! What an activity changed: the data of a change, and the shape by which
//! the service's record of a change is told apart.
use vstd::prelude::*;
use vstd::string::*;
use crate::json::{empty_object, first_member, is_first_key, json_of, members, object_get, Json};
use crate::records::{opt_to_string, ActivityCreatedIn, ActivityType, ChangedArray, ChangedValue, DateValue, FromTo};
use crate::types::{ElementCategoryId, ShortId, DateTime, ZKObjectID, ID, UUID};
use crate::util::{join, joined};

verus! {

/// ChangedData, within an Activity, represents the previous and new data
/// values. Not every kind of field has a form of its own: the changes of the
/// other kinds are kept as the JSON value that the service sent.
#[derive(Debug)]
pub enum ChangedData {
    /// change to text data
    Text(ChangedValue<String>),
    /// change to numeric data, each number in the digits that show it
    Number(ChangedValue<String>),
    /// change to date field
    Date(ChangedValue<DateValue>),
    /// change to label field
    Categories(ChangedArray<ID>),
    /// change to person(s)
    Persons(ChangedArray<ID>),
    /// change to reference(s)
    References(ChangedArray<UUID>),
    /// change not covered by any of the other types
    Other(serde_json::Value),
}

/// The date of a date value of one side of a change; empty where there is none.
pub open spec fn date_text(v: Option<DateValue>) -> Seq<char> {
    match v {
        Some(d) => match d.date {
            Some(date) => date@,
            None => Seq::empty(),
        },
        None => Seq::empty(),
    }
}

/// The text of a value that may be absent: empty where it is.
pub open spec fn optional_text(v: Option<String>) -> Seq<char> {
    match v {
        Some(s) => s@,
        None => Seq::empty(),
    }
}

impl ChangedData {
    /// The text that shows the value of one side of the change: a text or a
    /// number as it is, a date by its day, several values with commas between
    /// them, and `<value>` for a change that has no form of its own.
    pub open spec fn side_text(&self, ft: FromTo) -> Seq<char> {
        match self {
            ChangedData::Text(v) => optional_text(
                match ft {
                    FromTo::From => v.value_from,
                    FromTo::To => v.value_to,
                },
            ),
            ChangedData::Number(v) => optional_text(
                match ft {
                    FromTo::From => v.value_from,
                    FromTo::To => v.value_to,
                },
            ),
            ChangedData::Date(v) => date_text(
                match ft {
                    FromTo::From => v.value_from,
                    FromTo::To => v.value_to,
                },
            ),
            ChangedData::Categories(arr) => match ft {
                FromTo::From => joined(","@, arr.value_from_as_strings@, arr.value_from_as_strings@.len() as int),
                FromTo::To => joined(","@, arr.value_to_as_strings@, arr.value_to_as_strings@.len() as int),
            },
            ChangedData::Persons(arr) => match ft {
                FromTo::From => joined(","@, arr.value_from_as_strings@, arr.value_from_as_strings@.len() as int),
                FromTo::To => joined(","@, arr.value_to_as_strings@, arr.value_to_as_strings@.len() as int),
            },
            ChangedData::References(arr) => match ft {
                FromTo::From => joined(","@, arr.value_from@, arr.value_from@.len() as int),
                FromTo::To => joined(","@, arr.value_to@, arr.value_to@.len() as int),
            },
            ChangedData::Other(_) => "<value>"@,
        }
    }

    /// Generate printable string value for from (previous) or to (new) value
    pub fn val_to_string(&self, ft: FromTo) -> (r: String)
        ensures
            r@ == self.side_text(ft),
    {
        match self {
            ChangedData::Text(txt_val) => opt_to_string(txt_val.get(ft)),
            ChangedData::Number(num_val) => opt_to_string(num_val.get(ft)),
            ChangedData::Date(date_val) => match date_val.get(ft) {
                Some(d) => match &d.date {
                    Some(date) => date.clone(),
                    None => String::new(),
                },
                None => String::new(),
            },
            ChangedData::Categories(arr) => join(",", arr.as_strings(ft).as_slice()),
            ChangedData::Persons(arr) => join(",", arr.as_strings(ft).as_slice()),
            ChangedData::References(arr) => join(",", arr.get(ft).as_slice()),
            ChangedData::Other(_) => String::from_str("<value>"),
        }
    }
}

/// change of object field
#[derive(Debug)]
pub struct ElementChange {
    /// field type
    pub category_id: Option<ElementCategoryId>,
    /// data of changed field
    pub data: ChangedData,
}

/// Activity report
#[derive(Debug)]
pub struct Activity {
    /// activity id
    pub id: ID,
    /// activity uuid
    pub uuid: UUID,
    /// Activity type
    pub activity_type: ActivityType,
    /// object type
    pub created_in: ActivityCreatedIn,
    /// message - only used if activity type is Comment
    pub message: Option<String>,
    /// whether activity is bulk action
    pub is_bulk: bool,
    /// if is_bulk, this field holds number of units affected by bulk action
    pub bulk_rowcount: Option<u64>,
    /// object describing what changed through this activity.
    pub changed_data: ElementChange,
    /// element id of changed data
    pub changed_data_element_id: Option<ID>,
    /// id of activity's subject, if it is a workspace
    pub workspace_id: Option<ID>,
    /// short id of activity's subject, if it is a workspace
    pub workspace_short_id: Option<ShortId>,
    /// uuid of activity's subject, if it is a workspace
    pub workspace_uuid: Option<UUID>,
    /// name of activity's subject, if it's a workspace
    pub workspace_name: Option<String>,
    /// date activity's subject was deprecated, if it is a workspace
    pub workspace_deprecated_at: Option<DateTime>,
    /// uuid of what the subject belongs to
    pub parent_uuid: Option<UUID>,
    /// id of activity's subject, if it is a list
    pub list_id: Option<ID>,
    /// short id of activity's subject, if it is a list
    pub list_short_id: Option<ShortId>,
    /// uuid of activity's subject, if it is a list
    pub list_uuid: Option<UUID>,
    /// name of activity's subject, if it is a list
    pub list_name: Option<String>,
    /// date list deprecated
    pub list_deprecated_at: Option<DateTime>,
    /// id of activity's subject, if it is a list entry
    pub list_entry_id: Option<ID>,
    /// uuid of activity's subject, if it is a list entry
    pub list_entry_uuid: Option<UUID>,
    /// name of activity's subject, if it is a list entry
    pub list_entry_name: Option<String>,
    /// description of activity's subject, if it is a list entry
    pub list_entry_description: Option<String>,
    /// date at which activity's subject was deprecated, if it is a list entry
    pub list_entry_deprecated_at: Option<DateTime>,
    /// Name of field updated. Can be None if activity is a Comment
    pub element_name: Option<String>,
    /// date activity created
    pub created_at: DateTime,
    /// date activity updated
    pub updated_at: DateTime,
    /// date activity deprecated
    pub deprecated_at: Option<DateTime>,
    /// user id this activity belongs to
    pub user_id: ID,
    /// display name of activity's subject, if it is a user
    pub user_display_name: String,
    /// full name of activity's subject, if it is a user
    pub user_full_name: String,
    /// username of activity's subject, if it is a user
    pub user_username: String,
    /// user initials of the activity's subject, if it is a user
    pub user_initials: String,
    /// user image preference setting of the activity's subject, if it is a user
    pub user_is_image_preferred: bool,
}

impl ZKObjectID for Activity {
    open spec fn id_of(&self) -> ID {
        self.id
    }

    open spec fn uuid_of(&self) -> Seq<char> {
        self.uuid@
    }

    fn get_id(&self) -> (r: ID) {
        self.id
    }

    fn get_uuid(&self) -> (r: &UUID) {
        &self.uuid
    }
}

/// Whether changes of fields of this kind have a form of their own.
pub open spec fn has_form(kind: ElementCategoryId) -> bool {
    kind == ElementCategoryId::Text || kind == ElementCategoryId::Number || kind
        == ElementCategoryId::Persons || kind == ElementCategoryId::References || kind
        == ElementCategoryId::Categories || kind == ElementCategoryId::Date
}

/// The number under `elementcategoryId` in a change, if the change is an
/// object with a number there that fits in 64 bits without sign.
pub open spec fn category_number(change: Json) -> Option<u64> {
    match change {
        Json::Obj(m) => if m.contains_key("elementcategoryId"@) {
            match m["elementcategoryId"@] {
                Json::Int(i) => if 0 <= i <= u64::MAX {
                    Some(i as u64)
                } else {
                    None
                },
                _ => None,
            }
        } else {
            None
        },
        _ => None,
    }
}

/// How the record of a change is to be read.
pub ghost enum Shape {
    /// As the data of a change of a field of this kind.
    Typed(ElementCategoryId),
    /// As a change of a kind without a form of its own: it is kept as it is.
    Untyped,
    /// As a record that names no kind: the whole of it is kept as it is.
    Whole,
    /// As no change at all: the record is `null`.
    Nothing,
    /// Not at all: the record is neither an object with members nor `null`.
    Malformed,
}

/// How a change, the first member of a record, is to be read.
pub open spec fn shape_of_change(change: Json) -> Shape {
    match category_number(change) {
        Some(n) => match ElementCategoryId::of_code(n) {
            Some(kind) => if has_form(kind) {
                Shape::Typed(kind)
            } else {
                Shape::Untyped
            },
            None => Shape::Whole,
        },
        None => Shape::Whole,
    }
}

/// How the service's record of a change is to be read.
#[derive(Debug)]
pub enum ChangeShape<'a> {
    /// The record holds the change of a field of this kind: the value is the
    /// data of the change.
    Typed(ElementCategoryId, &'a serde_json::Value),
    /// The record holds a change of a kind without a form of its own: the
    /// value is kept as it is, and the change says no kind.
    Untyped(&'a serde_json::Value),
    /// The record names no kind: the whole of it is kept as it is.
    Whole,
    /// The record is `null`, as that of a comment is.
    Nothing,
    /// The record is neither an object with members nor `null`.
    Malformed,
}

/// Tells how the record of what an activity changed is to be read. The
/// change is the first member of the record; its member `elementcategoryId`
/// names the kind of the field that changed.
pub fn classify_change<'a>(v: &'a serde_json::Value) -> (r: ChangeShape<'a>)
    ensures
        match json_of(*v) {
            Json::Obj(m) => if m == empty_object() {
                r is Malformed
            } else {
                exists|key: Seq<char>| #[trigger]
                    is_first_key(m, key) && (match shape_of_change(m[key]) {
                        Shape::Typed(kind) => r matches ChangeShape::Typed(k, change) && k == kind
                            && json_of(*change) == m[key],
                        Shape::Untyped => r matches ChangeShape::Untyped(change) && json_of(*change)
                            == m[key],
                        _ => r is Whole,
                    })
            },
            Json::Null => r is Nothing,
            _ => r is Malformed,
        },
{
    if let Some(map) = v.as_object() {
        if let Some(change_val) = first_member(map) {
            let number = match change_val.as_object() {
                Some(change) => match object_get(change, "elementcategoryId") {
                    Some(n) => n.as_u64(),
                    None => None,
                },
                None => None,
            };
            assert(number == category_number(json_of(*change_val)));
            let kind = match number {
                Some(n) => ElementCategoryId::from_u64(n),
                None => None,
            };
            return match kind {
                Some(category_id) => {
                    match category_id {
                        ElementCategoryId::Text
                        | ElementCategoryId::Number
                        | ElementCategoryId::Persons
                        | ElementCategoryId::References
                        | ElementCategoryId::Categories
                        | ElementCategoryId::Date => ChangeShape::Typed(category_id, change_val),
                        _ => ChangeShape::Untyped(change_val),
                    }
                },
                None => ChangeShape::Whole,
            };
        }
    }
    if v.is_null() {
        return ChangeShape::Nothing;
    }
    ChangeShape::Malformed
}

} // verus!

//! The data types of the service that the cache and the field codec work on.
//! Each holds what the client reads of the service's record of that name.
use vstd::prelude::*;
use vstd::string::*;
use crate::error::Error;
pub use crate::datetime::DateTime;
pub use crate::activity::{Activity, ChangedData, ElementChange};
pub use crate::item::{Entry, Item};
pub use crate::requests::{GetEntriesRequest, GetEntriesViewRequest};
pub use crate::error::{ErrorInfo, ErrorResult};
pub use crate::list::{fset_i, fset_id, fset_s, fset_t, fset_vid, fset_vs, fup_i, fup_id, fup_s, fup_t, fup_vid, fup_vs, FieldSetVal, FieldVal, FloatVal, ListInfo};
pub use crate::records::{Access, ElementCategory, ElementDataCategories, Email, File, FilterCountData, GetEntriesViewResponse, ResourceTag, AccessType, ActivityBulkAction, ActivityChangedData, ActivityCreatedIn, ActivityFilter, ActivityType, Background, BackgroundRole, BackgroundStyle, BackgroundTheme, BackgroundType, ChangedArray, ChangedValue, Checklist, ChecklistItem, DateFilterTermModus, DateValue, DeleteListEntryDetail, DeleteListEntryResponse, DeviceOperatingSystem, ElementCategoryGroup, FilterKeys, FilterTermModus, FromTo, ListPrototype, ListVisibility, LoginProvider, MinNotification, NewActivityElement, NewComment, NewWebhook, NotificationType, OAuthClient, OAuthResponse, OrderBy, RoleID, SharedAccesses, SortDirection, Webhook, WebhookTriggerType};
pub use crate::json::JsonMap;
use crate::json::{members, object_get, Json};
use crate::util::{decimal, pad_right, padded, str_eq, to_decimal};

verus! {

/// Service-assigned object id (positive integer)
pub type ID = u64;

/// Service-assigned short object id
pub type ShortId = String;

/// Service-assigned object uuid, in its textual form
pub type UUID = String;

/// Error code returned by the service
pub type ErrorCode = String;

/// Field is the name the user interface gives to an Element
pub type Field = Element;

/// Whether `candidate` names the object with these four identifiers: it is the
/// uuid, the name or the short id, letter for letter, or the id in decimal.
pub open spec fn names_object(
    id: ID,
    uuid: Seq<char>,
    short_id: Seq<char>,
    name: Seq<char>,
    candidate: Seq<char>,
) -> bool {
    candidate == uuid || candidate == name || candidate == short_id || candidate == decimal(
        id as nat,
    )
}

/// The line that shows an object: its id, filled up to seven characters,
/// its uuid and its name, with a space between each.
pub open spec fn object_line(id: ID, uuid: Seq<char>, name: Seq<char>) -> Seq<char> {
    padded(decimal(id as nat), 7) + " "@ + uuid + " "@ + name
}

/// Writes the line that shows an object.
pub fn show_object(id: ID, uuid: &str, name: &str) -> (r: String)
    ensures
        r@ == object_line(id, uuid@, name@),
{
    let mut r = pad_right(to_decimal(id), 7);
    r.append(" ");
    r.append(uuid);
    r.append(" ");
    r.append(name);
    r
}

/// Executable form of [`names_object`].
pub fn has_identifier(id: ID, uuid: &str, short_id: &str, name: &str, candidate: &str) -> (r: bool)
    ensures
        r == names_object(id, uuid@, short_id@, name@, candidate@),
{
    if str_eq(uuid, candidate) || str_eq(name, candidate) || str_eq(short_id, candidate) {
        return true;
    }
    let digits = to_decimal(id);
    str_eq(digits.as_str(), candidate)
}

/// The number of elements of `s` from position `from` on that come before the
/// first one that satisfies `p`, added to `from`: the position of that first
/// element, or the length of `s` if there is none.
pub open spec fn first_index<T>(s: Seq<T>, p: spec_fn(T) -> bool, from: int) -> int
    decreases s.len() - from,
{
    if from < 0 || from >= s.len() {
        s.len() as int
    } else if p(s[from]) {
        from
    } else {
        first_index(s, p, from + 1)
    }
}

/// AllId is used where a parameter may name an object in more than one way. In
/// addition to id or uuid, many functions also accept a name (e.g., a field name)
#[derive(Debug)]
pub enum AllId {
    /// Object ID
    #[allow(non_camel_case_types)]
    ID(u64),
    /// Object short id
    ShortId(String),
    /// Object uuid
    UUID(String),
    /// Any of the above, as a string
    Any(String),
}

impl AllId {
    /// The text that names the object: an id in decimal, any other as it is.
    pub open spec fn text_of(&self) -> Seq<char> {
        match self {
            AllId::ID(val) => decimal(*val as nat),
            AllId::ShortId(s) => s@,
            AllId::UUID(s) => s@,
            AllId::Any(s) => s@,
        }
    }

    /// The text that names the object, as it stands in a path of the service.
    pub fn to_string(&self) -> (r: String)
        ensures
            r@ == self.text_of(),
    {
        match self {
            AllId::ID(val) => to_decimal(*val),
            AllId::ShortId(s) => s.clone(),
            AllId::UUID(s) => s.clone(),
            AllId::Any(s) => s.clone(),
        }
    }
}

impl vstd::std_specs::convert::FromSpecImpl<ID> for AllId {
    open spec fn obeys_from_spec() -> bool {
        true
    }

    open spec fn from_spec(id: ID) -> AllId {
        AllId::ID(id)
    }
}

impl From<ID> for AllId {
    fn from(id: ID) -> (r: AllId) {
        AllId::ID(id)
    }
}

impl vstd::std_specs::convert::FromSpecImpl<&ID> for AllId {
    open spec fn obeys_from_spec() -> bool {
        true
    }

    open spec fn from_spec(pid: &ID) -> AllId {
        AllId::ID(*pid)
    }
}

impl From<&ID> for AllId {
    fn from(pid: &ID) -> (r: AllId) {
        AllId::ID(*pid)
    }
}

impl vstd::std_specs::convert::FromSpecImpl<String> for AllId {
    open spec fn obeys_from_spec() -> bool {
        true
    }

    open spec fn from_spec(s: String) -> AllId {
        AllId::Any(s)
    }
}

impl From<String> for AllId {
    fn from(s: String) -> (r: AllId) {
        AllId::Any(s)
    }
}

impl vstd::std_specs::convert::FromSpecImpl<&String> for AllId {
    open spec fn obeys_from_spec() -> bool {
        true
    }

    open spec fn from_spec(s: &String) -> AllId {
        AllId::Any(*s)
    }
}

impl From<&String> for AllId {
    fn from(s: &String) -> (r: AllId) {
        AllId::Any(s.clone())
    }
}

impl AllId {
    /// An identifier of any kind, from its text.
    pub fn any(s: &str) -> (r: AllId)
        ensures
            r matches AllId::Any(text) && text@ == s@,
    {
        AllId::Any(String::from_str(s))
    }
}

impl<'a> vstd::std_specs::convert::FromSpecImpl<&'a str> for AllId {
    /// The string that the conversion makes is a new one: contracts speak of
    /// it through [`AllId::any`].
    open spec fn obeys_from_spec() -> bool {
        false
    }

    open spec fn from_spec(s: &'a str) -> AllId {
        arbitrary()
    }
}

impl<'a> From<&'a str> for AllId {
    fn from(s: &'a str) -> (r: AllId) {
        AllId::any(s)
    }
}

/// Zenkit object with id and uuid
pub trait ZKObjectID {
    /// The id of the object, for contracts.
    spec fn id_of(&self) -> ID;

    /// The uuid of the object, for contracts.
    spec fn uuid_of(&self) -> Seq<char>;

    /// Returns the service-assigned id (positive int)
    fn get_id(&self) -> (r: ID)
        ensures
            r == self.id_of(),
    ;

    /// Returns the service-assigned uuid
    fn get_uuid(&self) -> (r: &UUID)
        ensures
            r@ == self.uuid_of(),
    ;
}

/// Element (field) data type
#[derive(PartialEq, Eq, Structural, Debug, Copy, Clone)]
pub enum ElementCategoryId {
    /// Text field
    Text,
    /// Numeric field (integer or decimal)
    Number,
    /// URL (Link) field
    #[allow(non_camel_case_types)]
    URL,
    /// Date field
    Date,
    /// Checkbox (boolean) field
    Checkbox,
    /// Choice/Label field
    Categories,
    /// Formula
    Formula,
    /// date created field
    DateCreated,
    /// date updated field
    DateUpdated,
    /// date deprecated field
    DateDeprecated,
    /// user created by field
    UserCreatedBy,
    /// user last updated field
    UserUpdatedBy,
    /// user deprecated by field
    UserDeprecatedBy,
    /// person or list of persons
    Persons,
    /// file field (e.g., attachment)
    Files,
    /// reference(s) to other items
    References,
    /// Hierarchy field (sub-items)
    Hierarchy,
    /// sub-entries
    SubEntries,
    /// dependencies
    Dependencies,
}

impl ElementCategoryId {
    /// The number the service writes for this category.
    pub open spec fn code_of(self) -> u64 {
        match self {
            ElementCategoryId::Text => 1,
            ElementCategoryId::Number => 2,
            ElementCategoryId::URL => 3,
            ElementCategoryId::Date => 4,
            ElementCategoryId::Checkbox => 5,
            ElementCategoryId::Categories => 6,
            ElementCategoryId::Formula => 7,
            ElementCategoryId::DateCreated => 8,
            ElementCategoryId::DateUpdated => 9,
            ElementCategoryId::DateDeprecated => 10,
            ElementCategoryId::UserCreatedBy => 11,
            ElementCategoryId::UserUpdatedBy => 12,
            ElementCategoryId::UserDeprecatedBy => 13,
            ElementCategoryId::Persons => 14,
            ElementCategoryId::Files => 15,
            ElementCategoryId::References => 16,
            ElementCategoryId::Hierarchy => 17,
            ElementCategoryId::SubEntries => 18,
            ElementCategoryId::Dependencies => 19,
        }
    }

    /// The number the service writes for this category.
    pub fn code(self) -> (r: u64)
        ensures
            r == self.code_of(),
            1 <= r <= 19,
    {
        match self {
            ElementCategoryId::Text => 1,
            ElementCategoryId::Number => 2,
            ElementCategoryId::URL => 3,
            ElementCategoryId::Date => 4,
            ElementCategoryId::Checkbox => 5,
            ElementCategoryId::Categories => 6,
            ElementCategoryId::Formula => 7,
            ElementCategoryId::DateCreated => 8,
            ElementCategoryId::DateUpdated => 9,
            ElementCategoryId::DateDeprecated => 10,
            ElementCategoryId::UserCreatedBy => 11,
            ElementCategoryId::UserUpdatedBy => 12,
            ElementCategoryId::UserDeprecatedBy => 13,
            ElementCategoryId::Persons => 14,
            ElementCategoryId::Files => 15,
            ElementCategoryId::References => 16,
            ElementCategoryId::Hierarchy => 17,
            ElementCategoryId::SubEntries => 18,
            ElementCategoryId::Dependencies => 19,
        }
    }

    /// The name of this category.
    pub open spec fn name_of(self) -> Seq<char> {
        match self {
            ElementCategoryId::Text => "Text"@,
            ElementCategoryId::Number => "Number"@,
            ElementCategoryId::URL => "URL"@,
            ElementCategoryId::Date => "Date"@,
            ElementCategoryId::Checkbox => "Checkbox"@,
            ElementCategoryId::Categories => "Categories"@,
            ElementCategoryId::Formula => "Formula"@,
            ElementCategoryId::DateCreated => "DateCreated"@,
            ElementCategoryId::DateUpdated => "DateUpdated"@,
            ElementCategoryId::DateDeprecated => "DateDeprecated"@,
            ElementCategoryId::UserCreatedBy => "UserCreatedBy"@,
            ElementCategoryId::UserUpdatedBy => "UserUpdatedBy"@,
            ElementCategoryId::UserDeprecatedBy => "UserDeprecatedBy"@,
            ElementCategoryId::Persons => "Persons"@,
            ElementCategoryId::Files => "Files"@,
            ElementCategoryId::References => "References"@,
            ElementCategoryId::Hierarchy => "Hierarchy"@,
            ElementCategoryId::SubEntries => "SubEntries"@,
            ElementCategoryId::Dependencies => "Dependencies"@,
        }
    }

    /// The name of this category.
    pub fn to_string(&self) -> (r: String)
        ensures
            r@ == self.name_of(),
    {
        String::from_str(
            match self {
                ElementCategoryId::Text => "Text",
                ElementCategoryId::Number => "Number",
                ElementCategoryId::URL => "URL",
                ElementCategoryId::Date => "Date",
                ElementCategoryId::Checkbox => "Checkbox",
                ElementCategoryId::Categories => "Categories",
                ElementCategoryId::Formula => "Formula",
                ElementCategoryId::DateCreated => "DateCreated",
                ElementCategoryId::DateUpdated => "DateUpdated",
                ElementCategoryId::DateDeprecated => "DateDeprecated",
                ElementCategoryId::UserCreatedBy => "UserCreatedBy",
                ElementCategoryId::UserUpdatedBy => "UserUpdatedBy",
                ElementCategoryId::UserDeprecatedBy => "UserDeprecatedBy",
                ElementCategoryId::Persons => "Persons",
                ElementCategoryId::Files => "Files",
                ElementCategoryId::References => "References",
                ElementCategoryId::Hierarchy => "Hierarchy",
                ElementCategoryId::SubEntries => "SubEntries",
                ElementCategoryId::Dependencies => "Dependencies",
            },
        )
    }

    /// The category that the service writes as `n`, if there is one.
    pub open spec fn of_code(n: u64) -> Option<ElementCategoryId> {
        if n == 1 {
            Some(ElementCategoryId::Text)
        } else if n == 2 {
            Some(ElementCategoryId::Number)
        } else if n == 3 {
            Some(ElementCategoryId::URL)
        } else if n == 4 {
            Some(ElementCategoryId::Date)
        } else if n == 5 {
            Some(ElementCategoryId::Checkbox)
        } else if n == 6 {
            Some(ElementCategoryId::Categories)
        } else if n == 7 {
            Some(ElementCategoryId::Formula)
        } else if n == 8 {
            Some(ElementCategoryId::DateCreated)
        } else if n == 9 {
            Some(ElementCategoryId::DateUpdated)
        } else if n == 10 {
            Some(ElementCategoryId::DateDeprecated)
        } else if n == 11 {
            Some(ElementCategoryId::UserCreatedBy)
        } else if n == 12 {
            Some(ElementCategoryId::UserUpdatedBy)
        } else if n == 13 {
            Some(ElementCategoryId::UserDeprecatedBy)
        } else if n == 14 {
            Some(ElementCategoryId::Persons)
        } else if n == 15 {
            Some(ElementCategoryId::Files)
        } else if n == 16 {
            Some(ElementCategoryId::References)
        } else if n == 17 {
            Some(ElementCategoryId::Hierarchy)
        } else if n == 18 {
            Some(ElementCategoryId::SubEntries)
        } else if n == 19 {
            Some(ElementCategoryId::Dependencies)
        } else {
            None
        }
    }

    /// The category that the service writes as `n`, if there is one.
    pub fn from_u64(n: u64) -> (r: Option<ElementCategoryId>)
        ensures
            r == ElementCategoryId::of_code(n),
            r matches Some(c) ==> c.code_of() == n,
    {
        match n {
            1 => Some(ElementCategoryId::Text),
            2 => Some(ElementCategoryId::Number),
            3 => Some(ElementCategoryId::URL),
            4 => Some(ElementCategoryId::Date),
            5 => Some(ElementCategoryId::Checkbox),
            6 => Some(ElementCategoryId::Categories),
            7 => Some(ElementCategoryId::Formula),
            8 => Some(ElementCategoryId::DateCreated),
            9 => Some(ElementCategoryId::DateUpdated),
            10 => Some(ElementCategoryId::DateDeprecated),
            11 => Some(ElementCategoryId::UserCreatedBy),
            12 => Some(ElementCategoryId::UserUpdatedBy),
            13 => Some(ElementCategoryId::UserDeprecatedBy),
            14 => Some(ElementCategoryId::Persons),
            15 => Some(ElementCategoryId::Files),
            16 => Some(ElementCategoryId::References),
            17 => Some(ElementCategoryId::Hierarchy),
            18 => Some(ElementCategoryId::SubEntries),
            19 => Some(ElementCategoryId::Dependencies),
            _ => None,
        }
    }
}

/// Type of numeric field
#[derive(PartialEq, Eq, Structural, Debug, Copy, Clone)]
pub enum NumericType {
    /// Integer (signed)
    Integer,
    /// Decimal: a number with a fraction
    Decimal,
}

/// For elements of type Categories, a PredefinedCategory is one of the choices
#[derive(Debug, Clone)]
pub struct PredefinedCategory {
    /// object id
    pub id: ID,
    /// object short id
    pub short_id: ShortId,
    /// object uuid
    pub uuid: UUID,
    /// category name
    pub name: String,
    /// color, in hex
    pub color: String,
    /// when the object was created
    pub created_at: DateTime,
    /// when the object was last updated
    pub updated_at: DateTime,
    /// when the object was deprecated, if it is
    pub deprecated_at: Option<DateTime>,
    /// element (field) id
    pub element_id: ID,
    /// containing list id
    pub list_id: ID,
    /// list of resource tags
    pub resource_tags: Vec<serde_json::Value>,
    /// sort order, as the JSON number of it; none where it is no finite number
    pub sort_order: Option<serde_json::Number>,
}

impl PredefinedCategory {
    /// Whether `choice` names this category: it is its uuid or its name.
    pub open spec fn named_by(&self, choice: Seq<char>) -> bool {
        self.uuid@ == choice || self.name@ == choice
    }
}

impl ZKObjectID for PredefinedCategory {
    open spec fn id_of(&self) -> ID {
        self.id
    }

    open spec fn uuid_of(&self) -> Seq<char> {
        self.uuid@
    }

    fn get_id(&self) -> (r: ID) {
        self.id
    }

    fn get_uuid(&self) -> (r: &UUID) {
        &self.uuid
    }
}

/// A list that the user cannot access
#[derive(Debug, Clone)]
pub struct NoAccessList {
    /// user does not have access to list
    pub access_denied: bool,
    /// when the list was deprecated, if it is
    pub deprecated_at: Option<DateTime>,
    /// list name
    pub name: String,
    /// list uuid
    pub uuid: String,
}

/// Embedded list, if accessible
#[derive(Debug, Clone)]
pub enum ChildList {
    /// Embedded list
    Child(List),
    /// No accessible list
    NoList(NoAccessList),
}

/// Definition of the type of data held by an Element
#[derive(Debug, Clone)]
pub struct ElementData {
    /// for elements of type Categories, the choices
    pub predefined_categories: Option<Vec<PredefinedCategory>>,
    /// true if the field can have multiple values (labels, persons, etc.)
    pub multiple: bool,
    /// embedded list, for hierarchies
    pub child_list: Option<ChildList>,
    /// uuid of child list, for hierarchies
    pub child_list_uuid: Option<UUID>,
    /// mirror element
    pub mirror_element_uuid: Option<UUID>,
    /// catch-all for all other fields
    pub fields: JsonMap,
}

/// Definitions of business data (user-defined) fields
#[derive(Debug, Clone)]
pub struct BusinessData {
    /// field definitions
    pub fields: JsonMap,
}

/// Field definition
#[derive(Debug, Clone)]
pub struct Element {
    /// object id
    pub id: ID,
    /// object short id
    pub short_id: ShortId,
    /// object uuid
    pub uuid: UUID,
    /// field name
    pub name: String,
    /// field description
    pub description: Option<String>,
    /// The business data
    pub business_data: BusinessData,
    /// The element data
    pub element_data: ElementData,
    /// true if this is a list's primary element
    pub is_primary: bool,
    /// true if this element was created through an automatic process
    pub is_auto_created: bool,
    /// sort order, as the JSON number of it; none where it is no finite number
    pub sort_order: Option<serde_json::Number>,
    /// whether the element is shown
    pub visible: bool,
    /// when the object was created
    pub created_at: DateTime,
    /// when the object was last updated
    pub updated_at: DateTime,
    /// when the object was deprecated, if it is
    pub deprecated_at: Option<DateTime>,
    /// The element category
    pub element_category: ElementCategoryId,
    /// The id of the list this element belongs to
    pub list_id: ID,
    /// whether the element is shown in a public list
    pub visible_in_public_list: Option<bool>,
}

/// The test of whether `choice` names a category.
pub open spec fn names_choice(choice: Seq<char>) -> spec_fn(PredefinedCategory) -> bool {
    |c: PredefinedCategory| c.named_by(choice)
}

/// The id of the first of `choices` that `choice` names, if it names any.
pub open spec fn choice_among(choices: Seq<PredefinedCategory>, choice: Seq<char>) -> Option<ID> {
    let k = first_index(choices, names_choice(choice), 0);
    if k < choices.len() {
        Some(choices[k].id)
    } else {
        None
    }
}

/// The message of the error for a choice that a field does not offer.
pub open spec fn invalid_choice_message(choice: Seq<char>, field: Seq<char>) -> Seq<char> {
    "Invalid choice '"@ + choice + "' for field '"@ + field + "'"@
}

/// The numeric subtype that the `format` member of a number field's data
/// declares by its `name`: `integer` or `decimal`.
pub open spec fn declared_numeric_type(data: Map<Seq<char>, Json>) -> Option<NumericType> {
    if data.contains_key("format"@) {
        match data["format"@] {
            Json::Obj(format) => if format.contains_key("name"@) {
                match format["name"@] {
                    Json::Str(name) => if name == "integer"@ {
                        Some(NumericType::Integer)
                    } else if name == "decimal"@ {
                        Some(NumericType::Decimal)
                    } else {
                        None
                    },
                    _ => None,
                }
            } else {
                None
            },
            _ => None,
        }
    } else {
        None
    }
}

impl Element {
    /// The id of the choice that `choice` names: the first predefined category
    /// of a categories field with that uuid or name.
    pub open spec fn choice_id(&self, choice: Seq<char>) -> Option<ID> {
        if self.element_category == ElementCategoryId::Categories {
            match self.element_data.predefined_categories {
                Some(choices) => choice_among(choices@, choice),
                None => None,
            }
        } else {
            None
        }
    }

    /// Whether the field is numeric with a declared subtype, and which.
    pub open spec fn numeric_kind(&self) -> Option<NumericType> {
        if self.element_category == ElementCategoryId::Number {
            declared_numeric_type(members(self.element_data.fields))
        } else {
            None
        }
    }

    /// Whether `candidate` names this field: it is its name or uuid, or its id
    /// in decimal.
    pub open spec fn named_by(&self, candidate: Seq<char>) -> bool {
        self.name@ == candidate || self.uuid@ == candidate || decimal(self.id as nat) == candidate
    }

    /// Executable form of [`Element::named_by`].
    pub fn is_named(&self, candidate: &str) -> (r: bool)
        ensures
            r == self.named_by(candidate@),
    {
        if str_eq(self.name.as_str(), candidate) || str_eq(self.uuid.as_str(), candidate) {
            return true;
        }
        let digits = to_decimal(self.id);
        str_eq(digits.as_str(), candidate)
    }

    /// Returns the element description, or an empty string if none was provided
    pub fn get_description(&self) -> (r: &str)
        ensures
            r@ == (match self.description {
                Some(s) => s@,
                None => ""@,
            }),
    {
        match &self.description {
            Some(s) => s.as_str(),
            None => "",
        }
    }

    /// Looks a choice id up from its name or uuid. Fails with `NotFound` if the
    /// field is no categories field or has no such choice.
    pub fn get_choice_id(&self, choice_name: &str) -> (r: Result<ID, Error>)
        ensures
            match r {
                Ok(id) => self.choice_id(choice_name@) == Some(id),
                Err(e) => self.choice_id(choice_name@).is_none() && e == Error::NotFound(
                    e->NotFound_0,
                ) && e->NotFound_0@ == invalid_choice_message(choice_name@, self.name@),
            },
    {
        if self.element_category == ElementCategoryId::Categories {
            if let Some(categories) = &self.element_data.predefined_categories {
                let ghost p = names_choice(choice_name@);
                let mut i: usize = 0;
                while i < categories.len()
                    invariant
                        i <= categories@.len(),
                        p == names_choice(choice_name@),
                        self.element_category == ElementCategoryId::Categories,
                        self.element_data.predefined_categories == Some(*categories),
                        first_index(categories@, p, 0) == first_index(categories@, p, i as int),
                    decreases categories@.len() - i,
                {
                    let c = &categories[i];
                    assert(p(categories@[i as int]) == categories@[i as int].named_by(choice_name@));
                    if str_eq(c.uuid.as_str(), choice_name) || str_eq(c.name.as_str(), choice_name) {
                        return Ok(c.id);
                    }
                    i += 1;
                }
            }
        }
        let mut msg = String::from_str("Invalid choice '");
        msg.append(choice_name);
        msg.append("' for field '");
        msg.append(self.name.as_str());
        msg.append("'");
        Err(Error::NotFound(msg))
    }

    /// Returns whether the numeric field is Integer or Decimal.
    /// Returns None if the field is not numeric or declares neither.
    pub fn numeric_type(&self) -> (r: Option<NumericType>)
        ensures
            r == self.numeric_kind(),
    {
        if self.element_category == ElementCategoryId::Number {
            if let Some(format_val) = object_get(&self.element_data.fields, "format") {
                if let Some(format_obj) = format_val.as_object() {
                    if let Some(name_val) = object_get(format_obj, "name") {
                        return match name_val.as_str() {
                            Some(name) => if str_eq(name, "integer") {
                                Some(NumericType::Integer)
                            } else if str_eq(name, "decimal") {
                                Some(NumericType::Decimal)
                            } else {
                                None
                            },
                            None => None,
                        };
                    }
                }
            }
        }
        None
    }
}

impl ZKObjectID for Element {
    open spec fn id_of(&self) -> ID {
        self.id
    }

    open spec fn uuid_of(&self) -> Seq<char> {
        self.uuid@
    }

    fn get_id(&self) -> (r: ID) {
        self.id
    }

    fn get_uuid(&self) -> (r: &UUID) {
        &self.uuid
    }
}

/// List (aka Collection): the summary that comes with its workspace.
#[derive(Debug, Clone)]
pub struct List {
    /// object id
    pub id: ID,
    /// object short id
    pub short_id: ShortId,
    /// object uuid
    pub uuid: UUID,
    /// list name / title
    pub name: String,
    /// optional name for list item (defaults to list name)
    pub item_name: Option<String>,
    /// optional plural name for list item (defaults to list name)
    pub item_name_plural: Option<String>,
    /// whether the list is being built
    pub is_building: bool,
    /// whether the list is being migrated
    pub is_migrating: bool,
    /// sort order, as the JSON number of it; none where it is no finite number
    pub sort_order: Option<serde_json::Number>,
    /// description of list
    pub description: String,
    /// order in which formulas are worked out
    pub formula_tsort_order: Option<String>,
    /// who may attach files
    pub list_file_policy: Option<String>,
    /// where the list comes from
    pub origin_provider: Option<String>,
    /// what is known of the list where it comes from
    pub origin_data: Option<serde_json::Value>,
    /// the view in which the list opens
    pub default_view_modus: i64,
    /// when the object was created
    pub created_at: DateTime,
    /// when the object was last updated
    pub updated_at: DateTime,
    /// when the object was deprecated, if it is
    pub deprecated_at: Option<DateTime>,
    /// when the list was created where it comes from
    pub origin_created_at: Option<DateTime>,
    /// when the list was last updated where it comes from
    pub origin_updated_at: Option<DateTime>,
    /// when the list was deprecated where it comes from
    pub origin_deprecated_at: Option<DateTime>,
    /// id of workspace containing list
    pub workspace_id: ID,
    /// background of the list
    pub background_id: Option<String>,
    /// who may see the list
    pub visibility: i64,
    /// color of the icon
    pub icon_color: Option<String>,
    /// color behind the icon
    pub icon_background_color: Option<String>,
    /// id of user that created list
    pub created_by: ID,
}

impl List {
    /// Whether `candidate` names this list.
    pub open spec fn named_by(&self, candidate: Seq<char>) -> bool {
        names_object(self.id, self.uuid@, self.short_id@, self.name@, candidate)
    }

    /// Returns true if the list has the id, uuid, shortId, or name of the parameter
    pub fn has_id(&self, id: &str) -> (r: bool)
        ensures
            r == self.named_by(id@),
    {
        has_identifier(self.id, self.uuid.as_str(), self.short_id.as_str(), self.name.as_str(), id)
    }

    /// Shows the list in a line: id, uuid and name.
    pub fn to_string(&self) -> (r: String)
        ensures
            r@ == object_line(self.id, self.uuid@, self.name@),
    {
        show_object(self.id, self.uuid.as_str(), self.name.as_str())
    }
}

impl ZKObjectID for List {
    open spec fn id_of(&self) -> ID {
        self.id
    }

    open spec fn uuid_of(&self) -> Seq<char> {
        self.uuid@
    }

    fn get_id(&self) -> (r: ID) {
        self.id
    }

    fn get_uuid(&self) -> (r: &UUID) {
        &self.uuid
    }
}

/// User profile data
#[derive(Debug, Clone)]
pub struct User {
    /// object id
    pub id: ID,
    /// object short id
    pub short_id: ShortId,
    /// object uuid
    pub uuid: UUID,
    /// name shown for the user
    pub display_name: String,
    /// full name of the user
    pub full_name: String,
    /// initials of the user
    pub initials: String,
    /// login name of the user
    pub user_name: String,
    /// background theme of the user
    pub background_id: Option<ID>,
    /// key of the user for the service
    pub api_key: Option<String>,
    /// where the image of the user is found
    pub image_link: Option<serde_json::Value>,
    /// whether the user prefers an image to initials
    pub is_image_preferred: bool,
    /// whether the user is anonymous
    pub anonymous: Option<bool>,
    /// locale of the user
    pub locale: Option<String>,
    /// time zone of the user
    pub timezone: Option<String>,
    /// whether the user administers the service
    pub is_super_admin: Option<bool>,
    /// when the user registered
    pub registered_at: Option<serde_json::Value>,
    /// token of the user for Trello
    pub trello_token: Option<String>,
    /// settings of the user
    pub settings: Option<serde_json::Value>,
    /// number of email addresses of the user
    pub email_count: u64,
}

impl ZKObjectID for User {
    open spec fn id_of(&self) -> ID {
        self.id
    }

    open spec fn uuid_of(&self) -> Seq<char> {
        self.uuid@
    }

    fn get_id(&self) -> (r: ID) {
        self.id
    }

    fn get_uuid(&self) -> (r: &UUID) {
        &self.uuid
    }
}

/// Workspace
#[derive(Debug, Clone)]
pub struct Workspace {
    /// workspace id
    pub id: ID,
    /// workspace short id
    pub short_id: ShortId,
    /// workspace uuid
    pub uuid: UUID,
    /// workspace name
    pub name: String,
    /// workspace description
    pub description: Option<String>,
    /// whether this is user's default workspace
    pub is_default: bool,
    /// when the object was created
    pub created_at: DateTime,
    /// when the object was last updated
    pub updated_at: DateTime,
    /// when the object was deprecated, if it is
    pub deprecated_at: Option<DateTime>,
    /// workspace background theme
    pub background_id: Option<ID>,
    /// workspace creator user id
    pub created_by: ID,
    /// lists in workspace
    pub lists: Vec<List>,
}

impl ZKObjectID for Workspace {
    open spec fn id_of(&self) -> ID {
        self.id
    }

    open spec fn uuid_of(&self) -> Seq<char> {
        self.uuid@
    }

    fn get_id(&self) -> (r: ID) {
        self.id
    }

    fn get_uuid(&self) -> (r: &UUID) {
        &self.uuid
    }
}

impl Workspace {
    /// Whether `candidate` names this workspace.
    pub open spec fn named_by(&self, candidate: Seq<char>) -> bool {
        names_object(self.id, self.uuid@, self.short_id@, self.name@, candidate)
    }

    /// Returns the workspace description, or an empty string if none was provided
    pub fn get_description(&self) -> (r: &str)
        ensures
            r@ == (match self.description {
                Some(s) => s@,
                None => ""@,
            }),
    {
        match &self.description {
            Some(s) => s.as_str(),
            None => "",
        }
    }

    /// Returns true if the workspace has the id, uuid, shortId, or name of the parameter
    pub fn has_id(&self, id: &str) -> (r: bool)
        ensures
            r == self.named_by(id@),
    {
        has_identifier(self.id, self.uuid.as_str(), self.short_id.as_str(), self.name.as_str(), id)
    }

    /// Shows the workspace in a line: id, uuid and name.
    pub fn to_string(&self) -> (r: String)
        ensures
            r@ == object_line(self.id, self.uuid@, self.name@),
    {
        show_object(self.id, self.uuid.as_str(), self.name.as_str())
    }

    /// Returns the workspace id
    pub fn get_id(&self) -> (r: ID)
        ensures
            r == self.id,
    {
        self.id
    }

    /// Returns the workspace uuid
    pub fn get_uuid(&self) -> (r: &UUID)
        ensures
            r == &self.uuid,
    {
        &self.uuid
    }
}

/// Format of a text value
#[derive(PartialEq, Eq, Structural, Debug, Copy, Clone)]
pub enum TextFormat {
    /// Plain text
    Plain,
    /// HTML
    #[allow(non_camel_case_types)]
    HTML,
    /// Markdown
    Markdown,
}

impl TextFormat {
    /// The word the service writes for this format.
    pub open spec fn word(self) -> Seq<char> {
        match self {
            TextFormat::Plain => "plain"@,
            TextFormat::HTML => "html"@,
            TextFormat::Markdown => "markdown"@,
        }
    }

    /// The name of this format.
    pub open spec fn name_of(self) -> Seq<char> {
        match self {
            TextFormat::Plain => "Plain"@,
            TextFormat::HTML => "HTML"@,
            TextFormat::Markdown => "Markdown"@,
        }
    }

    /// The name of this format.
    pub fn name(&self) -> (r: &'static str)
        ensures
            r@ == self.name_of(),
    {
        match self {
            TextFormat::Plain => "Plain",
            TextFormat::HTML => "HTML",
            TextFormat::Markdown => "Markdown",
        }
    }

    /// The format that a word stands for, if it is one of the three.
    pub open spec fn of_word(s: Seq<char>) -> Option<TextFormat> {
        if s == "plain"@ {
            Some(TextFormat::Plain)
        } else if s == "markdown"@ {
            Some(TextFormat::Markdown)
        } else if s == "html"@ {
            Some(TextFormat::HTML)
        } else {
            None
        }
    }

    /// The word the service writes for this format.
    pub fn to_string(&self) -> (r: String)
        ensures
            r@ == self.word(),
    {
        match self {
            TextFormat::Plain => String::from_str("plain"),
            TextFormat::HTML => String::from_str("html"),
            TextFormat::Markdown => String::from_str("markdown"),
        }
    }

    /// Reads a format from its word; any other text is a parse error.
    pub fn parse(s: &str) -> (r: Result<TextFormat, Error>)
        ensures
            match r {
                Ok(f) => TextFormat::of_word(s@) == Some(f),
                Err(e) => TextFormat::of_word(s@).is_none() && e == Error::Other(e->Other_0)
                    && e->Other_0@ == "TextFormat parse error: '"@ + s@
                    + "' not 'plain', 'html', or 'markdown'"@,
            },
    {
        if str_eq(s, "plain") {
            Ok(TextFormat::Plain)
        } else if str_eq(s, "markdown") {
            Ok(TextFormat::Markdown)
        } else if str_eq(s, "html") {
            Ok(TextFormat::HTML)
        } else {
            let mut msg = String::from_str("TextFormat parse error: '");
            msg.append(s);
            msg.append("' not 'plain', 'html', or 'markdown'");
            Err(Error::Other(msg))
        }
    }
}

impl Default for TextFormat {
    fn default() -> (r: Self)
        ensures
            r == TextFormat::Plain,
    {
        TextFormat::Plain
    }
}

impl std::str::FromStr for TextFormat {
    type Err = Error;

    /// Reads a format from its word; any other text is a parse error.
    fn from_str(s: &str) -> (r: Result<Self, Self::Err>)
        ensures
            match r {
                Ok(f) => TextFormat::of_word(s@) == Some(f),
                Err(e) => TextFormat::of_word(s@).is_none() && e == Error::Other(e->Other_0)
                    && e->Other_0@ == "TextFormat parse error: '"@ + s@
                    + "' not 'plain', 'html', or 'markdown'"@,
            },
    {
        TextFormat::parse(s)
    }
}

/// Type of data change
#[derive(PartialEq, Eq, Structural, Debug, Copy, Clone)]
pub enum UpdateAction {
    /// Replace old values with new values
    Replace,
    /// Append new values to old values (assumes multi-valued)
    Append,
    /// Removes value(s)
    Remove,
    /// No update action
    Null,
}

impl UpdateAction {
    /// The word the service reads for this action; none for `Null`.
    pub open spec fn word(self) -> Seq<char> {
        match self {
            UpdateAction::Replace => "replace"@,
            UpdateAction::Append => "append"@,
            UpdateAction::Remove => "remove"@,
            UpdateAction::Null => ""@,
        }
    }

    /// The name of this action.
    pub open spec fn name_of(self) -> Seq<char> {
        match self {
            UpdateAction::Replace => "Replace"@,
            UpdateAction::Append => "Append"@,
            UpdateAction::Remove => "Remove"@,
            UpdateAction::Null => "Null"@,
        }
    }

    /// The name of this action.
    pub fn name(&self) -> (r: &'static str)
        ensures
            r@ == self.name_of(),
    {
        match self {
            UpdateAction::Replace => "Replace",
            UpdateAction::Append => "Append",
            UpdateAction::Remove => "Remove",
            UpdateAction::Null => "Null",
        }
    }

    /// The action that a sign stands for: `=`, `+`, `-`; any other is `Null`.
    pub open spec fn of_sign(c: char) -> UpdateAction {
        if c == '=' {
            UpdateAction::Replace
        } else if c == '+' {
            UpdateAction::Append
        } else if c == '-' {
            UpdateAction::Remove
        } else {
            UpdateAction::Null
        }
    }

    /// The word the service reads for this action; empty for `Null`.
    pub fn to_string(&self) -> (r: String)
        ensures
            r@ == self.word(),
    {
        match self {
            UpdateAction::Replace => String::from_str("replace"),
            UpdateAction::Append => String::from_str("append"),
            UpdateAction::Remove => String::from_str("remove"),
            UpdateAction::Null => String::from_str(""),
        }
    }
}

impl vstd::std_specs::convert::FromSpecImpl<char> for UpdateAction {
    open spec fn obeys_from_spec() -> bool {
        true
    }

    open spec fn from_spec(c: char) -> UpdateAction {
        UpdateAction::of_sign(c)
    }
}

/// Converts character ('=', '+', '-') to UpdateAction (Replace, Append, Remove);
/// any other char maps to Null
impl From<char> for UpdateAction {
    fn from(c: char) -> (r: Self) {
        match c {
            '=' => UpdateAction::Replace,
            '+' => UpdateAction::Append,
            '-' => UpdateAction::Remove,
            _ => UpdateAction::Null,
        }
    }
}

} // verus!

//! Entries of a list and the readers of their business fields.
use vstd::prelude::*;
use vstd::string::*;
use crate::codec::{field_key, key_of};
use crate::error::Error;
use crate::json::{json_of, jsons_of, members, object_get, Json, JsonMap};
use crate::list::{field_position, find_field, invalid_field_message};
use crate::records::Checklist;
use crate::types::{Field, ShortId, DateTime, ZKObjectID, ID, UUID};

verus! {

/// List item
#[derive(Debug)]
pub struct Entry {
    /// object id
    pub id: ID,
    /// object short id
    pub short_id: ShortId,
    /// object uuid
    pub uuid: UUID,
    /// id of list containing this entry
    pub list_id: ID,
    /// entry created date
    pub created_at: DateTime,
    /// entry updated date
    pub updated_at: DateTime,
    /// entry deprecated date
    pub deprecated_at: Option<DateTime>,
    /// user that created entry
    pub created_by_displayname: Option<String>,
    /// user that updated entry
    pub updated_by_displayname: Option<String>,
    /// user that deprecated entry
    pub deprecated_by_displayname: Option<String>,
    /// id of user that created entry
    pub created_by: ID,
    /// id of user that updated entry
    pub updated_by: ID,
    /// id of user that deprecated entry
    pub deprecated_by: Option<ID>,
    /// Entry title
    pub display_string: String,
    /// sort order, as the JSON number of it; none where it is no finite number
    pub sort_order: Option<serde_json::Number>,
    /// number of comments
    pub comment_count: u64,
    /// checklist items attached to this entry
    pub checklists: Vec<Checklist>,
    /// Catch-all: the business fields, by `<field uuid>_<suffix>`
    pub fields: JsonMap,
}

impl ZKObjectID for Entry {
    open spec fn id_of(&self) -> ID {
        self.id
    }

    open spec fn uuid_of(&self) -> Seq<char> {
        self.uuid@
    }

    fn get_id(&self) -> (r: ID) {
        self.id
    }

    fn get_uuid(&self) -> (r: &UUID) {
        &self.uuid
    }
}

/// The text under `key` in a document, if a text is there.
pub open spec fn text_at(doc: Map<Seq<char>, Json>, key: Seq<char>) -> Option<Seq<char>> {
    if doc.contains_key(key) {
        match doc[key] {
            Json::Str(s) => Some(s),
            _ => None,
        }
    } else {
        None
    }
}

/// The integer under `key` in a document, if one that fits in `i64` is there.
pub open spec fn int_at(doc: Map<Seq<char>, Json>, key: Seq<char>) -> Option<i64> {
    if doc.contains_key(key) {
        match doc[key] {
            Json::Int(i) => if i64::MIN <= i <= i64::MAX {
                Some(i as i64)
            } else {
                None
            },
            _ => None,
        }
    } else {
        None
    }
}

/// The text that an element of an array holds under `key`, if the element is
/// an object with a text there.
pub open spec fn member_text(item: Json, key: Seq<char>) -> Option<Seq<char>> {
    match item {
        Json::Obj(m) => text_at(m, key),
        _ => None,
    }
}

/// The id that an element of an array holds under `key`, if the element is
/// an object with a number there that can be an id.
pub open spec fn member_id(item: Json, key: Seq<char>) -> Option<ID> {
    match item {
        Json::Obj(m) => if m.contains_key(key) {
            match m[key] {
                Json::Int(i) => if 0 <= i <= u64::MAX {
                    Some(i as u64)
                } else {
                    None
                },
                _ => None,
            }
        } else {
            None
        },
        _ => None,
    }
}

/// The texts that the first `n` elements hold under `key`, in their order;
/// elements that hold none are passed over.
pub open spec fn plucked_texts(items: Seq<Json>, key: Seq<char>, n: int) -> Seq<Seq<char>>
    decreases n,
{
    if n <= 0 {
        Seq::empty()
    } else {
        match member_text(items[n - 1], key) {
            Some(s) => plucked_texts(items, key, n - 1).push(s),
            None => plucked_texts(items, key, n - 1),
        }
    }
}

/// The ids that the first `n` elements hold under `key`, in their order;
/// elements that hold none are passed over.
pub open spec fn plucked_ids(items: Seq<Json>, key: Seq<char>, n: int) -> Seq<ID>
    decreases n,
{
    if n <= 0 {
        Seq::empty()
    } else {
        match member_id(items[n - 1], key) {
            Some(id) => plucked_ids(items, key, n - 1).push(id),
            None => plucked_ids(items, key, n - 1),
        }
    }
}

/// The elements of the array under `key` in a document; none if no array is there.
pub open spec fn array_at(doc: Map<Seq<char>, Json>, key: Seq<char>) -> Seq<Json> {
    if doc.contains_key(key) {
        match doc[key] {
            Json::Arr(items) => items,
            _ => Seq::empty(),
        }
    } else {
        Seq::empty()
    }
}

/// The texts that the elements of the array under `field` hold under `key`.
pub open spec fn texts_in(doc: Map<Seq<char>, Json>, field: Seq<char>, key: Seq<char>) -> Seq<Seq<char>> {
    plucked_texts(array_at(doc, field), key, array_at(doc, field).len() as int)
}

/// The ids that the elements of the array under `field` hold under `key`.
pub open spec fn ids_in(doc: Map<Seq<char>, Json>, field: Seq<char>, key: Seq<char>) -> Seq<ID> {
    plucked_ids(array_at(doc, field), key, array_at(doc, field).len() as int)
}

/// The texts of a vector of string slices.
pub open spec fn texts_of(v: Seq<&str>) -> Seq<Seq<char>> {
    Seq::new(v.len(), |i: int| v[i]@)
}

/// The array of values under `key`, if one is there.
fn values_at<'a>(fields: &'a JsonMap, key: &str) -> (r: Option<&'a Vec<serde_json::Value>>)
    ensures
        match r {
            Some(items) => jsons_of(items@) == array_at(members(*fields), key@),
            None => array_at(members(*fields), key@).len() == 0,
        },
{
    match object_get(fields, key) {
        Some(v) => {
            let r = v.as_array();
            proof {
                if let Some(items) = r {
                    assert(jsons_of(items@) == array_at(members(*fields), key@));
                }
            }
            r
        },
        None => None,
    }
}

impl Entry {
    /// The text member of the document under the key of the field and suffix.
    fn text_member(&self, field_uuid: &str, suffix: &str) -> (r: Option<&str>)
        ensures
            match r {
                Some(s) => text_at(members(self.fields), key_of(field_uuid@, suffix@)) == Some(s@),
                None => text_at(members(self.fields), key_of(field_uuid@, suffix@)).is_none(),
            },
    {
        let field_name = field_key(field_uuid, suffix);
        match object_get(&self.fields, field_name.as_str()) {
            Some(v) => v.as_str(),
            None => None,
        }
    }

    /// Obtains the texts that the elements of an array of objects hold under `key`.
    fn map_texts(&self, field_uuid: &str, field_kind: &str, key: &str) -> (r: Vec<&str>)
        ensures
            texts_of(r@) == texts_in(members(self.fields), key_of(field_uuid@, field_kind@), key@),
    {
        let field_name = field_key(field_uuid, field_kind);
        let mut out: Vec<&str> = Vec::new();
        match values_at(&self.fields, field_name.as_str()) {
            Some(items) => {
                let ghost models = jsons_of(items@);
                let mut i: usize = 0;
                while i < items.len()
                    invariant
                        i <= items@.len(),
                        models == jsons_of(items@),
                        texts_of(out@) == plucked_texts(models, key@, i as int),
                    decreases items@.len() - i,
                {
                    let ghost before = out@;
                    assert(models[i as int] == json_of(items@[i as int]));
                    if let Some(m) = items[i].as_object() {
                        if let Some(v) = object_get(m, key) {
                            if let Some(s) = v.as_str() {
                                out.push(s);
                                assert(texts_of(out@) =~= texts_of(before).push(s@));
                            }
                        }
                    }
                    i += 1;
                }
            },
            None => {
                assert(texts_of(out@) =~= Seq::<Seq<char>>::empty());
            },
        }
        out
    }

    /// Obtains the ids that the elements of an array of objects hold under `key`.
    fn map_ids(&self, field_uuid: &str, field_kind: &str, key: &str) -> (r: Vec<ID>)
        ensures
            r@ == ids_in(members(self.fields), key_of(field_uuid@, field_kind@), key@),
    {
        let field_name = field_key(field_uuid, field_kind);
        let mut out: Vec<ID> = Vec::new();
        match values_at(&self.fields, field_name.as_str()) {
            Some(items) => {
                let ghost models = jsons_of(items@);
                let mut i: usize = 0;
                while i < items.len()
                    invariant
                        i <= items@.len(),
                        models == jsons_of(items@),
                        out@ == plucked_ids(models, key@, i as int),
                    decreases items@.len() - i,
                {
                    assert(models[i as int] == json_of(items@[i as int]));
                    if let Some(m) = items[i].as_object() {
                        if let Some(v) = object_get(m, key) {
                            if let Some(id) = v.as_u64() {
                                out.push(id);
                            }
                        }
                    }
                    i += 1;
                }
            },
            None => {},
        }
        out
    }

    /// Returns value of text string or None if undefined
    pub fn get_text_value(&self, field_uuid: &str) -> (r: Result<Option<&str>, Error>)
        ensures
            match r {
                Ok(Some(s)) => text_at(members(self.fields), key_of(field_uuid@, "text"@)) == Some(s@),
                Ok(None) => text_at(members(self.fields), key_of(field_uuid@, "text"@)).is_none(),
                Err(_) => false,
            },
    {
        Ok(self.text_member(field_uuid, "text"))
    }

    /// Returns int value of numeric field
    pub fn get_int_value(&self, field_uuid: &str) -> (r: Result<Option<i64>, Error>)
        ensures
            r matches Ok(v) && v == int_at(members(self.fields), key_of(field_uuid@, "number"@)),
    {
        let field_name = field_key(field_uuid, "number");
        Ok(
            match object_get(&self.fields, field_name.as_str()) {
                Some(v) => v.as_i64(),
                None => None,
            },
        )
    }

    /// Returns value of date string or None if undefined
    pub fn get_date_value(&self, field_uuid: &str) -> (r: Result<Option<&str>, Error>)
        ensures
            match r {
                Ok(Some(s)) => text_at(members(self.fields), key_of(field_uuid@, "date"@)) == Some(s@),
                Ok(None) => text_at(members(self.fields), key_of(field_uuid@, "date"@)).is_none(),
                Err(_) => false,
            },
    {
        Ok(self.text_member(field_uuid, "date"))
    }

    /// Returns label/category value(s) (as strings)
    pub fn get_category_names(&self, field_uuid: &str) -> (r: Vec<&str>)
        ensures
            texts_of(r@) == texts_in(members(self.fields), key_of(field_uuid@, "categories_sort"@), "name"@),
    {
        self.map_texts(field_uuid, "categories_sort", "name")
    }

    /// Returns label/category ids
    pub fn get_category_ids(&self, field_uuid: &str) -> (r: Vec<ID>)
        ensures
            r@ == ids_in(members(self.fields), key_of(field_uuid@, "categories_sort"@), "id"@),
    {
        self.map_ids(field_uuid, "categories_sort", "id")
    }

    /// Returns display names of people referenced by this field
    pub fn get_person_names(&self, field_uuid: &str) -> (r: Vec<&str>)
        ensures
            texts_of(r@) == texts_in(members(self.fields), key_of(field_uuid@, "persons_sort"@), "displayname"@),
    {
        self.map_texts(field_uuid, "persons_sort", "displayname")
    }

    /// Returns IDs of people referenced by this field
    pub fn get_person_ids(&self, field_uuid: &str) -> (r: Vec<ID>)
        ensures
            r@ == ids_in(members(self.fields), key_of(field_uuid@, "persons_sort"@), "id"@),
    {
        self.map_ids(field_uuid, "persons_sort", "id")
    }

    /// Returns UUIDs of referent items, or empty array
    pub fn get_references(&self, field_uuid: &str) -> (r: Vec<&str>)
        ensures
            texts_of(r@) == texts_in(members(self.fields), key_of(field_uuid@, "references_sort"@), "uuid"@),
    {
        self.map_texts(field_uuid, "references_sort", "uuid")
    }
}

/// Item in a list. Wrapper for Entry that includes field getters for business values.
#[derive(Debug)]
pub struct Item<'li> {
    entry: Entry,
    list_name: &'li str,
    list_id: ID,
    fields: &'li [Field],
}

/// The message of the error for several choices where one was expected.
pub open spec fn multiple_choices_message() -> Seq<char> {
    "Configuration error: label field not expected to contain multiple values"@
}

impl<'li> Item<'li> {
    /// The entry that the item wraps.
    pub closed spec fn entry_of(&self) -> Entry {
        self.entry
    }

    /// The field definitions of the list of the item.
    pub closed spec fn schema(&self) -> Seq<Field> {
        self.fields@
    }

    /// The name of the list of the item.
    pub closed spec fn list_name_of(&self) -> Seq<char> {
        self.list_name@
    }

    /// The id of the list of the item.
    pub closed spec fn list_id_of(&self) -> ID {
        self.list_id
    }

    /// The business fields of the entry.
    pub open spec fn doc(&self) -> Map<Seq<char>, Json> {
        members(self.entry_of().fields)
    }

    /// Whether `fname` names a field of the list.
    pub open spec fn has_field(&self, fname: Seq<char>) -> bool {
        field_position(self.schema(), fname) < self.schema().len()
    }

    /// The uuid of the field that `fname` names.
    pub open spec fn uuid_of_field(&self, fname: Seq<char>) -> Seq<char> {
        self.schema()[field_position(self.schema(), fname)].uuid@
    }

    /// Whether `r` is the refusal of a name that names no field of the list.
    pub open spec fn refuses<T>(&self, r: Result<T, Error>, fname: Seq<char>) -> bool {
        r matches Err(Error::NotFound(m)) && m@ == invalid_field_message(fname, self.list_name_of())
    }

    /// Constructs new item
    pub fn new(entry: Entry, list_name: &'li str, list_id: ID, fields: &'li [Field]) -> (r: Self)
        ensures
            r.entry_of() == entry,
            r.list_name_of() == list_name@,
            r.list_id_of() == list_id,
            r.schema() == fields@,
    {
        Self { entry, list_name, list_id, fields }
    }

    /// Returns reference to the inner entry.
    pub fn as_entry(&self) -> (r: &Entry)
        ensures
            *r == self.entry_of(),
    {
        &self.entry
    }

    /// Return entry id
    pub fn get_id(&self) -> (r: ID)
        ensures
            r == self.entry_of().id,
    {
        self.entry.id
    }

    /// Returns entry uuid
    pub fn get_uuid(&self) -> (r: &UUID)
        ensures
            *r == self.entry_of().uuid,
    {
        &self.entry.uuid
    }

    /// Returns field (definition) given its name, id, or uuid
    pub fn get_field(&self, field_id: &str) -> (r: Result<&Field, Error>)
        ensures
            match r {
                Ok(f) => self.has_field(field_id@) && *f == self.schema()[field_position(
                    self.schema(),
                    field_id@,
                )],
                Err(_) => !self.has_field(field_id@) && self.refuses(r, field_id@),
            },
    {
        find_field(self.fields, field_id, self.list_name)
    }

    /// Returns value of text field. or None if not defined.
    /// fname parameter may be field name, id, or uuid
    pub fn get_text_value(&self, fname: &str) -> (r: Result<Option<&str>, Error>)
        ensures
            match r {
                Ok(Some(s)) => self.has_field(fname@) && text_at(
                    self.doc(),
                    key_of(self.uuid_of_field(fname@), "text"@),
                ) == Some(s@),
                Ok(None) => self.has_field(fname@) && text_at(
                    self.doc(),
                    key_of(self.uuid_of_field(fname@), "text"@),
                ).is_none(),
                Err(_) => !self.has_field(fname@) && self.refuses(r, fname@),
            },
    {
        match self.get_field(fname) {
            Ok(field) => self.entry.get_text_value(field.uuid.as_str()),
            Err(e) => Err(e),
        }
    }

    /// Returns value of integer field as i64. or None if not defined.
    /// fname parameter may be field name, id, or uuid
    pub fn get_int_value(&self, fname: &str) -> (r: Result<Option<i64>, Error>)
        ensures
            match r {
                Ok(v) => self.has_field(fname@) && v == int_at(
                    self.doc(),
                    key_of(self.uuid_of_field(fname@), "number"@),
                ),
                Err(_) => !self.has_field(fname@) && self.refuses(r, fname@),
            },
    {
        match self.get_field(fname) {
            Ok(field) => self.entry.get_int_value(field.uuid.as_str()),
            Err(e) => Err(e),
        }
    }

    /// Returns value of date field. or None if not defined.
    /// fname parameter may be field name, id, or uuid
    pub fn get_date_value(&self, fname: &str) -> (r: Result<Option<&str>, Error>)
        ensures
            match r {
                Ok(Some(s)) => self.has_field(fname@) && text_at(
                    self.doc(),
                    key_of(self.uuid_of_field(fname@), "date"@),
                ) == Some(s@),
                Ok(None) => self.has_field(fname@) && text_at(
                    self.doc(),
                    key_of(self.uuid_of_field(fname@), "date"@),
                ).is_none(),
                Err(_) => !self.has_field(fname@) && self.refuses(r, fname@),
            },
    {
        match self.get_field(fname) {
            Ok(field) => self.entry.get_date_value(field.uuid.as_str()),
            Err(e) => Err(e),
        }
    }

    /// Returns display names of persons in field value.
    /// fname parameter may be field name, id, or uuid
    pub fn get_person_names(&self, fname: &str) -> (r: Result<Vec<&str>, Error>)
        ensures
            match r {
                Ok(v) => self.has_field(fname@) && texts_of(v@) == texts_in(
                    self.doc(),
                    key_of(self.uuid_of_field(fname@), "persons_sort"@),
                    "displayname"@,
                ),
                Err(_) => !self.has_field(fname@) && self.refuses(r, fname@),
            },
    {
        match self.get_field(fname) {
            Ok(field) => Ok(self.entry.get_person_names(field.uuid.as_str())),
            Err(e) => Err(e),
        }
    }

    /// Returns IDs of persons in field value.
    /// fname parameter may be field name, id, or uuid
    pub fn get_person_ids(&self, fname: &str) -> (r: Result<Vec<ID>, Error>)
        ensures
            match r {
                Ok(v) => self.has_field(fname@) && v@ == ids_in(
                    self.doc(),
                    key_of(self.uuid_of_field(fname@), "persons_sort"@),
                    "id"@,
                ),
                Err(_) => !self.has_field(fname@) && self.refuses(r, fname@),
            },
    {
        match self.get_field(fname) {
            Ok(field) => Ok(self.entry.get_person_ids(field.uuid.as_str())),
            Err(e) => Err(e),
        }
    }

    /// Returns uuids of referred objects in field value.
    /// fname parameter may be field name, id, or uuid
    pub fn get_references(&self, fname: &str) -> (r: Result<Vec<&str>, Error>)
        ensures
            match r {
                Ok(v) => self.has_field(fname@) && texts_of(v@) == texts_in(
                    self.doc(),
                    key_of(self.uuid_of_field(fname@), "references_sort"@),
                    "uuid"@,
                ),
                Err(_) => !self.has_field(fname@) && self.refuses(r, fname@),
            },
    {
        match self.get_field(fname) {
            Ok(field) => Ok(self.entry.get_references(field.uuid.as_str())),
            Err(e) => Err(e),
        }
    }

    /// The names of the choices that the entry has in the field that `fname` names.
    pub open spec fn choices_of(&self, fname: Seq<char>) -> Seq<Seq<char>> {
        texts_in(self.doc(), key_of(self.uuid_of_field(fname), "categories_sort"@), "name"@)
    }

    /// Returns array of choice (aka label/category) values.
    /// Array could be empty if none are selected
    pub fn get_choices(&self, fname: &str) -> (r: Result<Vec<&str>, Error>)
        ensures
            match r {
                Ok(v) => self.has_field(fname@) && texts_of(v@) == self.choices_of(fname@),
                Err(_) => !self.has_field(fname@) && self.refuses(r, fname@),
            },
    {
        match self.get_field(fname) {
            Ok(field) => Ok(self.entry.get_category_names(field.uuid.as_str())),
            Err(e) => Err(e),
        }
    }

    /// Returns single choice value, or None if unselected.
    /// This will return an error if multiple values are selected, which would
    /// mean that the field was taken to have multiple choices disabled while
    /// they are enabled.
    pub fn get_choice(&self, fname: &str) -> (r: Result<Option<&str>, Error>)
        ensures
            match r {
                Ok(Some(s)) => self.has_field(fname@) && self.choices_of(fname@) == seq![s@],
                Ok(None) => self.has_field(fname@) && self.choices_of(fname@).len() == 0,
                Err(Error::MultiCategory(m, f)) => self.has_field(fname@) && self.choices_of(
                    fname@,
                ).len() > 1 && m@ == multiple_choices_message() && f@ == fname@,
                Err(_) => !self.has_field(fname@) && self.refuses(r, fname@),
            },
    {
        let names = match self.get_choices(fname) {
            Ok(names) => names,
            Err(e) => {
                return Err(e);
            },
        };
        if names.len() == 0 {
            Ok(None)
        } else if names.len() == 1 {
            assert(texts_of(names@) =~= seq![names@[0]@]);
            Ok(Some(names[0]))
        } else {
            Err(
                Error::MultiCategory(
                    String::from_str(
                        "Configuration error: label field not expected to contain multiple values",
                    ),
                    String::from_str(fname),
                ),
            )
        }
    }
}

} // verus!

//! What setting a field does to an update document, stated over the model of
//! the document, and the steps that write it.
use vstd::prelude::*;
use vstd::string::*;
use crate::error::Error;
use crate::json::{array_value, id_value, int_value, json_of, jsons_of, members, string_value, Json, JsonMap};
use crate::list::{check_uuid, invalid_uuid_message, FieldVal, FloatVal};
use crate::types::{first_index, invalid_choice_message, ElementCategoryId, Field, NumericType, UpdateAction, User, ID};
use crate::user::{user_id_among, UserCache};
use crate::util::{decimal, parse_i64, signed_decimal, to_decimal, uuid_shape};

verus! {

/// What a JSON number holds.
pub uninterp spec fn number_json(n: serde_json::Number) -> Json;

/// `Number::clone` makes a number that holds and is written as the same.
pub assume_specification[ <serde_json::Number as Clone>::clone ](n: &serde_json::Number) -> (r: serde_json::Number)
    ensures
        number_json(r) == number_json(*n),
        number_text(r) == number_text(*n),
;

/// The variant `Value::Number` holds the number it is given.
#[verifier::external_body]
pub(crate) fn number_value(n: serde_json::Number) -> (v: serde_json::Value)
    ensures
        json_of(v) == number_json(n),
{
    serde_json::Value::Number(n)
}

/// The text that a JSON number is written as.
pub uninterp spec fn number_text(n: serde_json::Number) -> Seq<char>;

/// `Number`'s `Display`, through `to_string`: the text of the number, a
/// function of the number alone.
#[verifier::external_body]
pub(crate) fn number_to_string(n: &serde_json::Number) -> (r: String)
    ensures
        r@ == number_text(*n),
{
    n.to_string()
}

/// The key of a business field in a document: the field's uuid, an
/// underscore, and the suffix of the kind of value.
pub open spec fn key_of(uuid: Seq<char>, suffix: Seq<char>) -> Seq<char> {
    uuid + "_"@ + suffix
}

/// The key under which a document carries the update action.
pub open spec fn action_key() -> Seq<char> {
    "updateAction"@
}

/// The document with its action marker: none for `Null`, else the word of
/// the action under `updateAction`.
pub open spec fn with_action(doc: Map<Seq<char>, Json>, action: UpdateAction) -> Map<Seq<char>, Json> {
    if action == UpdateAction::Null {
        doc
    } else {
        doc.insert(action_key(), Json::Str(action.word()))
    }
}

/// The JSON array of numeric ids.
pub open spec fn id_array(ids: Seq<ID>) -> Json {
    Json::Arr(Seq::new(ids.len(), |i: int| Json::Int(ids[i] as int)))
}

/// The JSON array of texts.
pub open spec fn text_array(texts: Seq<String>) -> Json {
    Json::Arr(Seq::new(texts.len(), |i: int| Json::Str(texts[i]@)))
}

/// Whether the action replaces the value or is absent: the two that a
/// single-valued scalar field accepts.
pub open spec fn replaces(action: UpdateAction) -> bool {
    action == UpdateAction::Replace || action == UpdateAction::Null
}

/// What setting a field comes to.
pub ghost enum Effect {
    /// The document is written and becomes this.
    Write(Map<Seq<char>, Json>),
    /// Nothing is written yet: the text is still to be read as a decimal
    /// number, which then goes under the key. The third part names the field.
    AskDecimal(Seq<char>, Seq<char>, Seq<char>),
    /// Refused: a name matched nothing. The message says which.
    Missing(Seq<char>),
    /// Refused: the value or the action does not suit the field.
    Invalid(Seq<char>),
}

/// The message for more values than a single-valued field takes.
pub open spec fn too_many_message(field: Seq<char>, noun: Seq<char>, count: nat) -> Seq<char> {
    "Field "@ + field + " can't accept more than one "@ + noun + " but "@ + decimal(count)
        + " were provided"@
}

/// The message for a person that the roster does not know.
pub open spec fn unknown_user_message(name: Seq<char>) -> Seq<char> {
    "User not found: '"@ + name + "'"@
}

/// The message for a floating-point value that JSON cannot write.
pub open spec fn not_finite_message() -> Seq<char> {
    "Float values cannot be Infinite or NaN"@
}

/// The message for a text that writes no integer.
pub open spec fn invalid_int_message(text: Seq<char>, field: Seq<char>) -> Seq<char> {
    "Invalid int value "@ + text + " for field "@ + field
}

/// The message for a text that writes no decimal number.
pub open spec fn invalid_float_message(text: Seq<char>, field: Seq<char>) -> Seq<char> {
    "Invalid float value "@ + text + " for field "@ + field
}

/// The message for a number field that declares no numeric subtype.
pub open spec fn unknown_numeric_message(field: Seq<char>) -> Seq<char> {
    "Unknown numeric type at field "@ + field
}

/// The test of whether the roster knows no user of a name.
pub open spec fn unknown_to(users: Seq<User>) -> spec_fn(String) -> bool {
    |name: String| user_id_among(users, name@).is_none()
}

/// The test of whether a field offers no choice of a name.
pub open spec fn not_offered_by(field: Field) -> spec_fn(String) -> bool {
    |name: String| field.choice_id(name@).is_none()
}

/// The test of whether a text is no uuid.
pub open spec fn no_uuid() -> spec_fn(String) -> bool {
    |text: String| !uuid_shape(text@)
}

/// The ids of the users that the names name, each of which the roster knows.
pub open spec fn user_ids(users: Seq<User>, names: Seq<String>) -> Seq<ID> {
    Seq::new(names.len(), |i: int| user_id_among(users, names[i]@).unwrap())
}

/// The ids of the choices that the names name, each of which the field offers.
pub open spec fn choice_ids(field: Field, names: Seq<String>) -> Seq<ID> {
    Seq::new(names.len(), |i: int| field.choice_id(names[i]@).unwrap())
}

/// More values than the field takes: it is single-valued and gets several.
pub open spec fn overfull(field: Field, count: nat) -> bool {
    !field.element_data.multiple && count > 1
}

/// The message for a value or an action that the kind of the field does not take.
pub open spec fn mismatch_message(field: Field, value: FieldVal, action: UpdateAction) -> Seq<char> {
    "Invalid value ("@ + value.debug_text() + ") or action ("@ + action.name_of() + ") for field "@
        + field.name@ + " (type "@ + field.element_category.name_of() + ")"@
}

/// Setting a text field: a text, plain or formatted, that replaces the value.
pub open spec fn text_effect(
    field: Field,
    value: FieldVal,
    action: UpdateAction,
    doc: Map<Seq<char>, Json>,
) -> Effect {
    match value {
        FieldVal::Formatted(s, fmt) if replaces(action) => Effect::Write(
            doc.insert(key_of(field.uuid@, "text"@), Json::Str(s@)).insert(
                key_of(field.uuid@, "textType"@),
                Json::Str(fmt.word()),
            ),
        ),
        FieldVal::Str(s) if replaces(action) => Effect::Write(
            doc.insert(key_of(field.uuid@, "text"@), Json::Str(s@)),
        ),
        _ => Effect::Invalid(mismatch_message(field, value, action)),
    }
}

/// Setting a link or a date field: a text that replaces the value, written
/// as it is under the suffix of the kind.
pub open spec fn plain_effect(
    field: Field,
    value: FieldVal,
    action: UpdateAction,
    doc: Map<Seq<char>, Json>,
    suffix: Seq<char>,
) -> Effect {
    match value {
        FieldVal::Str(s) if replaces(action) => Effect::Write(
            doc.insert(key_of(field.uuid@, suffix), Json::Str(s@)),
        ),
        _ => Effect::Invalid(mismatch_message(field, value, action)),
    }
}

/// Setting a number field: an integer, a finite floating-point number, or a
/// text that the declared subtype of the field can read; each replaces the
/// value.
pub open spec fn number_effect(
    field: Field,
    value: FieldVal,
    action: UpdateAction,
    doc: Map<Seq<char>, Json>,
) -> Effect {
    let key = key_of(field.uuid@, "number"@);
    match value {
        FieldVal::Int(n) if replaces(action) => Effect::Write(doc.insert(key, Json::Int(n as int))),
        FieldVal::Float(FloatVal::Finite(n)) if replaces(action) => Effect::Write(
            doc.insert(key, number_json(n)),
        ),
        FieldVal::Float(_) if replaces(action) => Effect::Invalid(not_finite_message()),
        FieldVal::Str(s) if replaces(action) => match field.numeric_kind() {
            Some(NumericType::Integer) => match signed_decimal(s@) {
                Some(n) => Effect::Write(doc.insert(key, Json::Int(n as int))),
                None => Effect::Invalid(invalid_int_message(s@, field.name@)),
            },
            Some(NumericType::Decimal) => Effect::AskDecimal(key, s@, field.name@),
            None => Effect::Invalid(unknown_numeric_message(field.name@)),
        },
        _ => Effect::Invalid(mismatch_message(field, value, action)),
    }
}

/// Setting a persons field: names that the roster resolves, or ids.
pub open spec fn persons_effect(
    field: Field,
    value: FieldVal,
    action: UpdateAction,
    users: Seq<User>,
    doc: Map<Seq<char>, Json>,
) -> Effect {
    let key = key_of(field.uuid@, "persons"@);
    match value {
        FieldVal::Str(s) => match user_id_among(users, s@) {
            Some(uid) => Effect::Write(with_action(doc.insert(key, id_array(seq![uid])), action)),
            None => Effect::Missing(unknown_user_message(s@)),
        },
        FieldVal::ArrStr(names) => {
            let k = first_index(names@, unknown_to(users), 0);
            if overfull(field, names@.len()) {
                Effect::Invalid(too_many_message(field.name@, "person"@, names@.len()))
            } else if k < names@.len() {
                Effect::Missing(unknown_user_message(names@[k]@))
            } else {
                Effect::Write(with_action(doc.insert(key, id_array(user_ids(users, names@))), action))
            }
        },
        FieldVal::Int(pid) => Effect::Write(
            with_action(doc.insert(key, id_array(seq![pid as u64])), action),
        ),
        FieldVal::ArrID(ids) => if overfull(field, ids@.len()) {
            Effect::Invalid(too_many_message(field.name@, "person"@, ids@.len()))
        } else {
            Effect::Write(with_action(doc.insert(key, id_array(ids@)), action))
        },
        _ => Effect::Invalid(mismatch_message(field, value, action)),
    }
}

/// Setting a categories field: names of choices that the field offers, or ids.
pub open spec fn categories_effect(
    field: Field,
    value: FieldVal,
    action: UpdateAction,
    doc: Map<Seq<char>, Json>,
) -> Effect {
    let key = key_of(field.uuid@, "categories"@);
    match value {
        FieldVal::Str(s) => match field.choice_id(s@) {
            Some(cid) => Effect::Write(with_action(doc.insert(key, id_array(seq![cid])), action)),
            None => Effect::Missing(invalid_choice_message(s@, field.name@)),
        },
        FieldVal::Int(cid) => Effect::Write(
            with_action(doc.insert(key, id_array(seq![cid as u64])), action),
        ),
        FieldVal::ArrID(ids) => if overfull(field, ids@.len()) {
            Effect::Invalid(too_many_message(field.name@, "category"@, ids@.len()))
        } else {
            Effect::Write(with_action(doc.insert(key, id_array(ids@)), action))
        },
        FieldVal::ArrStr(names) => {
            let k = first_index(names@, not_offered_by(field), 0);
            if overfull(field, names@.len()) {
                Effect::Invalid(too_many_message(field.name@, "label"@, names@.len()))
            } else if k < names@.len() {
                Effect::Missing(invalid_choice_message(names@[k]@, field.name@))
            } else {
                Effect::Write(with_action(doc.insert(key, id_array(choice_ids(field, names@))), action))
            }
        },
        _ => Effect::Invalid(mismatch_message(field, value, action)),
    }
}

/// Setting a references field: uuids of the items referred to, or an id.
pub open spec fn references_effect(
    field: Field,
    value: FieldVal,
    action: UpdateAction,
    doc: Map<Seq<char>, Json>,
) -> Effect {
    let key = key_of(field.uuid@, "references"@);
    match value {
        FieldVal::Str(s) => if uuid_shape(s@) {
            Effect::Write(with_action(doc.insert(key, Json::Arr(seq![Json::Str(s@)])), action))
        } else {
            Effect::Invalid(invalid_uuid_message(s@, field.name@))
        },
        FieldVal::Int(rid) => Effect::Write(
            with_action(doc.insert(key, id_array(seq![rid as u64])), action),
        ),
        FieldVal::ArrStr(uuids) => {
            let k = first_index(uuids@, no_uuid(), 0);
            if overfull(field, uuids@.len()) {
                Effect::Invalid(too_many_message(field.name@, "reference"@, uuids@.len()))
            } else if k < uuids@.len() {
                Effect::Invalid(invalid_uuid_message(uuids@[k]@, field.name@))
            } else {
                Effect::Write(with_action(doc.insert(key, text_array(uuids@)), action))
            }
        },
        _ => Effect::Invalid(mismatch_message(field, value, action)),
    }
}

/// What setting `field` to `value` with `action` comes to, for a document
/// that holds `doc` and a workspace whose roster holds `users`. The kind of
/// the field decides which values and actions it takes.
pub open spec fn effect_of(
    field: Field,
    value: FieldVal,
    action: UpdateAction,
    users: Seq<User>,
    doc: Map<Seq<char>, Json>,
) -> Effect {
    match field.element_category {
        ElementCategoryId::Text => text_effect(field, value, action, doc),
        ElementCategoryId::Number => number_effect(field, value, action, doc),
        ElementCategoryId::URL => plain_effect(field, value, action, doc, "link"@),
        ElementCategoryId::Date => plain_effect(field, value, action, doc, "date"@),
        ElementCategoryId::Persons => persons_effect(field, value, action, users, doc),
        ElementCategoryId::Categories => categories_effect(field, value, action, doc),
        ElementCategoryId::References => references_effect(field, value, action, doc),
        _ => Effect::Invalid(mismatch_message(field, value, action)),
    }
}

/// A text that is still to be read as a decimal number, and where the number
/// then goes.
#[derive(Debug)]
pub struct DecimalRequest {
    /// The key of the document under which the number is written.
    pub key: String,
    /// The text to be read as a floating-point number.
    pub text: String,
    /// The name of the field, for the error message.
    pub field: String,
}

/// What is left to do after a field was set.
#[derive(Debug)]
pub enum Pending {
    /// Nothing: the document holds the value.
    Nothing,
    /// The value is a text for a decimal number field. The document is as it
    /// was; the request says what to read and where to write it.
    Decimal(DecimalRequest),
}

/// What reading a text as a floating-point number gave.
#[derive(Debug)]
pub enum DecimalReading {
    /// A finite number, as JSON holds it.
    Finite(serde_json::Number),
    /// NaN or an infinity.
    NotFinite,
    /// The text writes no floating-point number.
    Malformed,
}

/// Whether the result `r` and the document, `before` and `after`, are what
/// `effect` asks for: a refused or deferred write leaves the document as it was.
pub open spec fn reports(
    r: Result<Pending, Error>,
    before: Map<Seq<char>, Json>,
    after: Map<Seq<char>, Json>,
    effect: Effect,
) -> bool {
    match effect {
        Effect::Write(doc) => r matches Ok(Pending::Nothing) && after == doc,
        Effect::AskDecimal(key, text, field) => after == before && (r matches Ok(
            Pending::Decimal(req),
        ) && req.key@ == key && req.text@ == text && req.field@ == field),
        Effect::Missing(msg) => after == before && (r matches Err(Error::NotFound(m)) && m@ == msg),
        Effect::Invalid(msg) => after == before && (r matches Err(Error::Validation(m)) && m@
            == msg),
    }
}

/// Builds the key of a business field in a document.
pub fn field_key(uuid: &str, suffix: &str) -> (r: String)
    ensures
        r@ == key_of(uuid@, suffix@),
{
    let mut key = String::from_str(uuid);
    key.append("_");
    key.append(suffix);
    key
}

/// The error for a value or an action that the kind of the field does not take.
fn mismatch_error(field: &Field, value: &FieldVal, action: UpdateAction) -> (e: Error)
    ensures
        e matches Error::Validation(m) && m@ == mismatch_message(*field, *value, action),
{
    let shown = value.to_debug_string();
    let kind = field.element_category.to_string();
    let mut msg = String::from_str("Invalid value (");
    msg.append(shown.as_str());
    msg.append(") or action (");
    msg.append(action.name());
    msg.append(") for field ");
    msg.append(field.name.as_str());
    msg.append(" (type ");
    msg.append(kind.as_str());
    msg.append(")");
    Error::Validation(msg)
}

/// The error for more values than a single-valued field takes.
fn too_many_error(field: &Field, noun: &str, count: usize) -> (e: Error)
    ensures
        e matches Error::Validation(m) && m@ == too_many_message(field.name@, noun@, count as nat),
{
    let digits = to_decimal(count as u64);
    let mut msg = String::from_str("Field ");
    msg.append(field.name.as_str());
    msg.append(" can't accept more than one ");
    msg.append(noun);
    msg.append(" but ");
    msg.append(digits.as_str());
    msg.append(" were provided");
    Error::Validation(msg)
}

/// Writes the action marker, if the action has one.
fn put_action(obj: &mut JsonMap, action: UpdateAction)
    ensures
        members(*final(obj)) == with_action(members(*old(obj)), action),
{
    if action != UpdateAction::Null {
        obj.insert(String::from_str("updateAction"), string_value(action.to_string()));
    }
}

/// Writes an array of ids under the key.
fn put_ids(obj: &mut JsonMap, key: String, ids: &Vec<ID>)
    ensures
        members(*final(obj)) == members(*old(obj)).insert(key@, id_array(ids@)),
{
    let mut items: Vec<serde_json::Value> = Vec::new();
    let mut i: usize = 0;
    while i < ids.len()
        invariant
            i <= ids@.len(),
            items@.len() == i,
            forall|k: int| 0 <= k < i ==> json_of(#[trigger] items@[k]) == Json::Int(ids@[k] as int),
        decreases ids@.len() - i,
    {
        items.push(id_value(ids[i]));
        i += 1;
    }
    assert(jsons_of(items@) =~= Seq::new(ids@.len(), |i: int| Json::Int(ids@[i] as int)));
    obj.insert(key, array_value(items));
}

/// Writes one id, as an array, under the key.
fn put_id(obj: &mut JsonMap, key: String, id: ID)
    ensures
        members(*final(obj)) == members(*old(obj)).insert(key@, id_array(seq![id])),
{
    let mut ids: Vec<ID> = Vec::new();
    ids.push(id);
    assert(ids@ =~= seq![id]);
    put_ids(obj, key, &ids);
}

/// Setting a text field.
fn set_text(obj: &mut JsonMap, field: &Field, value: FieldVal, action: UpdateAction) -> (r: Result<Pending, Error>)
    ensures
        reports(r, members(*old(obj)), members(*final(obj)), text_effect(*field, value, action, members(*old(obj)))),
{
    if action == UpdateAction::Replace || action == UpdateAction::Null {
        match value {
            FieldVal::Formatted(s, fmt) => {
                obj.insert(field_key(field.uuid.as_str(), "text"), string_value(s));
                obj.insert(field_key(field.uuid.as_str(), "textType"), string_value(fmt.to_string()));
                Ok(Pending::Nothing)
            },
            FieldVal::Str(s) => {
                obj.insert(field_key(field.uuid.as_str(), "text"), string_value(s));
                Ok(Pending::Nothing)
            },
            other => Err(mismatch_error(field, &other, action)),
        }
    } else {
        Err(mismatch_error(field, &value, action))
    }
}

/// Setting a link or a date field.
fn set_plain(obj: &mut JsonMap, field: &Field, value: FieldVal, action: UpdateAction, suffix: &str) -> (r: Result<Pending, Error>)
    ensures
        reports(r, members(*old(obj)), members(*final(obj)), plain_effect(*field, value, action, members(*old(obj)), suffix@)),
{
    if action == UpdateAction::Replace || action == UpdateAction::Null {
        match value {
            FieldVal::Str(s) => {
                obj.insert(field_key(field.uuid.as_str(), suffix), string_value(s));
                Ok(Pending::Nothing)
            },
            other => Err(mismatch_error(field, &other, action)),
        }
    } else {
        Err(mismatch_error(field, &value, action))
    }
}

/// Setting a number field.
fn set_number(obj: &mut JsonMap, field: &Field, value: FieldVal, action: UpdateAction) -> (r: Result<Pending, Error>)
    ensures
        reports(r, members(*old(obj)), members(*final(obj)), number_effect(*field, value, action, members(*old(obj)))),
{
    if action == UpdateAction::Replace || action == UpdateAction::Null {
        match value {
            FieldVal::Int(n) => {
                obj.insert(field_key(field.uuid.as_str(), "number"), int_value(n));
                Ok(Pending::Nothing)
            },
            FieldVal::Float(FloatVal::Finite(n)) => {
                obj.insert(field_key(field.uuid.as_str(), "number"), number_value(n));
                Ok(Pending::Nothing)
            },
            FieldVal::Float(_) => Err(
                Error::Validation(String::from_str("Float values cannot be Infinite or NaN")),
            ),
            FieldVal::Str(s) => match field.numeric_type() {
                Some(NumericType::Integer) => match parse_i64(s.as_str()) {
                    Some(n) => {
                        obj.insert(field_key(field.uuid.as_str(), "number"), int_value(n));
                        Ok(Pending::Nothing)
                    },
                    None => {
                        let mut msg = String::from_str("Invalid int value ");
                        msg.append(s.as_str());
                        msg.append(" for field ");
                        msg.append(field.name.as_str());
                        Err(Error::Validation(msg))
                    },
                },
                Some(NumericType::Decimal) => Ok(
                    Pending::Decimal(
                        DecimalRequest {
                            key: field_key(field.uuid.as_str(), "number"),
                            text: s,
                            field: field.name.clone(),
                        },
                    ),
                ),
                None => {
                    let mut msg = String::from_str("Unknown numeric type at field ");
                    msg.append(field.name.as_str());
                    Err(Error::Validation(msg))
                },
            },
            other => Err(mismatch_error(field, &other, action)),
        }
    } else {
        Err(mismatch_error(field, &value, action))
    }
}

/// Writes an array of texts under the key.
fn put_texts(obj: &mut JsonMap, key: String, texts: &Vec<String>)
    ensures
        members(*final(obj)) == members(*old(obj)).insert(key@, text_array(texts@)),
{
    let mut items: Vec<serde_json::Value> = Vec::new();
    let mut i: usize = 0;
    while i < texts.len()
        invariant
            i <= texts@.len(),
            items@.len() == i,
            forall|k: int| 0 <= k < i ==> json_of(#[trigger] items@[k]) == Json::Str(texts@[k]@),
        decreases texts@.len() - i,
    {
        items.push(string_value(texts[i].clone()));
        i += 1;
    }
    assert(jsons_of(items@) =~= Seq::new(texts@.len(), |i: int| Json::Str(texts@[i]@)));
    obj.insert(key, array_value(items));
}

/// The error for a person that the roster does not know.
fn unknown_user_error(name: &str) -> (e: Error)
    ensures
        e matches Error::NotFound(m) && m@ == unknown_user_message(name@),
{
    let mut msg = String::from_str("User not found: '");
    msg.append(name);
    msg.append("'");
    Error::NotFound(msg)
}

/// Setting a persons field.
fn set_persons(obj: &mut JsonMap, field: &Field, value: FieldVal, action: UpdateAction, users: &UserCache) -> (r: Result<Pending, Error>)
    ensures
        reports(r, members(*old(obj)), members(*final(obj)), persons_effect(*field, value, action, users@, members(*old(obj)))),
{
    match value {
        FieldVal::Str(s) => match users.get_user_id(s.as_str()) {
            Some(uid) => {
                put_id(obj, field_key(field.uuid.as_str(), "persons"), uid);
                put_action(obj, action);
                Ok(Pending::Nothing)
            },
            None => Err(unknown_user_error(s.as_str())),
        },
        FieldVal::ArrStr(names) => {
            if !field.element_data.multiple && names.len() > 1 {
                return Err(too_many_error(field, "person", names.len()));
            }
            let ghost p = unknown_to(users@);
            let mut ids: Vec<ID> = Vec::new();
            let mut i: usize = 0;
            while i < names.len()
                invariant
                    i <= names@.len(),
                    ids@.len() == i,
                    p == unknown_to(users@),
                    value == FieldVal::ArrStr(names),
                    !overfull(*field, names@.len()),
                    *obj == *old(obj),
                    first_index(names@, p, 0) == first_index(names@, p, i as int),
                    forall|k: int| 0 <= k < i ==> user_id_among(users@, names@[k]@) == Some(#[trigger] ids@[k]),
                decreases names@.len() - i,
            {
                assert(p(names@[i as int]) == user_id_among(users@, names@[i as int]@).is_none());
                match users.get_user_id(names[i].as_str()) {
                    Some(uid) => ids.push(uid),
                    None => {
                        return Err(unknown_user_error(names[i].as_str()));
                    },
                }
                i += 1;
            }
            assert(ids@ =~= user_ids(users@, names@));
            put_ids(obj, field_key(field.uuid.as_str(), "persons"), &ids);
            put_action(obj, action);
            Ok(Pending::Nothing)
        },
        FieldVal::Int(pid) => {
            put_id(obj, field_key(field.uuid.as_str(), "persons"), #[verifier::truncate] (pid as u64));
            put_action(obj, action);
            Ok(Pending::Nothing)
        },
        FieldVal::ArrID(ids) => {
            if !field.element_data.multiple && ids.len() > 1 {
                return Err(too_many_error(field, "person", ids.len()));
            }
            put_ids(obj, field_key(field.uuid.as_str(), "persons"), &ids);
            put_action(obj, action);
            Ok(Pending::Nothing)
        },
        other => Err(mismatch_error(field, &other, action)),
    }
}

/// Setting a categories field.
fn set_categories(obj: &mut JsonMap, field: &Field, value: FieldVal, action: UpdateAction) -> (r: Result<Pending, Error>)
    ensures
        reports(r, members(*old(obj)), members(*final(obj)), categories_effect(*field, value, action, members(*old(obj)))),
{
    match value {
        FieldVal::Str(s) => match field.get_choice_id(s.as_str()) {
            Ok(cid) => {
                put_id(obj, field_key(field.uuid.as_str(), "categories"), cid);
                put_action(obj, action);
                Ok(Pending::Nothing)
            },
            Err(e) => Err(e),
        },
        FieldVal::Int(cid) => {
            put_id(obj, field_key(field.uuid.as_str(), "categories"), #[verifier::truncate] (cid as u64));
            put_action(obj, action);
            Ok(Pending::Nothing)
        },
        FieldVal::ArrID(ids) => {
            if !field.element_data.multiple && ids.len() > 1 {
                return Err(too_many_error(field, "category", ids.len()));
            }
            put_ids(obj, field_key(field.uuid.as_str(), "categories"), &ids);
            put_action(obj, action);
            Ok(Pending::Nothing)
        },
        FieldVal::ArrStr(names) => {
            if !field.element_data.multiple && names.len() > 1 {
                return Err(too_many_error(field, "label", names.len()));
            }
            let ghost p = not_offered_by(*field);
            let mut ids: Vec<ID> = Vec::new();
            let mut i: usize = 0;
            while i < names.len()
                invariant
                    i <= names@.len(),
                    ids@.len() == i,
                    p == not_offered_by(*field),
                    value == FieldVal::ArrStr(names),
                    !overfull(*field, names@.len()),
                    *obj == *old(obj),
                    first_index(names@, p, 0) == first_index(names@, p, i as int),
                    forall|k: int| 0 <= k < i ==> field.choice_id(names@[k]@) == Some(#[trigger] ids@[k]),
                decreases names@.len() - i,
            {
                assert(p(names@[i as int]) == field.choice_id(names@[i as int]@).is_none());
                match field.get_choice_id(names[i].as_str()) {
                    Ok(cid) => ids.push(cid),
                    Err(e) => {
                        return Err(e);
                    },
                }
                i += 1;
            }
            assert(ids@ =~= choice_ids(*field, names@));
            put_ids(obj, field_key(field.uuid.as_str(), "categories"), &ids);
            put_action(obj, action);
            Ok(Pending::Nothing)
        },
        other => Err(mismatch_error(field, &other, action)),
    }
}

/// Setting a references field.
fn set_references(obj: &mut JsonMap, field: &Field, value: FieldVal, action: UpdateAction) -> (r: Result<Pending, Error>)
    ensures
        reports(r, members(*old(obj)), members(*final(obj)), references_effect(*field, value, action, members(*old(obj)))),
{
    match value {
        FieldVal::Str(s) => match check_uuid(s.as_str(), field.name.as_str()) {
            Ok(()) => {
                let mut uuids: Vec<String> = Vec::new();
                uuids.push(s);
                assert(text_array(uuids@) =~= Json::Arr(seq![Json::Str(s@)])) by {
                    assert(Seq::new(uuids@.len(), |i: int| Json::Str(uuids@[i]@)) =~= seq![Json::Str(s@)]);
                }
                put_texts(obj, field_key(field.uuid.as_str(), "references"), &uuids);
                put_action(obj, action);
                Ok(Pending::Nothing)
            },
            Err(e) => Err(e),
        },
        FieldVal::Int(rid) => {
            put_id(obj, field_key(field.uuid.as_str(), "references"), #[verifier::truncate] (rid as u64));
            put_action(obj, action);
            Ok(Pending::Nothing)
        },
        FieldVal::ArrStr(uuids) => {
            if !field.element_data.multiple && uuids.len() > 1 {
                return Err(too_many_error(field, "reference", uuids.len()));
            }
            let ghost p = no_uuid();
            let mut i: usize = 0;
            while i < uuids.len()
                invariant
                    i <= uuids@.len(),
                    p == no_uuid(),
                    value == FieldVal::ArrStr(uuids),
                    !overfull(*field, uuids@.len()),
                    *obj == *old(obj),
                    first_index(uuids@, p, 0) == first_index(uuids@, p, i as int),
                decreases uuids@.len() - i,
            {
                assert(p(uuids@[i as int]) == !uuid_shape(uuids@[i as int]@));
                match check_uuid(uuids[i].as_str(), field.name.as_str()) {
                    Ok(()) => {},
                    Err(e) => {
                        return Err(e);
                    },
                }
                i += 1;
            }
            put_texts(obj, field_key(field.uuid.as_str(), "references"), &uuids);
            put_action(obj, action);
            Ok(Pending::Nothing)
        },
        other => Err(mismatch_error(field, &other, action)),
    }
}

/// Sets `field` to `value` in the document `obj`.
pub fn set_field(obj: &mut JsonMap, field: &Field, value: FieldVal, action: UpdateAction, users: &UserCache) -> (r: Result<Pending, Error>)
    ensures
        reports(r, members(*old(obj)), members(*final(obj)), effect_of(*field, value, action, users@, members(*old(obj)))),
{
    match field.element_category {
        ElementCategoryId::Text => set_text(obj, field, value, action),
        ElementCategoryId::Number => set_number(obj, field, value, action),
        ElementCategoryId::URL => set_plain(obj, field, value, action, "link"),
        ElementCategoryId::Date => set_plain(obj, field, value, action, "date"),
        ElementCategoryId::Persons => set_persons(obj, field, value, action, users),
        ElementCategoryId::Categories => set_categories(obj, field, value, action),
        ElementCategoryId::References => set_references(obj, field, value, action),
        _ => Err(mismatch_error(field, &value, action)),
    }
}

impl DecimalRequest {
    /// What the document holds once the text was read: the number under the
    /// key if the reading is finite, else what it held before.
    pub open spec fn completed(&self, reading: DecimalReading, doc: Map<Seq<char>, Json>) -> Map<Seq<char>, Json> {
        match reading {
            DecimalReading::Finite(n) => doc.insert(self.key@, number_json(n)),
            _ => doc,
        }
    }

    /// Finishes the write that the request stands for, with what reading its
    /// text as a floating-point number gave. A finite number is written under
    /// the key of the request; NaN, an infinity and a text that writes no
    /// number are validation errors, and leave the document as it was.
    pub fn complete(self, obj: &mut JsonMap, reading: DecimalReading) -> (r: Result<(), Error>)
        ensures
            members(*final(obj)) == self.completed(reading, members(*old(obj))),
            match reading {
                DecimalReading::Finite(_) => r is Ok,
                DecimalReading::NotFinite => r matches Err(Error::Validation(m)) && m@
                    == not_finite_message(),
                DecimalReading::Malformed => r matches Err(Error::Validation(m)) && m@
                    == invalid_float_message(self.text@, self.field@),
            },
    {
        match reading {
            DecimalReading::Finite(n) => {
                obj.insert(self.key, number_value(n));
                Ok(())
            },
            DecimalReading::NotFinite => Err(
                Error::Validation(String::from_str("Float values cannot be Infinite or NaN")),
            ),
            DecimalReading::Malformed => {
                let mut msg = String::from_str("Invalid float value ");
                msg.append(self.text.as_str());
                msg.append(" for field ");
                msg.append(self.field.as_str());
                Err(Error::Validation(msg))
            },
        }
    }
}

} // verus!

//! A list with its field definitions, and the codec that turns logical field
//! values into the members of an update document.
use vstd::prelude::*;
use vstd::string::*;
use crate::error::Error;
use crate::json::{members, Json, JsonMap};
use crate::types::{first_index, ElementCategoryId, Field, List, TextFormat, UpdateAction, User, ID, UUID};
use crate::user::UserCache;
use crate::codec::{effect_of, number_text, number_to_string, overfull, reports, set_field, Effect, Pending};
use crate::util::{debug_str, decimal, is_hex_digit, is_hyphen_position, quoted, signed_text, to_decimal, to_signed_decimal, uuid_shape};

verus! {

/// `Uuid::parse_str` on a text of 36 bytes: it accepts the hyphenated form,
/// hexadecimal groups of 8-4-4-4-12, and nothing else of that length.
#[verifier::external_body]
fn uuid_parses(s: &str) -> (ok: bool)
    ensures
        s.spec_bytes().len() == 36 ==> ok == uuid_shape(s@),
{
    uuid::Uuid::parse_str(s).is_ok()
}

/// The message of the error for a reference that is no uuid.
pub open spec fn invalid_uuid_message(uuid: Seq<char>, fname: Seq<char>) -> Seq<char> {
    "Not a valid uuid '"@ + uuid + "' for field '"@ + fname + "'"@
}

/// Checks that the parameter is a uuid in its 36-character textual form.
/// The fname parameter is used for the error message.
pub fn check_uuid(uuid: &str, fname: &str) -> (r: Result<(), Error>)
    ensures
        uuid_shape(uuid@) <==> r is Ok,
        r matches Err(e) ==> e matches Error::Validation(m) && m@ == invalid_uuid_message(
            uuid@,
            fname@,
        ),
{
    proof {
        if uuid_shape(uuid@) {
            assert forall|i: int| 0 <= i < uuid@.len() implies '\0' <= #[trigger] uuid@[i]
                <= '\u{7f}' by {
                if is_hyphen_position(i) {
                } else {
                    assert(is_hex_digit(uuid@[i]));
                }
            }
            vstd::utf8::is_ascii_chars_encode_utf8(uuid@);
        }
    }
    if uuid.as_bytes().len() == 36 && uuid_parses(uuid) {
        Ok(())
    } else {
        let mut msg = String::from_str("Not a valid uuid '");
        msg.append(uuid);
        msg.append("' for field '");
        msg.append(fname);
        msg.append("'");
        Err(Error::Validation(msg))
    }
}

/// Holds the value of a field for set and update operations
#[derive(Debug)]
pub enum FieldVal {
    /// String value - for text and other string fields
    Str(String),
    /// Formatted text
    Formatted(String, TextFormat),
    /// Array of strings (used for people uuids, labels, reference uuids, etc.)
    ArrStr(Vec<String>),
    /// Array of ids (used for people ids, label ids, etc.)
    ArrID(Vec<u64>),
    /// Integer numeric field
    Int(i64),
    /// Floating-point numeric field
    Float(FloatVal),
}

/// A floating-point value: a finite one as the JSON number of it, and the
/// three that JSON has no number for by their kind.
#[derive(Debug)]
pub enum FloatVal {
    /// A finite value, as the JSON number of it.
    Finite(serde_json::Number),
    /// Not a number.
    NaN,
    /// Positive infinity.
    Infinity,
    /// Negative infinity.
    NegInfinity,
}

impl FloatVal {
    /// The text that shows this value: the digits of the JSON number, or
    /// `NaN`, `inf`, `-inf`.
    pub open spec fn text_of(&self) -> Seq<char> {
        match self {
            FloatVal::Finite(n) => number_text(*n),
            FloatVal::NaN => "NaN"@,
            FloatVal::Infinity => "inf"@,
            FloatVal::NegInfinity => "-inf"@,
        }
    }

    /// Shows the value: the digits of the JSON number, or `NaN`, `inf`, `-inf`.
    pub fn to_string(&self) -> (r: String)
        ensures
            r@ == self.text_of(),
    {
        match self {
            FloatVal::Finite(n) => number_to_string(n),
            FloatVal::NaN => String::from_str("NaN"),
            FloatVal::Infinity => String::from_str("inf"),
            FloatVal::NegInfinity => String::from_str("-inf"),
        }
    }
}

/// The first `n` texts, each in quotes, separated by a comma and a space.
pub open spec fn joined_quoted(texts: Seq<String>, n: int) -> Seq<char>
    decreases n,
{
    if n <= 0 {
        Seq::empty()
    } else if n == 1 {
        quoted(texts[0]@)
    } else {
        joined_quoted(texts, n - 1) + ", "@ + quoted(texts[n - 1]@)
    }
}

/// Writes texts as a list: each in quotes, with a comma and a space between
/// them, in square brackets.
fn show_texts(texts: &Vec<String>) -> (r: String)
    ensures
        r@ == "["@ + joined_quoted(texts@, texts@.len() as int) + "]"@,
{
    let mut r = String::from_str("[");
    let mut i: usize = 0;
    while i < texts.len()
        invariant
            i <= texts@.len(),
            r@ == "["@ + joined_quoted(texts@, i as int),
        decreases texts@.len() - i,
    {
        if i > 0 {
            r.append(", ");
        }
        let item = debug_str(texts[i].as_str());
        r.append(item.as_str());
        assert(r@ =~= "["@ + joined_quoted(texts@, i + 1));
        i += 1;
    }
    r.append("]");
    r
}

/// Writes ids as a list: each in decimal, with a comma and a space between
/// them, in square brackets.
fn show_ids(ids: &Vec<ID>) -> (r: String)
    ensures
        r@ == "["@ + joined_ids(ids@, ids@.len() as int) + "]"@,
{
    let mut r = String::from_str("[");
    let mut i: usize = 0;
    while i < ids.len()
        invariant
            i <= ids@.len(),
            r@ == "["@ + joined_ids(ids@, i as int),
        decreases ids@.len() - i,
    {
        if i > 0 {
            r.append(", ");
        }
        let digits = to_decimal(ids[i]);
        r.append(digits.as_str());
        assert(r@ =~= "["@ + joined_ids(ids@, i + 1));
        i += 1;
    }
    r.append("]");
    r
}

/// The decimal renderings of the first `n` ids, separated by a comma and a space.
pub open spec fn joined_ids(ids: Seq<ID>, n: int) -> Seq<char>
    decreases n,
{
    if n <= 0 {
        Seq::empty()
    } else if n == 1 {
        decimal(ids[0] as nat)
    } else {
        joined_ids(ids, n - 1) + ", "@ + decimal(ids[n - 1] as nat)
    }
}

impl FieldVal {
    /// The text that shows this value.
    pub open spec fn text_of(&self) -> Seq<char> {
        match self {
            FieldVal::Str(s) => s@,
            FieldVal::Int(n) => signed_text(*n as int),
            FieldVal::Float(x) => x.text_of(),
            FieldVal::Formatted(s, fmt) => "("@ + s@ + ","@ + fmt.word() + ")"@,
            FieldVal::ArrStr(arr) => "["@ + joined_quoted(arr@, arr@.len() as int) + "]"@,
            FieldVal::ArrID(arr) => "["@ + joined_ids(arr@, arr@.len() as int) + "]"@,
        }
    }

    /// The text that tells this value with its kind: the name of the kind,
    /// and in brackets the value, a text in quotes.
    pub open spec fn debug_text(&self) -> Seq<char> {
        match self {
            FieldVal::Str(s) => "Str("@ + quoted(s@) + ")"@,
            FieldVal::Int(n) => "Int("@ + signed_text(*n as int) + ")"@,
            FieldVal::Float(x) => "Float("@ + x.text_of() + ")"@,
            FieldVal::Formatted(s, fmt) => "Formatted("@ + quoted(s@) + ", "@ + fmt.name_of() + ")"@,
            FieldVal::ArrStr(arr) => "ArrStr("@ + ("["@ + joined_quoted(arr@, arr@.len() as int)
                + "]"@) + ")"@,
            FieldVal::ArrID(arr) => "ArrID("@ + ("["@ + joined_ids(arr@, arr@.len() as int) + "]"@)
                + ")"@,
        }
    }

    /// Tells the value with its kind, as an error message shows it.
    pub fn to_debug_string(&self) -> (r: String)
        ensures
            r@ == self.debug_text(),
    {
        match self {
            FieldVal::Str(s) => {
                let inner = debug_str(s.as_str());
                let mut r = String::from_str("Str(");
                r.append(inner.as_str());
                r.append(")");
                r
            },
            FieldVal::Int(n) => {
                let inner = to_signed_decimal(*n);
                let mut r = String::from_str("Int(");
                r.append(inner.as_str());
                r.append(")");
                r
            },
            FieldVal::Float(x) => {
                let inner = x.to_string();
                let mut r = String::from_str("Float(");
                r.append(inner.as_str());
                r.append(")");
                r
            },
            FieldVal::Formatted(s, fmt) => {
                let inner = debug_str(s.as_str());
                let mut r = String::from_str("Formatted(");
                r.append(inner.as_str());
                r.append(", ");
                r.append(fmt.name());
                r.append(")");
                r
            },
            FieldVal::ArrStr(arr) => {
                let inner = show_texts(arr);
                let mut r = String::from_str("ArrStr(");
                r.append(inner.as_str());
                r.append(")");
                assert(r@ =~= self.debug_text());
                r
            },
            FieldVal::ArrID(arr) => {
                let inner = show_ids(arr);
                let mut r = String::from_str("ArrID(");
                r.append(inner.as_str());
                r.append(")");
                assert(r@ =~= self.debug_text());
                r
            },
        }
    }

    /// Shows the value: a text as it is, a number in digits, formatted text
    /// with its format, an array in square brackets, its texts in quotes.
    pub fn to_string(&self) -> (r: String)
        ensures
            r@ == self.text_of(),
    {
        match self {
            FieldVal::Str(s) => s.clone(),
            FieldVal::Int(n) => to_signed_decimal(*n),
            FieldVal::Float(x) => x.to_string(),
            FieldVal::Formatted(s, fmt) => {
                let word = fmt.to_string();
                let mut r = String::from_str("(");
                r.append(s.as_str());
                r.append(",");
                r.append(word.as_str());
                r.append(")");
                r
            },
            FieldVal::ArrStr(arr) => show_texts(arr),
            FieldVal::ArrID(arr) => show_ids(arr),
        }
    }
}

/// Parameters for setting a field: the field, the value, and what to do with
/// the values the field already has
pub type FieldSetVal = (String, FieldVal, UpdateAction);

/// Set field with String value (Text, or number-to-string)
pub fn fset_s(fname: &str, val: &str) -> (r: FieldSetVal)
    ensures
        r.0@ == fname@,
        r.1 matches FieldVal::Str(s) && s@ == val@,
        r.2 == UpdateAction::Null,
{
    fup_s(fname, val, UpdateAction::Null)
}

/// Update field with String and action
pub fn fup_s(fname: &str, val: &str, act: UpdateAction) -> (r: FieldSetVal)
    ensures
        r.0@ == fname@,
        r.1 matches FieldVal::Str(s) && s@ == val@,
        r.2 == act,
{
    (String::from_str(fname), FieldVal::Str(String::from_str(val)), act)
}

/// Set field with ID
pub fn fset_id(fname: &str, val: ID) -> (r: FieldSetVal)
    ensures
        r.0@ == fname@,
        r.1 == FieldVal::Int(val as i64),
        r.2 == UpdateAction::Null,
{
    fup_id(fname, val, UpdateAction::Null)
}

/// Update field with ID
pub fn fup_id(fname: &str, val: ID, act: UpdateAction) -> (r: FieldSetVal)
    ensures
        r.0@ == fname@,
        r.1 == FieldVal::Int(val as i64),
        r.2 == act,
{
    (String::from_str(fname), FieldVal::Int(#[verifier::truncate] (val as i64)), act)
}

/// Set field with formatted text
pub fn fset_t(fname: &str, val: String, fmt: TextFormat) -> (r: FieldSetVal)
    ensures
        r.0@ == fname@,
        r.1 == FieldVal::Formatted(val, fmt),
        r.2 == UpdateAction::Null,
{
    fup_t(fname, val, fmt, UpdateAction::Null)
}

/// Update field with formatted text
pub fn fup_t(fname: &str, val: String, fmt: TextFormat, act: UpdateAction) -> (r: FieldSetVal)
    ensures
        r.0@ == fname@,
        r.1 == FieldVal::Formatted(val, fmt),
        r.2 == act,
{
    (String::from_str(fname), FieldVal::Formatted(val, fmt), act)
}

/// Set field with integer
pub fn fset_i(fname: &str, val: i64) -> (r: FieldSetVal)
    ensures
        r.0@ == fname@,
        r.1 == FieldVal::Int(val),
        r.2 == UpdateAction::Null,
{
    fup_i(fname, val, UpdateAction::Null)
}

/// Update field with integer
pub fn fup_i(fname: &str, val: i64, act: UpdateAction) -> (r: FieldSetVal)
    ensures
        r.0@ == fname@,
        r.1 == FieldVal::Int(val),
        r.2 == act,
{
    (String::from_str(fname), FieldVal::Int(val), act)
}

/// Set field to Vec of IDs
pub fn fset_vid(fname: &str, val: Vec<ID>) -> (r: FieldSetVal)
    ensures
        r.0@ == fname@,
        r.1 == FieldVal::ArrID(val),
        r.2 == UpdateAction::Null,
{
    (String::from_str(fname), FieldVal::ArrID(val), UpdateAction::Null)
}

/// Update field to Vec of IDs
pub fn fup_vid(fname: &str, val: Vec<ID>, act: UpdateAction) -> (r: FieldSetVal)
    ensures
        r.0@ == fname@,
        r.1 == FieldVal::ArrID(val),
        r.2 == act,
{
    (String::from_str(fname), FieldVal::ArrID(val), act)
}

/// Set field to Vec of Strings (names, categories, or uuids)
pub fn fset_vs(fname: &str, val: Vec<String>) -> (r: FieldSetVal)
    ensures
        r.0@ == fname@,
        r.1 == FieldVal::ArrStr(val),
        r.2 == UpdateAction::Null,
{
    fup_vs(fname, val, UpdateAction::Null)
}

/// Update field to Vec of Strings (names, categories, or uuids)
pub fn fup_vs(fname: &str, val: Vec<String>, act: UpdateAction) -> (r: FieldSetVal)
    ensures
        r.0@ == fname@,
        r.1 == FieldVal::ArrStr(val),
        r.2 == act,
{
    (String::from_str(fname), FieldVal::ArrStr(val), act)
}

/// The test of whether `candidate` names a field.
pub open spec fn names_field(candidate: Seq<char>) -> spec_fn(Field) -> bool {
    |f: Field| f.named_by(candidate)
}

/// The message of the error for a field that a list does not have.
pub open spec fn invalid_field_message(field_id: Seq<char>, list_name: Seq<char>) -> Seq<char> {
    "Invalid field '"@ + field_id + "' in list "@ + list_name
}

/// The position of the first of `fields` that `field_id` names, or their
/// number if it names none.
pub open spec fn field_position(fields: Seq<Field>, field_id: Seq<char>) -> int {
    first_index(fields, names_field(field_id), 0)
}

/// Finds, among `fields`, the definition of the field that `field_id` names:
/// the first whose name, uuid or id in decimal it is.
pub fn find_field<'a>(fields: &'a [Field], field_id: &str, list_name: &str) -> (r: Result<&'a Field, Error>)
    ensures
        match r {
            Ok(f) => field_position(fields@, field_id@) < fields@.len() && *f == fields@[field_position(
                fields@,
                field_id@,
            )],
            Err(e) => field_position(fields@, field_id@) == fields@.len() && (e matches Error::NotFound(m)
                && m@ == invalid_field_message(field_id@, list_name@)),
        },
{
    let ghost p = names_field(field_id@);
    let mut i: usize = 0;
    while i < fields.len()
        invariant
            i <= fields@.len(),
            p == names_field(field_id@),
            first_index(fields@, p, 0) == first_index(fields@, p, i as int),
        decreases fields@.len() - i,
    {
        assert(p(fields@[i as int]) == fields@[i as int].named_by(field_id@));
        if fields[i].is_named(field_id) {
            return Ok(&fields[i]);
        }
        i += 1;
    }
    let mut msg = String::from_str("Invalid field '");
    msg.append(field_id);
    msg.append("' in list ");
    msg.append(list_name);
    Err(Error::NotFound(msg))
}

/// A read-only reference to a List and its fields
#[derive(Debug, Clone)]
pub struct ListInfo {
    list: List,
    fields: Vec<Field>,
}

impl ListInfo {
    /// The list that this is the schema of.
    pub closed spec fn summary(&self) -> List {
        self.list
    }

    /// The field definitions of the list, in their order.
    pub closed spec fn schema(&self) -> Seq<Field> {
        self.fields@
    }

    /// What setting a field of this list comes to: what it comes to for the
    /// field that the first part of `field_val` names, or a refusal if it
    /// names none.
    pub open spec fn set_effect(
        &self,
        field_val: FieldSetVal,
        users: Seq<User>,
        doc: Map<Seq<char>, Json>,
    ) -> Effect {
        let k = field_position(self.schema(), field_val.0@);
        if k < self.schema().len() {
            effect_of(self.schema()[k], field_val.1, field_val.2, users, doc)
        } else {
            Effect::Missing(invalid_field_message(field_val.0@, self.summary().name@))
        }
    }

    /// Whether setting a field reads the roster of the workspace: the field
    /// is a persons field and the value names persons, one or, as far as the
    /// field takes them, several.
    pub open spec fn reads_roster(&self, field_val: FieldSetVal) -> bool {
        let k = field_position(self.schema(), field_val.0@);
        k < self.schema().len() && self.schema()[k].element_category == ElementCategoryId::Persons
            && (match field_val.1 {
            FieldVal::Str(_) => true,
            FieldVal::ArrStr(names) => names@.len() > 0 && !overfull(self.schema()[k], names@.len()),
            _ => false,
        })
    }

    /// The line that shows the list with the number of its fields.
    pub open spec fn line(&self) -> Seq<char> {
        "ListInfo("@ + decimal(self.summary().id as nat) + ","@ + self.summary().uuid@ + ","@
            + self.summary().name@ + ", nFields:"@ + decimal(self.schema().len()) + ", ws:"@
            + decimal(self.summary().workspace_id as nat) + ")"@
    }

    /// Shows the list with the number of its fields and the id of its workspace.
    pub fn to_string(&self) -> (r: String)
        ensures
            r@ == self.line(),
    {
        let id = to_decimal(self.list.id);
        let count = to_decimal(self.fields.len() as u64);
        let ws = to_decimal(self.list.workspace_id);
        let mut r = String::from_str("ListInfo(");
        r.append(id.as_str());
        r.append(",");
        r.append(self.list.uuid.as_str());
        r.append(",");
        r.append(self.list.name.as_str());
        r.append(", nFields:");
        r.append(count.as_str());
        r.append(", ws:");
        r.append(ws.as_str());
        r.append(")");
        r
    }

    /// Tells whether setting the field takes the users of the workspace, so
    /// that they can be fetched before `generic_set` is called and only then.
    pub fn needs_roster(&self, field_val: &FieldSetVal) -> (r: bool)
        ensures
            r == self.reads_roster(*field_val),
    {
        match self.get_field(field_val.0.as_str()) {
            Ok(field) => field.element_category == ElementCategoryId::Persons && (match &field_val.1 {
                FieldVal::Str(_) => true,
                FieldVal::ArrStr(names) => names.len() > 0 && !(!field.element_data.multiple
                    && names.len() > 1),
                _ => false,
            }),
            Err(_) => false,
        }
    }

    /// Puts a list and its field definitions together.
    pub fn new(list: List, fields: Vec<Field>) -> (r: Self)
        ensures
            r.summary() == list,
            r.schema() == fields@,
    {
        ListInfo { list, fields }
    }

    /// Returns the inner list.
    pub fn list(&self) -> (r: &List)
        ensures
            *r == self.summary(),
    {
        &self.list
    }

    /// Returns the unique (int) ID of the list
    pub fn get_id(&self) -> (r: ID)
        ensures
            r == self.summary().id,
    {
        self.list.id
    }

    /// Returns the uuid of the list
    pub fn get_uuid(&self) -> (r: &UUID)
        ensures
            *r == self.summary().uuid,
    {
        &self.list.uuid
    }

    /// Returns true if the list has the id, uuid, shortId, or name of the parameter
    pub fn has_id(&self, id: &str) -> (r: bool)
        ensures
            r == self.summary().named_by(id@),
    {
        self.list.has_id(id)
    }

    /// Returns field (definition) given its name, id, or uuid
    pub fn get_field(&self, field_id: &str) -> (r: Result<&Field, Error>)
        ensures
            match r {
                Ok(f) => field_position(self.schema(), field_id@) < self.schema().len() && *f
                    == self.schema()[field_position(self.schema(), field_id@)],
                Err(e) => field_position(self.schema(), field_id@) == self.schema().len() && (
                e matches Error::NotFound(m) && m@ == invalid_field_message(
                    field_id@,
                    self.summary().name@,
                )),
            },
    {
        find_field(self.fields.as_slice(), field_id, self.list.name.as_str())
    }

    /// Returns vec of fields
    pub fn fields(&self) -> (r: &Vec<Field>)
        ensures
            r@ == self.schema(),
    {
        &self.fields
    }

    /// Adds a field setting to the document `obj`. The field may be given by
    /// name, id or uuid. For a choice field the value can be the name of the
    /// choice; for a person field it can be the name of the person, which
    /// `users`, the roster of the workspace of the list, resolves.
    ///
    /// A text for a decimal number field is not written: the result is the
    /// request to read it, which `DecimalRequest::complete` finishes.
    pub fn generic_set(&self, obj: &mut JsonMap, field_val: FieldSetVal, users: &UserCache) -> (r: Result<Pending, Error>)
        ensures
            reports(r, members(*old(obj)), members(*final(obj)), self.set_effect(field_val, users@, members(*old(obj)))),
    {
        let (name, value, action) = field_val;
        match self.get_field(name.as_str()) {
            Ok(field) => set_field(obj, field, value, action, users),
            Err(e) => Err(e),
        }
    }
}

} // verus!

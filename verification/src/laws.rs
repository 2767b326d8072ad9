//! Laws that relate the functions of this library to each other.
use vstd::prelude::*;
use crate::cache::{fetchable_alone, position_named, resolution, Resolution};
use crate::codec::{action_key, effect_of, key_of, replaces, too_many_message, Effect};
use crate::item::{int_at, text_at};
use crate::json::Json;
use crate::list::{invalid_uuid_message, FieldVal};
use crate::types::{first_index, ElementCategoryId, Field, TextFormat, UpdateAction, User, Workspace};
use crate::user::lowercase;
use crate::util::{all_digits, decimal, digit_char, digits_value, has_plus, has_sign, is_digit, uuid_shape};

verus! {

/// The first match lies between the start of the search and the end of the
/// sequence; it satisfies the test, and nothing between the start and it does.
pub proof fn lemma_first_index<T>(s: Seq<T>, p: spec_fn(T) -> bool, from: int)
    requires
        0 <= from <= s.len(),
    ensures
        from <= first_index(s, p, from) <= s.len(),
        first_index(s, p, from) < s.len() ==> p(s[first_index(s, p, from)]),
        forall|j: int| from <= j < first_index(s, p, from) ==> !p(#[trigger] s[j]),
    decreases s.len() - from,
{
    if from < s.len() && !p(s[from]) {
        lemma_first_index(s, p, from + 1);
    }
}

/// A position that satisfies the test, with nothing before it from the start
/// on that does, is the first match.
pub proof fn lemma_first_index_at<T>(s: Seq<T>, p: spec_fn(T) -> bool, from: int, k: int)
    requires
        0 <= from <= k < s.len(),
        p(s[k]),
        forall|j: int| from <= j < k ==> !p(#[trigger] s[j]),
    ensures
        first_index(s, p, from) == k,
    decreases k - from,
{
    if from < k {
        assert(!p(s[from]));
        lemma_first_index_at(s, p, from + 1, k);
    }
}

/// The decimal rendering of a number is made of digits, at least one, and
/// writes that number.
pub proof fn lemma_decimal_writes_its_number(n: nat)
    ensures
        decimal(n).len() > 0,
        all_digits(decimal(n)),
        digits_value(decimal(n)) == n,
        !has_sign(decimal(n)),
        !has_plus(decimal(n)),
    decreases n,
{
    if n < 10 {
        let s = decimal(n);
        assert(s.len() == 1);
        assert(s[0] == digit_char(n));
        assert(s.drop_last() =~= Seq::<char>::empty());
        assert(digits_value(s.drop_last()) == 0);
        assert(s.last() as nat == 48 + n);
    } else {
        lemma_decimal_writes_its_number(n / 10);
        let head = decimal(n / 10);
        let s = head.push(digit_char(n % 10));
        assert(s == decimal(n));
        assert(s.drop_last() =~= head);
        assert(s.last() as nat == 48 + n % 10);
        assert forall|i: int| 0 <= i < s.len() implies is_digit(#[trigger] s[i]) by {
            if i < head.len() {
                assert(s[i] == head[i]);
            }
        }
        assert(s[0] == head[0]);
    }
}

/// The id of an object, written in decimal, reads back as that id: two
/// objects that the same digits name have the same id.
pub proof fn law_decimal_is_one_to_one(a: nat, b: nat)
    requires
        decimal(a) == decimal(b),
    ensures
        a == b,
{
    lemma_decimal_writes_its_number(a);
    lemma_decimal_writes_its_number(b);
}

/// A positive id, written in decimal, has the shape of an identifier that
/// the service looks up by itself, and names every workspace with that id:
/// on a cache that does not hold it, resolving it takes one fetch of that
/// workspace, and none once the workspace is inserted.
pub proof fn law_id_is_fetched_alone(workspaces: Seq<Workspace>, w: Workspace)
    requires
        0 < w.id,
    ensures
        fetchable_alone(decimal(w.id as nat)),
        w.named_by(decimal(w.id as nat)),
        !(resolution(workspaces, decimal(w.id as nat)) is FetchAll),
        resolution(workspaces.push(w), decimal(w.id as nat)) is Hit,
{
    lemma_decimal_writes_its_number(w.id as nat);
    law_inserted_is_resolved(workspaces, w, decimal(w.id as nat));
}

/// A user is named by each of its own identifiers: its display name, its
/// full name and its uuid, each as it stands.
pub proof fn law_user_is_named_by_its_identifiers(u: User)
    ensures
        u.named_by(u.display_name@),
        u.named_by(u.full_name@),
        u.named_by(u.uuid@),
{
}

/// Names of users match whatever the case of their letters: a user whom a
/// text names by display name or full name is named by every text with the
/// same lower-case form.
pub proof fn law_user_names_ignore_case(u: User, a: Seq<char>, b: Seq<char>)
    requires
        lowercase(a) == lowercase(b),
        lowercase(u.display_name@) == lowercase(a) || lowercase(u.full_name@) == lowercase(a),
    ensures
        u.named_by(a),
        u.named_by(b),
{
}

/// A text names a user only by one of its identifiers: its lower-case form
/// is that of the display name or of the full name, or it is the uuid,
/// letter for letter.
pub proof fn law_user_is_named_by_nothing_else(u: User, name: Seq<char>)
    requires
        u.named_by(name),
    ensures
        lowercase(u.display_name@) == lowercase(name) || lowercase(u.full_name@) == lowercase(name)
            || u.uuid@ == name,
{
}

/// Once the cache holds a workspace that the identifier names, resolving the
/// identifier fetches nothing and gives that workspace, and goes on doing so
/// whatever is added to the cache afterwards. Resolving reads the cache and
/// leaves it as it is, so a second call finds what the first found.
pub proof fn law_resolved_stays_resolved(
    workspaces: Seq<Workspace>,
    more: Seq<Workspace>,
    identifier: Seq<char>,
)
    requires
        resolution(workspaces, identifier) is Hit,
    ensures
        resolution(workspaces + more, identifier) == resolution(workspaces, identifier),
        (workspaces + more)[resolution(workspaces, identifier)->Hit_0]
            == workspaces[resolution(workspaces, identifier)->Hit_0],
{
    let p = crate::cache::names_workspace(identifier);
    let k = position_named(workspaces, identifier);
    lemma_first_index(workspaces, p, 0);
    let all = workspaces + more;
    assert(all[k] == workspaces[k]);
    assert forall|j: int| 0 <= j < k implies !p(#[trigger] all[j]) by {
        assert(all[j] == workspaces[j]);
    }
    lemma_first_index_at(all, p, 0, k);
}

/// A workspace that was fetched under an identifier that names it and was
/// then inserted is resolved without another fetch, as a workspace that the
/// identifier names.
pub proof fn law_inserted_is_resolved(workspaces: Seq<Workspace>, w: Workspace, identifier: Seq<char>)
    requires
        w.named_by(identifier),
    ensures
        resolution(workspaces.push(w), identifier) matches Resolution::Hit(k) && 0 <= k
            <= workspaces.len() && workspaces.push(w)[k].named_by(identifier),
{
    let p = crate::cache::names_workspace(identifier);
    let all = workspaces.push(w);
    lemma_first_index(all, p, 0);
    let k = first_index(all, p, 0);
    if k == all.len() {
        assert(!p(all[workspaces.len() as int]));
    }
}

/// A text written to a text field is the text that is read back from the
/// document under the key of the field.
pub proof fn law_text_round_trip(
    field: Field,
    text: String,
    action: UpdateAction,
    users: Seq<User>,
    doc: Map<Seq<char>, Json>,
)
    requires
        field.element_category == ElementCategoryId::Text,
        replaces(action),
    ensures
        effect_of(field, FieldVal::Str(text), action, users, doc) matches Effect::Write(after)
            && text_at(after, key_of(field.uuid@, "text"@)) == Some(text@),
{
}

/// A formatted text written to a text field is the text that is read back,
/// and its format stands beside it under the key of the format.
pub proof fn law_formatted_text_round_trip(
    field: Field,
    text: String,
    format: TextFormat,
    action: UpdateAction,
    users: Seq<User>,
    doc: Map<Seq<char>, Json>,
)
    requires
        field.element_category == ElementCategoryId::Text,
        replaces(action),
    ensures
        effect_of(field, FieldVal::Formatted(text, format), action, users, doc) matches Effect::Write(
            after,
        ) && text_at(after, key_of(field.uuid@, "text"@)) == Some(text@) && text_at(
            after,
            key_of(field.uuid@, "textType"@),
        ) == Some(format.word()),
{
    reveal_strlit("text");
    reveal_strlit("textType");
    let a = key_of(field.uuid@, "text"@);
    let b = key_of(field.uuid@, "textType"@);
    assert(a.len() != b.len());
}

/// An integer written to a number field is the integer that is read back
/// from the document under the key of the field.
pub proof fn law_integer_round_trip(
    field: Field,
    n: i64,
    action: UpdateAction,
    users: Seq<User>,
    doc: Map<Seq<char>, Json>,
)
    requires
        field.element_category == ElementCategoryId::Number,
        replaces(action),
    ensures
        effect_of(field, FieldVal::Int(n), action, users, doc) matches Effect::Write(after)
            && int_at(after, key_of(field.uuid@, "number"@)) == Some(n),
{
}

/// The key of a business field is never the key of the action marker: it
/// holds an underscore, which the other does not.
pub proof fn lemma_field_key_is_no_action_key(uuid: Seq<char>, suffix: Seq<char>)
    ensures
        key_of(uuid, suffix) != action_key(),
{
    reveal_strlit("updateAction");
    reveal_strlit("_");
    let key = key_of(uuid, suffix);
    let marker = action_key();
    assert(key[uuid.len() as int] == '_');
    assert(marker.len() == 12);
    assert(marker[0] == 'u' && marker[1] == 'p' && marker[2] == 'd' && marker[3] == 'a');
    assert(marker[4] == 't' && marker[5] == 'e' && marker[6] == 'A' && marker[7] == 'c');
    assert(marker[8] == 't' && marker[9] == 'i' && marker[10] == 'o' && marker[11] == 'n');
    if key == marker {
        assert(uuid.len() < 12);
        assert(marker[uuid.len() as int] == '_');
    }
}

/// Whether a kind of field holds one value that is set as a whole: a text,
/// a number, a link or a date.
pub open spec fn is_scalar(kind: ElementCategoryId) -> bool {
    kind == ElementCategoryId::Text || kind == ElementCategoryId::Number || kind
        == ElementCategoryId::URL || kind == ElementCategoryId::Date
}

/// The action marker is written with the value of a persons, categories or
/// references field where there is an action, as the word of that action. It
/// is left as it was where there is none, and whenever a text, a number, a
/// link or a date is written.
pub proof fn law_action_marker(
    field: Field,
    value: FieldVal,
    action: UpdateAction,
    users: Seq<User>,
    doc: Map<Seq<char>, Json>,
)
    ensures
        effect_of(field, value, action, users, doc) matches Effect::Write(after) ==> (if action
            == UpdateAction::Null || is_scalar(field.element_category) {
            after.contains_key(action_key()) == doc.contains_key(action_key()) && (
            doc.contains_key(action_key()) ==> after[action_key()] == doc[action_key()])
        } else {
            after.contains_key(action_key()) && after[action_key()] == Json::Str(action.word())
        }),
{
    lemma_field_key_is_no_action_key(field.uuid@, "text"@);
    lemma_field_key_is_no_action_key(field.uuid@, "textType"@);
    lemma_field_key_is_no_action_key(field.uuid@, "number"@);
    lemma_field_key_is_no_action_key(field.uuid@, "link"@);
    lemma_field_key_is_no_action_key(field.uuid@, "date"@);
    lemma_field_key_is_no_action_key(field.uuid@, "persons"@);
    lemma_field_key_is_no_action_key(field.uuid@, "categories"@);
    lemma_field_key_is_no_action_key(field.uuid@, "references"@);
}

/// Whether `key` is one of the keys under which the values of the field with
/// this uuid are written, or the key of the action marker.
pub open spec fn is_written_key(uuid: Seq<char>, key: Seq<char>) -> bool {
    key == action_key() || key == key_of(uuid, "text"@) || key == key_of(uuid, "textType"@) || key
        == key_of(uuid, "number"@) || key == key_of(uuid, "link"@) || key == key_of(uuid, "date"@)
        || key == key_of(uuid, "persons"@) || key == key_of(uuid, "categories"@) || key == key_of(
        uuid,
        "references"@,
    )
}

/// Setting a field touches the members of that field and the action marker,
/// and leaves every other member of the document as it was.
pub proof fn law_write_is_local(
    field: Field,
    value: FieldVal,
    action: UpdateAction,
    users: Seq<User>,
    doc: Map<Seq<char>, Json>,
    key: Seq<char>,
)
    requires
        !is_written_key(field.uuid@, key),
    ensures
        effect_of(field, value, action, users, doc) matches Effect::Write(after) ==> after.contains_key(
            key,
        ) == doc.contains_key(key) && (doc.contains_key(key) ==> after[key] == doc[key]),
{
}

/// A single-valued categories field refuses an array of more than one name
/// as invalid, and takes an array of one name that it offers as a choice.
pub proof fn law_single_valued_categories(
    field: Field,
    names: Vec<String>,
    action: UpdateAction,
    users: Seq<User>,
    doc: Map<Seq<char>, Json>,
)
    requires
        field.element_category == ElementCategoryId::Categories,
        !field.element_data.multiple,
    ensures
        names@.len() > 1 ==> effect_of(field, FieldVal::ArrStr(names), action, users, doc)
            == Effect::Invalid(too_many_message(field.name@, "label"@, names@.len())),
        names@.len() == 1 && field.choice_id(names@[0]@).is_some() ==> effect_of(
            field,
            FieldVal::ArrStr(names),
            action,
            users,
            doc,
        ) is Write,
{
    if names@.len() == 1 && field.choice_id(names@[0]@).is_some() {
        let p = crate::codec::not_offered_by(field);
        assert(!p(names@[0]));
        assert(first_index(names@, p, 1) == 1);
        assert(first_index(names@, p, 0) == 1);
    }
}

/// A references field takes a text that has the shape of a uuid, and refuses
/// any other as invalid; a text of another length than 36 has not that shape.
pub proof fn law_reference_must_be_uuid(
    field: Field,
    text: String,
    action: UpdateAction,
    users: Seq<User>,
    doc: Map<Seq<char>, Json>,
)
    requires
        field.element_category == ElementCategoryId::References,
    ensures
        uuid_shape(text@) ==> effect_of(field, FieldVal::Str(text), action, users, doc) is Write,
        !uuid_shape(text@) ==> effect_of(field, FieldVal::Str(text), action, users, doc)
            == Effect::Invalid(invalid_uuid_message(text@, field.name@)),
        text@.len() != 36 ==> !uuid_shape(text@),
{
}

} // verus!

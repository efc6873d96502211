use vstd::prelude::*;

verus! {

#[verifier::external_type_specification]
#[verifier::external_body]
pub struct ExJsonValue(serde_json::Value);

#[verifier::external_type_specification]
#[verifier::external_body]
#[verifier::reject_recursive_types(K)]
#[verifier::reject_recursive_types(V)]
pub struct ExJsonMap<K, V>(serde_json::Map<K, V>);

/// A JSON object, as request bodies are sent.
pub type JsonObject = serde_json::Map<String, serde_json::Value>;

/// Relies on the derived `Clone` of `serde_json::Value`: the copy is equal.
pub assume_specification[ <serde_json::Value as Clone>::clone ](v: &serde_json::Value) -> (r: serde_json::Value)
    ensures
        r == *v,
;

/// The value of one member of a request body.
#[derive(Debug)]
pub enum Field {
    /// A JSON string.
    Text(String),
    /// A JSON integer.
    Int(i64),
    /// A JSON boolean.
    Flag(bool),
    /// A JSON array of strings.
    Texts(Vec<String>),
    /// Any JSON value, sent as it is.
    Json(serde_json::Value),
    /// A JSON array of values, sent as they are.
    JsonList(Vec<serde_json::Value>),
    /// A JSON object.
    Object(JsonObject),
    /// A JSON array of objects.
    Objects(Vec<JsonObject>),
}

/// The value of a body member, with its texts as character sequences.
pub ghost enum FieldView {
    Text(Seq<char>),
    Int(int),
    Flag(bool),
    Texts(Seq<Seq<char>>),
    Json(serde_json::Value),
    JsonList(Seq<serde_json::Value>),
    /// An object, by its members.
    Object(Map<Seq<char>, serde_json::Value>),
    /// An array of objects, by the members of each.
    Objects(Seq<Map<Seq<char>, serde_json::Value>>),
}

/// The members of each of a list of objects.
pub open spec fn members_of_each(v: Seq<JsonObject>) -> Seq<Map<Seq<char>, serde_json::Value>> {
    v.map_values(|m: JsonObject| object_members(m))
}

/// The texts of a list of strings.
pub open spec fn texts_view(v: Seq<String>) -> Seq<Seq<char>> {
    v.map_values(|s: String| s@)
}

impl View for Field {
    type V = FieldView;

    open spec fn view(&self) -> FieldView {
        match self {
            Field::Text(s) => FieldView::Text(s@),
            Field::Int(n) => FieldView::Int(*n as int),
            Field::Flag(b) => FieldView::Flag(*b),
            Field::Texts(v) => FieldView::Texts(texts_view(v@)),
            Field::Json(v) => FieldView::Json(*v),
            Field::JsonList(v) => FieldView::JsonList(v@),
            Field::Object(m) => FieldView::Object(object_members(*m)),
            Field::Objects(v) => FieldView::Objects(members_of_each(v@)),
        }
    }
}

/// The view of an optional member value.
pub open spec fn opt_view(f: Option<Field>) -> Option<FieldView> {
    match f {
        Some(v) => Some(v@),
        None => None,
    }
}

/// The keys and values of a list of body members.
pub open spec fn members(fields: Seq<(String, Field)>) -> Seq<(Seq<char>, FieldView)> {
    fields.map_values(|p: (String, Field)| (p.0@, p.1@))
}

/// A list of members, with one more at the end where there is a value for it.
pub open spec fn push_opt(
    m: Seq<(Seq<char>, FieldView)>,
    key: Seq<char>,
    v: Option<FieldView>,
) -> Seq<(Seq<char>, FieldView)> {
    match v {
        Some(x) => m.push((key, x)),
        None => m,
    }
}

/// A string member value, where there is a text.
pub open spec fn text_opt(o: Option<String>) -> Option<FieldView> {
    match o {
        Some(s) => Some(FieldView::Text(s@)),
        None => None,
    }
}

/// A string-array member value, where there is a list.
pub open spec fn texts_opt(o: Option<Vec<String>>) -> Option<FieldView> {
    match o {
        Some(v) => Some(FieldView::Texts(texts_view(v@))),
        None => None,
    }
}

/// A boolean member value, where there is a flag.
pub open spec fn flag_opt(o: Option<bool>) -> Option<FieldView> {
    match o {
        Some(b) => Some(FieldView::Flag(b)),
        None => None,
    }
}

/// An integer member value, where there is a number.
pub open spec fn int_opt(o: Option<i64>) -> Option<FieldView> {
    match o {
        Some(n) => Some(FieldView::Int(n as int)),
        None => None,
    }
}

/// A member sent as a JSON value, where there is one.
pub open spec fn json_opt(o: Option<serde_json::Value>) -> Option<FieldView> {
    match o {
        Some(v) => Some(FieldView::Json(v)),
        None => None,
    }
}

/// A member sent as an array of JSON values, where there is one.
pub open spec fn json_list_opt(o: Option<Vec<serde_json::Value>>) -> Option<FieldView> {
    match o {
        Some(v) => Some(FieldView::JsonList(v@)),
        None => None,
    }
}

/// The members of a JSON object: each key with its value.
pub uninterp spec fn object_members(m: JsonObject) -> Map<Seq<char>, serde_json::Value>;

/// The keys of a JSON object.
pub open spec fn object_keys(m: JsonObject) -> Set<Seq<char>> {
    object_members(m).dom()
}

/// The JSON number with the given integer value.
pub uninterp spec fn json_int(n: int) -> serde_json::Value;

/// The JSON boolean with the given value.
pub uninterp spec fn json_bool(b: bool) -> serde_json::Value;

/// The JSON array with the given elements.
pub uninterp spec fn json_array(v: Seq<serde_json::Value>) -> serde_json::Value;

/// The JSON object with the given members.
pub uninterp spec fn json_object(m: Map<Seq<char>, serde_json::Value>) -> serde_json::Value;

/// The JSON value that a body member is sent as.
pub open spec fn field_json(f: FieldView) -> serde_json::Value {
    match f {
        FieldView::Text(s) => json_string(s),
        FieldView::Int(n) => json_int(n),
        FieldView::Flag(b) => json_bool(b),
        FieldView::Texts(v) => json_array(v.map_values(|t: Seq<char>| json_string(t))),
        FieldView::Json(v) => v,
        FieldView::JsonList(v) => json_array(v),
        FieldView::Object(m) => json_object(m),
        FieldView::Objects(v) => json_array(
            v.map_values(|m: Map<Seq<char>, serde_json::Value>| json_object(m)),
        ),
    }
}

/// The members of the JSON object built from a list of body members, each
/// sent as its JSON value; where a key repeats, the later member's value stays.
pub open spec fn members_map(m: Seq<(Seq<char>, FieldView)>) -> Map<Seq<char>, serde_json::Value>
    decreases m.len(),
{
    if m.len() == 0 {
        Map::empty()
    } else {
        members_map(m.drop_last()).insert(m.last().0, field_json(m.last().1))
    }
}

/// Adding a member where there is a value for it sets that key in the object.
pub proof fn lemma_members_map_push_opt(
    m: Seq<(Seq<char>, FieldView)>,
    key: Seq<char>,
    v: Option<FieldView>,
)
    ensures
        members_map(push_opt(m, key, v)) == match v {
            Some(x) => members_map(m).insert(key, field_json(x)),
            None => members_map(m),
        },
{
    if v is Some {
        assert(push_opt(m, key, v).drop_last() =~= m);
    }
}

/// The keys of a list of body members.
pub open spec fn keys_of(fields: Seq<(String, Field)>) -> Set<Seq<char>> {
    Set::new(|k: Seq<char>| exists|i: int| 0 <= i < fields.len() && #[trigger] fields[i].0@ == k)
}

/// Relies on `serde_json::Map::new`: a map without keys.
#[verifier::external_body]
fn empty_object() -> (r: JsonObject)
    ensures
        object_members(r).len() == 0,
        object_members(r).dom().finite(),
{
    serde_json::Map::new()
}

/// Relies on `serde_json::Map::insert`: afterwards the key has the new
/// value, and the other members are as they were.
#[verifier::external_body]
fn insert_member(m: &mut JsonObject, key: String, v: serde_json::Value)
    ensures
        object_members(*final(m)) == object_members(*old(m)).insert(key@, v),
{
    m.insert(key, v);
}

/// The JSON string with the given characters.
pub uninterp spec fn json_string(s: Seq<char>) -> serde_json::Value;

/// Relies on the `serde_json::Value::String` variant: a JSON string whose
/// content is `s`.
#[verifier::external_body]
pub fn string_value(s: String) -> (r: serde_json::Value)
    ensures
        r == json_string(s@),
{
    serde_json::Value::String(s)
}

/// Relies on `From<i64>` for `serde_json::Value`: a JSON number.
#[verifier::external_body]
fn int_value(n: i64) -> (r: serde_json::Value)
    ensures
        r == json_int(n as int),
{
    serde_json::Value::from(n)
}

/// Relies on the `serde_json::Value::Bool` variant.
#[verifier::external_body]
fn bool_value(b: bool) -> (r: serde_json::Value)
    ensures
        r == json_bool(b),
{
    serde_json::Value::Bool(b)
}

/// Relies on `From<Vec<String>>` for `serde_json::Value`: an array with
/// each string as a JSON string, in order.
#[verifier::external_body]
fn strings_value(v: Vec<String>) -> (r: serde_json::Value)
    ensures
        r == json_array(texts_view(v@).map_values(|t: Seq<char>| json_string(t))),
{
    serde_json::Value::from(v)
}

/// Relies on the `serde_json::Value::Array` variant.
#[verifier::external_body]
fn array_value(v: Vec<serde_json::Value>) -> (r: serde_json::Value)
    ensures
        r == json_array(v@),
{
    serde_json::Value::Array(v)
}

/// Relies on the `serde_json::Value::Object` variant.
#[verifier::external_body]
fn object_value(m: JsonObject) -> (r: serde_json::Value)
    ensures
        r == json_object(object_members(m)),
{
    serde_json::Value::Object(m)
}

/// The JSON value of a body member.
fn field_value(f: Field) -> (r: serde_json::Value)
    ensures
        r == field_json(f@),
{
    match f {
        Field::Text(s) => string_value(s),
        Field::Int(n) => int_value(n),
        Field::Flag(b) => bool_value(b),
        Field::Texts(v) => strings_value(v),
        Field::Json(v) => v,
        Field::JsonList(v) => array_value(v),
        Field::Object(m) => object_value(m),
        Field::Objects(v) => {
            let ghost objects = v@;
            let values = object_values(v);
            assert(values@ =~= members_of_each(objects).map_values(
                |m: Map<Seq<char>, serde_json::Value>| json_object(m),
            ));
            array_value(values)
        },
    }
}

/// Each of a list of objects as a JSON value, in order.
fn object_values(v: Vec<JsonObject>) -> (r: Vec<serde_json::Value>)
    ensures
        r@.len() == v@.len(),
        forall|j: int| 0 <= j < v@.len() ==> #[trigger] r@[j] == json_object(object_members(v@[j])),
{
    let ghost all = v@;
    let mut rest = v;
    let mut out: Vec<serde_json::Value> = Vec::new();
    while rest.len() > 0
        invariant
            out@.len() + rest@.len() == all.len(),
            rest@ == all.subrange(out@.len() as int, all.len() as int),
            forall|j: int|
                0 <= j < out@.len() ==> #[trigger] out@[j] == json_object(object_members(all[j])),
        decreases rest@.len(),
    {
        let m = rest.remove(0);
        out.push(object_value(m));
    }
    out
}

/// Appends a member to a body.
pub fn add_field(fields: &mut Vec<(String, Field)>, key: &str, f: Field)
    ensures
        members(final(fields)@) == members(old(fields)@).push((key@, f@)),
        forall|k: Seq<char>| #[trigger]
            keys_of(final(fields)@).contains(k) <==> keys_of(old(fields)@).contains(k) || k == key@,
{
    let ghost before = fields@;
    fields.push((String::from_str(key), f));
    assert(fields@[before.len() as int].0@ == key@);
    assert(members(fields@) =~= members(before).push((key@, fields@[before.len() as int].1@)));
    assert forall|k: Seq<char>| #[trigger]
        keys_of(fields@).contains(k) <==> keys_of(before).insert(key@).contains(k) by {
        if keys_of(fields@).contains(k) {
            let i = choose|i: int| 0 <= i < fields@.len() && #[trigger] fields@[i].0@ == k;
            if i < before.len() {
                assert(before[i].0@ == k);
            }
        }
        if keys_of(before).contains(k) {
            let i = choose|i: int| 0 <= i < before.len() && #[trigger] before[i].0@ == k;
            assert(fields@[i].0@ == k);
        }
    }
}

/// Appends a member to a body when there is a value for it.
pub fn add_optional(fields: &mut Vec<(String, Field)>, key: &str, f: Option<Field>)
    ensures
        members(final(fields)@) == push_opt(members(old(fields)@), key@, opt_view(f)),
        forall|k: Seq<char>| #[trigger]
            keys_of(final(fields)@).contains(k) <==> keys_of(old(fields)@).contains(k) || (f is Some
                && k == key@),
{
    match f {
        Some(v) => add_field(fields, key, v),
        None => {},
    }
}

/// The JSON object with the members of a body, each sent as its JSON
/// value. Where a key repeats, the later member's value stays.
pub fn to_object(fields: Vec<(String, Field)>) -> (m: JsonObject)
    ensures
        object_members(m) == members_map(members(fields@)),
        object_keys(m) == keys_of(fields@),
{
    let ghost all = fields@;
    let mut rest = fields;
    let mut m = empty_object();
    assert(object_members(m) =~= Map::<Seq<char>, serde_json::Value>::empty()) by {
        object_members(m).dom().lemma_len0_is_empty();
    }
    let ghost mut done: int = 0;
    assert(members(all).subrange(0, 0) =~= Seq::<(Seq<char>, FieldView)>::empty());
    while rest.len() > 0
        invariant
            0 <= done <= all.len(),
            rest@ == all.subrange(done, all.len() as int),
            object_members(m) == members_map(members(all).subrange(0, done)),
            forall|k: Seq<char>|
                #[trigger] object_keys(m).contains(k) <==> exists|i: int|
                    0 <= i < done && #[trigger] all[i].0@ == k,
        decreases rest@.len(),
    {
        let (k, f) = rest.remove(0);
        let ghost key = k@;
        let ghost view = f@;
        assert(all[done].0 == k && all[done].1 == f);
        let ghost old_m = m;
        insert_member(&mut m, k, field_value(f));
        assert(members(all).subrange(0, done + 1).drop_last() =~= members(all).subrange(0, done));
        assert(members(all).subrange(0, done + 1).last() == (key, view));
        proof {
            done = done + 1;
        }
        assert forall|j: Seq<char>| #[trigger]
            object_keys(m).contains(j) <==> exists|i: int|
                0 <= i < done && #[trigger] all[i].0@ == j by {
            if j == key {
                assert(all[done - 1].0@ == j);
            } else {
                assert(object_keys(m).contains(j) == object_keys(old_m).contains(j));
                if object_keys(old_m).contains(j) {
                    let i = choose|i: int| 0 <= i < done - 1 && #[trigger] all[i].0@ == j;
                    assert(all[i].0@ == j);
                }
                if exists|i: int| 0 <= i < done && #[trigger] all[i].0@ == j {
                    let i = choose|i: int| 0 <= i < done && #[trigger] all[i].0@ == j;
                    assert(i < done - 1);
                    assert(object_keys(old_m).contains(j));
                }
            }
        }
    }
    assert(members(all).subrange(0, done) =~= members(all));
    assert(object_keys(m) =~= keys_of(all));
    m
}

/// A body without members.
pub fn no_fields() -> (r: Vec<(String, Field)>)
    ensures
        keys_of(r@) == Set::<Seq<char>>::empty(),
        members(r@) == Seq::<(Seq<char>, FieldView)>::empty(),
{
    let r: Vec<(String, Field)> = Vec::new();
    assert(keys_of(r@) =~= Set::<Seq<char>>::empty());
    assert(members(r@) =~= Seq::<(Seq<char>, FieldView)>::empty());
    r
}

/// A string member, where the text is given.
pub fn text_field(o: &Option<String>) -> (r: Option<Field>)
    ensures
        opt_view(r) == text_opt(*o),
{
    match o {
        Some(s) => Some(Field::Text(s.clone())),
        None => None,
    }
}

/// A member that is an array of strings, where the list is given.
pub fn texts_field(o: &Option<Vec<String>>) -> (r: Option<Field>)
    ensures
        opt_view(r) == texts_opt(*o),
{
    match o {
        Some(v) => {
            let c = v.clone();
            assert(c@ =~= v@);
            Some(Field::Texts(c))
        },
        None => None,
    }
}

/// A boolean member, where the flag is given.
pub fn flag_field(o: Option<bool>) -> (r: Option<Field>)
    ensures
        opt_view(r) == flag_opt(o),
{
    match o {
        Some(b) => Some(Field::Flag(b)),
        None => None,
    }
}

/// An integer member, where the number is given.
pub fn int_field(o: Option<i64>) -> (r: Option<Field>)
    ensures
        opt_view(r) == int_opt(o),
{
    match o {
        Some(n) => Some(Field::Int(n)),
        None => None,
    }
}

/// A member sent as the given JSON value, where there is one.
pub fn json_field(o: &Option<serde_json::Value>) -> (r: Option<Field>)
    ensures
        opt_view(r) == json_opt(*o),
{
    match o {
        Some(v) => Some(Field::Json(v.clone())),
        None => None,
    }
}

/// A member sent as an array of the given JSON values, where there are some.
pub fn json_list_field(o: &Option<Vec<serde_json::Value>>) -> (r: Option<Field>)
    ensures
        opt_view(r) == json_list_opt(*o),
{
    match o {
        Some(v) => {
            let c = v.clone();
            assert(c@ =~= v@);
            Some(Field::JsonList(c))
        },
        None => None,
    }
}

} // verus!

//! The little of JSON that the client reads and writes itself: objects whose
//! members are `null`, a truth value or a string. The text is written and read
//! by `serde_json`.

use serde_json::Value;
use vstd::prelude::*;

verus! {

/// A member value that the client reads or writes.
#[derive(Debug)]
pub enum Scalar {
    Null,
    Bool(bool),
    Text(String),
}

/// What a `Scalar` stands for.
pub enum ScalarView {
    Null,
    Bool(bool),
    Text(Seq<char>),
}

impl DeepView for Scalar {
    type V = ScalarView;

    open spec fn deep_view(&self) -> ScalarView {
        match self {
            Scalar::Null => ScalarView::Null,
            Scalar::Bool(b) => ScalarView::Bool(*b),
            Scalar::Text(s) => ScalarView::Text(s@),
        }
    }
}

/// The members of an object to be written, in the order in which they are
/// handed over.
pub type Members = Seq<(Seq<char>, ScalarView)>;

/// The members of an object that was read. A member that is a number, an
/// array or an object has no value here.
pub type ReadMembers = Seq<(Seq<char>, Option<ScalarView>)>;

/// The text of `serde_json::Value::to_string` for the object that is built by
/// inserting `members` one after the other.
pub uninterp spec fn json_compact(members: Seq<(Seq<char>, ScalarView)>) -> Seq<char>;

/// The text of `serde_json::to_string_pretty` for the object that is built by
/// inserting `members` one after the other, or `None` where it reports an
/// error.
pub uninterp spec fn json_pretty(members: Seq<(Seq<char>, ScalarView)>) -> Option<Seq<char>>;

/// The members of the object that `serde_json::from_str` and
/// `Value::pointer` find in `text` at `pointer`, in the order in which
/// `serde_json::Map::iter` hands them out; `None` where the text is not JSON
/// or holds no object there.
pub uninterp spec fn json_members(text: Seq<char>, pointer: Seq<char>) -> Option<
    Seq<(Seq<char>, Option<ScalarView>)>,
>;

/// The objects of the array that `serde_json::from_str` and `Value::pointer`
/// find in `text` at `pointer`, each as its members; `None` where the text is
/// not JSON, holds no array there, or the array holds anything but objects.
pub uninterp spec fn json_rows(text: Seq<char>, pointer: Seq<char>) -> Option<
    Seq<Seq<(Seq<char>, Option<ScalarView>)>>,
>;

/// Writes an object on one line.
///
/// Trusted: builds a `serde_json::Map` from the members and calls
/// `Value::to_string` on the object. The contract names the text.
#[verifier::external_body]
pub(crate) fn write_compact(members: &Vec<(String, Scalar)>) -> (r: String)
    ensures
        r@ == json_compact(members.deep_view()),
{
    let map: serde_json::Map<String, Value> = members.iter().map(
        |(k, v)| (k.clone(), match v {
            Scalar::Null => Value::Null,
            Scalar::Bool(b) => Value::Bool(*b),
            Scalar::Text(s) => Value::String(s.clone()),
        }),
    ).collect();
    Value::Object(map).to_string()
}

/// Writes an object over several lines, indented.
///
/// Trusted: builds a `serde_json::Map` from the members and calls
/// `serde_json::to_string_pretty` on the object. The contract names the text.
#[verifier::external_body]
pub(crate) fn write_pretty(members: &Vec<(String, Scalar)>) -> (r: Option<String>)
    ensures
        r.deep_view() == json_pretty(members.deep_view()),
{
    let map: serde_json::Map<String, Value> = members.iter().map(
        |(k, v)| (k.clone(), match v {
            Scalar::Null => Value::Null,
            Scalar::Bool(b) => Value::Bool(*b),
            Scalar::Text(s) => Value::String(s.clone()),
        }),
    ).collect();
    serde_json::to_string_pretty(&Value::Object(map)).ok()
}

/// Reads the object at `pointer` in `text`.
///
/// Trusted: calls `serde_json::from_str`, `Value::pointer` and
/// `Value::as_object`, and hands out the members as `Map::iter` gives them.
/// The contract names the result.
#[verifier::external_body]
pub(crate) fn read_members(text: &str, pointer: &str) -> (r: Option<
    Vec<(String, Option<Scalar>)>,
>)
    ensures
        r.deep_view() == json_members(text@, pointer@),
{
    let root: Value = serde_json::from_str(text).ok()?;
    let object = root.pointer(pointer)?.as_object()?;
    Some(object.iter().map(|(k, v)| (k.clone(), match v {
        Value::Null => Some(Scalar::Null),
        Value::Bool(b) => Some(Scalar::Bool(*b)),
        Value::String(s) => Some(Scalar::Text(s.clone())),
        Value::Number(_) => None,
        Value::Array(_) => None,
        Value::Object(_) => None,
    })).collect())
}

/// Reads the array of objects at `pointer` in `text`.
///
/// Trusted: calls `serde_json::from_str`, `Value::pointer`, `Value::as_array`
/// and, on each item, `Value::as_object`, and hands out the members of each
/// as `Map::iter` gives them. The contract names the result.
#[verifier::external_body]
pub(crate) fn read_rows(text: &str, pointer: &str) -> (r: Option<
    Vec<Vec<(String, Option<Scalar>)>>,
>)
    ensures
        r.deep_view() == json_rows(text@, pointer@),
{
    let root: Value = serde_json::from_str(text).ok()?;
    let rows = root.pointer(pointer)?.as_array()?;
    rows.iter().map(|row| Some(row.as_object()?.iter().map(|(k, v)| (k.clone(), match v {
        Value::Null => Some(Scalar::Null),
        Value::Bool(b) => Some(Scalar::Bool(*b)),
        Value::String(s) => Some(Scalar::Text(s.clone())),
        Value::Number(_) => None,
        Value::Array(_) => None,
        Value::Object(_) => None,
    })).collect())).collect()
}

/// The value of the first member called `name`, if there is one.
pub open spec fn member(members: ReadMembers, name: Seq<char>) -> Option<Option<ScalarView>>
    decreases members.len(),
{
    if members.len() == 0 {
        None
    } else if members[0].0 == name {
        Some(members[0].1)
    } else {
        member(members.drop_first(), name)
    }
}

/// The string that the member `name` holds: `Ok(None)` where there is no such
/// member or it is `null`, `Err(())` where it is anything else.
pub open spec fn text_member(members: ReadMembers, name: Seq<char>) -> Result<
    Option<Seq<char>>,
    (),
> {
    match member(members, name) {
        None => Ok(None),
        Some(Some(ScalarView::Null)) => Ok(None),
        Some(Some(ScalarView::Text(t))) => Ok(Some(t)),
        Some(_) => Err(()),
    }
}

/// The truth value that the member `name` holds, if there is such a member
/// and it holds one.
pub open spec fn bool_member(members: ReadMembers, name: Seq<char>) -> Option<bool> {
    match member(members, name) {
        Some(Some(ScalarView::Bool(b))) => Some(b),
        _ => None,
    }
}

/// What was read, with what each member that is written stands for.
pub open spec fn as_read(members: Members) -> ReadMembers {
    members.map_values(|m: (Seq<char>, ScalarView)| (m.0, Some(m.1)))
}

/// The index of the first member called `name`.
pub fn find_member(members: &Vec<(String, Option<Scalar>)>, name: &str) -> (r: Option<usize>)
    ensures
        match r {
            Some(i) => i < members.len() && members[i as int].0@ == name@ && member(
                members.deep_view(),
                name@,
            ) == Some(members[i as int].1.deep_view()),
            None => member(members.deep_view(), name@) is None,
        },
{
    let wanted = name.to_owned();
    let ghost all = members.deep_view();
    let mut i: usize = 0;
    assert(all.skip(0) == all);
    while i < members.len()
        invariant
            i <= members.len(),
            all == members.deep_view(),
            wanted@ == name@,
            member(all, name@) == member(all.skip(i as int), name@),
        decreases members.len() - i,
    {
        assert(all.skip(i as int)[0] == all[i as int]);
        assert(all[i as int] == members[i as int].deep_view());
        if members[i].0 == wanted {
            return Some(i);
        }
        assert(all.skip(i as int).drop_first() == all.skip(i + 1));
        i += 1;
    }
    None
}

/// Computes `text_member`.
pub fn get_text(members: &Vec<(String, Option<Scalar>)>, name: &str) -> (r: Result<
    Option<String>,
    (),
>)
    ensures
        match r {
            Ok(t) => text_member(members.deep_view(), name@) == Ok::<Option<Seq<char>>, ()>(
                t.deep_view(),
            ),
            Err(_) => text_member(members.deep_view(), name@) is Err,
        },
{
    match find_member(members, name) {
        None => Ok(None),
        Some(i) => match &members[i].1 {
            Some(Scalar::Null) => Ok(None),
            Some(Scalar::Text(t)) => Ok(Some(t.clone())),
            _ => Err(()),
        },
    }
}

/// Computes `bool_member`.
pub fn get_bool(members: &Vec<(String, Option<Scalar>)>, name: &str) -> (r: Option<bool>)
    ensures
        r == bool_member(members.deep_view(), name@),
{
    match find_member(members, name) {
        None => None,
        Some(i) => match &members[i].1 {
            Some(Scalar::Bool(b)) => Some(*b),
            _ => None,
        },
    }
}

} // verus!

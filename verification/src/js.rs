//! Values as a script sees them.

use vstd::prelude::*;

verus! {

/// A value of a script.
#[derive(Debug)]
pub enum JsValue {
    Bool(bool),
    /// A whole number.
    Int(i64),
    /// A length or an index.
    Size(u64),
    /// A single-precision float, held as its bits.
    Single(u32),
    Text(String),
    Array(Vec<JsValue>),
    Object(Vec<JsField>),
}

/// A property of an object.
#[derive(Debug)]
pub struct JsField {
    pub name: &'static str,
    pub value: JsValue,
}

pub ghost enum JsView {
    Bool(bool),
    Int(int),
    Size(nat),
    Single(u32),
    Text(Seq<char>),
    Array(Seq<JsView>),
    Object(Seq<(Seq<char>, JsView)>),
}

impl JsValue {
    pub open spec fn view(self) -> JsView
        decreases self,
    {
        match self {
            JsValue::Bool(b) => JsView::Bool(b),
            JsValue::Int(n) => JsView::Int(n as int),
            JsValue::Size(n) => JsView::Size(n as nat),
            JsValue::Single(bits) => JsView::Single(bits),
            JsValue::Text(text) => JsView::Text(text@),
            JsValue::Array(items) => JsView::Array(
                Seq::new(
                    items@.len(),
                    |i: int|
                        if 0 <= i < items@.len() {
                            items@[i].view()
                        } else {
                            arbitrary()
                        },
                ),
            ),
            JsValue::Object(fields) => JsView::Object(
                Seq::new(
                    fields@.len(),
                    |i: int|
                        if 0 <= i < fields@.len() {
                            (fields@[i].name@, fields@[i].value.view())
                        } else {
                            arbitrary()
                        },
                ),
            ),
        }
    }
}

/// The values of a list.
pub open spec fn items_view(items: Seq<JsValue>) -> Seq<JsView> {
    items.map_values(|v: JsValue| v.view())
}

/// The properties of an object.
pub open spec fn fields_view(fields: Seq<JsField>) -> Seq<(Seq<char>, JsView)> {
    fields.map_values(|f: JsField| (f.name@, f.value.view()))
}

/// Makes an array.
pub fn array(items: Vec<JsValue>) -> (r: JsValue)
    ensures
        r.view() == JsView::Array(items_view(items@)),
{
    let r = JsValue::Array(items);
    assert(r.view()->Array_0 =~= items_view(items@));
    r
}

/// Makes an object.
pub fn object(fields: Vec<JsField>) -> (r: JsValue)
    ensures
        r.view() == JsView::Object(fields_view(fields@)),
{
    let r = JsValue::Object(fields);
    assert(r.view()->Object_0 =~= fields_view(fields@));
    r
}

/// Adds a value to a list.
pub fn add_item(items: &mut Vec<JsValue>, value: JsValue)
    ensures
        items_view(final(items)@) == items_view(old(items)@).push(value.view()),
{
    items.push(value);
    assert(items_view(items@) =~= items_view(old(items)@).push(value.view()));
}

/// Adds a property to an object.
pub fn set_prop(fields: &mut Vec<JsField>, name: &'static str, value: JsValue)
    ensures
        fields_view(final(fields)@) == fields_view(old(fields)@).push((name@, value.view())),
{
    fields.push(JsField { name, value });
    assert(fields_view(fields@) =~= fields_view(old(fields)@).push((name@, value.view())));
}

/// A whole number.
pub fn number(n: i64) -> (r: JsValue)
    ensures
        r.view() == JsView::Int(n as int),
{
    JsValue::Int(n)
}

/// A fixed text.
pub fn text(s: &str) -> (r: JsValue)
    ensures
        r.view() == JsView::Text(s@),
{
    JsValue::Text(s.to_owned())
}

/// A text.
pub fn string(s: String) -> (r: JsValue)
    ensures
        r.view() == JsView::Text(s@),
{
    JsValue::Text(s)
}

/// A truth value.
pub fn boolean(b: bool) -> (r: JsValue)
    ensures
        r.view() == JsView::Bool(b),
{
    JsValue::Bool(b)
}

/// A single-precision float, from its bits.
pub fn single(bits: u32) -> (r: JsValue)
    ensures
        r.view() == JsView::Single(bits),
{
    JsValue::Single(bits)
}

/// A value is seen as what it holds: numbers, texts and truth values as they are, a list item by
/// item and an object property by property, in their order.
pub proof fn law_seen_as_it_is(
    b: bool,
    n: i64,
    size: u64,
    bits: u32,
    text: String,
    items: Vec<JsValue>,
    fields: Vec<JsField>,
    i: int,
)
    ensures
        JsValue::Bool(b).view() == JsView::Bool(b),
        JsValue::Int(n).view() == JsView::Int(n as int),
        JsValue::Size(size).view() == JsView::Size(size as nat),
        JsValue::Single(bits).view() == JsView::Single(bits),
        JsValue::Text(text).view() == JsView::Text(text@),
        JsValue::Array(items).view() matches JsView::Array(seen) && seen.len() == items@.len() && (
        0 <= i < items@.len() ==> seen[i] == items@[i].view()),
        JsValue::Object(fields).view() matches JsView::Object(seen) && seen.len() == fields@.len()
            && (0 <= i < fields@.len() ==> seen[i].0 == fields@[i].name@ && seen[i].1
            == fields@[i].value.view()),
        items_view(items@).len() == items@.len(),
        0 <= i < items@.len() ==> items_view(items@)[i] == items@[i].view(),
        fields_view(fields@).len() == fields@.len(),
        0 <= i < fields@.len() ==> fields_view(fields@)[i].0 == fields@[i].name@
            && fields_view(fields@)[i].1 == fields@[i].value.view(),
{
}

} // verus!

//! The JSON that request bodies are made of, and its text.
//!
//! A body is built as a [`Json`] value and then rendered. The framing of
//! objects and arrays and the digits of numbers are written here; the text of a
//! string, with its quotes and escapes, is asked of `serde_json`.

use crate::errors::{Error, Kind};
use serde_json::Error as JsonError;
use vstd::prelude::*;
use vstd::string::*;

verus! {

/// A JSON value, as far as a request body holds one.
pub enum Json<'a> {
    Bool(bool),
    Number(i64),
    Text(&'a str),
    /// An array of strings.
    Texts(Vec<&'a str>),
    /// An object: its members in the order in which they are written.
    Object(Vec<Member<'a>>),
}

/// One member of an object.
pub struct Member<'a> {
    pub name: &'a str,
    pub value: Json<'a>,
}

/// What a [`Json`] value stands for.
pub enum JsonModel {
    Bool(bool),
    Number(int),
    Text(Seq<char>),
    Texts(Seq<Seq<char>>),
    Object(Seq<(Seq<char>, JsonModel)>),
}

impl<'a> View for Json<'a> {
    type V = JsonModel;

    open spec fn view(&self) -> JsonModel
        decreases self,
    {
        match self {
            Json::Bool(b) => JsonModel::Bool(*b),
            Json::Number(n) => JsonModel::Number(*n as int),
            Json::Text(s) => JsonModel::Text(s@),
            Json::Texts(items) => JsonModel::Texts(texts(items@)),
            Json::Object(items) => JsonModel::Object(models(items@)),
        }
    }
}

impl<'a> View for Member<'a> {
    type V = (Seq<char>, JsonModel);

    open spec fn view(&self) -> (Seq<char>, JsonModel)
        decreases self,
    {
        (self.name@, self.value@)
    }
}

/// The characters of each borrowed string.
pub open spec fn texts(items: Seq<&str>) -> Seq<Seq<char>> {
    Seq::new(items.len(), |i: int| items[i]@)
}

/// The characters of each owned string.
pub open spec fn views(parts: Seq<String>) -> Seq<Seq<char>> {
    Seq::new(parts.len(), |i: int| parts[i]@)
}

/// What each member stands for.
pub open spec fn models(items: Seq<Member>) -> Seq<(Seq<char>, JsonModel)>
    decreases items,
{
    Seq::new(
        items.len(),
        |i: int|
            if 0 <= i < items.len() {
                items[i]@
            } else {
                (Seq::empty(), JsonModel::Bool(false))
            },
    )
}

/// What `serde_json::to_string` gives for a string: its JSON text, with the
/// quotes and the escapes.
pub uninterp spec fn json_string(s: Seq<char>) -> Seq<char>;

/// The one decimal digit `d`.
pub open spec fn digit(d: nat) -> Seq<char> {
    if d == 0 {
        "0"@
    } else if d == 1 {
        "1"@
    } else if d == 2 {
        "2"@
    } else if d == 3 {
        "3"@
    } else if d == 4 {
        "4"@
    } else if d == 5 {
        "5"@
    } else if d == 6 {
        "6"@
    } else if d == 7 {
        "7"@
    } else if d == 8 {
        "8"@
    } else {
        "9"@
    }
}

/// The decimal digits of `n`, without leading zeros.
pub open spec fn decimal(n: nat) -> Seq<char>
    decreases n,
{
    if n < 10 {
        digit(n)
    } else {
        decimal(n / 10) + digit(n % 10)
    }
}

/// The JSON text of an integer.
pub open spec fn number_text(n: int) -> Seq<char> {
    if n < 0 {
        "-"@ + decimal((-n) as nat)
    } else {
        decimal(n as nat)
    }
}

/// The JSON text of a truth value.
pub open spec fn bool_text(b: bool) -> Seq<char> {
    if b {
        "true"@
    } else {
        "false"@
    }
}

/// The parts with a comma between each two of them.
pub open spec fn joined(parts: Seq<Seq<char>>) -> Seq<char>
    decreases parts.len(),
{
    if parts.len() == 0 {
        Seq::empty()
    } else if parts.len() == 1 {
        parts[0]
    } else {
        joined(parts.drop_last()) + ","@ + parts.last()
    }
}

/// The text of an array whose elements have the texts `parts`.
pub open spec fn array_text(parts: Seq<Seq<char>>) -> Seq<char> {
    "["@ + joined(parts) + "]"@
}

/// The text of an object whose members have the texts `parts`.
pub open spec fn object_text(parts: Seq<Seq<char>>) -> Seq<char> {
    "{"@ + joined(parts) + "}"@
}

/// The text of a member, from the text of its name and that of its value.
pub open spec fn member_text(name: Seq<char>, value: Seq<char>) -> Seq<char> {
    name + ":"@ + value
}

/// The text of each string of an array.
pub open spec fn rendered_texts(items: Seq<Seq<char>>) -> Seq<Seq<char>> {
    Seq::new(items.len(), |i: int| json_string(items[i]))
}

/// The compact JSON text of a value: no white space, the members of an object
/// in their order.
pub open spec fn rendered(json: JsonModel) -> Seq<char>
    decreases json,
{
    match json {
        JsonModel::Bool(b) => bool_text(b),
        JsonModel::Number(n) => number_text(n),
        JsonModel::Text(s) => json_string(s),
        JsonModel::Texts(items) => array_text(rendered_texts(items)),
        JsonModel::Object(members) => object_text(rendered_members(members)),
    }
}

/// The texts of the members of an object: for each, the text of its name, a
/// colon and the text of its value.
pub open spec fn rendered_members(members: Seq<(Seq<char>, JsonModel)>) -> Seq<Seq<char>>
    decreases members,
{
    Seq::new(
        members.len(),
        |i: int|
            if 0 <= i < members.len() {
                member_text(json_string(members[i].0), rendered(members[i].1))
            } else {
                Seq::empty()
            },
    )
}

/// The members `base`, followed by a member `name` if there is a value for
/// it. A member without a value is left out: it is not written as `null`.
pub open spec fn with_optional(
    base: Seq<(Seq<char>, JsonModel)>,
    name: Seq<char>,
    value: Option<JsonModel>,
) -> Seq<(Seq<char>, JsonModel)> {
    match value {
        Some(v) => base.push((name, v)),
        None => base,
    }
}

/// What an optional truth value stands for.
pub open spec fn flag_model(value: Option<bool>) -> Option<JsonModel> {
    match value {
        Some(b) => Some(JsonModel::Bool(b)),
        None => None,
    }
}

/// What an optional integer stands for.
pub open spec fn number_model(value: Option<i64>) -> Option<JsonModel> {
    match value {
        Some(n) => Some(JsonModel::Number(n as int)),
        None => None,
    }
}

/// What an optional list of strings stands for.
pub open spec fn texts_model(value: Option<Vec<&str>>) -> Option<JsonModel> {
    match value {
        Some(items) => Some(JsonModel::Texts(texts(items@))),
        None => None,
    }
}

/// What an optional value stands for.
pub open spec fn json_model(value: Option<Json>) -> Option<JsonModel> {
    match value {
        Some(json) => Some(json@),
        None => None,
    }
}

/// How many members a value adds to an object: one if it is set, none if it
/// is not.
pub open spec fn sent<T>(value: Option<T>) -> nat {
    if value is Some {
        1
    } else {
        0
    }
}

/// Whether an object has a member of this name.
pub open spec fn has_member(members: Seq<(Seq<char>, JsonModel)>, name: Seq<char>) -> bool {
    exists|i: int| 0 <= i < members.len() && (#[trigger] members[i]).0 == name
}

/// A member is sent only for a value that is set. An unset value adds
/// nothing to the object: no member, and so no `null`.
pub proof fn unset_is_omitted(
    base: Seq<(Seq<char>, JsonModel)>,
    name: Seq<char>,
    value: Option<JsonModel>,
    other: Seq<char>,
)
    ensures
        with_optional(base, name, None) == base,
        value is Some ==> with_optional(base, name, value) == base.push((name, value->0)),
        has_member(with_optional(base, name, value), other) <==> has_member(base, other) || (value
            is Some && name == other),
{
    let all = with_optional(base, name, value);
    if has_member(base, other) {
        let i = choose|i: int| 0 <= i < base.len() && (#[trigger] base[i]).0 == other;
        assert(all[i].0 == other);
    }
    if value is Some && name == other {
        assert(all[base.len() as int].0 == other);
    }
}

/// An object of one optional member has the member exactly when its value is
/// set.
pub proof fn one_optional_member(name: Seq<char>, value: Option<JsonModel>)
    ensures
        ({
            let members = with_optional(Seq::empty(), name, value);
            &&& has_member(members, name) <==> value is Some
            &&& members.len() == sent(value)
        }),
{
    unset_is_omitted(Seq::empty(), name, value, name);
}

/// An object of two optional members of different names has each member
/// exactly when its value is set.
pub proof fn two_optional_members(
    first: Seq<char>,
    a: Option<JsonModel>,
    second: Seq<char>,
    b: Option<JsonModel>,
)
    requires
        first != second,
    ensures
        ({
            let members = with_optional(with_optional(Seq::empty(), first, a), second, b);
            &&& has_member(members, first) <==> a is Some
            &&& has_member(members, second) <==> b is Some
            &&& members.len() == sent(a) + sent(b)
        }),
{
    let one = with_optional(Seq::empty(), first, a);
    unset_is_omitted(Seq::empty(), first, a, first);
    unset_is_omitted(one, second, b, first);
    unset_is_omitted(one, second, b, second);
}

/// An object of three optional members of different names has each member
/// exactly when its value is set.
pub proof fn three_optional_members(
    first: Seq<char>,
    a: Option<JsonModel>,
    second: Seq<char>,
    b: Option<JsonModel>,
    third: Seq<char>,
    c: Option<JsonModel>,
)
    requires
        first != second,
        first != third,
        second != third,
    ensures
        ({
            let members = with_optional(
                with_optional(with_optional(Seq::empty(), first, a), second, b),
                third,
                c,
            );
            &&& has_member(members, first) <==> a is Some
            &&& has_member(members, second) <==> b is Some
            &&& has_member(members, third) <==> c is Some
            &&& members.len() == sent(a) + sent(b) + sent(c)
        }),
{
    let one = with_optional(Seq::empty(), first, a);
    let two = with_optional(one, second, b);
    two_optional_members(first, a, second, b);
    unset_is_omitted(two, third, c, first);
    unset_is_omitted(two, third, c, second);
    unset_is_omitted(two, third, c, third);
}

/// An object without members is written as a pair of braces.
pub proof fn empty_object_text()
    ensures
        rendered(JsonModel::Object(Seq::empty())) == "{"@ + "}"@,
{
}

/// `serde_json::to_string`, called on a string slice. The contract says that
/// the call succeeds, and gives the text that comes back the name
/// [`json_string`]: the text depends on the string alone. The call cannot
/// fail on a string, which holds no map and is written into a vector in
/// memory.
#[verifier::external_body]
fn encode_str(s: &str) -> (r: Result<String, JsonError>)
    ensures
        r is Ok,
        r->Ok_0@ == json_string(s@),
{
    serde_json::to_string(s)
}

fn digit_str(d: u64) -> (s: &'static str)
    requires
        d < 10,
    ensures
        s@ == digit(d as nat),
{
    if d == 0 {
        "0"
    } else if d == 1 {
        "1"
    } else if d == 2 {
        "2"
    } else if d == 3 {
        "3"
    } else if d == 4 {
        "4"
    } else if d == 5 {
        "5"
    } else if d == 6 {
        "6"
    } else if d == 7 {
        "7"
    } else if d == 8 {
        "8"
    } else {
        "9"
    }
}

/// Writes `n` in decimal digits.
pub fn decimal_string(n: u64) -> (s: String)
    ensures
        s@ == decimal(n as nat),
    decreases n,
{
    if n < 10 {
        String::from_str(digit_str(n))
    } else {
        decimal_string(n / 10).concat(digit_str(n % 10))
    }
}

/// Writes an integer as JSON.
pub fn number_string(n: i64) -> (s: String)
    ensures
        s@ == number_text(n as int),
{
    if n < 0 {
        let magnitude: u64 = ((-(n + 1)) as u64) + 1;
        String::from_str("-").concat(decimal_string(magnitude).as_str())
    } else {
        decimal_string(n as u64)
    }
}

/// Writes a truth value as JSON.
pub fn bool_string(b: bool) -> (s: String)
    ensures
        s@ == bool_text(b),
{
    if b {
        String::from_str("true")
    } else {
        String::from_str("false")
    }
}

/// Puts a comma between each two of the parts.
pub fn join(parts: &Vec<String>) -> (s: String)
    ensures
        s@ == joined(views(parts@)),
{
    let mut text = String::new();
    let mut i: usize = 0;
    while i < parts.len()
        invariant
            i <= parts.len(),
            text@ == joined(views(parts@).take(i as int)),
        decreases parts.len() - i,
    {
        proof {
            let all = views(parts@);
            let next = all.take(i + 1);
            assert(next.drop_last() =~= all.take(i as int));
        }
        if i > 0 {
            text.append(",");
        }
        text.append(parts[i].as_str());
        i = i + 1;
    }
    proof {
        assert(views(parts@).take(i as int) =~= views(parts@));
    }
    text
}

/// Frames the texts of the elements of an array.
pub fn array_string(parts: &Vec<String>) -> (s: String)
    ensures
        s@ == array_text(views(parts@)),
{
    String::from_str("[").concat(join(parts).as_str()).concat("]")
}

/// Frames the texts of the members of an object.
pub fn object_string(parts: &Vec<String>) -> (s: String)
    ensures
        s@ == object_text(views(parts@)),
{
    String::from_str("{").concat(join(parts).as_str()).concat("}")
}

/// Puts the text of a member together.
pub fn member_string(name: String, value: &str) -> (s: String)
    ensures
        s@ == member_text(name@, value@),
{
    name.concat(":").concat(value)
}

/// Writes each string of an array as JSON.
fn render_texts(items: &Vec<&str>) -> (r: Result<Vec<String>, JsonError>)
    ensures
        r matches Ok(parts) && views(parts@) == rendered_texts(texts(items@)),
{
    let mut parts: Vec<String> = Vec::new();
    let mut i: usize = 0;
    while i < items.len()
        invariant
            i <= items.len(),
            parts@.len() == i,
            forall|k: int| 0 <= k < i ==> (#[trigger] parts@[k])@ == json_string(items@[k]@),
        decreases items.len() - i,
    {
        match encode_str(items[i]) {
            Ok(text) => {
                parts.push(text);
            },
            Err(e) => {
                return Err(e);
            },
        }
        i = i + 1;
    }
    Ok(parts)
}

impl<'a> Member<'a> {
    /// A member that holds a string.
    pub fn text(name: &'a str, value: &'a str) -> (m: Member<'a>)
        ensures
            m@ == (name@, JsonModel::Text(value@)),
    {
        Member { name, value: Json::Text(value) }
    }

    /// A member that holds an integer.
    pub fn number(name: &'a str, value: i64) -> (m: Member<'a>)
        ensures
            m@ == (name@, JsonModel::Number(value as int)),
    {
        Member { name, value: Json::Number(value) }
    }

    /// A member that holds a truth value.
    pub fn flag(name: &'a str, value: bool) -> (m: Member<'a>)
        ensures
            m@ == (name@, JsonModel::Bool(value)),
    {
        Member { name, value: Json::Bool(value) }
    }

    /// A member that holds an array of strings.
    pub fn texts(name: &'a str, value: Vec<&'a str>) -> (m: Member<'a>)
        ensures
            m@ == (name@, JsonModel::Texts(texts(value@))),
    {
        Member { name, value: Json::Texts(value) }
    }

    /// A member that holds another value.
    pub fn new(name: &'a str, value: Json<'a>) -> (m: Member<'a>)
        ensures
            m@ == (name@, value@),
    {
        Member { name, value }
    }
}

impl<'a> Json<'a> {
    /// The object with these members, in this order.
    pub fn object(items: Vec<Member<'a>>) -> (json: Json<'a>)
        ensures
            json@ == JsonModel::Object(models(items@)),
    {
        Json::Object(items)
    }

    /// Writes the value as compact JSON text: the text is [`rendered`] of the
    /// value. The call succeeds on every value.
    pub fn render(&self) -> (r: Result<String, Error>)
        ensures
            r matches Ok(text) && text@ == rendered(self@),
        decreases self,
    {
        match self {
            Json::Bool(b) => Ok(bool_string(*b)),
            Json::Number(n) => Ok(number_string(*n)),
            Json::Text(s) => match encode_str(s) {
                Ok(text) => Ok(text),
                Err(e) => Err(Error::new(Kind::Json(e))),
            },
            Json::Texts(items) => match render_texts(items) {
                Ok(parts) => Ok(array_string(&parts)),
                Err(e) => Err(Error::new(Kind::Json(e))),
            },
            Json::Object(items) => {
                let ghost wanted = rendered_members(models(items@));
                let mut parts: Vec<String> = Vec::new();
                let mut i: usize = 0;
                while i < items.len()
                    invariant
                        i <= items.len(),
                        *self == Json::Object(*items),
                        wanted == rendered_members(models(items@)),
                        wanted.len() == items.len(),
                        parts@.len() == i,
                        forall|k: int| 0 <= k < i ==> wanted[k] == (#[trigger] parts@[k])@,
                    decreases items.len() - i,
                {
                    let member = &items[i];
                    proof {
                        assert(decreases_to!(self => self->Object_0));
                    }
                    let name = match encode_str(member.name) {
                        Ok(text) => text,
                        Err(e) => {
                            return Err(Error::new(Kind::Json(e)));
                        },
                    };
                    let value = match member.value.render() {
                        Ok(text) => text,
                        Err(e) => {
                            return Err(e);
                        },
                    };
                    parts.push(member_string(name, value.as_str()));
                    i = i + 1;
                }
                proof {
                    assert(views(parts@) =~= wanted);
                }
                Ok(object_string(&parts))
            },
        }
    }
}

/// The same strings, borrowed.
pub fn borrowed<'a>(items: &'a Vec<String>) -> (slices: Vec<&'a str>)
    ensures
        texts(slices@) == views(items@),
{
    let mut slices: Vec<&'a str> = Vec::new();
    let mut i: usize = 0;
    while i < items.len()
        invariant
            i <= items.len(),
            slices@.len() == i,
            forall|k: int| 0 <= k < i ==> (#[trigger] slices@[k])@ == items@[k]@,
        decreases items.len() - i,
    {
        slices.push(items[i].as_str());
        i = i + 1;
    }
    slices
}

/// The members of an object that is being put together.
pub struct Members<'a> {
    items: Vec<Member<'a>>,
}

impl<'a> View for Members<'a> {
    type V = Seq<(Seq<char>, JsonModel)>;

    closed spec fn view(&self) -> Seq<(Seq<char>, JsonModel)> {
        models(self.items@)
    }
}

impl<'a> Members<'a> {
    /// No members yet.
    pub fn new() -> (m: Members<'a>)
        ensures
            m@ == Seq::<(Seq<char>, JsonModel)>::empty(),
    {
        Members { items: Vec::new() }
    }

    /// Adds a member after those that are there.
    pub fn push(&mut self, member: Member<'a>)
        ensures
            final(self)@ == old(self)@.push(member@),
    {
        self.items.push(member);
    }

    /// Adds a member that holds a string.
    pub fn text(&mut self, name: &'a str, value: &'a str)
        ensures
            final(self)@ == old(self)@.push((name@, JsonModel::Text(value@))),
    {
        self.push(Member::text(name, value));
    }

    /// Adds a member that holds an integer.
    pub fn number(&mut self, name: &'a str, value: i64)
        ensures
            final(self)@ == old(self)@.push((name@, JsonModel::Number(value as int))),
    {
        self.push(Member::number(name, value));
    }

    /// Adds a member that holds an array of strings.
    pub fn texts(&mut self, name: &'a str, value: Vec<&'a str>)
        ensures
            final(self)@ == old(self)@.push((name@, JsonModel::Texts(texts(value@)))),
    {
        self.push(Member::texts(name, value));
    }

    /// Adds a member if there is a value for it, and nothing otherwise.
    pub fn optional(&mut self, name: &'a str, value: Option<Json<'a>>)
        ensures
            final(self)@ == with_optional(old(self)@, name@, json_model(value)),
    {
        match value {
            Some(json) => self.push(Member::new(name, json)),
            None => {},
        }
    }

    /// Adds a truth value if there is one.
    pub fn optional_flag(&mut self, name: &'a str, value: Option<bool>)
        ensures
            final(self)@ == with_optional(old(self)@, name@, flag_model(value)),
    {
        match value {
            Some(b) => self.push(Member::flag(name, b)),
            None => {},
        }
    }

    /// Adds an integer if there is one.
    pub fn optional_number(&mut self, name: &'a str, value: Option<i64>)
        ensures
            final(self)@ == with_optional(old(self)@, name@, number_model(value)),
    {
        match value {
            Some(n) => self.push(Member::number(name, n)),
            None => {},
        }
    }

    /// Adds an array of strings if there is one.
    pub fn optional_texts(&mut self, name: &'a str, value: Option<Vec<&'a str>>)
        ensures
            final(self)@ == with_optional(old(self)@, name@, texts_model(value)),
    {
        match value {
            Some(items) => self.push(Member::texts(name, items)),
            None => {},
        }
    }

    /// The object that has these members.
    pub fn into_json(self) -> (json: Json<'a>)
        ensures
            json@ == JsonModel::Object(self@),
    {
        Json::Object(self.items)
    }
}

} // verus!

//! A JSON document as plain values: what a response body holds once the
//! transport has read it.

use vstd::prelude::*;

verus! {

/// One JSON value.
///
/// A number is kept only as far as an integer field can use it: an integral
/// number that fits `i64` is an `Integer`, any other number is an
/// `OtherNumber`.
/// An object keeps its members in document order; where a name occurs more
/// than once, the first member of that name is the one that counts.
#[derive(Debug, PartialEq, Eq)]
pub enum Json {
    Null,
    Bool(bool),
    Integer(i64),
    OtherNumber,
    Text(String),
    Array(Vec<Json>),
    Object(Vec<(String, Json)>),
}

/// The value of the first member named `name` at or after position `from`.
pub open spec fn member_from(members: Seq<(String, Json)>, name: Seq<char>, from: int) -> Option<
    Json,
>
    decreases members.len() - from,
{
    if from < 0 || from >= members.len() {
        None
    } else if members[from].0@ == name {
        Some(members[from].1)
    } else {
        member_from(members, name, from + 1)
    }
}

impl Json {
    /// The string that a `Text` holds; nothing for any other value.
    pub open spec fn spec_as_text(self) -> Option<Seq<char>> {
        match self {
            Json::Text(s) => Some(s@),
            _ => None,
        }
    }

    /// The truth value that a `Bool` holds; nothing for any other value.
    pub open spec fn spec_as_flag(self) -> Option<bool> {
        match self {
            Json::Bool(b) => Some(b),
            _ => None,
        }
    }

    /// The number that an `Integer` holds, where it fits `i32`.
    pub open spec fn spec_as_int32(self) -> Option<int> {
        match self {
            Json::Integer(n) => if i32::MIN <= n <= i32::MAX {
                Some(n as int)
            } else {
                None
            },
            _ => None,
        }
    }

    /// The strings of an `Array` whose items are all `Text`, in order.
    pub open spec fn spec_as_texts(self) -> Option<Seq<Seq<char>>> {
        match self {
            Json::Array(items) => if forall|i: int|
                0 <= i < items@.len() ==> (#[trigger] items@[i]).spec_as_text() is Some {
                Some(Seq::new(items@.len(), |i: int| items@[i].spec_as_text().unwrap()))
            } else {
                None
            },
            _ => None,
        }
    }

    /// The member of an `Object` with the given name.
    pub open spec fn spec_get(self, name: Seq<char>) -> Option<Json> {
        match self {
            Json::Object(members) => member_from(members@, name, 0),
            _ => None,
        }
    }

    /// A copy of the string, if this value is a `Text`.
    pub fn as_text(&self) -> (text: Option<String>)
        ensures
            match text {
                Some(s) => self.spec_as_text() == Some(s@),
                None => self.spec_as_text() is None,
            },
    {
        match self {
            Json::Text(s) => Some(s.clone()),
            _ => None,
        }
    }

    /// The truth value, if this value is a `Bool`.
    pub fn as_flag(&self) -> (flag: Option<bool>)
        ensures
            flag == self.spec_as_flag(),
    {
        match self {
            Json::Bool(b) => Some(*b),
            _ => None,
        }
    }

    /// The number, if this value is an `Integer` within the range of `i32`.
    pub fn as_int32(&self) -> (number: Option<i32>)
        ensures
            match number {
                Some(n) => self.spec_as_int32() == Some(n as int),
                None => self.spec_as_int32() is None,
            },
    {
        match self {
            Json::Integer(n) => {
                if -2147483648i64 <= *n && *n <= 2147483647i64 {
                    Some(*n as i32)
                } else {
                    None
                }
            },
            _ => None,
        }
    }

    /// Copies of the strings, if this value is an `Array` of `Text` only.
    pub fn as_texts(&self) -> (texts: Option<Vec<String>>)
        ensures
            match texts {
                Some(v) => self.spec_as_texts() == Some(texts_view(v@)),
                None => self.spec_as_texts() is None,
            },
    {
        match self {
            Json::Array(items) => {
                let mut out: Vec<String> = Vec::new();
                let mut i: usize = 0;
                while i < items.len()
                    invariant
                        *self == Json::Array(*items),
                        i <= items@.len(),
                        out@.len() == i,
                        forall|k: int|
                            0 <= k < i ==> (#[trigger] items@[k]).spec_as_text() == Some(out@[k]@),
                    decreases items@.len() - i,
                {
                    match items[i].as_text() {
                        Some(s) => {
                            out.push(s);
                        },
                        None => {
                            assert(items@[i as int].spec_as_text() is None);
                            return None;
                        },
                    }
                    i += 1;
                }
                assert(texts_view(out@) =~= Seq::new(
                    items@.len(),
                    |k: int| items@[k].spec_as_text().unwrap(),
                ));
                Some(out)
            },
            _ => None,
        }
    }

    /// The member with the given name, if this value is an `Object` that has
    /// one.
    pub fn get(&self, name: &str) -> (member: Option<&Json>)
        ensures
            match member {
                Some(j) => self.spec_get(name@) == Some(*j),
                None => self.spec_get(name@) is None,
            },
    {
        match self {
            Json::Object(members) => {
                let wanted = name.to_owned();
                let mut i: usize = 0;
                while i < members.len()
                    invariant
                        *self == Json::Object(*members),
                        i <= members@.len(),
                        wanted@ == name@,
                        member_from(members@, name@, 0) == member_from(members@, name@, i as int),
                    decreases members@.len() - i,
                {
                    if members[i].0 == wanted {
                        return Some(&members[i].1);
                    }
                    i += 1;
                }
                None
            },
            _ => None,
        }
    }

    /// The `i32` held by the member named `name`.
    pub open spec fn spec_int32_at(self, name: Seq<char>) -> Option<int> {
        match self.spec_get(name) {
            Some(j) => j.spec_as_int32(),
            None => None,
        }
    }

    /// The truth value held by the member named `name`.
    pub open spec fn spec_flag_at(self, name: Seq<char>) -> Option<bool> {
        match self.spec_get(name) {
            Some(j) => j.spec_as_flag(),
            None => None,
        }
    }

    /// The string held by the member named `name`.
    pub open spec fn spec_text_at(self, name: Seq<char>) -> Option<Seq<char>> {
        match self.spec_get(name) {
            Some(j) => j.spec_as_text(),
            None => None,
        }
    }

    /// The strings held by the member named `name`.
    pub open spec fn spec_texts_at(self, name: Seq<char>) -> Option<Seq<Seq<char>>> {
        match self.spec_get(name) {
            Some(j) => j.spec_as_texts(),
            None => None,
        }
    }

    /// The `i32` of the member named `name`: present where this value is an
    /// object with such a member and the member is an integer in range.
    pub fn int32_at(&self, name: &str) -> (number: Option<i32>)
        ensures
            match number {
                Some(n) => self.spec_int32_at(name@) == Some(n as int),
                None => self.spec_int32_at(name@) is None,
            },
    {
        match self.get(name) {
            Some(j) => j.as_int32(),
            None => None,
        }
    }

    /// The truth value of the member named `name`.
    pub fn flag_at(&self, name: &str) -> (flag: Option<bool>)
        ensures
            flag == self.spec_flag_at(name@),
    {
        match self.get(name) {
            Some(j) => j.as_flag(),
            None => None,
        }
    }

    /// A copy of the string of the member named `name`.
    pub fn text_at(&self, name: &str) -> (text: Option<String>)
        ensures
            match text {
                Some(s) => self.spec_text_at(name@) == Some(s@),
                None => self.spec_text_at(name@) is None,
            },
    {
        match self.get(name) {
            Some(j) => j.as_text(),
            None => None,
        }
    }

    /// Copies of the strings of the member named `name`.
    pub fn texts_at(&self, name: &str) -> (texts: Option<Vec<String>>)
        ensures
            match texts {
                Some(v) => self.spec_texts_at(name@) == Some(texts_view(v@)),
                None => self.spec_texts_at(name@) is None,
            },
    {
        match self.get(name) {
            Some(j) => j.as_texts(),
            None => None,
        }
    }
}

/// The strings of a list, each as its characters.
pub open spec fn texts_view(texts: Seq<String>) -> Seq<Seq<char>> {
    Seq::new(texts.len(), |i: int| texts[i]@)
}

/// Behind the place where a member was put in, every search finds what it
/// found one place earlier before.
proof fn lemma_member_from_shifted(
    members: Seq<(String, Json)>,
    at: int,
    extra: (String, Json),
    name: Seq<char>,
    from: int,
)
    requires
        0 <= at <= members.len(),
        at <= from,
    ensures
        member_from(members.insert(at, extra), name, from + 1) == member_from(members, name, from),
    decreases members.len() - from,
{
    if from < members.len() {
        assert(members.insert(at, extra)[from + 1] == members[from]);
        lemma_member_from_shifted(members, at, extra, name, from + 1);
    }
}

/// A member of another name, put anywhere into the list, does not change
/// what a name finds.
pub proof fn lemma_member_skips_other_names(
    members: Seq<(String, Json)>,
    at: int,
    extra: (String, Json),
    name: Seq<char>,
    from: int,
)
    requires
        0 <= from <= at <= members.len(),
        extra.0@ != name,
    ensures
        member_from(members.insert(at, extra), name, from) == member_from(members, name, from),
    decreases at - from,
{
    if from < at {
        assert(members.insert(at, extra)[from] == members[from]);
        lemma_member_skips_other_names(members, at, extra, name, from + 1);
    } else {
        assert(members.insert(at, extra)[at] == extra);
        lemma_member_from_shifted(members, at, extra, name, at);
    }
}

} // verus!

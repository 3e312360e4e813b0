//! The requests that a session hands to the directory, and what comes
//! back, as plain values.
//!
//! Nothing here talks to a server. Whoever owns the connection performs a
//! [`Request`] and reports the outcome as a [`Reply`].

use vstd::prelude::*;

verus! {

/// An attribute of an entry: its name and the values it holds.
#[derive(Clone, Debug, PartialEq, Eq)]
pub struct Attribute {
    pub name: String,
    pub values: Vec<String>,
}

/// An attribute as text: what [`Attribute`] holds, character by character.
pub struct AttributeView {
    pub name: Seq<char>,
    pub values: Seq<Seq<char>>,
}

/// The texts of a sequence of strings, in order.
pub open spec fn texts(strings: Seq<String>) -> Seq<Seq<char>> {
    Seq::new(strings.len(), |i: int| strings[i]@)
}

/// The texts of a sequence of borrowed strings, in order.
pub open spec fn slice_texts(strings: Seq<&str>) -> Seq<Seq<char>> {
    Seq::new(strings.len(), |i: int| strings[i]@)
}

impl View for Attribute {
    type V = AttributeView;

    open spec fn view(&self) -> AttributeView {
        AttributeView { name: self.name@, values: texts(self.values@) }
    }
}

/// The views of a sequence of attributes, in order.
pub open spec fn attribute_views(attrs: Seq<Attribute>) -> Seq<AttributeView> {
    Seq::new(attrs.len(), |i: int| attrs[i]@)
}

/// An attribute with one value.
pub open spec fn single(name: Seq<char>, value: Seq<char>) -> AttributeView {
    AttributeView { name, values: seq![value] }
}

/// The values of a list without repetitions: each value where it first
/// occurs. The values of an attribute are a set, and this is the list that
/// stands for it.
pub open spec fn distinct(values: Seq<Seq<char>>) -> Seq<Seq<char>>
    decreases values.len(),
{
    if values.len() == 0 {
        Seq::empty()
    } else {
        let earlier = distinct(values.drop_last());
        if earlier.contains(values.last()) {
            earlier
        } else {
            earlier.push(values.last())
        }
    }
}

/// What is left of a list holds no value twice, holds the values of the
/// list and no others, and is the list itself where that held no value
/// twice.
pub proof fn lemma_distinct(values: Seq<Seq<char>>)
    ensures
        distinct(values).no_duplicates(),
        forall|v: Seq<char>| distinct(values).contains(v) <==> values.contains(v),
        distinct(values).len() <= values.len(),
        values.no_duplicates() ==> distinct(values) == values,
    decreases values.len(),
{
    if values.len() > 0 {
        let front = values.drop_last();
        let last = values.last();
        lemma_distinct(front);
        assert forall|v: Seq<char>| distinct(values).contains(v) <==> values.contains(v) by {
            if values.contains(v) && v != last {
                let i = choose|i: int| 0 <= i < values.len() && values[i] == v;
                assert(front[i] == v);
            }
            if front.contains(v) {
                let i = choose|i: int| 0 <= i < front.len() && front[i] == v;
                assert(values[i] == v);
            }
            if distinct(front).contains(v) {
                let i = choose|i: int| 0 <= i < distinct(front).len() && distinct(front)[i] == v;
                assert(distinct(values)[i] == v);
            }
            if v == last {
                assert(values[values.len() - 1] == v);
                assert(distinct(values)[distinct(values).len() - 1] == last
                    || distinct(front).contains(last));
            }
        }
        if values.no_duplicates() {
            if front.contains(last) {
                let i = choose|i: int| 0 <= i < front.len() && front[i] == last;
                assert(values[i] == values[values.len() - 1]);
            }
            assert(distinct(values) =~= values);
        }
    }
}

/// Whether `value` is among `values`.
fn holds(values: &Vec<String>, value: &String) -> (found: bool)
    ensures
        found == texts(values@).contains(value@),
{
    let mut i: usize = 0;
    while i < values.len()
        invariant
            i <= values.len(),
            forall|k: int| 0 <= k < i ==> (#[trigger] texts(values@)[k]) != value@,
        decreases values.len() - i,
    {
        if values[i] == *value {
            assert(texts(values@)[i as int] == value@);
            return true;
        }
        i += 1;
    }
    false
}

impl Attribute {
    /// An attribute with one value.
    pub fn single(name: &str, value: &str) -> (attr: Attribute)
        ensures
            attr@ == single(name@, value@),
    {
        let mut values: Vec<String> = Vec::new();
        values.push(String::from_str(value));
        let attr = Attribute { name: String::from_str(name), values };
        assert(texts(attr.values@) =~= seq![value@]);
        attr
    }

    /// An attribute with the values of a list. A value that the list
    /// repeats is taken once, where it first occurs.
    pub fn from_values(name: &str, values: &Vec<&str>) -> (attr: Attribute)
        ensures
            attr@ == (AttributeView { name: name@, values: distinct(slice_texts(values@)) }),
            attr@.values.no_duplicates(),
    {
        let ghost all = slice_texts(values@);
        let mut kept: Vec<String> = Vec::new();
        let mut i: usize = 0;
        while i < values.len()
            invariant
                i <= values.len(),
                all == slice_texts(values@),
                texts(kept@) == distinct(all.take(i as int)),
            decreases values.len() - i,
        {
            let value = String::from_str(values[i]);
            let ghost before = texts(kept@);
            proof {
                let upto = all.take(i + 1);
                assert(upto.drop_last() =~= all.take(i as int));
                assert(upto.last() == value@);
            }
            if !holds(&kept, &value) {
                kept.push(value);
                assert(texts(kept@) =~= before.push(value@));
            }
            i += 1;
        }
        proof {
            assert(all.take(i as int) =~= all);
            lemma_distinct(all);
        }
        Attribute { name: String::from_str(name), values: kept }
    }
}

/// How far below its base a search reaches.
#[derive(Clone, Copy, Debug, PartialEq, Eq, Structural)]
pub enum Scope {
    /// The entry named by the base DN alone.
    Base,
    /// The entries directly below the base DN.
    OneLevel,
    /// The entry named by the base DN and everything below it.
    Subtree,
}

/// One change to an attribute of an existing entry.
#[derive(Clone, Debug, PartialEq, Eq)]
pub enum Modification {
    /// Add the values to the attribute.
    Add(Attribute),
    /// Remove the values from the attribute, or with no values the whole
    /// attribute.
    Delete(Attribute),
    /// Put the values in place of whatever the attribute held.
    Replace(Attribute),
}

/// A change to an attribute, as text.
pub enum ModificationView {
    Add(AttributeView),
    Delete(AttributeView),
    Replace(AttributeView),
}

impl View for Modification {
    type V = ModificationView;

    open spec fn view(&self) -> ModificationView {
        match self {
            Modification::Add(attr) => ModificationView::Add(attr@),
            Modification::Delete(attr) => ModificationView::Delete(attr@),
            Modification::Replace(attr) => ModificationView::Replace(attr@),
        }
    }
}

/// The views of a sequence of modifications, in order.
pub open spec fn modification_views(mods: Seq<Modification>) -> Seq<ModificationView> {
    Seq::new(mods.len(), |i: int| mods[i]@)
}

/// One operation asked of the directory.
#[derive(Clone, Debug, PartialEq, Eq)]
#[allow(inconsistent_fields)]
pub enum Request {
    /// Authenticate as `dn` with a plaintext password.
    Bind { dn: String, password: String },
    /// Create the entry `dn` with these attributes.
    Add { dn: String, attrs: Vec<Attribute> },
    /// Apply the changes to the entry `dn`, in order.
    Modify { dn: String, mods: Vec<Modification> },
    /// Remove the entry `dn`.
    Delete { dn: String },
    /// Find the entries under `base` that match `filter`, and return the
    /// attributes named in `attrs` for each.
    Search { base: String, scope: Scope, filter: String, attrs: Vec<String> },
}

/// A request, as text.
#[allow(inconsistent_fields)]
pub enum RequestView {
    Bind { dn: Seq<char>, password: Seq<char> },
    Add { dn: Seq<char>, attrs: Seq<AttributeView> },
    Modify { dn: Seq<char>, mods: Seq<ModificationView> },
    Delete { dn: Seq<char> },
    Search { base: Seq<char>, scope: Scope, filter: Seq<char>, attrs: Seq<Seq<char>> },
}

impl View for Request {
    type V = RequestView;

    open spec fn view(&self) -> RequestView {
        match self {
            Request::Bind { dn, password } => RequestView::Bind { dn: dn@, password: password@ },
            Request::Add { dn, attrs } => RequestView::Add {
                dn: dn@,
                attrs: attribute_views(attrs@),
            },
            Request::Modify { dn, mods } => RequestView::Modify {
                dn: dn@,
                mods: modification_views(mods@),
            },
            Request::Delete { dn } => RequestView::Delete { dn: dn@ },
            Request::Search { base, scope, filter, attrs } => RequestView::Search {
                base: base@,
                scope: *scope,
                filter: filter@,
                attrs: texts(attrs@),
            },
        }
    }
}

/// An entry that a search found: its DN and the attributes asked for.
#[derive(Clone, Debug, PartialEq, Eq)]
pub struct Entry {
    pub dn: String,
    pub attrs: Vec<Attribute>,
}

/// What came of performing a request.
#[derive(Clone, Debug, PartialEq, Eq)]
pub enum Reply {
    /// The round trip failed before the directory gave a result: the
    /// connection broke, timed out, or the request could not be sent.
    Failed { reason: String },
    /// The directory answered with a result code, its diagnostic text, and
    /// for a search the entries found.
    Result { rc: u32, text: String, entries: Vec<Entry> },
}

/// Why an operation on the directory failed.
#[derive(Clone, Debug, PartialEq, Eq)]
#[allow(inconsistent_fields)]
pub enum LdapError {
    /// No result came back from the directory.
    Connection { reason: String },
    /// The directory refused the credentials of a bind.
    Bind { rc: u32, text: String },
    /// The entry to be added is already there.
    EntryExists,
    /// The entry to be changed or removed is not there.
    NoSuchEntry,
    /// The directory refused the request for another reason, given as it
    /// came.
    Protocol { rc: u32, text: String },
    /// A password was changed, but the bind that should confirm it did
    /// not succeed. The change is not undone. `rc` is the directory's
    /// result code, or `None` when no result came back.
    Verification { rc: Option<u32>, text: String },
}

/// The result code with which the directory reports that the entry to be
/// added exists already.
pub const ENTRY_ALREADY_EXISTS: u32 = 68;

/// The result code with which the directory reports that the entry named
/// does not exist.
pub const NO_SUCH_OBJECT: u32 = 32;

} // verus!

//! Property values as the graph database stores them, property records of
//! nodes and relationships, and parameterised Cypher statements.

use vstd::prelude::*;
use async_session::chrono::NaiveDate;
use crate::text::str_eq;

verus! {

/// A calendar date, carried through unchanged.
#[verifier::external_type_specification]
#[verifier::external_body]
pub struct ExNaiveDate(NaiveDate);

/// A property value of a node or relationship, or a statement parameter.
pub enum PropValue {
    Text(String),
    Integer(i64),
    TextList(Vec<String>),
    Date(NaiveDate),
    /// Any other kind of value (a float, a boolean, a map, ...).
    Other,
}

/// The mathematical value of a `PropValue`.
pub enum PropValueView {
    Text(Seq<char>),
    Integer(int),
    TextList(Seq<Seq<char>>),
    Date(NaiveDate),
    Other,
}

/// The views of a list of strings.
pub open spec fn texts_view(v: Seq<String>) -> Seq<Seq<char>> {
    v.map_values(|s: String| s@)
}

impl View for PropValue {
    type V = PropValueView;

    open spec fn view(&self) -> PropValueView {
        match self {
            PropValue::Text(s) => PropValueView::Text(s@),
            PropValue::Integer(i) => PropValueView::Integer(*i as int),
            PropValue::TextList(v) => PropValueView::TextList(texts_view(v@)),
            PropValue::Date(d) => PropValueView::Date(*d),
            PropValue::Other => PropValueView::Other,
        }
    }
}

/// The value of the first property named `key`.
pub open spec fn prop_lookup(entries: Seq<(Seq<char>, PropValueView)>, key: Seq<char>) -> Option<
    PropValueView,
>
    decreases entries.len(),
{
    if entries.len() == 0 {
        None
    } else if entries[0].0 == key {
        Some(entries[0].1)
    } else {
        prop_lookup(entries.drop_first(), key)
    }
}

/// The value at position `i` is the one found for its key when no earlier
/// property has that key.
pub proof fn lemma_prop_lookup_at(entries: Seq<(Seq<char>, PropValueView)>, i: int)
    requires
        0 <= i < entries.len(),
        forall|j: int| 0 <= j < i ==> entries[j].0 != entries[i].0,
    ensures
        prop_lookup(entries, entries[i].0) == Some(entries[i].1),
    decreases i,
{
    if i > 0 {
        let rest = entries.drop_first();
        assert(rest[i - 1] == entries[i]);
        assert forall|j: int| 0 <= j < i - 1 implies #[trigger] rest[j].0 != rest[i - 1].0 by {
            assert(rest[j] == entries[j + 1]);
        }
        lemma_prop_lookup_at(rest, i - 1);
    }
}

/// The text under `key`, when there is one and it is text.
pub open spec fn text_prop(entries: Seq<(Seq<char>, PropValueView)>, key: Seq<char>) -> Option<
    Seq<char>,
> {
    match prop_lookup(entries, key) {
        Some(PropValueView::Text(s)) => Some(s),
        _ => None,
    }
}

/// The integer under `key`, when there is one and it is an integer.
pub open spec fn integer_prop(entries: Seq<(Seq<char>, PropValueView)>, key: Seq<char>) -> Option<
    int,
> {
    match prop_lookup(entries, key) {
        Some(PropValueView::Integer(i)) => Some(i),
        _ => None,
    }
}

/// The list of texts under `key`, when there is one and it is such a list.
pub open spec fn text_list_prop(entries: Seq<(Seq<char>, PropValueView)>, key: Seq<char>) -> Option<
    Seq<Seq<char>>,
> {
    match prop_lookup(entries, key) {
        Some(PropValueView::TextList(l)) => Some(l),
        _ => None,
    }
}

/// The date under `key`, when there is one and it is a date.
pub open spec fn date_prop(entries: Seq<(Seq<char>, PropValueView)>, key: Seq<char>) -> Option<
    NaiveDate,
> {
    match prop_lookup(entries, key) {
        Some(PropValueView::Date(d)) => Some(d),
        _ => None,
    }
}

/// Named property values: the properties of a node or relationship, or the
/// parameters of a statement.
pub struct Props {
    entries: Vec<(String, PropValue)>,
}

impl View for Props {
    type V = Seq<(Seq<char>, PropValueView)>;

    closed spec fn view(&self) -> Seq<(Seq<char>, PropValueView)> {
        self.entries@.map_values(|e: (String, PropValue)| (e.0@, e.1@))
    }
}

/// A copy of a list of strings.
pub fn copy_texts(v: &Vec<String>) -> (res: Vec<String>)
    ensures
        texts_view(res@) == texts_view(v@),
{
    let mut res: Vec<String> = Vec::new();
    let mut i: usize = 0;
    while i < v.len()
        invariant
            i <= v@.len(),
            texts_view(res@) == texts_view(v@.subrange(0, i as int)),
        decreases v@.len() - i,
    {
        let ghost before = res@;
        let s = v[i].clone();
        assert(s == v@[i as int]);
        res.push(s);
        assert(res@ =~= before.push(s));
        assert(v@.subrange(0, i + 1) =~= v@.subrange(0, i as int).push(v@[i as int]));
        assert(texts_view(res@) =~= texts_view(before).push(s@));
        assert(texts_view(v@.subrange(0, i + 1)) =~= texts_view(v@.subrange(0, i as int)).push(s@));
        i = i + 1;
    }
    assert(v@.subrange(0, v@.len() as int) =~= v@);
    res
}

impl Props {
    /// No properties.
    pub fn new() -> (p: Props)
        ensures
            p@ == Seq::<(Seq<char>, PropValueView)>::empty(),
    {
        let p = Props { entries: Vec::new() };
        assert(p@ =~= Seq::<(Seq<char>, PropValueView)>::empty());
        p
    }

    /// Adds a property at the end.
    pub fn push(&mut self, key: String, value: PropValue)
        ensures
            final(self)@ == old(self)@.push((key@, value@)),
    {
        let ghost k = key@;
        let ghost v = value@;
        self.entries.push((key, value));
        assert(self@ =~= old(self)@.push((k, v)));
    }

    /// The number of properties.
    pub fn len(&self) -> (n: usize)
        ensures
            n == self@.len(),
    {
        self.entries.len()
    }

    /// The name and value of the property at `i`.
    pub fn entry(&self, i: usize) -> (e: (&String, &PropValue))
        requires
            i < self@.len(),
        ensures
            (e.0@, e.1@) == self@[i as int],
    {
        let e = &self.entries[i];
        (&e.0, &e.1)
    }

    /// The first property named `key`.
    fn find(&self, key: &str) -> (res: Option<&PropValue>)
        ensures
            match res {
                Some(v) => prop_lookup(self@, key@) == Some(v@),
                None => prop_lookup(self@, key@) is None,
            },
    {
        let mut i: usize = 0;
        assert(self@.subrange(0, self@.len() as int) =~= self@);
        while i < self.entries.len()
            invariant
                i <= self.entries@.len(),
                self@.len() == self.entries@.len(),
                prop_lookup(self@, key@) == prop_lookup(self@.subrange(i as int, self@.len() as int), key@),
            decreases self.entries@.len() - i,
        {
            let ghost rest = self@.subrange(i as int, self@.len() as int);
            if str_eq(self.entries[i].0.as_str(), key) {
                return Some(&self.entries[i].1);
            }
            assert(rest.drop_first() =~= self@.subrange(i + 1, self@.len() as int));
            i = i + 1;
        }
        None
    }

    /// `get::<String>`: the text under `key`.
    pub fn get_text(&self, key: &str) -> (res: Option<String>)
        ensures
            match res {
                Some(s) => text_prop(self@, key@) == Some(s@),
                None => text_prop(self@, key@) is None,
            },
    {
        match self.find(key) {
            Some(PropValue::Text(s)) => Some(s.clone()),
            _ => None,
        }
    }

    /// `get::<i64>`: the integer under `key`.
    pub fn get_integer(&self, key: &str) -> (res: Option<i64>)
        ensures
            match res {
                Some(i) => integer_prop(self@, key@) == Some(i as int),
                None => integer_prop(self@, key@) is None,
            },
    {
        match self.find(key) {
            Some(PropValue::Integer(i)) => Some(*i),
            _ => None,
        }
    }

    /// `get::<Vec<String>>`: the list of texts under `key`.
    pub fn get_text_list(&self, key: &str) -> (res: Option<Vec<String>>)
        ensures
            match res {
                Some(l) => text_list_prop(self@, key@) == Some(texts_view(l@)),
                None => text_list_prop(self@, key@) is None,
            },
    {
        match self.find(key) {
            Some(PropValue::TextList(l)) => Some(copy_texts(l)),
            _ => None,
        }
    }

    /// `get::<NaiveDate>`: the date under `key`.
    pub fn get_date(&self, key: &str) -> (res: Option<NaiveDate>)
        ensures
            match res {
                Some(d) => date_prop(self@, key@) == Some(d),
                None => date_prop(self@, key@) is None,
            },
    {
        match self.find(key) {
            Some(PropValue::Date(d)) => Some(*d),
            _ => None,
        }
    }
}

/// A Cypher statement with its parameters.
pub struct CypherQuery {
    pub text: String,
    pub params: Props,
}

/// A statement's text and parameters.
pub type QueryView = (Seq<char>, Seq<(Seq<char>, PropValueView)>);

impl View for CypherQuery {
    type V = QueryView;

    open spec fn view(&self) -> QueryView {
        (self.text@, self.params@)
    }
}

/// The views of a list of statements.
pub open spec fn queries_view(v: Seq<CypherQuery>) -> Seq<QueryView> {
    v.map_values(|q: CypherQuery| q@)
}

} // verus!

use vstd::prelude::*;

use crate::text::same_text;

verus! {

/// A parameter value as received from a caller.
#[derive(Debug)]
pub enum ParamValue {
    Bool(bool),
    /// A JSON number that is a whole number in `u64`'s range.
    Unsigned(u64),
    Text(String),
    /// Any other JSON value (null, a negative or fractional number, an array,
    /// an object); no rule of the library reads its content.
    Other,
}

/// The mathematical value of a [`ParamValue`].
pub enum ParamModel {
    Bool(bool),
    Unsigned(u64),
    Text(Seq<char>),
    Other,
}

impl View for ParamValue {
    type V = ParamModel;

    open spec fn view(&self) -> ParamModel {
        match self {
            ParamValue::Bool(b) => ParamModel::Bool(*b),
            ParamValue::Unsigned(n) => ParamModel::Unsigned(*n),
            ParamValue::Text(s) => ParamModel::Text(s@),
            ParamValue::Other => ParamModel::Other,
        }
    }
}

impl ParamValue {
    pub fn duplicate(&self) -> (r: ParamValue)
        ensures
            r@ == self@,
    {
        match self {
            ParamValue::Bool(b) => ParamValue::Bool(*b),
            ParamValue::Unsigned(n) => ParamValue::Unsigned(*n),
            ParamValue::Text(s) => ParamValue::Text(s.clone()),
            ParamValue::Other => ParamValue::Other,
        }
    }
}

/// A named parameter as the model sees it.
pub type Entry = (Seq<char>, ParamModel);

pub open spec fn entry_model(e: (String, ParamValue)) -> Entry {
    (e.0@, e.1@)
}

pub open spec fn entries_model(s: Seq<(String, ParamValue)>) -> Seq<Entry> {
    s.map_values(|e: (String, ParamValue)| entry_model(e))
}

/// `i` is the first position of `s` whose name is `k`.
pub open spec fn first_at(s: Seq<Entry>, k: Seq<char>, i: int) -> bool {
    0 <= i < s.len() && s[i].0 == k && forall|j: int| 0 <= j < i ==> s[j].0 != k
}

/// The value named `k` in `s` (its first occurrence), if any.
pub open spec fn lookup(s: Seq<Entry>, k: Seq<char>) -> Option<ParamModel> {
    if exists|i: int| first_at(s, k, i) {
        Some(s[choose|i: int| first_at(s, k, i)].1)
    } else {
        None
    }
}

pub open spec fn has_key(s: Seq<Entry>, k: Seq<char>) -> bool {
    exists|i: int| 0 <= i < s.len() && s[i].0 == k
}

pub open spec fn keys_distinct(s: Seq<Entry>) -> bool {
    forall|i: int, j: int| 0 <= i < j < s.len() ==> s[i].0 != s[j].0
}

pub proof fn lemma_lookup_at(s: Seq<Entry>, k: Seq<char>, i: int)
    requires
        first_at(s, k, i),
    ensures
        lookup(s, k) == Some(s[i].1),
{
    let c = choose|c: int| first_at(s, k, c);
    assert(first_at(s, k, c));
    if c < i {
        assert(s[c].0 != k);
    } else if i < c {
        assert(s[i].0 != k);
    }
}

pub proof fn lemma_lookup_absent(s: Seq<Entry>, k: Seq<char>)
    requires
        !has_key(s, k),
    ensures
        lookup(s, k) is None,
{
    if exists|i: int| first_at(s, k, i) {
        let i = choose|i: int| first_at(s, k, i);
        assert(0 <= i < s.len() && s[i].0 == k);
    }
}

/// Position of the first entry of `entries` named `key`.
pub fn position_of(entries: &Vec<(String, ParamValue)>, key: &str) -> (r: Option<usize>)
    ensures
        match r {
            Some(i) => first_at(entries_model(entries@), key@, i as int),
            None => !has_key(entries_model(entries@), key@),
        },
{
    let ghost m = entries_model(entries@);
    let mut i: usize = 0;
    while i < entries.len()
        invariant
            m == entries_model(entries@),
            i <= entries.len(),
            forall|j: int| 0 <= j < i ==> m[j].0 != key@,
        decreases entries.len() - i,
    {
        if same_text(entries[i].0.as_str(), key) {
            return Some(i);
        }
        i = i + 1;
    }
    None
}

/// The parameters of one call: names mapped to values, each name once.
#[derive(Debug)]
pub struct CallParams {
    entries: Vec<(String, ParamValue)>,
}

impl View for CallParams {
    type V = Seq<Entry>;

    closed spec fn view(&self) -> Seq<Entry> {
        entries_model(self.entries@)
    }
}

impl CallParams {
    pub open spec fn wf(&self) -> bool {
        keys_distinct(self@)
    }

    pub fn new() -> (r: CallParams)
        ensures
            r.wf(),
            r@ == Seq::<Entry>::empty(),
    {
        let r = CallParams { entries: Vec::new() };
        assert(r@ =~= Seq::<Entry>::empty());
        r
    }

    pub fn len(&self) -> (r: usize)
        ensures
            r == self@.len(),
    {
        self.entries.len()
    }

    /// Sets `name` to `value`: an entry of that name is replaced in place,
    /// otherwise the entry is added at the end.
    pub fn insert(&mut self, name: String, value: ParamValue)
        requires
            old(self).wf(),
        ensures
            final(self).wf(),
            has_key(old(self)@, name@) ==> exists|i: int|
                first_at(old(self)@, name@, i) && final(self)@ == old(self)@.update(
                    i,
                    (name@, value@),
                ),
            !has_key(old(self)@, name@) ==> final(self)@ == old(self)@.push((name@, value@)),
    {
        let ghost before = self@;
        match position_of(&self.entries, name.as_str()) {
            Some(i) => {
                let ghost e = (name@, value@);
                self.entries.set(i, (name, value));
                assert(self@ =~= before.update(i as int, e));
            },
            None => {
                let ghost e = (name@, value@);
                self.entries.push((name, value));
                assert(self@ =~= before.push(e));
            },
        }
    }

    /// The value named `name`, if any.
    pub fn get(&self, name: &str) -> (r: Option<&ParamValue>)
        ensures
            match r {
                Some(v) => lookup(self@, name@) == Some(v@),
                None => lookup(self@, name@) is None,
            },
    {
        match position_of(&self.entries, name) {
            Some(i) => {
                proof {
                    lemma_lookup_at(self@, name@, i as int);
                }
                Some(&self.entries[i].1)
            },
            None => {
                proof {
                    lemma_lookup_absent(self@, name@);
                }
                None
            },
        }
    }

    pub(crate) fn from_entries(entries: Vec<(String, ParamValue)>) -> (r: CallParams)
        requires
            keys_distinct(entries_model(entries@)),
        ensures
            r.wf(),
            r@ == entries_model(entries@),
    {
        CallParams { entries }
    }

    /// The entries, in order.
    pub fn entries(&self) -> (r: &Vec<(String, ParamValue)>)
        ensures
            entries_model(r@) == self@,
    {
        &self.entries
    }
}

} // verus!

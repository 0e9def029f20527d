use vstd::prelude::*;

use crate::error::ErrorKind;
use crate::registry::registry_wf;
use crate::schema::{declared, schema_wf, MethodDescriptor, ParamSpec};
use crate::service::{method_at, planned, registered, resolves, unknown_method_message};
use crate::validate::{
    extras_upto, lemma_failure_persists, missing_message, normalize_upto, slot, validated,
};
use crate::value::{first_at, has_key, keys_distinct, lemma_lookup_absent, lemma_lookup_at, lookup, Entry};

verus! {

/// A call of a method that no registered name matches fails with `NotFound`,
/// whatever its parameters, before any backend call is planned.
pub proof fn lemma_unknown_method_not_found(m: Seq<MethodDescriptor>, method: Seq<char>, input: Seq<Entry>)
    requires
        !registered(m, method),
    ensures
        planned(m, method, input) == Err::<(Seq<char>, Seq<Seq<char>>), (ErrorKind, Seq<char>)>(
            (ErrorKind::NotFound, unknown_method_message(method)),
        ),
{
    if exists|i: int| method_at(m, method, i) {
        let i = choose|i: int| method_at(m, method, i);
        assert(0 <= i < m.len() && resolves(m[i].name@, method));
    }
}

proof fn lemma_normalize_fails_from(schema: Seq<ParamSpec>, input: Seq<Entry>, k: int)
    requires
        0 <= k < schema.len(),
        slot(schema[k], input) is Err,
    ensures
        normalize_upto(schema, input, schema.len() as int) is Err,
        (forall|j: int| 0 <= j < k ==> (#[trigger] slot(schema[j], input)) is Ok) ==> normalize_upto(
            schema,
            input,
            schema.len() as int,
        ) == Err::<Seq<Entry>, Seq<char>>(slot(schema[k], input)->Err_0),
{
    if normalize_upto(schema, input, k) is Err {
        lemma_failure_persists(schema, input, k, schema.len() as int);
        if forall|j: int| 0 <= j < k ==> (#[trigger] slot(schema[j], input)) is Ok {
            lemma_normalize_ok_upto(schema, input, k);
        }
    } else {
        lemma_failure_persists(schema, input, k + 1, schema.len() as int);
    }
}

proof fn lemma_normalize_ok_upto(schema: Seq<ParamSpec>, input: Seq<Entry>, k: int)
    requires
        0 <= k <= schema.len(),
        forall|j: int| 0 <= j < k ==> (#[trigger] slot(schema[j], input)) is Ok,
    ensures
        normalize_upto(schema, input, k) is Ok,
    decreases k,
{
    if k > 0 {
        lemma_normalize_ok_upto(schema, input, k - 1);
        assert(slot(schema[k - 1], input) is Ok);
    }
}

/// A call that leaves out a required parameter of its method fails with
/// `InvalidParams`; where every parameter declared before it is in order, the
/// message names that parameter.
pub proof fn lemma_missing_required_rejected(
    m: Seq<MethodDescriptor>,
    method: Seq<char>,
    input: Seq<Entry>,
    i: int,
    k: int,
)
    requires
        registry_wf(m),
        method_at(m, method, i),
        0 <= k < m[i].params@.len(),
        m[i].params@[k].required,
        !has_key(input, m[i].params@[k].name@),
    ensures
        planned(m, method, input) matches Err((kind, _)) && kind == ErrorKind::InvalidParams,
        (forall|j: int| 0 <= j < k ==> (#[trigger] slot(m[i].params@[j], input)) is Ok) ==> planned(
            m,
            method,
            input,
        ) == Err::<(Seq<char>, Seq<Seq<char>>), (ErrorKind, Seq<char>)>(
            (ErrorKind::InvalidParams, missing_message(m[i].params@[k].name@)),
        ),
{
    let c = choose|c: int| method_at(m, method, c);
    if c < i {
        assert(!resolves(m[c].name@, method));
    } else if i < c {
        assert(!resolves(m[i].name@, method));
    }
    let schema = m[i].params@;
    lemma_lookup_absent(input, schema[k].name@);
    lemma_normalize_fails_from(schema, input, k);
}

proof fn lemma_lookup_push_other(s: Seq<Entry>, e: Entry, key: Seq<char>)
    requires
        e.0 != key,
    ensures
        lookup(s.push(e), key) == lookup(s, key),
{
    let t = s.push(e);
    if exists|i: int| first_at(s, key, i) {
        let i = choose|i: int| first_at(s, key, i);
        lemma_lookup_at(s, key, i);
        assert(first_at(t, key, i));
        lemma_lookup_at(t, key, i);
    } else {
        assert(!has_key(s, key)) by {
            if has_key(s, key) {
                let w = choose|w: int| 0 <= w < s.len() && s[w].0 == key;
                lemma_first_exists(s, key, w);
            }
        }
        lemma_lookup_absent(s, key);
        assert(!has_key(t, key)) by {
            if has_key(t, key) {
                let w = choose|w: int| 0 <= w < t.len() && t[w].0 == key;
                assert(w < s.len());
                assert(s[w].0 == key);
            }
        }
        lemma_lookup_absent(t, key);
    }
}

proof fn lemma_first_exists(s: Seq<Entry>, key: Seq<char>, w: int)
    requires
        0 <= w < s.len(),
        s[w].0 == key,
    ensures
        exists|i: int| first_at(s, key, i),
    decreases w,
{
    if exists|j: int| 0 <= j < w && s[j].0 == key {
        let j = choose|j: int| 0 <= j < w && s[j].0 == key;
        lemma_first_exists(s, key, j);
    } else {
        assert(first_at(s, key, w));
    }
}

proof fn lemma_extras_prefix(schema: Seq<ParamSpec>, s: Seq<Entry>, e: Entry, n: int)
    requires
        0 <= n <= s.len(),
    ensures
        extras_upto(schema, s.push(e), n) == extras_upto(schema, s, n),
    decreases n,
{
    if n > 0 {
        lemma_extras_prefix(schema, s, e, n - 1);
        assert(s.push(e)[n - 1] == s[n - 1]);
    }
}

proof fn lemma_normalize_same(
    schema: Seq<ParamSpec>,
    input: Seq<Entry>,
    k: int,
    e: Entry,
    n: int,
)
    requires
        schema_wf(schema),
        0 <= k < schema.len(),
        schema[k].default_model() == Some(e.1),
        e.0 == schema[k].name@,
        !has_key(input, e.0),
        0 <= n <= schema.len(),
    ensures
        normalize_upto(schema, input.push(e), n) == normalize_upto(schema, input, n),
    decreases n,
{
    if n > 0 {
        lemma_normalize_same(schema, input, k, e, n - 1);
        let j = n - 1;
        let t = input.push(e);
        if j == k {
            assert(schema[k].wf());
            lemma_lookup_absent(input, e.0);
            assert(first_at(t, e.0, input.len() as int));
            lemma_lookup_at(t, e.0, input.len() as int);
        } else {
            assert(schema[j].name@ != schema[k].name@);
            lemma_lookup_push_other(input, e, schema[j].name@);
        }
        assert(slot(schema[j], t) == slot(schema[j], input));
    }
}

/// Filling in the declared default of an absent optional parameter gives the
/// same normalized parameters as passing that value explicitly.
pub proof fn lemma_default_same_as_explicit(schema: Seq<ParamSpec>, input: Seq<Entry>, k: int)
    requires
        schema_wf(schema),
        keys_distinct(input),
        0 <= k < schema.len(),
        schema[k].default_model() is Some,
        !has_key(input, schema[k].name@),
    ensures
        validated(schema, input.push((schema[k].name@, schema[k].default_model()->Some_0)))
            == validated(schema, input),
{
    let e = (schema[k].name@, schema[k].default_model()->Some_0);
    let t = input.push(e);
    lemma_normalize_same(schema, input, k, e, schema.len() as int);
    lemma_extras_prefix(schema, input, e, input.len() as int);
    assert(declared(schema, t[input.len() as int].0));
    assert(extras_upto(schema, t, t.len() as int) == extras_upto(schema, t, input.len() as int));
}

/// The same holds of a whole call: the backend is handed the same operation
/// and arguments whether the default is filled in or passed explicitly.
pub proof fn lemma_default_call_same_as_explicit(
    m: Seq<MethodDescriptor>,
    method: Seq<char>,
    input: Seq<Entry>,
    i: int,
    k: int,
)
    requires
        registry_wf(m),
        method_at(m, method, i),
        keys_distinct(input),
        0 <= k < m[i].params@.len(),
        m[i].params@[k].default_model() is Some,
        !has_key(input, m[i].params@[k].name@),
    ensures
        planned(
            m,
            method,
            input.push((m[i].params@[k].name@, m[i].params@[k].default_model()->Some_0)),
        ) == planned(m, method, input),
{
    let c = choose|c: int| method_at(m, method, c);
    if c < i {
        assert(!resolves(m[c].name@, method));
    } else if i < c {
        assert(!resolves(m[i].name@, method));
    }
    assert(schema_wf(m[i].params@));
    lemma_default_same_as_explicit(m[i].params@, input, k);
}

} // verus!

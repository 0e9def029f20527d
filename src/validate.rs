use vstd::prelude::*;

use crate::error::{CallError, ErrorKind};
use crate::schema::{coerce, declared, schema_wf, type_label, ParamSpec};
use crate::text::{joined, same_text};
use crate::value::{entries_model, keys_distinct, lookup, CallParams, Entry, ParamValue};

verus! {

pub open spec fn missing_message(name: Seq<char>) -> Seq<char> {
    "missing required parameter: "@ + name
}

pub open spec fn type_message(name: Seq<char>, t: crate::schema::ParamType) -> Seq<char> {
    "invalid parameter "@ + name + ": expected "@ + type_label(t)
}

/// What one declared parameter contributes to the normalized parameters:
/// nothing, one entry, or the message of a validation failure.
pub open spec fn slot(p: ParamSpec, input: Seq<Entry>) -> Result<Option<Entry>, Seq<char>> {
    match lookup(input, p.name@) {
        None => if p.required {
            Err(missing_message(p.name@))
        } else {
            match p.default_model() {
                Some(d) => Ok(Some((p.name@, d))),
                None => Ok(None),
            }
        },
        Some(v) => match coerce(p.param_type, v) {
            Some(c) => Ok(Some((p.name@, c))),
            None => Err(type_message(p.name@, p.param_type)),
        },
    }
}

/// The normalized entries of the first `n` declared parameters, in schema
/// order, or the failure of the first of them that fails.
pub open spec fn normalize_upto(schema: Seq<ParamSpec>, input: Seq<Entry>, n: int) -> Result<
    Seq<Entry>,
    Seq<char>,
>
    decreases n,
{
    if n <= 0 {
        Ok(Seq::empty())
    } else {
        match normalize_upto(schema, input, n - 1) {
            Err(m) => Err(m),
            Ok(acc) => match slot(schema[n - 1], input) {
                Err(m) => Err(m),
                Ok(None) => Ok(acc),
                Ok(Some(e)) => Ok(acc.push(e)),
            },
        }
    }
}

/// The entries among the first `n` of `input` whose names the schema does not
/// declare, in input order.
pub open spec fn extras_upto(schema: Seq<ParamSpec>, input: Seq<Entry>, n: int) -> Seq<Entry>
    decreases n,
{
    if n <= 0 {
        Seq::empty()
    } else if declared(schema, input[n - 1].0) {
        extras_upto(schema, input, n - 1)
    } else {
        extras_upto(schema, input, n - 1).push(input[n - 1])
    }
}

/// Validation of `input` against `schema`: the declared parameters in schema
/// order (defaults filled in), then the undeclared ones unchanged; or the
/// message of the first declared parameter that is missing or mistyped.
pub open spec fn validated(schema: Seq<ParamSpec>, input: Seq<Entry>) -> Result<
    Seq<Entry>,
    Seq<char>,
> {
    match normalize_upto(schema, input, schema.len() as int) {
        Err(m) => Err(m),
        Ok(d) => Ok(d + extras_upto(schema, input, input.len() as int)),
    }
}

pub(crate) proof fn lemma_failure_persists(schema: Seq<ParamSpec>, input: Seq<Entry>, n: int, m: int)
    requires
        0 <= n <= m,
        normalize_upto(schema, input, n) is Err,
    ensures
        normalize_upto(schema, input, m) == normalize_upto(schema, input, n),
    decreases m - n,
{
    if n < m {
        lemma_failure_persists(schema, input, n, m - 1);
    }
}

fn is_declared(schema: &Vec<ParamSpec>, key: &str) -> (r: bool)
    ensures
        r == declared(schema@, key@),
{
    let mut i: usize = 0;
    while i < schema.len()
        invariant
            i <= schema.len(),
            forall|j: int| 0 <= j < i ==> schema@[j].name@ != key@,
        decreases schema.len() - i,
    {
        if same_text(schema[i].name.as_str(), key) {
            return true;
        }
        i = i + 1;
    }
    false
}

/// Checks `input` against `schema` and returns the normalized parameters.
pub fn validate(schema: &Vec<ParamSpec>, input: &CallParams) -> (r: Result<CallParams, CallError>)
    requires
        schema_wf(schema@),
        input.wf(),
    ensures
        match validated(schema@, input@) {
            Ok(s) => r matches Ok(out) && out@ == s && out.wf(),
            Err(m) => r matches Err(e) && e.kind == ErrorKind::InvalidParams && e.message@ == m,
        },
{
    let mut out: Vec<(String, ParamValue)> = Vec::new();
    let mut i: usize = 0;
    assert(entries_model(out@) =~= Seq::<Entry>::empty());
    while i < schema.len()
        invariant
            i <= schema.len(),
            schema_wf(schema@),
            normalize_upto(schema@, input@, i as int) == Ok::<Seq<Entry>, Seq<char>>(
                entries_model(out@),
            ),
            keys_distinct(entries_model(out@)),
            forall|k: int|
                0 <= k < out@.len() ==> exists|j: int|
                    0 <= j < i && schema@[j].name@ == (#[trigger] out@[k]).0@,
        decreases schema.len() - i,
    {
        let p = &schema[i];
        let ghost before = out@;
        proof {
            assert(p.wf());
        }
        match input.get(p.name.as_str()) {
            None => {
                if p.required {
                    let msg = joined("missing required parameter: ", p.name.as_str());
                    proof {
                        lemma_failure_persists(schema@, input@, i + 1, schema@.len() as int);
                    }
                    return Err(CallError::new(ErrorKind::InvalidParams, msg));
                }
                match &p.default {
                    Some(d) => {
                        out.push((p.name.clone(), d.duplicate()));
                    },
                    None => {},
                }
            },
            Some(v) => match p.param_type.coerce(v) {
                Some(c) => {
                    out.push((p.name.clone(), c));
                },
                None => {
                    let head = joined("invalid parameter ", p.name.as_str());
                    let mid = joined(head.as_str(), ": expected ");
                    let msg = joined(mid.as_str(), p.param_type.name());
                    proof {
                        lemma_failure_persists(schema@, input@, i + 1, schema@.len() as int);
                    }
                    return Err(CallError::new(ErrorKind::InvalidParams, msg));
                },
            },
        }
        proof {
            assert(entries_model(out@) =~= entries_model(before) || entries_model(out@)
                =~= entries_model(before).push((p.name@, entries_model(out@).last().1)));
            assert forall|k: int| 0 <= k < out@.len() implies exists|j: int|
                0 <= j < i + 1 && schema@[j].name@ == (#[trigger] out@[k]).0@ by {
                if k < before.len() {
                    assert(out@[k] == before[k]);
                } else {
                    assert(schema@[i as int].name@ == out@[k].0@);
                }
            }
            assert forall|a: int, b: int|
                0 <= a < b < entries_model(out@).len() implies entries_model(out@)[a].0
                != entries_model(out@)[b].0 by {
                if b >= before.len() {
                    assert(out@[a] == before[a]);
                    let j = choose|j: int| 0 <= j < i && schema@[j].name@ == (#[trigger] before[a]).0@;
                    assert(schema@[j].name@ != schema@[i as int].name@);
                } else {
                    assert(out@[a] == before[a]);
                    assert(out@[b] == before[b]);
                }
            }
        }
        i = i + 1;
    }
    let ghost declared_part = entries_model(out@);
    let entries = input.entries();
    let mut k: usize = 0;
    while k < entries.len()
        invariant
            k <= entries.len(),
            entries_model(entries@) == input@,
            keys_distinct(input@),
            keys_distinct(declared_part),
            forall|a: int|
                0 <= a < declared_part.len() ==> declared(schema@, (#[trigger] declared_part[a]).0),
            entries_model(out@) == declared_part + extras_upto(schema@, input@, k as int),
            keys_distinct(extras_upto(schema@, input@, k as int)),
            forall|a: int|
                0 <= a < extras_upto(schema@, input@, k as int).len() ==> !declared(
                    schema@,
                    (#[trigger] extras_upto(schema@, input@, k as int)[a]).0,
                ),
            forall|a: int|
                0 <= a < extras_upto(schema@, input@, k as int).len() ==> exists|b: int|
                    0 <= b < k && input@[b].0 == (#[trigger] extras_upto(
                        schema@,
                        input@,
                        k as int,
                    )[a]).0,
        decreases entries.len() - k,
    {
        let ghost before = out@;
        let ghost ex = extras_upto(schema@, input@, k as int);
        proof {
            assert(entries_model(entries@)[k as int] == input@[k as int]);
        }
        if !is_declared(schema, entries[k].0.as_str()) {
            out.push((entries[k].0.clone(), entries[k].1.duplicate()));
            proof {
                assert(entries_model(out@) =~= entries_model(before).push(input@[k as int]));
            }
        }
        proof {
            let ex2 = extras_upto(schema@, input@, k + 1);
            assert forall|a: int| 0 <= a < ex2.len() implies exists|b: int|
                0 <= b < k + 1 && input@[b].0 == (#[trigger] ex2[a]).0 by {
                if a < ex.len() {
                    assert(ex2[a] == ex[a]);
                } else {
                    assert(ex2[a] == input@[k as int]);
                }
            }
            assert forall|a: int, b: int| 0 <= a < b < ex2.len() implies ex2[a].0 != ex2[b].0 by {
                if b >= ex.len() {
                    assert(ex2[a] == ex[a]);
                    let bb = choose|bb: int| 0 <= bb < k && input@[bb].0 == (#[trigger] ex[a]).0;
                }
            }
        }
        k = k + 1;
    }
    proof {
        let all = entries_model(out@);
        let ex = extras_upto(schema@, input@, input@.len() as int);
        assert forall|a: int, b: int| 0 <= a < b < all.len() implies all[a].0 != all[b].0 by {
            let n = declared_part.len() as int;
            if b < n {
                assert(all[a] == declared_part[a]);
                assert(all[b] == declared_part[b]);
            } else if a < n {
                assert(all[a] == declared_part[a]);
                assert(all[b] == ex[b - n]);
            } else {
                assert(all[a] == ex[a - n]);
                assert(all[b] == ex[b - n]);
            }
        }
    }
    Ok(CallParams::from_entries(out))
}

} // verus!

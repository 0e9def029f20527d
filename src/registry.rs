use vstd::prelude::*;

use crate::schema::{schema_wf, MethodDescriptor, ParamSpec, ParamType};
use crate::text::{decimal, decimal_string};
use crate::value::{lookup, CallParams, Entry, ParamModel, ParamValue};

verus! {

/// The character sequences of a sequence of strings.
pub open spec fn texts(v: Seq<String>) -> Seq<Seq<char>> {
    v.map_values(|s: String| s@)
}

pub open spec fn param_is(
    p: ParamSpec,
    name: Seq<char>,
    t: ParamType,
    required: bool,
    default: Option<ParamModel>,
) -> bool {
    &&& p.name@ == name
    &&& p.param_type == t
    &&& p.required == required
    &&& p.default_model() == default
}

pub open spec fn method_is(m: MethodDescriptor, name: Seq<char>, description: Seq<char>, n: int) -> bool {
    &&& m.name@ == name
    &&& m.description@ == description
    &&& m.params@.len() == n
}

/// Every method's parameters are well formed.
pub open spec fn registry_wf(m: Seq<MethodDescriptor>) -> bool {
    forall|i: int| 0 <= i < m.len() ==> schema_wf(#[trigger] m[i].params@)
}

/// `m` is the calendar service's method table.
pub open spec fn is_calendar_registry(m: Seq<MethodDescriptor>) -> bool {
    &&& m.len() == 5
    &&& registry_wf(m)
    &&& method_is(m[0], "calendar.today"@, "Get today's calendar events"@, 0)
    &&& method_is(m[1], "calendar.upcoming"@, "Get upcoming events"@, 2)
    &&& param_is(m[1].params@[0], "days"@, ParamType::Integer, false, Some(ParamModel::Unsigned(7)))
    &&& param_is(m[1].params@[1], "limit"@, ParamType::Integer, false, Some(ParamModel::Unsigned(20)))
    &&& method_is(m[2], "calendar.search"@, "Search events by query"@, 2)
    &&& param_is(m[2].params@[0], "query"@, ParamType::Text, true, None)
    &&& param_is(m[2].params@[1], "days"@, ParamType::Integer, false, Some(ParamModel::Unsigned(30)))
    &&& method_is(m[3], "calendar.create"@, "Create a new event"@, 4)
    &&& param_is(m[3].params@[0], "summary"@, ParamType::Text, true, None)
    &&& param_is(m[3].params@[1], "start"@, ParamType::Text, true, None)
    &&& param_is(m[3].params@[2], "end"@, ParamType::Text, true, None)
    &&& param_is(m[3].params@[3], "description"@, ParamType::Text, false, None)
    &&& method_is(m[4], "calendar.free_slots"@, "Find available time slots"@, 2)
    &&& param_is(m[4].params@[0], "duration_minutes"@, ParamType::Integer, true, None)
    &&& param_is(m[4].params@[1], "days"@, ParamType::Integer, false, Some(ParamModel::Unsigned(7)))
}

/// The backend operation of the method at `index` of the calendar table.
pub open spec fn operation_of(index: int) -> Seq<char> {
    if index == 0 {
        "today"@
    } else if index == 1 {
        "upcoming"@
    } else if index == 2 {
        "search"@
    } else if index == 3 {
        "create"@
    } else {
        "free-slots"@
    }
}

/// The text a value is handed to the backend as.
pub open spec fn rendered(v: ParamModel) -> Seq<char> {
    match v {
        ParamModel::Bool(b) => if b {
            "true"@
        } else {
            "false"@
        },
        ParamModel::Unsigned(n) => decimal(n as nat),
        ParamModel::Text(s) => s,
        ParamModel::Other => Seq::empty(),
    }
}

/// `flag` and the value named `key`, or nothing where there is no such value.
pub open spec fn flag_args(n: Seq<Entry>, key: Seq<char>, flag: Seq<char>) -> Seq<Seq<char>> {
    match lookup(n, key) {
        Some(v) => seq![flag, rendered(v)],
        None => Seq::empty(),
    }
}

/// The value named `key`, or nothing where there is no such value.
pub open spec fn positional_args(n: Seq<Entry>, key: Seq<char>) -> Seq<Seq<char>> {
    match lookup(n, key) {
        Some(v) => seq![rendered(v)],
        None => Seq::empty(),
    }
}

/// The arguments after the operation for the method at `index`, from its
/// normalized parameters `n`.
pub open spec fn args_for(index: int, n: Seq<Entry>) -> Seq<Seq<char>> {
    if index == 0 {
        Seq::empty()
    } else if index == 1 {
        flag_args(n, "days"@, "--days"@) + flag_args(n, "limit"@, "--limit"@)
    } else if index == 2 {
        positional_args(n, "query"@) + flag_args(n, "days"@, "--days"@)
    } else if index == 3 {
        positional_args(n, "summary"@) + positional_args(n, "start"@) + positional_args(n, "end"@)
            + flag_args(n, "description"@, "--description"@)
    } else {
        flag_args(n, "duration_minutes"@, "--duration"@) + flag_args(n, "days"@, "--days"@)
    }
}

fn spec_of(name: &str, param_type: ParamType, required: bool, default: Option<u64>) -> (r: ParamSpec)
    ensures
        r.name@ == name@,
        r.param_type == param_type,
        r.required == required,
        r.default_model() == match default {
            Some(d) => Some(ParamModel::Unsigned(d)),
            None => None::<ParamModel>,
        },
{
    let default = match default {
        Some(d) => Some(ParamValue::Unsigned(d)),
        None => None,
    };
    ParamSpec { name: String::from_str(name), param_type, required, default }
}

fn method(name: &str, description: &str, params: Vec<ParamSpec>) -> (r: MethodDescriptor)
    ensures
        r.name@ == name@,
        r.description@ == description@,
        r.params@ == params@,
{
    MethodDescriptor { name: String::from_str(name), description: String::from_str(description), params }
}

/// The calendar service's methods, in a fixed order.
pub fn calendar_methods() -> (r: Vec<MethodDescriptor>)
    ensures
        is_calendar_registry(r@),
{
    let today = method("calendar.today", "Get today's calendar events", Vec::new());
    let upcoming = method(
        "calendar.upcoming",
        "Get upcoming events",
        vec![
            spec_of("days", ParamType::Integer, false, Some(7)),
            spec_of("limit", ParamType::Integer, false, Some(20)),
        ],
    );
    let search = method(
        "calendar.search",
        "Search events by query",
        vec![
            spec_of("query", ParamType::Text, true, None),
            spec_of("days", ParamType::Integer, false, Some(30)),
        ],
    );
    let create = method(
        "calendar.create",
        "Create a new event",
        vec![
            spec_of("summary", ParamType::Text, true, None),
            spec_of("start", ParamType::Text, true, None),
            spec_of("end", ParamType::Text, true, None),
            spec_of("description", ParamType::Text, false, None),
        ],
    );
    let free_slots = method(
        "calendar.free_slots",
        "Find available time slots",
        vec![
            spec_of("duration_minutes", ParamType::Integer, true, None),
            spec_of("days", ParamType::Integer, false, Some(7)),
        ],
    );
    proof {
        reveal_strlit("days");
        reveal_strlit("limit");
        reveal_strlit("query");
        reveal_strlit("summary");
        reveal_strlit("start");
        reveal_strlit("end");
        reveal_strlit("description");
        reveal_strlit("duration_minutes");
    }
    assert(upcoming.params@[0].wf() && upcoming.params@[1].wf());
    assert(upcoming.params@[0].name@.len() != upcoming.params@[1].name@.len());
    assert(search.params@[0].wf() && search.params@[1].wf());
    assert(search.params@[0].name@.len() != search.params@[1].name@.len());
    assert(free_slots.params@[0].name@.len() != free_slots.params@[1].name@.len());
    assert(create.params@[0].name@.len() != create.params@[1].name@.len());
    assert(create.params@[0].name@[1] != create.params@[2].name@[1]);
    assert(create.params@[0].name@.len() != create.params@[3].name@.len());
    assert(create.params@[1].name@.len() != create.params@[2].name@.len());
    assert(create.params@[1].name@.len() != create.params@[3].name@.len());
    assert(create.params@[2].name@.len() != create.params@[3].name@.len());
    let r = vec![today, upcoming, search, create, free_slots];
    assert(schema_wf(r@[0].params@));
    assert(schema_wf(r@[1].params@));
    assert(schema_wf(r@[2].params@));
    assert(schema_wf(r@[3].params@));
    assert(schema_wf(r@[4].params@));
    r
}

fn rendering(v: &ParamValue) -> (r: String)
    ensures
        r@ == rendered(v@),
{
    match v {
        ParamValue::Bool(b) => {
            if *b {
                String::from_str("true")
            } else {
                String::from_str("false")
            }
        },
        ParamValue::Unsigned(n) => decimal_string(*n),
        ParamValue::Text(s) => s.clone(),
        ParamValue::Other => String::new(),
    }
}

fn push_flag(args: &mut Vec<String>, n: &CallParams, key: &str, flag: &str)
    ensures
        texts(final(args)@) == texts(old(args)@) + flag_args(n@, key@, flag@),
{
    match n.get(key) {
        Some(v) => {
            args.push(String::from_str(flag));
            args.push(rendering(v));
            assert(texts(final(args)@) =~= texts(old(args)@) + flag_args(n@, key@, flag@));
        },
        None => {
            assert(texts(final(args)@) =~= texts(old(args)@) + flag_args(n@, key@, flag@));
        },
    }
}

fn push_positional(args: &mut Vec<String>, n: &CallParams, key: &str)
    ensures
        texts(final(args)@) == texts(old(args)@) + positional_args(n@, key@),
{
    match n.get(key) {
        Some(v) => {
            args.push(rendering(v));
            assert(texts(final(args)@) =~= texts(old(args)@) + positional_args(n@, key@));
        },
        None => {
            assert(texts(final(args)@) =~= texts(old(args)@) + positional_args(n@, key@));
        },
    }
}

/// The operation for the method at `index` of the calendar table.
pub(crate) fn operation_for(index: usize) -> (r: String)
    ensures
        r@ == operation_of(index as int),
{
    if index == 0 {
        String::from_str("today")
    } else if index == 1 {
        String::from_str("upcoming")
    } else if index == 2 {
        String::from_str("search")
    } else if index == 3 {
        String::from_str("create")
    } else {
        String::from_str("free-slots")
    }
}

/// The arguments for the method at `index` of the calendar table.
pub(crate) fn arguments_for(index: usize, n: &CallParams) -> (r: Vec<String>)
    ensures
        texts(r@) == args_for(index as int, n@),
{
    let mut args: Vec<String> = Vec::new();
    assert(texts(args@) =~= Seq::<Seq<char>>::empty());
    if index == 1 {
        push_flag(&mut args, n, "days", "--days");
        push_flag(&mut args, n, "limit", "--limit");
    } else if index == 2 {
        push_positional(&mut args, n, "query");
        push_flag(&mut args, n, "days", "--days");
    } else if index == 3 {
        push_positional(&mut args, n, "summary");
        push_positional(&mut args, n, "start");
        push_positional(&mut args, n, "end");
        push_flag(&mut args, n, "description", "--description");
    } else if index != 0 {
        push_flag(&mut args, n, "duration_minutes", "--duration");
        push_flag(&mut args, n, "days", "--days");
    }
    args
}

} // verus!

use vstd::prelude::*;

use crate::text::{parse_whole, whole_number};
use crate::value::{ParamModel, ParamValue};

verus! {

/// The declared type of a parameter.
#[derive(Clone, Copy, Debug, PartialEq, Eq, Structural)]
pub enum ParamType {
    Integer,
    Text,
    Boolean,
}

/// The name a type is advertised under.
pub open spec fn type_label(t: ParamType) -> Seq<char> {
    match t {
        ParamType::Integer => "integer"@,
        ParamType::Text => "string"@,
        ParamType::Boolean => "boolean"@,
    }
}

/// `v` is a value of type `t`.
pub open spec fn conforms(t: ParamType, v: ParamModel) -> bool {
    match t {
        ParamType::Integer => v is Unsigned,
        ParamType::Text => v is Text,
        ParamType::Boolean => v is Bool,
    }
}

/// `v` taken as a value of type `t`: an integer may also come as a string of
/// decimal digits; `None` where `v` cannot be taken so.
pub open spec fn coerce(t: ParamType, v: ParamModel) -> Option<ParamModel> {
    if conforms(t, v) {
        Some(v)
    } else {
        match (t, v) {
            (ParamType::Integer, ParamModel::Text(s)) => match whole_number(s) {
                Some(n) => Some(ParamModel::Unsigned(n)),
                None => None,
            },
            _ => None,
        }
    }
}

impl ParamType {
    pub fn name(&self) -> (r: &'static str)
        ensures
            r@ == type_label(*self),
    {
        match self {
            ParamType::Integer => "integer",
            ParamType::Text => "string",
            ParamType::Boolean => "boolean",
        }
    }

    /// `v` taken as a value of this type.
    pub fn coerce(&self, v: &ParamValue) -> (r: Option<ParamValue>)
        ensures
            match r {
                Some(c) => coerce(*self, v@) == Some(c@),
                None => coerce(*self, v@) is None,
            },
    {
        match (self, v) {
            (ParamType::Integer, ParamValue::Unsigned(n)) => Some(ParamValue::Unsigned(*n)),
            (ParamType::Integer, ParamValue::Text(s)) => match parse_whole(s.as_str()) {
                Some(n) => Some(ParamValue::Unsigned(n)),
                None => None,
            },
            (ParamType::Text, ParamValue::Text(s)) => Some(ParamValue::Text(s.clone())),
            (ParamType::Boolean, ParamValue::Bool(b)) => Some(ParamValue::Bool(*b)),
            _ => None,
        }
    }
}

/// One declared parameter of a method.
#[derive(Debug)]
pub struct ParamSpec {
    pub name: String,
    pub param_type: ParamType,
    pub required: bool,
    pub default: Option<ParamValue>,
}

impl ParamSpec {
    /// A required parameter has no default, and a default has the declared type.
    pub open spec fn wf(&self) -> bool {
        match self.default {
            Some(d) => !self.required && conforms(self.param_type, d@),
            None => true,
        }
    }

    pub open spec fn default_model(&self) -> Option<ParamModel> {
        match self.default {
            Some(d) => Some(d@),
            None => None,
        }
    }
}

/// A method as advertised: its name, a description and its parameters.
#[derive(Debug)]
pub struct MethodDescriptor {
    pub name: String,
    pub description: String,
    pub params: Vec<ParamSpec>,
}

/// No two parameters of `schema` share a name.
pub open spec fn names_distinct(schema: Seq<ParamSpec>) -> bool {
    forall|i: int, j: int| 0 <= i < j < schema.len() ==> schema[i].name@ != schema[j].name@
}

pub open spec fn schema_wf(schema: Seq<ParamSpec>) -> bool {
    names_distinct(schema) && forall|i: int| 0 <= i < schema.len() ==> (#[trigger] schema[i]).wf()
}

/// Some parameter of `schema` is named `k`.
pub open spec fn declared(schema: Seq<ParamSpec>, k: Seq<char>) -> bool {
    exists|i: int| 0 <= i < schema.len() && schema[i].name@ == k
}

} // verus!

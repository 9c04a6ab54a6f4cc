//! The project entity's payload shapes, as the dispatch core binds them.

use vstd::prelude::*;

use crate::error::ParseError;
use crate::params::FromJson;
use crate::value::{spec_get, JsonVal, Value};

verus! {

/// The payload that creates a project.
pub struct ProjectForCreate {
    pub name: String,
}

impl View for ProjectForCreate {
    type V = Seq<char>;

    open spec fn view(&self) -> Seq<char> {
        self.name@
    }
}

impl FromJson for ProjectForCreate {
    open spec fn spec_from_json(v: JsonVal) -> Option<Seq<char>> {
        match spec_get(v, "name"@) {
            Some(JsonVal::Text(n)) => Some(n),
            _ => None,
        }
    }

    fn from_json(v: &Value) -> (r: Result<Self, ParseError>) {
        match v.get("name") {
            Some(Value::Text(n)) => Ok(ProjectForCreate { name: n.clone() }),
            Some(_) => Err(ParseError::ExpectedText),
            None => Err(ParseError::MissingField(String::from_str("name"))),
        }
    }
}

/// The payload that updates a project: every field optional.
pub struct ProjectForUpdate {
    pub name: Option<String>,
    pub owner_id: Option<i64>,
}

/// Model of a [`ProjectForUpdate`].
pub struct ProjectForUpdateV {
    pub name: Option<Seq<char>>,
    pub owner_id: Option<i64>,
}

impl View for ProjectForUpdate {
    type V = ProjectForUpdateV;

    open spec fn view(&self) -> ProjectForUpdateV {
        ProjectForUpdateV {
            name: match self.name {
                Some(n) => Some(n@),
                None => None,
            },
            owner_id: self.owner_id,
        }
    }
}

impl FromJson for ProjectForUpdate {
    open spec fn spec_from_json(v: JsonVal) -> Option<ProjectForUpdateV> {
        if !(v is Obj) {
            None
        } else {
            let name = match spec_get(v, "name"@) {
                None => Some(None),
                Some(JsonVal::Text(n)) => Some(Some(n)),
                Some(_) => None,
            };
            let owner_id = match spec_get(v, "owner_id"@) {
                None => Some(None),
                Some(JsonVal::Int(i)) => if i64::MIN <= i <= i64::MAX {
                    Some(Some(i as i64))
                } else {
                    None
                },
                Some(_) => None,
            };
            match (name, owner_id) {
                (Some(name), Some(owner_id)) => Some(ProjectForUpdateV { name, owner_id }),
                _ => None,
            }
        }
    }

    fn from_json(v: &Value) -> (r: Result<Self, ParseError>) {
        match v {
            Value::Obj(_) => {},
            _ => {
                return Err(ParseError::ExpectedObject);
            },
        }
        let name: Option<String> = match v.get("name") {
            None => None,
            Some(Value::Text(n)) => Some(n.clone()),
            Some(_) => {
                return Err(ParseError::ExpectedText);
            },
        };
        let owner_id: Option<i64> = match v.get("owner_id") {
            None => None,
            Some(Value::Int(i)) => Some(*i),
            Some(_) => {
                return Err(ParseError::ExpectedInt);
            },
        };
        Ok(ProjectForUpdate { name, owner_id })
    }
}

/// A filter term of a project list call, shape-checked and handed through.
pub struct ProjectFilter {
    pub term: Value,
}

impl View for ProjectFilter {
    type V = JsonVal;

    open spec fn view(&self) -> JsonVal {
        self.term@
    }
}

impl FromJson for ProjectFilter {
    open spec fn spec_from_json(v: JsonVal) -> Option<JsonVal> {
        if v is Obj {
            Some(v)
        } else {
            None
        }
    }

    fn from_json(v: &Value) -> (r: Result<Self, ParseError>) {
        match v {
            Value::Obj(_) => Ok(ProjectFilter { term: v.clone() }),
            _ => Err(ParseError::ExpectedObject),
        }
    }
}

} // verus!

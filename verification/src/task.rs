//! The task entity's payload and result shapes, as the dispatch core binds
//! and writes them.

use vstd::prelude::*;

use crate::error::ParseError;
use crate::ident::{uuid_of, uuid_str_of, uuid_string};
use crate::params::FromJson;
use crate::serialize::IntoJson;
use crate::time_utils::{format_time, rfc3339_str_of, Moment};
use crate::value::{spec_get, JsonVal, Value};

verus! {

/// The payload that creates a task.
pub struct TaskForCreate {
    pub title: String,
    pub project_id: u128,
}

/// Model of a [`TaskForCreate`].
pub struct TaskForCreateV {
    pub title: Seq<char>,
    pub project_id: u128,
}

impl View for TaskForCreate {
    type V = TaskForCreateV;

    open spec fn view(&self) -> TaskForCreateV {
        TaskForCreateV { title: self.title@, project_id: self.project_id }
    }
}

impl FromJson for TaskForCreate {
    open spec fn spec_from_json(v: JsonVal) -> Option<TaskForCreateV> {
        match (spec_get(v, "title"@), spec_get(v, "project_id"@)) {
            (Some(JsonVal::Text(t)), Some(JsonVal::Text(p))) => match uuid_of(p) {
                Some(id) => Some(TaskForCreateV { title: t, project_id: id }),
                None => None,
            },
            _ => None,
        }
    }

    fn from_json(v: &Value) -> (r: Result<Self, ParseError>) {
        let title: String = match v.get("title") {
            Some(Value::Text(t)) => t.clone(),
            Some(_) => {
                return Err(ParseError::ExpectedText);
            },
            None => {
                return Err(ParseError::MissingField(String::from_str("title")));
            },
        };
        let project_id: u128 = match crate::params::take_ident(v, "project_id") {
            Ok(id) => id,
            Err(e) => {
                return Err(e);
            },
        };
        Ok(TaskForCreate { title, project_id })
    }
}

/// The payload that updates a task: every field optional.
pub struct TaskForUpdate {
    pub title: Option<String>,
    pub done: Option<bool>,
}

/// Model of a [`TaskForUpdate`].
pub struct TaskForUpdateV {
    pub title: Option<Seq<char>>,
    pub done: Option<bool>,
}

impl View for TaskForUpdate {
    type V = TaskForUpdateV;

    open spec fn view(&self) -> TaskForUpdateV {
        TaskForUpdateV {
            title: match self.title {
                Some(t) => Some(t@),
                None => None,
            },
            done: self.done,
        }
    }
}

impl FromJson for TaskForUpdate {
    open spec fn spec_from_json(v: JsonVal) -> Option<TaskForUpdateV> {
        if !(v is Obj) {
            None
        } else {
            let title = match spec_get(v, "title"@) {
                None => Some(None),
                Some(JsonVal::Text(t)) => Some(Some(t)),
                Some(_) => None,
            };
            let done = match spec_get(v, "done"@) {
                None => Some(None),
                Some(JsonVal::Bool(b)) => Some(Some(b)),
                Some(_) => None,
            };
            match (title, done) {
                (Some(title), Some(done)) => Some(TaskForUpdateV { title, done }),
                _ => None,
            }
        }
    }

    fn from_json(v: &Value) -> (r: Result<Self, ParseError>) {
        match v {
            Value::Obj(_) => {},
            _ => {
                return Err(ParseError::ExpectedObject);
            },
        }
        let title: Option<String> = match v.get("title") {
            None => None,
            Some(Value::Text(t)) => Some(t.clone()),
            Some(_) => {
                return Err(ParseError::ExpectedText);
            },
        };
        let done: Option<bool> = match v.get("done") {
            None => None,
            Some(Value::Bool(b)) => Some(*b),
            Some(_) => {
                return Err(ParseError::ExpectedBool);
            },
        };
        Ok(TaskForUpdate { title, done })
    }
}

/// A filter term of a task list call. The core checks the shape — a JSON
/// object of column conditions — and hands the term through to the store.
pub struct TaskFilter {
    pub term: Value,
}

impl View for TaskFilter {
    type V = JsonVal;

    open spec fn view(&self) -> JsonVal {
        self.term@
    }
}

impl FromJson for TaskFilter {
    open spec fn spec_from_json(v: JsonVal) -> Option<JsonVal> {
        if v is Obj {
            Some(v)
        } else {
            None
        }
    }

    fn from_json(v: &Value) -> (r: Result<Self, ParseError>) {
        match v {
            Value::Obj(_) => Ok(TaskFilter { term: v.clone() }),
            _ => Err(ParseError::ExpectedObject),
        }
    }
}

/// The task entity, as a handler returns it.
pub struct Task {
    pub id: u128,
    pub project_id: u128,
    pub title: String,
    pub done: bool,
    pub cid: u128,
    pub ctime: Moment,
    pub mid: u128,
    pub mtime: Moment,
}

/// Model of a [`Task`].
pub struct TaskV {
    pub id: u128,
    pub project_id: u128,
    pub title: Seq<char>,
    pub done: bool,
    pub cid: u128,
    pub ctime: Moment,
    pub mid: u128,
    pub mtime: Moment,
}

impl View for Task {
    type V = TaskV;

    open spec fn view(&self) -> TaskV {
        TaskV {
            id: self.id,
            project_id: self.project_id,
            title: self.title@,
            done: self.done,
            cid: self.cid,
            ctime: self.ctime,
            mid: self.mid,
            mtime: self.mtime,
        }
    }
}

/// The document an instant is written as: its RFC 3339 text, or null outside
/// the writable range.
pub open spec fn spec_time_json(m: Moment) -> JsonVal {
    if m.formattable() {
        JsonVal::Text(rfc3339_str_of(m.secs, m.nanos))
    } else {
        JsonVal::Null
    }
}

/// Writes an instant as JSON.
pub fn time_json(m: Moment) -> (r: Value)
    ensures
        r@ == spec_time_json(m),
{
    if m.nanos < 1_000_000_000 && -62167219200 <= m.secs && m.secs <= 253402300799 {
        Value::Text(format_time(m))
    } else {
        Value::Null
    }
}

impl IntoJson for Task {
    open spec fn spec_to_json(t: TaskV) -> JsonVal {
        JsonVal::Obj(
            seq![
                ("id"@, JsonVal::Text(uuid_str_of(t.id))),
                ("project_id"@, JsonVal::Text(uuid_str_of(t.project_id))),
                ("title"@, JsonVal::Text(t.title)),
                ("done"@, JsonVal::Bool(t.done)),
                ("cid"@, JsonVal::Text(uuid_str_of(t.cid))),
                ("ctime"@, spec_time_json(t.ctime)),
                ("mid"@, JsonVal::Text(uuid_str_of(t.mid))),
                ("mtime"@, spec_time_json(t.mtime)),
            ],
        )
    }

    fn to_json(self) -> (r: Value) {
        broadcast use crate::value::lemma_entries_view;

        let mut entries: Vec<(String, Value)> = Vec::new();
        entries.push((String::from_str("id"), Value::Text(uuid_string(self.id))));
        entries.push((String::from_str("project_id"), Value::Text(uuid_string(self.project_id))));
        entries.push((String::from_str("title"), Value::Text(self.title)));
        entries.push((String::from_str("done"), Value::Bool(self.done)));
        entries.push((String::from_str("cid"), Value::Text(uuid_string(self.cid))));
        entries.push((String::from_str("ctime"), time_json(self.ctime)));
        entries.push((String::from_str("mid"), Value::Text(uuid_string(self.mid))));
        entries.push((String::from_str("mtime"), time_json(self.mtime)));
        let r = Value::Obj(entries);
        proof {
            assert(crate::value::entries_view(entries@) =~= Self::spec_to_json(self@)->Obj_0);
        }
        r
    }
}

} // verus!

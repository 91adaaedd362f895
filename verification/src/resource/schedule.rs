//! Schedules: actions the bridge runs at a set local time.

use vstd::prelude::*;

use crate::json::{
    get_opt_bool, get_req_str, jval_get, opt_bool_of, opt_bool_pair, opt_str_pair,
    push_bool_field, push_pair, push_str_field, req_str_of, str_eq, JVal, Json,
};
use crate::resource::{get_opt_datetime, opt_datetime_of, RequestMethod};

verus! {

/// Status of a schedule.
#[derive(Clone, Copy, Debug, Eq, PartialEq)]
pub enum Status {
    /// The schedule is enabled.
    Enabled,
    /// The schedule is disabled.
    Disabled,
}

/// The wire name of a schedule status.
pub open spec fn status_name(s: Status) -> Seq<char> {
    match s {
        Status::Enabled => "enabled"@,
        Status::Disabled => "disabled"@,
    }
}

/// The schedule status a wire name encodes, if any.
pub open spec fn status_of(s: Seq<char>) -> Option<Status> {
    if s == "enabled"@ {
        Some(Status::Enabled)
    } else if s == "disabled"@ {
        Some(Status::Disabled)
    } else {
        None
    }
}

/// The wire name of an HTTP verb.
pub open spec fn method_name(m: RequestMethod) -> Seq<char> {
    match m {
        RequestMethod::Put => "PUT"@,
        RequestMethod::Post => "POST"@,
        RequestMethod::Get => "GET"@,
        RequestMethod::Delete => "DELETE"@,
    }
}

/// The HTTP verb a wire name encodes, if any.
pub open spec fn method_of(s: Seq<char>) -> Option<RequestMethod> {
    if s == "PUT"@ {
        Some(RequestMethod::Put)
    } else if s == "POST"@ {
        Some(RequestMethod::Post)
    } else if s == "GET"@ {
        Some(RequestMethod::Get)
    } else if s == "DELETE"@ {
        Some(RequestMethod::Delete)
    } else {
        None
    }
}

/// An action the bridge performs when a scheduled event occurs: one request
/// against its own API.
#[derive(Debug, PartialEq)]
pub struct Action {
    /// Address the request is sent to.
    pub address: String,
    /// The HTTP verb of the request.
    pub request_method: RequestMethod,
    /// The body of the request.
    pub body: Option<Json>,
}

/// The model of a scheduled action.
pub struct ActionView {
    /// Address the request is sent to.
    pub address: Seq<char>,
    /// The HTTP verb of the request.
    pub request_method: RequestMethod,
    /// The body of the request.
    pub body: Option<JVal>,
}

impl View for Action {
    type V = ActionView;

    open spec fn view(&self) -> ActionView {
        ActionView {
            address: self.address@,
            request_method: self.request_method,
            body: match self.body {
                Some(b) => Some(b@),
                None => None,
            },
        }
    }
}

/// The scheduled action described by a JSON value: an address, a known HTTP
/// verb, and an arbitrary optional body.
pub open spec fn action_of(v: JVal) -> Option<ActionView> {
    match (req_str_of(v, "address"@), req_str_of(v, "method"@)) {
        (Some(address), Some(ms)) => match method_of(ms) {
            Some(request_method) => {
                let body = match jval_get(v, "body"@) {
                    None => None,
                    Some(JVal::Null) => None,
                    Some(b) => Some(b),
                };
                Some(ActionView { address, request_method, body })
            },
            None => None,
        },
        _ => None,
    }
}

/// The wire-format pairs of a scheduled action.
pub open spec fn action_pairs(a: ActionView) -> Seq<(Seq<char>, JVal)> {
    seq![("address"@, JVal::Str(a.address)), ("method"@, JVal::Str(method_name(a.request_method)))]
        + (match a.body {
        Some(b) => seq![("body"@, b)],
        None => seq![],
    })
}

impl Action {
    /// Decodes a scheduled action from its JSON body.
    pub fn from_json(j: &Json) -> (r: Result<Action, crate::Error>)
        ensures
            match action_of(j@) {
                Some(av) => r is Ok && r->Ok_0@ == av,
                None => r == Err::<Action, crate::Error>(crate::Error::Decode),
            },
    {
        let address = match get_req_str(j, "address") {
            Ok(s) => s,
            Err(e) => {
                return Err(e);
            },
        };
        let method_str = match get_req_str(j, "method") {
            Ok(s) => s,
            Err(e) => {
                return Err(e);
            },
        };
        let request_method = if str_eq(method_str.as_str(), "PUT") {
            RequestMethod::Put
        } else if str_eq(method_str.as_str(), "POST") {
            RequestMethod::Post
        } else if str_eq(method_str.as_str(), "GET") {
            RequestMethod::Get
        } else if str_eq(method_str.as_str(), "DELETE") {
            RequestMethod::Delete
        } else {
            return Err(crate::Error::Decode);
        };
        let body = match j.get("body") {
            None => None,
            Some(Json::Null) => None,
            Some(b) => Some(b.deep_clone()),
        };
        Ok(Action { address, request_method, body })
    }

    /// Serializes this action into the bridge's wire format.
    pub fn to_json(&self) -> (r: Json)
        ensures
            r@ == JVal::Obj(action_pairs(self@)),
    {
        let mut pairs: Vec<(String, Json)> = Vec::new();
        push_pair(&mut pairs, "address", Json::Str(self.address.clone()));
        let mname = match self.request_method {
            RequestMethod::Put => "PUT",
            RequestMethod::Post => "POST",
            RequestMethod::Get => "GET",
            RequestMethod::Delete => "DELETE",
        };
        push_pair(&mut pairs, "method", Json::Str(String::from_str(mname)));
        if let Some(b) = &self.body {
            push_pair(&mut pairs, "body", b.deep_clone());
        }
        proof {
            assert(Json::model_pairs(pairs@) =~~= action_pairs(self@));
        }
        Json::Obj(pairs)
    }
}

/// Schedule of a resource.
#[derive(Debug, PartialEq)]
pub struct Schedule {
    /// Identifier of the schedule.
    pub id: String,
    /// Name of the schedule.
    pub name: String,
    /// Description of the schedule.
    pub description: String,
    /// Action to execute when the scheduled event occurs.
    pub action: Action,
    /// Time when the scheduled event will occur.
    pub local_time: String,
    /// UTC time that the timer was started. Only provided for timers.
    pub start_time: Option<String>,
    /// Status of the schedule.
    pub status: Status,
    /// Whether the schedule will be removed after it expires.
    pub auto_delete: Option<bool>,
}

/// The model of a schedule.
pub struct ScheduleView {
    /// Identifier of the schedule.
    pub id: Seq<char>,
    /// Name of the schedule.
    pub name: Seq<char>,
    /// Description of the schedule.
    pub description: Seq<char>,
    /// Action to execute when the scheduled event occurs.
    pub action: ActionView,
    /// Time when the scheduled event will occur.
    pub local_time: Seq<char>,
    /// UTC time that the timer was started. Only provided for timers.
    pub start_time: Option<Seq<char>>,
    /// Status of the schedule.
    pub status: Status,
    /// Whether the schedule will be removed after it expires.
    pub auto_delete: Option<bool>,
}

impl View for Schedule {
    type V = ScheduleView;

    open spec fn view(&self) -> ScheduleView {
        ScheduleView {
            id: self.id@,
            name: self.name@,
            description: self.description@,
            action: self.action@,
            local_time: self.local_time@,
            start_time: match self.start_time {
                Some(s) => Some(s@),
                None => None,
            },
            status: self.status,
            auto_delete: self.auto_delete,
        }
    }
}

/// The schedule described by a JSON value, if it carries every required
/// attribute in the right shape. The identifier is not part of the body; the
/// described value carries an empty one.
pub open spec fn schedule_of(v: JVal) -> Option<ScheduleView> {
    if req_str_of(v, "name"@) is None {
        None
    } else if req_str_of(v, "description"@) is None {
        None
    } else if !(jval_get(v, "command"@) is Some && action_of(jval_get(v, "command"@)->Some_0)
        is Some) {
        None
    } else if req_str_of(v, "localtime"@) is None {
        None
    } else if opt_datetime_of(v, "starttime"@) is None {
        None
    } else if !(req_str_of(v, "status"@) is Some && status_of(req_str_of(v, "status"@)->Some_0)
        is Some) {
        None
    } else if opt_bool_of(v, "autodelete"@) is None {
        None
    } else {
        Some(
            ScheduleView {
                id: Seq::empty(),
                name: req_str_of(v, "name"@)->Some_0,
                description: req_str_of(v, "description"@)->Some_0,
                action: action_of(jval_get(v, "command"@)->Some_0)->Some_0,
                local_time: req_str_of(v, "localtime"@)->Some_0,
                start_time: opt_datetime_of(v, "starttime"@)->Some_0,
                status: status_of(req_str_of(v, "status"@)->Some_0)->Some_0,
                auto_delete: opt_bool_of(v, "autodelete"@)->Some_0,
            },
        )
    }
}

impl Schedule {
    /// Decodes a schedule from its JSON body. The body never carries the
    /// identifier; the decoded value holds an empty one until it is injected.
    pub fn from_json(j: &Json) -> (r: Result<Schedule, crate::Error>)
        ensures
            match schedule_of(j@) {
                Some(sv) => r is Ok && r->Ok_0@ == sv,
                None => r == Err::<Schedule, crate::Error>(crate::Error::Decode),
            },
    {
        let name = match get_req_str(j, "name") {
            Ok(s) => s,
            Err(e) => {
                return Err(e);
            },
        };
        let description = match get_req_str(j, "description") {
            Ok(s) => s,
            Err(e) => {
                return Err(e);
            },
        };
        let action = match j.get("command") {
            Some(av) => match Action::from_json(av) {
                Ok(a) => a,
                Err(e) => {
                    return Err(e);
                },
            },
            None => {
                return Err(crate::Error::Decode);
            },
        };
        let local_time = match get_req_str(j, "localtime") {
            Ok(s) => s,
            Err(e) => {
                return Err(e);
            },
        };
        let start_time = match get_opt_datetime(j, "starttime") {
            Ok(x) => x,
            Err(e) => {
                return Err(e);
            },
        };
        let status_str = match get_req_str(j, "status") {
            Ok(s) => s,
            Err(e) => {
                return Err(e);
            },
        };
        let status = if str_eq(status_str.as_str(), "enabled") {
            Status::Enabled
        } else if str_eq(status_str.as_str(), "disabled") {
            Status::Disabled
        } else {
            return Err(crate::Error::Decode);
        };
        let auto_delete = match get_opt_bool(j, "autodelete") {
            Ok(x) => x,
            Err(e) => {
                return Err(e);
            },
        };
        let r = Schedule {
            id: String::new(),
            name,
            description,
            action,
            local_time,
            start_time,
            status,
            auto_delete,
        };
        proof {
            assert(r@.id =~= Seq::<char>::empty());
        }
        Ok(r)
    }

    /// Injects the bridge-assigned identifier into a decoded schedule.
    pub fn with_id(self, id: String) -> (r: Self)
        ensures
            r@ == (ScheduleView { id: id@, ..self@ }),
    {
        Schedule { id, ..self }
    }
}

/// The wire-format pairs of one optional schedule status field.
pub open spec fn opt_status_pair(key: Seq<char>, v: Option<Status>) -> Seq<(Seq<char>, JVal)> {
    match v {
        Some(s) => seq![(key, JVal::Str(status_name(s)))],
        None => seq![],
    }
}

/// Appends the wire-format pairs of one optional schedule status field.
fn push_status_field(pairs: &mut Vec<(String, Json)>, key: &str, v: &Option<Status>)
    ensures
        Json::model_pairs(final (pairs)@) == Json::model_pairs(old(pairs)@) + opt_status_pair(
            key@,
            *v,
        ),
{
    if let Some(s) = v {
        let name = match s {
            Status::Enabled => "enabled",
            Status::Disabled => "disabled",
        };
        push_pair(pairs, key, Json::Str(String::from_str(name)));
    } else {
        proof {
            assert(Json::model_pairs(pairs@) + opt_status_pair(key@, *v) =~= Json::model_pairs(
                pairs@,
            ));
        }
    }
}

/// Struct for creating a schedule.
#[derive(Debug, PartialEq)]
pub struct Creator {
    /// Sets the name of the schedule.
    pub name: Option<String>,
    /// Sets the description of the schedule.
    pub description: Option<String>,
    /// Sets the action of the schedule.
    pub action: Action,
    /// Sets the local time of the schedule.
    pub local_time: String,
    /// Sets the status of the schedule.
    pub status: Option<Status>,
    /// Sets whether the schedule will be removed after it expires.
    pub auto_delete: Option<bool>,
    /// Sets whether the resource is automatically deleted when not referenced
    /// anymore.
    pub recycle: Option<bool>,
}

/// The view of an optional owned string.
pub open spec fn opt_str_view(s: Option<String>) -> Option<Seq<char>> {
    match s {
        Some(x) => Some(x@),
        None => None,
    }
}

/// The wire-format pairs of a schedule creator: required fields always,
/// optional fields only when set, in declaration order.
pub open spec fn creator_pairs(c: Creator) -> Seq<(Seq<char>, JVal)> {
    opt_str_pair("name"@, opt_str_view(c.name)) + opt_str_pair(
        "description"@,
        opt_str_view(c.description),
    ) + seq![("action"@, JVal::Obj(action_pairs(c.action@)))] + seq![
        ("local_time"@, JVal::Str(c.local_time@)),
    ] + opt_status_pair("status"@, c.status) + opt_bool_pair("auto_delete"@, c.auto_delete)
        + opt_bool_pair("recycle"@, c.recycle)
}

impl Creator {
    /// Creates a new [`Creator`].
    pub fn new(action: Action, local_time: String) -> (r: Self)
        ensures
            r.action == action,
            r.local_time == local_time,
            r.name is None,
            r.description is None,
            r.status is None,
            r.auto_delete is None,
            r.recycle is None,
    {
        Self {
            name: None,
            description: None,
            action,
            local_time,
            status: None,
            auto_delete: None,
            recycle: None,
        }
    }

    /// Sets the name of the schedule.
    pub fn with_name(self, value: String) -> (r: Self)
        ensures
            r == (Creator { name: Some(value), ..self }),
    {
        Creator { name: Some(value), ..self }
    }

    /// Sets the description of the schedule.
    pub fn with_description(self, value: String) -> (r: Self)
        ensures
            r == (Creator { description: Some(value), ..self }),
    {
        Creator { description: Some(value), ..self }
    }

    /// Sets the status of the schedule.
    pub fn with_status(self, value: Status) -> (r: Self)
        ensures
            r == (Creator { status: Some(value), ..self }),
    {
        Creator { status: Some(value), ..self }
    }

    /// Sets whether the schedule will be removed after it expires.
    pub fn with_auto_delete(self, value: bool) -> (r: Self)
        ensures
            r == (Creator { auto_delete: Some(value), ..self }),
    {
        Creator { auto_delete: Some(value), ..self }
    }

    /// Sets whether the resource is automatically deleted when not referenced
    /// anymore.
    pub fn with_recycle(self, value: bool) -> (r: Self)
        ensures
            r == (Creator { recycle: Some(value), ..self }),
    {
        Creator { recycle: Some(value), ..self }
    }

    /// Serializes this creator into the bridge's flat wire format.
    pub fn to_json(&self) -> (r: Json)
        ensures
            r@ == JVal::Obj(creator_pairs(*self)),
    {
        let mut pairs: Vec<(String, Json)> = Vec::new();
        push_str_field(&mut pairs, "name", &self.name);
        push_str_field(&mut pairs, "description", &self.description);
        push_pair(&mut pairs, "action", self.action.to_json());
        push_pair(&mut pairs, "local_time", Json::Str(self.local_time.clone()));
        push_status_field(&mut pairs, "status", &self.status);
        push_bool_field(&mut pairs, "auto_delete", &self.auto_delete);
        push_bool_field(&mut pairs, "recycle", &self.recycle);
        proof {
            assert(Seq::<(Seq<char>, JVal)>::empty() + opt_str_pair(
                "name"@,
                opt_str_view(self.name),
            ) =~= opt_str_pair("name"@, opt_str_view(self.name)));
            assert(Json::model_pairs(pairs@) =~~= creator_pairs(*self));
        }
        Json::Obj(pairs)
    }
}

/// Struct for modifying attributes of a schedule.
#[derive(Debug, Default, PartialEq)]
pub struct Modifier {
    /// Sets the name of the schedule.
    pub name: Option<String>,
    /// Sets the description of the schedule.
    pub description: Option<String>,
    /// Sets the action of the schedule.
    pub action: Option<Action>,
    /// Sets the local time of the schedule.
    pub local_time: Option<String>,
    /// Sets the status of the schedule.
    pub status: Option<Status>,
    /// Sets whether the schedule is removed after it expires.
    pub auto_delete: Option<bool>,
}

/// The wire-format pairs of an optional scheduled-action field.
pub open spec fn opt_action_pair(key: Seq<char>, v: Option<ActionView>) -> Seq<(Seq<char>, JVal)> {
    match v {
        Some(a) => seq![(key, JVal::Obj(action_pairs(a)))],
        None => seq![],
    }
}

/// The view of an optional scheduled action.
pub open spec fn opt_action_view(a: Option<Action>) -> Option<ActionView> {
    match a {
        Some(x) => Some(x@),
        None => None,
    }
}

/// The wire-format pairs of a schedule modifier: only set fields, in
/// declaration order.
pub open spec fn modifier_pairs(m: Modifier) -> Seq<(Seq<char>, JVal)> {
    opt_str_pair("name"@, opt_str_view(m.name)) + opt_str_pair(
        "description"@,
        opt_str_view(m.description),
    ) + opt_action_pair("action"@, opt_action_view(m.action)) + opt_str_pair(
        "local_time"@,
        opt_str_view(m.local_time),
    ) + opt_status_pair("status"@, m.status) + opt_bool_pair("autodelete"@, m.auto_delete)
}

impl Modifier {
    /// Creates a new [`Modifier`] with every field unset.
    pub fn new() -> (r: Self)
        ensures
            r.name is None,
            r.description is None,
            r.action is None,
            r.local_time is None,
            r.status is None,
            r.auto_delete is None,
    {
        Self {
            name: None,
            description: None,
            action: None,
            local_time: None,
            status: None,
            auto_delete: None,
        }
    }

    /// Sets the name of the schedule.
    pub fn with_name(self, value: String) -> (r: Self)
        ensures
            r == (Modifier { name: Some(value), ..self }),
    {
        Modifier { name: Some(value), ..self }
    }

    /// Sets the description of the schedule.
    pub fn with_description(self, value: String) -> (r: Self)
        ensures
            r == (Modifier { description: Some(value), ..self }),
    {
        Modifier { description: Some(value), ..self }
    }

    /// Sets the action of the schedule.
    pub fn with_action(self, value: Action) -> (r: Self)
        ensures
            r == (Modifier { action: Some(value), ..self }),
    {
        Modifier { action: Some(value), ..self }
    }

    /// Sets the local time of the schedule.
    pub fn with_local_time(self, value: String) -> (r: Self)
        ensures
            r == (Modifier { local_time: Some(value), ..self }),
    {
        Modifier { local_time: Some(value), ..self }
    }

    /// Sets the status of the schedule.
    pub fn with_status(self, value: Status) -> (r: Self)
        ensures
            r == (Modifier { status: Some(value), ..self }),
    {
        Modifier { status: Some(value), ..self }
    }

    /// Sets whether the schedule is removed after it expires.
    pub fn with_auto_delete(self, value: bool) -> (r: Self)
        ensures
            r == (Modifier { auto_delete: Some(value), ..self }),
    {
        Modifier { auto_delete: Some(value), ..self }
    }

    /// Serializes this modifier into the bridge's flat wire format: only set
    /// fields are emitted.
    pub fn to_json(&self) -> (r: Json)
        ensures
            r@ == JVal::Obj(modifier_pairs(*self)),
    {
        let mut pairs: Vec<(String, Json)> = Vec::new();
        push_str_field(&mut pairs, "name", &self.name);
        push_str_field(&mut pairs, "description", &self.description);
        if let Some(a) = &self.action {
            push_pair(&mut pairs, "action", a.to_json());
        }
        push_str_field(&mut pairs, "local_time", &self.local_time);
        push_status_field(&mut pairs, "status", &self.status);
        push_bool_field(&mut pairs, "autodelete", &self.auto_delete);
        proof {
            assert(Seq::<(Seq<char>, JVal)>::empty() + opt_str_pair(
                "name"@,
                opt_str_view(self.name),
            ) =~= opt_str_pair("name"@, opt_str_view(self.name)));
            assert(Json::model_pairs(pairs@) =~~= modifier_pairs(*self));
        }
        Json::Obj(pairs)
    }
}


/// A schedule modifier with every field unset serializes to an empty
/// object.
pub proof fn lemma_modifier_unset_empty(m: Modifier)
    requires
        m.name is None,
        m.description is None,
        m.action is None,
        m.local_time is None,
        m.status is None,
        m.auto_delete is None,
    ensures
        modifier_pairs(m) == Seq::<(Seq<char>, JVal)>::empty(),
{
    assert(modifier_pairs(m) =~= Seq::<(Seq<char>, JVal)>::empty());
}

} // verus!

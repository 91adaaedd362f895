//! The bridge handle: request planning and response interpretation.
//!
//! A bridge is addressed by its network address and a registered username;
//! every operation is one HTTP request against a URL derived from the two.
//! The functions here build those requests and interpret the JSON they
//! return; performing the transfer itself is the caller's concern.

use vstd::prelude::*;

use crate::json::{JVal, Json};
use crate::resource::light::{light_of, AttributeModifier, Light, LightView, StateModifier};
use crate::resource::resourcelink::{resourcelink_of, Resourcelink, ResourcelinkView};
use crate::resource::schedule::{schedule_of, Schedule, ScheduleView};
use crate::resource::{scan_of, RequestMethod, Scan, Scanner};
use crate::response::last_error;

verus! {

/// One planned request against the bridge's API.
#[derive(Debug, PartialEq)]
pub struct Request {
    /// The URL the request is sent to.
    pub url: String,
    /// The HTTP verb of the request.
    pub method: RequestMethod,
    /// The JSON body of the request, if any.
    pub body: Option<Json>,
}

/// A bridge with IP address and username.
#[derive(Clone, Debug, Eq, Hash, PartialEq)]
pub struct Bridge {
    /// Name of the user that is connected to the bridge.
    username: String,
    /// IP address of the bridge.
    ip_address: String,
    /// Url to the bridge API.
    api_url: String,
}

impl Bridge {
    /// The name of the registered user.
    pub closed spec fn spec_username(self) -> Seq<char> {
        self.username@
    }

    /// The network address of the bridge.
    pub closed spec fn spec_ip_address(self) -> Seq<char> {
        self.ip_address@
    }

    /// The base URL every request path starts from.
    pub closed spec fn spec_api_url(self) -> Seq<char> {
        self.api_url@
    }

    /// The base URL is derived from the address and the username.
    pub closed spec fn wf(self) -> bool {
        self.api_url@ == "http://"@ + self.ip_address@ + "/api/"@ + self.username@
    }

    /// Creates a new bridge handle for a registered user.
    pub fn new(ip_address: String, username: String) -> (r: Bridge)
        ensures
            r.spec_ip_address() == ip_address@,
            r.spec_username() == username@,
            r.spec_api_url() == "http://"@ + ip_address@ + "/api/"@ + username@,
            r.wf(),
    {
        let mut api_url = String::new();
        api_url.append("http://");
        api_url.append(ip_address.as_str());
        api_url.append("/api/");
        api_url.append(username.as_str());
        proof {
            assert(api_url@ =~= "http://"@ + ip_address@ + "/api/"@ + username@);
        }
        Bridge { username, ip_address, api_url }
    }

    /// Returns the name of the user that is connected to the bridge.
    pub fn username(&self) -> (r: &str)
        ensures
            r@ == self.spec_username(),
    {
        self.username.as_str()
    }

    /// Returns the IP address of the bridge.
    pub fn ip_address(&self) -> (r: &str)
        ensures
            r@ == self.spec_ip_address(),
    {
        self.ip_address.as_str()
    }

    /// The base URL with a collection path appended.
    fn join1(&self, a: &str) -> (r: String)
        ensures
            r@ == self.spec_api_url() + a@,
    {
        let mut s = self.api_url.clone();
        s.append(a);
        s
    }

    /// The base URL with a collection path and an identifier appended.
    fn join2(&self, a: &str, id: &str) -> (r: String)
        ensures
            r@ == self.spec_api_url() + a@ + id@,
    {
        let mut s = self.api_url.clone();
        s.append(a);
        s.append(id);
        proof {
            assert(s@ =~= self.spec_api_url() + a@ + id@);
        }
        s
    }

    /// The base URL with a collection path, an identifier and a further path
    /// appended.
    fn join3(&self, a: &str, id: &str, b: &str) -> (r: String)
        ensures
            r@ == self.spec_api_url() + a@ + id@ + b@,
    {
        let mut s = self.api_url.clone();
        s.append(a);
        s.append(id);
        s.append(b);
        proof {
            assert(s@ =~= self.spec_api_url() + a@ + id@ + b@);
        }
        s
    }

    /// Plans the read of one light.
    pub fn get_light_request(&self, id: &str) -> (r: Request)
        ensures
            r.url@ == self.spec_api_url() + "/lights/"@ + id@,
            r.method == RequestMethod::Get,
            r.body is None,
    {
        Request { url: self.join2("/lights/", id), method: RequestMethod::Get, body: None }
    }

    /// Plans the read of all lights.
    pub fn get_all_lights_request(&self) -> (r: Request)
        ensures
            r.url@ == self.spec_api_url() + "/lights"@,
            r.method == RequestMethod::Get,
            r.body is None,
    {
        Request { url: self.join1("/lights"), method: RequestMethod::Get, body: None }
    }

    /// Plans the start of a search for new lights. The bridge keeps the
    /// network open for 40 seconds of its own accord.
    pub fn search_new_lights_request(&self, scanner: &Scanner) -> (r: Request)
        ensures
            r.url@ == self.spec_api_url() + "/lights"@,
            r.method == RequestMethod::Post,
            r.body is Some,
            r.body->Some_0@ == JVal::Obj(crate::resource::scanner_pairs(*scanner)),
    {
        Request {
            url: self.join1("/lights"),
            method: RequestMethod::Post,
            body: Some(scanner.to_json()),
        }
    }

    /// Plans the read of the devices a search has found.
    pub fn get_new_lights_request(&self) -> (r: Request)
        ensures
            r.url@ == self.spec_api_url() + "/lights/new"@,
            r.method == RequestMethod::Get,
            r.body is None,
    {
        Request { url: self.join1("/lights/new"), method: RequestMethod::Get, body: None }
    }

    /// Plans the deletion of a light.
    pub fn delete_light_request(&self, id: &str) -> (r: Request)
        ensures
            r.url@ == self.spec_api_url() + "/lights/"@ + id@,
            r.method == RequestMethod::Delete,
            r.body is None,
    {
        Request { url: self.join2("/lights/", id), method: RequestMethod::Delete, body: None }
    }

    /// Plans a change of a light's attributes.
    pub fn set_light_attribute_request(&self, id: &str, modifier: &AttributeModifier) -> (r:
        Request)
        ensures
            r.url@ == self.spec_api_url() + "/lights/"@ + id@,
            r.method == RequestMethod::Put,
            r.body is Some,
            r.body->Some_0@ == JVal::Obj(
                crate::resource::light::attribute_modifier_pairs(*modifier),
            ),
    {
        Request {
            url: self.join2("/lights/", id),
            method: RequestMethod::Put,
            body: Some(modifier.to_json()),
        }
    }

    /// Plans a change of a light's state.
    pub fn set_light_state_request(&self, id: &str, modifier: &StateModifier) -> (r: Request)
        ensures
            r.url@ == self.spec_api_url() + "/lights/"@ + id@ + "/state"@,
            r.method == RequestMethod::Put,
            r.body is Some,
            r.body->Some_0@ == JVal::Obj(crate::resource::light::state_modifier_pairs(*modifier)),
    {
        Request {
            url: self.join3("/lights/", id, "/state"),
            method: RequestMethod::Put,
            body: Some(modifier.to_json()),
        }
    }

    /// Plans the deletion of a group.
    pub fn delete_group_request(&self, id: &str) -> (r: Request)
        ensures
            r.url@ == self.spec_api_url() + "/groups/"@ + id@,
            r.method == RequestMethod::Delete,
            r.body is None,
    {
        Request { url: self.join2("/groups/", id), method: RequestMethod::Delete, body: None }
    }

    /// Plans the deletion of a scene.
    pub fn delete_scene_request(&self, id: &str) -> (r: Request)
        ensures
            r.url@ == self.spec_api_url() + "/scenes/"@ + id@,
            r.method == RequestMethod::Delete,
            r.body is None,
    {
        Request { url: self.join2("/scenes/", id), method: RequestMethod::Delete, body: None }
    }

    /// Plans the deletion of a sensor.
    pub fn delete_sensor_request(&self, id: &str) -> (r: Request)
        ensures
            r.url@ == self.spec_api_url() + "/sensors/"@ + id@,
            r.method == RequestMethod::Delete,
            r.body is None,
    {
        Request { url: self.join2("/sensors/", id), method: RequestMethod::Delete, body: None }
    }

    /// Plans the deletion of a rule.
    pub fn delete_rule_request(&self, id: &str) -> (r: Request)
        ensures
            r.url@ == self.spec_api_url() + "/rules/"@ + id@,
            r.method == RequestMethod::Delete,
            r.body is None,
    {
        Request { url: self.join2("/rules/", id), method: RequestMethod::Delete, body: None }
    }

    /// Plans the start of a search for new sensors. The bridge keeps the
    /// network open for 40 seconds of its own accord.
    pub fn search_new_sensors_request(&self, scanner: &Scanner) -> (r: Request)
        ensures
            r.url@ == self.spec_api_url() + "/sensors"@,
            r.method == RequestMethod::Post,
            r.body is Some,
            r.body->Some_0@ == JVal::Obj(crate::resource::scanner_pairs(*scanner)),
    {
        Request {
            url: self.join1("/sensors"),
            method: RequestMethod::Post,
            body: Some(scanner.to_json()),
        }
    }

    /// Plans the read of the sensors a search has found.
    pub fn get_new_sensors_request(&self) -> (r: Request)
        ensures
            r.url@ == self.spec_api_url() + "/sensors/new"@,
            r.method == RequestMethod::Get,
            r.body is None,
    {
        Request { url: self.join1("/sensors/new"), method: RequestMethod::Get, body: None }
    }

    /// Plans the read of one schedule.
    pub fn get_schedule_request(&self, id: &str) -> (r: Request)
        ensures
            r.url@ == self.spec_api_url() + "/schedules/"@ + id@,
            r.method == RequestMethod::Get,
            r.body is None,
    {
        Request { url: self.join2("/schedules/", id), method: RequestMethod::Get, body: None }
    }

    /// Plans the read of all schedules.
    pub fn get_all_schedules_request(&self) -> (r: Request)
        ensures
            r.url@ == self.spec_api_url() + "/schedules"@,
            r.method == RequestMethod::Get,
            r.body is None,
    {
        Request { url: self.join1("/schedules"), method: RequestMethod::Get, body: None }
    }

    /// Plans the creation of a schedule.
    pub fn create_schedule_request(&self, creator: &crate::resource::schedule::Creator) -> (r:
        Request)
        ensures
            r.url@ == self.spec_api_url() + "/schedules"@,
            r.method == RequestMethod::Post,
            r.body is Some,
            r.body->Some_0@ == JVal::Obj(crate::resource::schedule::creator_pairs(*creator)),
    {
        Request {
            url: self.join1("/schedules"),
            method: RequestMethod::Post,
            body: Some(creator.to_json()),
        }
    }

    /// Plans a change of a schedule's attributes.
    pub fn set_schedule_request(&self, id: &str, modifier: &crate::resource::schedule::Modifier)
        -> (r: Request)
        ensures
            r.url@ == self.spec_api_url() + "/schedules/"@ + id@,
            r.method == RequestMethod::Put,
            r.body is Some,
            r.body->Some_0@ == JVal::Obj(crate::resource::schedule::modifier_pairs(*modifier)),
    {
        Request {
            url: self.join2("/schedules/", id),
            method: RequestMethod::Put,
            body: Some(modifier.to_json()),
        }
    }

    /// Plans the deletion of a schedule.
    pub fn delete_schedule_request(&self, id: &str) -> (r: Request)
        ensures
            r.url@ == self.spec_api_url() + "/schedules/"@ + id@,
            r.method == RequestMethod::Delete,
            r.body is None,
    {
        Request { url: self.join2("/schedules/", id), method: RequestMethod::Delete, body: None }
    }

    /// Plans the read of one resourcelink.
    pub fn get_resourcelink_request(&self, id: &str) -> (r: Request)
        ensures
            r.url@ == self.spec_api_url() + "/resourcelinks/"@ + id@,
            r.method == RequestMethod::Get,
            r.body is None,
    {
        Request { url: self.join2("/resourcelinks/", id), method: RequestMethod::Get, body: None }
    }

    /// Plans the read of all resourcelinks.
    pub fn get_all_resourcelinks_request(&self) -> (r: Request)
        ensures
            r.url@ == self.spec_api_url() + "/resourcelinks"@,
            r.method == RequestMethod::Get,
            r.body is None,
    {
        Request { url: self.join1("/resourcelinks"), method: RequestMethod::Get, body: None }
    }

    /// Plans the creation of a resourcelink.
    pub fn create_resourcelink_request(
        &self,
        creator: &crate::resource::resourcelink::Creator,
    ) -> (r: Request)
        ensures
            r.url@ == self.spec_api_url() + "/resourcelinks"@,
            r.method == RequestMethod::Post,
            r.body is Some,
            r.body->Some_0@ == JVal::Obj(crate::resource::resourcelink::creator_pairs(*creator)),
    {
        Request {
            url: self.join1("/resourcelinks"),
            method: RequestMethod::Post,
            body: Some(creator.to_json()),
        }
    }

    /// Plans a change of a resourcelink's attributes.
    pub fn set_resourcelink_request(
        &self,
        id: &str,
        modifier: &crate::resource::resourcelink::Modifier,
    ) -> (r: Request)
        ensures
            r.url@ == self.spec_api_url() + "/resourcelinks/"@ + id@,
            r.method == RequestMethod::Put,
            r.body is Some,
            r.body->Some_0@ == JVal::Obj(crate::resource::resourcelink::modifier_pairs(*modifier)),
    {
        Request {
            url: self.join2("/resourcelinks/", id),
            method: RequestMethod::Put,
            body: Some(modifier.to_json()),
        }
    }

    /// Plans the deletion of a resourcelink.
    pub fn delete_resourcelink_request(&self, id: &str) -> (r: Request)
        ensures
            r.url@ == self.spec_api_url() + "/resourcelinks/"@ + id@,
            r.method == RequestMethod::Delete,
            r.body is None,
    {
        Request {
            url: self.join2("/resourcelinks/", id),
            method: RequestMethod::Delete,
            body: None,
        }
    }
}

/// The lights in a collection response: each pair an identifier and a light
/// body, the identifier injected into the decoded light.
pub open spec fn lights_of_pairs(pairs: Seq<(Seq<char>, JVal)>) -> Option<Seq<LightView>>
    decreases pairs.len(),
{
    if pairs.len() == 0 {
        Some(Seq::empty())
    } else {
        let rest = lights_of_pairs(pairs.subrange(1, pairs.len() as int));
        match (light_of(pairs[0].1), rest) {
            (Some(lv), Some(r)) => Some(seq![(LightView { id: pairs[0].0, ..lv })] + r),
            _ => None,
        }
    }
}

/// The lights in a collection response, if the payload is an object mapping
/// identifiers to light bodies.
pub open spec fn all_lights_of(v: JVal) -> Option<Seq<LightView>> {
    match v {
        JVal::Obj(pairs) => lights_of_pairs(pairs),
        _ => None,
    }
}

/// The schedules in a collection response.
pub open spec fn schedules_of_pairs(pairs: Seq<(Seq<char>, JVal)>) -> Option<Seq<ScheduleView>>
    decreases pairs.len(),
{
    if pairs.len() == 0 {
        Some(Seq::empty())
    } else {
        let rest = schedules_of_pairs(pairs.subrange(1, pairs.len() as int));
        match (schedule_of(pairs[0].1), rest) {
            (Some(sv), Some(r)) => Some(seq![(ScheduleView { id: pairs[0].0, ..sv })] + r),
            _ => None,
        }
    }
}

/// The schedules in a collection response, if the payload is an object
/// mapping identifiers to schedule bodies.
pub open spec fn all_schedules_of(v: JVal) -> Option<Seq<ScheduleView>> {
    match v {
        JVal::Obj(pairs) => schedules_of_pairs(pairs),
        _ => None,
    }
}

/// The resourcelinks in a collection response.
pub open spec fn resourcelinks_of_pairs(pairs: Seq<(Seq<char>, JVal)>) -> Option<
    Seq<ResourcelinkView>,
>
    decreases pairs.len(),
{
    if pairs.len() == 0 {
        Some(Seq::empty())
    } else {
        let rest = resourcelinks_of_pairs(pairs.subrange(1, pairs.len() as int));
        match (resourcelink_of(pairs[0].1), rest) {
            (Some(rv), Some(r)) => Some(seq![(ResourcelinkView { id: pairs[0].0, ..rv })] + r),
            _ => None,
        }
    }
}

/// The resourcelinks in a collection response, if the payload is an object
/// mapping identifiers to resourcelink bodies.
pub open spec fn all_resourcelinks_of(v: JVal) -> Option<Seq<ResourcelinkView>> {
    match v {
        JVal::Obj(pairs) => resourcelinks_of_pairs(pairs),
        _ => None,
    }
}

/// Interprets a get-one response for a light: normalizes outcome records,
/// decodes the body, and injects the requested identifier. A decoded light
/// always carries exactly the requested identifier.
pub fn parse_light_response(j: &Json, id: String) -> (r: Result<Light, crate::Error>)
    ensures
        r is Ok ==> r->Ok_0@.id == id@,
        match last_error(j@) {
            Some(e) => {
                &&& r is Err
                &&& r->Err_0 is Response
                &&& r->Err_0->Response_0@ == e
            },
            None => match light_of(j@) {
                Some(lv) => r is Ok && r->Ok_0@ == (LightView { id: id@, ..lv }),
                None => r == Err::<Light, crate::Error>(crate::Error::Decode),
            },
        },
{
    if let Err(e) = crate::response::normalize(j) {
        return Err(e);
    }
    let l = match Light::from_json(j) {
        Ok(l) => l,
        Err(e) => {
            return Err(e);
        },
    };
    Ok(l.with_id(id))
}

/// Interprets a get-one response for a schedule, injecting the requested
/// identifier. A decoded schedule always carries exactly the requested
/// identifier.
pub fn parse_schedule_response(j: &Json, id: String) -> (r: Result<Schedule, crate::Error>)
    ensures
        r is Ok ==> r->Ok_0@.id == id@,
        match last_error(j@) {
            Some(e) => {
                &&& r is Err
                &&& r->Err_0 is Response
                &&& r->Err_0->Response_0@ == e
            },
            None => match schedule_of(j@) {
                Some(sv) => r is Ok && r->Ok_0@ == (ScheduleView { id: id@, ..sv }),
                None => r == Err::<Schedule, crate::Error>(crate::Error::Decode),
            },
        },
{
    if let Err(e) = crate::response::normalize(j) {
        return Err(e);
    }
    let s = match Schedule::from_json(j) {
        Ok(s) => s,
        Err(e) => {
            return Err(e);
        },
    };
    Ok(s.with_id(id))
}

/// Interprets a get-one response for a resourcelink, injecting the requested
/// identifier. A decoded resourcelink always carries exactly the requested
/// identifier.
pub fn parse_resourcelink_response(j: &Json, id: String) -> (r: Result<Resourcelink, crate::Error>)
    ensures
        r is Ok ==> r->Ok_0@.id == id@,
        match last_error(j@) {
            Some(e) => {
                &&& r is Err
                &&& r->Err_0 is Response
                &&& r->Err_0->Response_0@ == e
            },
            None => match resourcelink_of(j@) {
                Some(rv) => r is Ok && r->Ok_0@ == (ResourcelinkView { id: id@, ..rv }),
                None => r == Err::<Resourcelink, crate::Error>(crate::Error::Decode),
            },
        },
{
    if let Err(e) = crate::response::normalize(j) {
        return Err(e);
    }
    let s = match Resourcelink::from_json(j) {
        Ok(s) => s,
        Err(e) => {
            return Err(e);
        },
    };
    Ok(s.with_id(id))
}

/// Interprets a device-search read: normalizes outcome records, then decodes
/// the search result.
pub fn parse_scan_response(j: &Json) -> (r: Result<Scan, crate::Error>)
    ensures
        match last_error(j@) {
            Some(e) => {
                &&& r is Err
                &&& r->Err_0 is Response
                &&& r->Err_0->Response_0@ == e
            },
            None => match scan_of(j@) {
                Some(sv) => r is Ok && r->Ok_0@ == sv,
                None => r == Err::<Scan, crate::Error>(crate::Error::Decode),
            },
        },
{
    if let Err(e) = crate::response::normalize(j) {
        return Err(e);
    }
    Scan::from_json(j)
}

/// Interprets a get-all response for lights: an object mapping identifiers
/// to bodies becomes a list of lights, each carrying its map key as its
/// identifier, in map order, none invented.
pub fn parse_all_lights(j: &Json) -> (r: Result<Vec<Light>, crate::Error>)
    ensures
        match last_error(j@) {
            Some(e) => {
                &&& r is Err
                &&& r->Err_0 is Response
                &&& r->Err_0->Response_0@ == e
            },
            None => match all_lights_of(j@) {
                Some(ls) => {
                    &&& r is Ok
                    &&& r->Ok_0@.len() == ls.len()
                    &&& forall|i: int| 0 <= i < ls.len() ==> #[trigger] r->Ok_0@[i]@ == ls[i]
                },
                None => r == Err::<Vec<Light>, crate::Error>(crate::Error::Decode),
            },
        },
{
    if let Err(e) = crate::response::normalize(j) {
        return Err(e);
    }
    match j {
        Json::Obj(pairs) => {
            proof {
                crate::json::lemma_model_pairs(pairs@);
            }
            let ghost mp = Json::model_pairs(pairs@);
            let n = pairs.len();
            let mut out: Vec<Light> = Vec::new();
            proof {
                assert(mp.skip(0) =~= mp);
                if lights_of_pairs(mp) is Some {
                    let rs = lights_of_pairs(mp)->Some_0;
                    assert(Seq::new(out@.len(), |k: int| out@[k]@) + rs =~= rs);
                }
            }
            let mut i: usize = 0;
            while i < n
                invariant
                    n == pairs@.len(),
                    i <= n,
                    mp == Json::model_pairs(pairs@),
                    j@ == JVal::Obj(mp),
                    mp.len() == n,
                    forall|k: int| 0 <= k < n ==> #[trigger] mp[k] == (pairs@[k].0@, pairs@[k].1@),
                    lights_of_pairs(mp) == match lights_of_pairs(mp.skip(i as int)) {
                        Some(rest) => Some(Seq::new(out@.len(), |k: int| out@[k]@) + rest),
                        None => None::<Seq<LightView>>,
                    },
                decreases n - i,
            {
                proof {
                    assert(mp.skip(i as int)[0] == mp[i as int]);
                    assert(mp.skip(i as int).subrange(1, mp.skip(i as int).len() as int)
                        =~= mp.skip(i as int + 1));
                }
                let l = match Light::from_json(&pairs[i].1) {
                    Ok(l) => l,
                    Err(_) => {
                        proof {
                            assert(lights_of_pairs(mp.skip(i as int)) is None);
                            assert(lights_of_pairs(mp) is None);
                        }
                        return Err(crate::Error::Decode);
                    },
                };
                let l = l.with_id(pairs[i].0.clone());
                let ghost lv = l@;
                let ghost oldviews = Seq::new(out@.len(), |k: int| out@[k]@);
                out.push(l);
                proof {
                    let newviews = Seq::new(out@.len(), |k: int| out@[k]@);
                    assert(newviews =~= oldviews + seq![lv]);
                    if lights_of_pairs(mp.skip(i as int + 1)) is Some {
                        let rest = lights_of_pairs(mp.skip(i as int + 1))->Some_0;
                        assert(oldviews + (seq![lv] + rest) =~= newviews + rest);
                    }
                }
                i += 1;
            }
            proof {
                assert(mp.skip(n as int) =~= Seq::<(Seq<char>, JVal)>::empty());
                if lights_of_pairs(mp) is Some {
                    assert(Seq::new(out@.len(), |k: int| out@[k]@) + Seq::<LightView>::empty()
                        =~= Seq::new(out@.len(), |k: int| out@[k]@));
                }
            }
            Ok(out)
        },
        _ => Err(crate::Error::Decode),
    }
}

/// Interprets a get-all response for schedules: each entry carries its map
/// key as its identifier.
pub fn parse_all_schedules(j: &Json) -> (r: Result<Vec<Schedule>, crate::Error>)
    ensures
        match last_error(j@) {
            Some(e) => {
                &&& r is Err
                &&& r->Err_0 is Response
                &&& r->Err_0->Response_0@ == e
            },
            None => match all_schedules_of(j@) {
                Some(ls) => {
                    &&& r is Ok
                    &&& r->Ok_0@.len() == ls.len()
                    &&& forall|i: int| 0 <= i < ls.len() ==> #[trigger] r->Ok_0@[i]@ == ls[i]
                },
                None => r == Err::<Vec<Schedule>, crate::Error>(crate::Error::Decode),
            },
        },
{
    if let Err(e) = crate::response::normalize(j) {
        return Err(e);
    }
    match j {
        Json::Obj(pairs) => {
            proof {
                crate::json::lemma_model_pairs(pairs@);
            }
            let ghost mp = Json::model_pairs(pairs@);
            let n = pairs.len();
            let mut out: Vec<Schedule> = Vec::new();
            proof {
                assert(mp.skip(0) =~= mp);
                if schedules_of_pairs(mp) is Some {
                    let rs = schedules_of_pairs(mp)->Some_0;
                    assert(Seq::new(out@.len(), |k: int| out@[k]@) + rs =~= rs);
                }
            }
            let mut i: usize = 0;
            while i < n
                invariant
                    n == pairs@.len(),
                    i <= n,
                    mp == Json::model_pairs(pairs@),
                    j@ == JVal::Obj(mp),
                    mp.len() == n,
                    forall|k: int| 0 <= k < n ==> #[trigger] mp[k] == (pairs@[k].0@, pairs@[k].1@),
                    schedules_of_pairs(mp) == match schedules_of_pairs(mp.skip(i as int)) {
                        Some(rest) => Some(Seq::new(out@.len(), |k: int| out@[k]@) + rest),
                        None => None::<Seq<ScheduleView>>,
                    },
                decreases n - i,
            {
                proof {
                    assert(mp.skip(i as int)[0] == mp[i as int]);
                    assert(mp.skip(i as int).subrange(1, mp.skip(i as int).len() as int)
                        =~= mp.skip(i as int + 1));
                }
                let s = match Schedule::from_json(&pairs[i].1) {
                    Ok(s) => s,
                    Err(_) => {
                        proof {
                            assert(schedules_of_pairs(mp.skip(i as int)) is None);
                            assert(schedules_of_pairs(mp) is None);
                        }
                        return Err(crate::Error::Decode);
                    },
                };
                let s = s.with_id(pairs[i].0.clone());
                let ghost sv = s@;
                let ghost oldviews = Seq::new(out@.len(), |k: int| out@[k]@);
                out.push(s);
                proof {
                    let newviews = Seq::new(out@.len(), |k: int| out@[k]@);
                    assert(newviews =~= oldviews + seq![sv]);
                    if schedules_of_pairs(mp.skip(i as int + 1)) is Some {
                        let rest = schedules_of_pairs(mp.skip(i as int + 1))->Some_0;
                        assert(oldviews + (seq![sv] + rest) =~= newviews + rest);
                    }
                }
                i += 1;
            }
            proof {
                assert(mp.skip(n as int) =~= Seq::<(Seq<char>, JVal)>::empty());
                if schedules_of_pairs(mp) is Some {
                    assert(Seq::new(out@.len(), |k: int| out@[k]@) + Seq::<ScheduleView>::empty()
                        =~= Seq::new(out@.len(), |k: int| out@[k]@));
                }
            }
            Ok(out)
        },
        _ => Err(crate::Error::Decode),
    }
}

/// Interprets a get-all response for resourcelinks: each entry carries its
/// map key as its identifier.
pub fn parse_all_resourcelinks(j: &Json) -> (r: Result<Vec<Resourcelink>, crate::Error>)
    ensures
        match last_error(j@) {
            Some(e) => {
                &&& r is Err
                &&& r->Err_0 is Response
                &&& r->Err_0->Response_0@ == e
            },
            None => match all_resourcelinks_of(j@) {
                Some(ls) => {
                    &&& r is Ok
                    &&& r->Ok_0@.len() == ls.len()
                    &&& forall|i: int| 0 <= i < ls.len() ==> #[trigger] r->Ok_0@[i]@ == ls[i]
                },
                None => r == Err::<Vec<Resourcelink>, crate::Error>(crate::Error::Decode),
            },
        },
{
    if let Err(e) = crate::response::normalize(j) {
        return Err(e);
    }
    match j {
        Json::Obj(pairs) => {
            proof {
                crate::json::lemma_model_pairs(pairs@);
            }
            let ghost mp = Json::model_pairs(pairs@);
            let n = pairs.len();
            let mut out: Vec<Resourcelink> = Vec::new();
            proof {
                assert(mp.skip(0) =~= mp);
                if resourcelinks_of_pairs(mp) is Some {
                    let rs = resourcelinks_of_pairs(mp)->Some_0;
                    assert(Seq::new(out@.len(), |k: int| out@[k]@) + rs =~= rs);
                }
            }
            let mut i: usize = 0;
            while i < n
                invariant
                    n == pairs@.len(),
                    i <= n,
                    mp == Json::model_pairs(pairs@),
                    j@ == JVal::Obj(mp),
                    mp.len() == n,
                    forall|k: int| 0 <= k < n ==> #[trigger] mp[k] == (pairs@[k].0@, pairs@[k].1@),
                    resourcelinks_of_pairs(mp) == match resourcelinks_of_pairs(mp.skip(i as int)) {
                        Some(rest) => Some(Seq::new(out@.len(), |k: int| out@[k]@) + rest),
                        None => None::<Seq<ResourcelinkView>>,
                    },
                decreases n - i,
            {
                proof {
                    assert(mp.skip(i as int)[0] == mp[i as int]);
                    assert(mp.skip(i as int).subrange(1, mp.skip(i as int).len() as int)
                        =~= mp.skip(i as int + 1));
                }
                let s = match Resourcelink::from_json(&pairs[i].1) {
                    Ok(s) => s,
                    Err(_) => {
                        proof {
                            assert(resourcelinks_of_pairs(mp.skip(i as int)) is None);
                            assert(resourcelinks_of_pairs(mp) is None);
                        }
                        return Err(crate::Error::Decode);
                    },
                };
                let s = s.with_id(pairs[i].0.clone());
                let ghost sv = s@;
                let ghost oldviews = Seq::new(out@.len(), |k: int| out@[k]@);
                out.push(s);
                proof {
                    let newviews = Seq::new(out@.len(), |k: int| out@[k]@);
                    assert(newviews =~= oldviews + seq![sv]);
                    if resourcelinks_of_pairs(mp.skip(i as int + 1)) is Some {
                        let rest = resourcelinks_of_pairs(mp.skip(i as int + 1))->Some_0;
                        assert(oldviews + (seq![sv] + rest) =~= newviews + rest);
                    }
                }
                i += 1;
            }
            proof {
                assert(mp.skip(n as int) =~= Seq::<(Seq<char>, JVal)>::empty());
                if resourcelinks_of_pairs(mp) is Some {
                    assert(Seq::new(out@.len(), |k: int| out@[k]@)
                        + Seq::<ResourcelinkView>::empty() =~= Seq::new(
                        out@.len(),
                        |k: int| out@[k]@,
                    ));
                }
            }
            Ok(out)
        },
        _ => Err(crate::Error::Decode),
    }
}

} // verus!

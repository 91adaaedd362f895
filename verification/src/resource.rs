//! Resource types managed by the bridge, and what their operations share.

use vstd::prelude::*;

use crate::json::{jval_get, str_eq, JVal, Json};
use crate::json::{lemma_model_pairs, req_str_of};

pub mod light;
pub mod resourcelink;
pub mod schedule;

verus! {

/// The HTTP verb of a bridge request.
#[derive(Clone, Copy, Debug, Eq, PartialEq)]
pub enum RequestMethod {
    /// Replace attributes.
    Put,
    /// Create a resource or start an action.
    Post,
    /// Read a resource.
    Get,
    /// Delete a resource.
    Delete,
}

/// How a numeric attribute is written: replaced by an absolute value, or
/// moved by a signed delta that the bridge clamps to the valid range. A field
/// is in exactly one mode at a time.
#[derive(Clone, Copy, Debug, Eq, PartialEq)]
pub enum Adjuster<T, D> {
    /// Replace the attribute with an absolute value.
    Override(T),
    /// Add a signed delta to the attribute's current value.
    Increment(D),
}

/// Alert effect of a light.
#[derive(Clone, Copy, Debug, Eq, PartialEq)]
pub enum Alert {
    /// Performs one breathe cycle.
    Select,
    /// Performs breathe cycles for 15 seconds, or until the effect is turned
    /// off.
    LSelect,
    /// Disables any alert.
    Off,
}

/// The wire name of an alert effect.
pub open spec fn alert_name(a: Alert) -> Seq<char> {
    match a {
        Alert::Select => "select"@,
        Alert::LSelect => "lselect"@,
        Alert::Off => "none"@,
    }
}

/// The alert effect a wire name encodes, if any.
pub open spec fn alert_of(s: Seq<char>) -> Option<Alert> {
    if s == "select"@ {
        Some(Alert::Select)
    } else if s == "lselect"@ {
        Some(Alert::LSelect)
    } else if s == "none"@ {
        Some(Alert::Off)
    } else {
        None
    }
}

/// Dynamic effect of a light.
#[derive(Clone, Copy, Debug, Eq, PartialEq)]
pub enum Effect {
    /// Cycles through all hues with the current brightness and saturation.
    Colorloop,
    /// Disables any effect.
    Off,
}

/// The wire name of a dynamic effect.
pub open spec fn effect_name(e: Effect) -> Seq<char> {
    match e {
        Effect::Colorloop => "colorloop"@,
        Effect::Off => "none"@,
    }
}

/// The dynamic effect a wire name encodes, if any.
pub open spec fn effect_of(s: Seq<char>) -> Option<Effect> {
    if s == "colorloop"@ {
        Some(Effect::Colorloop)
    } else if s == "none"@ {
        Some(Effect::Off)
    } else {
        None
    }
}

/// Color mode of a light.
#[derive(Clone, Copy, Debug, Eq, PartialEq)]
pub enum ColorMode {
    /// The light uses hue and saturation.
    HueAndSaturation,
    /// The light uses color space coordinates.
    ColorSpaceCoordinates,
    /// The light uses a mired color temperature.
    ColorTemperature,
}

/// The wire name of a color mode.
pub open spec fn color_mode_name(m: ColorMode) -> Seq<char> {
    match m {
        ColorMode::HueAndSaturation => "hs"@,
        ColorMode::ColorSpaceCoordinates => "xy"@,
        ColorMode::ColorTemperature => "ct"@,
    }
}

/// The color mode a wire name encodes, if any.
pub open spec fn color_mode_of(s: Seq<char>) -> Option<ColorMode> {
    if s == "hs"@ {
        Some(ColorMode::HueAndSaturation)
    } else if s == "xy"@ {
        Some(ColorMode::ColorSpaceCoordinates)
    } else if s == "ct"@ {
        Some(ColorMode::ColorTemperature)
    } else {
        None
    }
}

/// Whether a timestamp string is a calendar date and time that the date
/// library accepts.
pub uninterp spec fn chrono_accepts(s: Seq<char>) -> bool;

/// Relies on `chrono::NaiveDateTime`'s `FromStr`: whether a timestamp string
/// parses is a function of its characters alone.
#[verifier::external_body]
pub fn datetime_valid(s: &str) -> (r: bool)
    ensures
        r == chrono_accepts(s@),
{
    s.parse::<chrono::NaiveDateTime>().is_ok()
}

/// An optional timestamp attribute: absent and `null` both mean unset; a
/// present value must be a string that the date library accepts.
pub open spec fn opt_datetime_of(v: JVal, key: Seq<char>) -> Option<Option<Seq<char>>> {
    match jval_get(v, key) {
        None => Some(None),
        Some(JVal::Null) => Some(None),
        Some(JVal::Str(s)) => if chrono_accepts(s) {
            Some(Some(s))
        } else {
            None
        },
        Some(_) => None,
    }
}

/// Reads an optional timestamp attribute, validating it with the date
/// library.
pub fn get_opt_datetime(j: &Json, key: &str) -> (r: Result<Option<String>, crate::Error>)
    ensures
        match opt_datetime_of(j@, key@) {
            Some(Some(s)) => r is Ok && r->Ok_0 is Some && r->Ok_0->Some_0@ == s,
            Some(None) => r == Ok::<Option<String>, crate::Error>(None),
            None => r == Err::<Option<String>, crate::Error>(crate::Error::Decode),
        },
{
    match j.get(key) {
        None => Ok(None),
        Some(Json::Null) => Ok(None),
        Some(Json::Str(s)) => {
            if datetime_valid(s.as_str()) {
                Ok(Some(s.clone()))
            } else {
                Err(crate::Error::Decode)
            }
        },
        Some(_) => Err(crate::Error::Decode),
    }
}

/// An optional alert attribute: absent and `null` both mean unset; a present
/// value must be a known wire name.
pub open spec fn opt_alert_of(v: JVal, key: Seq<char>) -> Option<Option<Alert>> {
    match jval_get(v, key) {
        None => Some(None),
        Some(JVal::Null) => Some(None),
        Some(JVal::Str(s)) => match alert_of(s) {
            Some(a) => Some(Some(a)),
            None => None,
        },
        Some(_) => None,
    }
}

/// Reads an optional alert attribute.
pub fn get_opt_alert(j: &Json, key: &str) -> (r: Result<Option<Alert>, crate::Error>)
    ensures
        match opt_alert_of(j@, key@) {
            Some(oa) => r == Ok::<Option<Alert>, crate::Error>(oa),
            None => r == Err::<Option<Alert>, crate::Error>(crate::Error::Decode),
        },
{
    match j.get(key) {
        None => Ok(None),
        Some(Json::Null) => Ok(None),
        Some(Json::Str(s)) => {
            if str_eq(s.as_str(), "select") {
                Ok(Some(Alert::Select))
            } else if str_eq(s.as_str(), "lselect") {
                Ok(Some(Alert::LSelect))
            } else if str_eq(s.as_str(), "none") {
                Ok(Some(Alert::Off))
            } else {
                Err(crate::Error::Decode)
            }
        },
        Some(_) => Err(crate::Error::Decode),
    }
}

/// An optional dynamic-effect attribute: absent and `null` both mean unset;
/// a present value must be a known wire name.
pub open spec fn opt_effect_of(v: JVal, key: Seq<char>) -> Option<Option<Effect>> {
    match jval_get(v, key) {
        None => Some(None),
        Some(JVal::Null) => Some(None),
        Some(JVal::Str(s)) => match effect_of(s) {
            Some(e) => Some(Some(e)),
            None => None,
        },
        Some(_) => None,
    }
}

/// Reads an optional dynamic-effect attribute.
pub fn get_opt_effect(j: &Json, key: &str) -> (r: Result<Option<Effect>, crate::Error>)
    ensures
        match opt_effect_of(j@, key@) {
            Some(oe) => r == Ok::<Option<Effect>, crate::Error>(oe),
            None => r == Err::<Option<Effect>, crate::Error>(crate::Error::Decode),
        },
{
    match j.get(key) {
        None => Ok(None),
        Some(Json::Null) => Ok(None),
        Some(Json::Str(s)) => {
            if str_eq(s.as_str(), "colorloop") {
                Ok(Some(Effect::Colorloop))
            } else if str_eq(s.as_str(), "none") {
                Ok(Some(Effect::Off))
            } else {
                Err(crate::Error::Decode)
            }
        },
        Some(_) => Err(crate::Error::Decode),
    }
}

/// An optional color-mode attribute: absent and `null` both mean unset; a
/// present value must be a known wire name.
pub open spec fn opt_color_mode_of(v: JVal, key: Seq<char>) -> Option<Option<ColorMode>> {
    match jval_get(v, key) {
        None => Some(None),
        Some(JVal::Null) => Some(None),
        Some(JVal::Str(s)) => match color_mode_of(s) {
            Some(m) => Some(Some(m)),
            None => None,
        },
        Some(_) => None,
    }
}

/// Reads an optional color-mode attribute.
pub fn get_opt_color_mode(j: &Json, key: &str) -> (r: Result<Option<ColorMode>, crate::Error>)
    ensures
        match opt_color_mode_of(j@, key@) {
            Some(om) => r == Ok::<Option<ColorMode>, crate::Error>(om),
            None => r == Err::<Option<ColorMode>, crate::Error>(crate::Error::Decode),
        },
{
    match j.get(key) {
        None => Ok(None),
        Some(Json::Null) => Ok(None),
        Some(Json::Str(s)) => {
            if str_eq(s.as_str(), "hs") {
                Ok(Some(ColorMode::HueAndSaturation))
            } else if str_eq(s.as_str(), "xy") {
                Ok(Some(ColorMode::ColorSpaceCoordinates))
            } else if str_eq(s.as_str(), "ct") {
                Ok(Some(ColorMode::ColorTemperature))
            } else {
                Err(crate::Error::Decode)
            }
        },
        Some(_) => Err(crate::Error::Decode),
    }
}

/// When the bridge last searched for new devices.
#[derive(Clone, Debug, Eq, PartialEq)]
pub enum LastScan {
    /// The timestamp of the last completed search.
    DateTime(String),
    /// A search is going on.
    Active,
    /// No search has happened.
    NoScan,
}

/// The model of a last-scan status.
pub enum LastScanView {
    /// The timestamp of the last completed search.
    DateTime(Seq<char>),
    /// A search is going on.
    Active,
    /// No search has happened.
    NoScan,
}

impl View for LastScan {
    type V = LastScanView;

    open spec fn view(&self) -> LastScanView {
        match self {
            LastScan::DateTime(s) => LastScanView::DateTime(s@),
            LastScan::Active => LastScanView::Active,
            LastScan::NoScan => LastScanView::NoScan,
        }
    }
}

/// The last-scan status a JSON value encodes, if any.
pub open spec fn last_scan_of(v: JVal) -> Option<LastScanView> {
    match v {
        JVal::Str(s) => {
            if s == "active"@ {
                Some(LastScanView::Active)
            } else if s == "none"@ {
                Some(LastScanView::NoScan)
            } else if chrono_accepts(s) {
                Some(LastScanView::DateTime(s))
            } else {
                None
            }
        },
        _ => None,
    }
}

/// A newly discovered device.
#[derive(Clone, Debug, Eq, PartialEq)]
pub struct ScanResource {
    /// Identifier of the discovered device.
    pub id: String,
    /// Name of the discovered device.
    pub name: String,
}

/// The model of a newly discovered device.
pub struct ScanResourceView {
    /// Identifier of the discovered device.
    pub id: Seq<char>,
    /// Name of the discovered device.
    pub name: Seq<char>,
}

impl View for ScanResource {
    type V = ScanResourceView;

    open spec fn view(&self) -> ScanResourceView {
        ScanResourceView { id: self.id@, name: self.name@ }
    }
}

/// The result of a device search: its status, and the devices found so far.
#[derive(Clone, Debug, Eq, PartialEq)]
pub struct Scan {
    /// When the bridge last searched for new devices.
    pub last_scan: LastScan,
    /// The devices found so far.
    pub resources: Vec<ScanResource>,
}

/// The model of a device-search result.
pub struct ScanView {
    /// When the bridge last searched for new devices.
    pub last_scan: LastScanView,
    /// The devices found so far.
    pub resources: Seq<ScanResourceView>,
}

impl View for Scan {
    type V = ScanView;

    open spec fn view(&self) -> ScanView {
        ScanView {
            last_scan: self.last_scan@,
            resources: Seq::new(self.resources@.len(), |i: int| self.resources@[i]@),
        }
    }
}

/// The discovered devices among a search result's pairs: every pair but the
/// `lastscan` sentinel, each an object with the device's name.
pub open spec fn scan_resources_of(pairs: Seq<(Seq<char>, JVal)>) -> Option<Seq<ScanResourceView>>
    decreases pairs.len(),
{
    if pairs.len() == 0 {
        Some(Seq::empty())
    } else {
        let rest = scan_resources_of(pairs.subrange(1, pairs.len() as int));
        if pairs[0].0 == "lastscan"@ {
            rest
        } else {
            match (req_str_of(pairs[0].1, "name"@), rest) {
                (Some(n), Some(r)) => Some(
                    seq![ScanResourceView { id: pairs[0].0, name: n }] + r,
                ),
                _ => None,
            }
        }
    }
}

/// The search result a JSON value describes, if it is an object whose pairs
/// are discovered devices, with an optional `lastscan` status entry.
pub open spec fn scan_of(v: JVal) -> Option<ScanView> {
    match v {
        JVal::Obj(pairs) => {
            match (pairs_get_spec_last_scan(pairs), scan_resources_of(pairs)) {
                (Some(st), Some(rs)) => match st {
                    Some(status) => Some(ScanView { last_scan: status, resources: rs }),
                    None => Some(ScanView { last_scan: LastScanView::NoScan, resources: rs }),
                },
                _ => None,
            }
        },
        _ => None,
    }
}

/// The status carried by a `lastscan` entry: the outer `None` is a mismatch,
/// the inner one an absent entry.
pub open spec fn pairs_get_spec_last_scan(pairs: Seq<(Seq<char>, JVal)>) -> Option<
    Option<LastScanView>,
> {
    match crate::json::pairs_get(pairs, "lastscan"@) {
        None => Some(None),
        Some(v) => match last_scan_of(v) {
            Some(st) => Some(Some(st)),
            None => None,
        },
    }
}

impl Scan {
    /// Decodes a device-search result from its JSON body.
    pub fn from_json(j: &Json) -> (r: Result<Scan, crate::Error>)
        ensures
            match scan_of(j@) {
                Some(sv) => r is Ok && r->Ok_0@ == sv,
                None => r == Err::<Scan, crate::Error>(crate::Error::Decode),
            },
    {
        match j {
            Json::Obj(pairs) => {
                proof {
                    lemma_model_pairs(pairs@);
                }
                let ghost mp = Json::model_pairs(pairs@);
                let last_scan = match j.get("lastscan") {
                    None => LastScan::NoScan,
                    Some(Json::Str(s)) => {
                        if str_eq(s.as_str(), "active") {
                            LastScan::Active
                        } else if str_eq(s.as_str(), "none") {
                            LastScan::NoScan
                        } else if datetime_valid(s.as_str()) {
                            LastScan::DateTime(s.clone())
                        } else {
                            return Err(crate::Error::Decode);
                        }
                    },
                    Some(_) => {
                        return Err(crate::Error::Decode);
                    },
                };
                let n = pairs.len();
                let mut out: Vec<ScanResource> = Vec::new();
                proof {
                    assert(mp.skip(0) =~= mp);
                    if scan_resources_of(mp) is Some {
                        let rs = scan_resources_of(mp)->Some_0;
                        assert(Seq::new(out@.len(), |k: int| out@[k]@) + rs =~= rs);
                    }
                }
                let mut i: usize = 0;
                while i < n
                    invariant
                        n == pairs@.len(),
                        i <= n,
                        mp == Json::model_pairs(pairs@),
                        j@ == JVal::Obj(mp),
                        mp.len() == n,
                        forall|k: int| 0 <= k < n ==> #[trigger] mp[k] == (pairs@[k].0@, pairs@[k].1@),
                        scan_resources_of(mp) == match scan_resources_of(mp.skip(i as int)) {
                            Some(rest) => Some(Seq::new(out@.len(), |k: int| out@[k]@) + rest),
                            None => None::<Seq<ScanResourceView>>,
                        },
                    decreases n - i,
                {
                    proof {
                        assert(mp.skip(i as int)[0] == mp[i as int]);
                        assert(mp.skip(i as int).subrange(1, mp.skip(i as int).len() as int)
                            =~= mp.skip(i as int + 1));
                    }
                    if str_eq(pairs[i].0.as_str(), "lastscan") {
                        i += 1;
                        continue ;
                    }
                    let name = match crate::json::get_req_str(&pairs[i].1, "name") {
                        Ok(nm) => nm,
                        Err(e) => {
                            proof {
                                assert(scan_resources_of(mp.skip(i as int)) is None);
                                assert(scan_resources_of(mp) is None);
                            }
                            return Err(crate::Error::Decode);
                        },
                    };
                    let id = pairs[i].0.clone();
                    let ghost sv = ScanResourceView { id: pairs@[i as int].0@, name: name@ };
                    let ghost oldviews = Seq::new(out@.len(), |k: int| out@[k]@);
                    out.push(ScanResource { id, name });
                    proof {
                        let newviews = Seq::new(out@.len(), |k: int| out@[k]@);
                        assert(newviews =~= oldviews + seq![sv]);
                        if scan_resources_of(mp.skip(i as int + 1)) is Some {
                            let rest = scan_resources_of(mp.skip(i as int + 1))->Some_0;
                            assert(oldviews + (seq![sv] + rest) =~= newviews + rest);
                        }
                    }
                    i += 1;
                }
                proof {
                    assert(mp.skip(n as int) =~= Seq::<(Seq<char>, JVal)>::empty());
                    assert(scan_resources_of(mp.skip(n as int)) == Some(
                        Seq::<ScanResourceView>::empty(),
                    ));
                    if scan_resources_of(mp) is Some {
                        assert(Seq::new(out@.len(), |k: int| out@[k]@)
                            + Seq::<ScanResourceView>::empty() =~= Seq::new(
                            out@.len(),
                            |k: int| out@[k]@,
                        ));
                    }
                }
                let r = Scan { last_scan, resources: out };
                Ok(r)
            },
            _ => Err(crate::Error::Decode),
        }
    }
}

/// Options of a device search: the specific device identifiers to search
/// for, or none for a general scan.
#[derive(Clone, Debug, Default, Eq, PartialEq)]
pub struct Scanner {
    /// The device identifiers to search for.
    pub device_ids: Vec<String>,
}

/// The wire-format pairs of a device search: the identifier list only when
/// it is non-empty.
pub open spec fn scanner_pairs(s: Scanner) -> Seq<(Seq<char>, JVal)> {
    if s.device_ids@.len() == 0 {
        seq![]
    } else {
        seq![
            (
                "deviceid"@,
                JVal::Arr(Seq::new(s.device_ids@.len(), |i: int| JVal::Str(s.device_ids@[i]@))),
            ),
        ]
    }
}

impl Scanner {
    /// Creates a new [`Scanner`] for a general search.
    pub fn new() -> (r: Self)
        ensures
            r.device_ids@.len() == 0,
    {
        Self { device_ids: Vec::new() }
    }

    /// Serializes these search options into the bridge's wire format.
    pub fn to_json(&self) -> (r: Json)
        ensures
            r@ == JVal::Obj(scanner_pairs(*self)),
    {
        let mut pairs: Vec<(String, Json)> = Vec::new();
        if self.device_ids.len() > 0 {
            let mut ids: Vec<Json> = Vec::new();
            let n = self.device_ids.len();
            let mut i: usize = 0;
            while i < n
                invariant
                    n == self.device_ids@.len(),
                    i <= n,
                    ids@.len() == i,
                    forall|k: int| 0 <= k < i ==> #[trigger] ids@[k]@ == JVal::Str(
                        self.device_ids@[k]@,
                    ),
                decreases n - i,
            {
                ids.push(Json::Str(self.device_ids[i].clone()));
                i += 1;
            }
            proof {
                crate::json::lemma_model_list(ids@);
                assert(Json::model_list(ids@) =~= Seq::new(
                    self.device_ids@.len(),
                    |k: int| JVal::Str(self.device_ids@[k]@),
                ));
            }
            pairs.push((String::from_str("deviceid"), Json::Arr(ids)));
        }
        proof {
            lemma_model_pairs(pairs@);
            assert(Json::model_pairs(pairs@) =~~= scanner_pairs(*self));
        }
        Json::Obj(pairs)
    }
}

} // verus!

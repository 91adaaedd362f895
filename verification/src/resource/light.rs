//! Lights: their state, attributes and capabilities.

use vstd::prelude::*;

use crate::json::{
    get_opt_bool, get_opt_i64_in, get_opt_str, get_opt_usize, get_req_bool, get_req_str, jval_get,
    opt_bool_of, opt_bool_pair, opt_int_of, opt_str_of, opt_u16_pair, opt_u8_pair, push_bool_field,
    push_pair, push_u16_field, push_u8_field, req_bool_of, req_str_of, str_eq, JVal, Json,
};
use crate::resource::{
    get_opt_alert, get_opt_color_mode, get_opt_datetime, get_opt_effect, opt_alert_of,
    opt_color_mode_of, opt_datetime_of, opt_effect_of, Alert, ColorMode, Effect,
};

verus! {

/// State of a light.
#[derive(Clone, Copy, Debug, Eq, PartialEq)]
pub struct State {
    /// Whether the light is on.
    pub on: Option<bool>,
    /// Brightness of the light.
    ///
    /// The maximum brightness is 254 and 1 is the minimum brightness.
    pub brightness: Option<u8>,
    /// Hue of the light.
    ///
    /// Both 0 and 65535 are red, 25500 is green and 46920 is blue.
    pub hue: Option<u16>,
    /// Saturation of the light.
    ///
    /// The most saturated (colored) is 254 and 0 is the least saturated (white).
    pub saturation: Option<u8>,
    /// Mired color temperature of the light.
    pub color_temperature: Option<u16>,
    /// Alert effect of the light.
    pub alert: Option<Alert>,
    /// Dynamic effect of the light.
    pub effect: Option<Effect>,
    /// Color mode of the light.
    pub color_mode: Option<ColorMode>,
    /// Whether the light can be reached by the bridge.
    pub reachable: bool,
}

/// The light state described by a JSON value, if every present attribute has
/// the right shape.
pub open spec fn state_of(v: JVal) -> Option<State> {
    if opt_bool_of(v, "on"@) is None {
        None
    } else if opt_int_of(v, "bri"@, 0, 255) is None {
        None
    } else if opt_int_of(v, "hue"@, 0, 65535) is None {
        None
    } else if opt_int_of(v, "sat"@, 0, 255) is None {
        None
    } else if opt_int_of(v, "ct"@, 0, 65535) is None {
        None
    } else if opt_alert_of(v, "alert"@) is None {
        None
    } else if opt_effect_of(v, "effect"@) is None {
        None
    } else if opt_color_mode_of(v, "colormode"@) is None {
        None
    } else if req_bool_of(v, "reachable"@) is None {
        None
    } else {
        Some(
            State {
                on: opt_bool_of(v, "on"@)->Some_0,
                brightness: match opt_int_of(v, "bri"@, 0, 255)->Some_0 {
                    Some(t) => Some(t as u8),
                    None => None,
                },
                hue: match opt_int_of(v, "hue"@, 0, 65535)->Some_0 {
                    Some(t) => Some(t as u16),
                    None => None,
                },
                saturation: match opt_int_of(v, "sat"@, 0, 255)->Some_0 {
                    Some(t) => Some(t as u8),
                    None => None,
                },
                color_temperature: match opt_int_of(v, "ct"@, 0, 65535)->Some_0 {
                    Some(t) => Some(t as u16),
                    None => None,
                },
                alert: opt_alert_of(v, "alert"@)->Some_0,
                effect: opt_effect_of(v, "effect"@)->Some_0,
                color_mode: opt_color_mode_of(v, "colormode"@)->Some_0,
                reachable: req_bool_of(v, "reachable"@)->Some_0,
            },
        )
    }
}

impl State {
    /// Decodes a light state from its JSON body.
    pub fn from_json(j: &Json) -> (r: Result<State, crate::Error>)
        ensures
            match state_of(j@) {
                Some(s) => r == Ok::<State, crate::Error>(s),
                None => r == Err::<State, crate::Error>(crate::Error::Decode),
            },
    {
        let on = match get_opt_bool(j, "on") {
            Ok(x) => x,
            Err(e) => {
                return Err(e);
            },
        };
        let brightness = match get_opt_i64_in(j, "bri", 0, 255) {
            Ok(Some(t)) => Some(t as u8),
            Ok(None) => None,
            Err(e) => {
                return Err(e);
            },
        };
        let hue = match get_opt_i64_in(j, "hue", 0, 65535) {
            Ok(Some(t)) => Some(t as u16),
            Ok(None) => None,
            Err(e) => {
                return Err(e);
            },
        };
        let saturation = match get_opt_i64_in(j, "sat", 0, 255) {
            Ok(Some(t)) => Some(t as u8),
            Ok(None) => None,
            Err(e) => {
                return Err(e);
            },
        };
        let color_temperature = match get_opt_i64_in(j, "ct", 0, 65535) {
            Ok(Some(t)) => Some(t as u16),
            Ok(None) => None,
            Err(e) => {
                return Err(e);
            },
        };
        let alert = match get_opt_alert(j, "alert") {
            Ok(x) => x,
            Err(e) => {
                return Err(e);
            },
        };
        let effect = match get_opt_effect(j, "effect") {
            Ok(x) => x,
            Err(e) => {
                return Err(e);
            },
        };
        let color_mode = match get_opt_color_mode(j, "colormode") {
            Ok(x) => x,
            Err(e) => {
                return Err(e);
            },
        };
        let reachable = match get_req_bool(j, "reachable") {
            Ok(x) => x,
            Err(e) => {
                return Err(e);
            },
        };
        Ok(
            State {
                on,
                brightness,
                hue,
                saturation,
                color_temperature,
                alert,
                effect,
                color_mode,
                reachable,
            },
        )
    }
}

/// State of a software update.
#[derive(Clone, Copy, Debug, Eq, PartialEq)]
pub enum SoftwareUpdateState {
    /// No updates are available.
    NoUpdates,
    /// Device cannot be updated.
    NotUpdatable,
    /// Device is downloading new updates.
    Transferring,
    /// Device is ready to install new updates.
    ReadyToInstall,
}

/// The software-update state a wire name encodes, if any.
pub open spec fn software_update_state_of(s: Seq<char>) -> Option<SoftwareUpdateState> {
    if s == "noupdates"@ {
        Some(SoftwareUpdateState::NoUpdates)
    } else if s == "notupdatable"@ {
        Some(SoftwareUpdateState::NotUpdatable)
    } else if s == "transferring"@ {
        Some(SoftwareUpdateState::Transferring)
    } else if s == "readytoinstall"@ {
        Some(SoftwareUpdateState::ReadyToInstall)
    } else {
        None
    }
}

/// Information about software updates of a light.
#[derive(Clone, Debug, Eq, PartialEq)]
pub struct SoftwareUpdate {
    /// State of software updates.
    pub state: SoftwareUpdateState,
    /// When the last update was installed, as a timestamp string.
    pub last_install: Option<String>,
}

/// The model of a light's software-update information.
pub struct SoftwareUpdateView {
    /// State of software updates.
    pub state: SoftwareUpdateState,
    /// When the last update was installed, as a timestamp string.
    pub last_install: Option<Seq<char>>,
}

impl View for SoftwareUpdate {
    type V = SoftwareUpdateView;

    open spec fn view(&self) -> SoftwareUpdateView {
        SoftwareUpdateView {
            state: self.state,
            last_install: match self.last_install {
                Some(s) => Some(s@),
                None => None,
            },
        }
    }
}

/// The software-update information described by a JSON value.
pub open spec fn software_update_of(v: JVal) -> Option<SoftwareUpdateView> {
    match req_str_of(v, "state"@) {
        Some(st) => match software_update_state_of(st) {
            Some(state) => match opt_datetime_of(v, "lastinstall"@) {
                Some(li) => Some(SoftwareUpdateView { state, last_install: li }),
                None => None,
            },
            None => None,
        },
        None => None,
    }
}

impl SoftwareUpdate {
    /// Decodes a light's software-update information from its JSON body.
    pub fn from_json(j: &Json) -> (r: Result<SoftwareUpdate, crate::Error>)
        ensures
            match software_update_of(j@) {
                Some(sv) => r is Ok && r->Ok_0@ == sv,
                None => r == Err::<SoftwareUpdate, crate::Error>(crate::Error::Decode),
            },
    {
        let state_str = match get_req_str(j, "state") {
            Ok(s) => s,
            Err(e) => {
                return Err(e);
            },
        };
        let state = if str_eq(state_str.as_str(), "noupdates") {
            SoftwareUpdateState::NoUpdates
        } else if str_eq(state_str.as_str(), "notupdatable") {
            SoftwareUpdateState::NotUpdatable
        } else if str_eq(state_str.as_str(), "transferring") {
            SoftwareUpdateState::Transferring
        } else if str_eq(state_str.as_str(), "readytoinstall") {
            SoftwareUpdateState::ReadyToInstall
        } else {
            return Err(crate::Error::Decode);
        };
        let last_install = match get_opt_datetime(j, "lastinstall") {
            Ok(x) => x,
            Err(e) => {
                return Err(e);
            },
        };
        Ok(SoftwareUpdate { state, last_install })
    }
}

/// Startup configuration of a light.
#[derive(Clone, Debug, Eq, PartialEq)]
pub struct StartupConfig {
    /// Mode of the startup.
    pub mode: String,
    /// Whether startup is configured for the light.
    pub configured: bool,
}

/// The model of a light's startup configuration.
pub struct StartupConfigView {
    /// Mode of the startup.
    pub mode: Seq<char>,
    /// Whether startup is configured for the light.
    pub configured: bool,
}

impl View for StartupConfig {
    type V = StartupConfigView;

    open spec fn view(&self) -> StartupConfigView {
        StartupConfigView { mode: self.mode@, configured: self.configured }
    }
}

/// The startup configuration described by a JSON value.
pub open spec fn startup_config_of(v: JVal) -> Option<StartupConfigView> {
    match (req_str_of(v, "mode"@), req_bool_of(v, "configured"@)) {
        (Some(mode), Some(configured)) => Some(StartupConfigView { mode, configured }),
        _ => None,
    }
}

impl StartupConfig {
    /// Decodes a light's startup configuration from its JSON body.
    pub fn from_json(j: &Json) -> (r: Result<StartupConfig, crate::Error>)
        ensures
            match startup_config_of(j@) {
                Some(sv) => r is Ok && r->Ok_0@ == sv,
                None => r == Err::<StartupConfig, crate::Error>(crate::Error::Decode),
            },
    {
        let mode = match get_req_str(j, "mode") {
            Ok(s) => s,
            Err(e) => {
                return Err(e);
            },
        };
        let configured = match get_req_bool(j, "configured") {
            Ok(b) => b,
            Err(e) => {
                return Err(e);
            },
        };
        Ok(StartupConfig { mode, configured })
    }
}

/// Configuration of a light.
#[derive(Clone, Debug, Eq, PartialEq)]
pub struct Config {
    /// Arche type of the light.
    pub arche_type: String,
    /// Function of the light.
    pub function: String,
    /// Direction of the light.
    pub direction: String,
    /// Startup configuration of the light.
    pub startup: Option<StartupConfig>,
}

/// The model of a light's configuration.
pub struct ConfigView {
    /// Arche type of the light.
    pub arche_type: Seq<char>,
    /// Function of the light.
    pub function: Seq<char>,
    /// Direction of the light.
    pub direction: Seq<char>,
    /// Startup configuration of the light.
    pub startup: Option<StartupConfigView>,
}

impl View for Config {
    type V = ConfigView;

    open spec fn view(&self) -> ConfigView {
        ConfigView {
            arche_type: self.arche_type@,
            function: self.function@,
            direction: self.direction@,
            startup: match self.startup {
                Some(s) => Some(s@),
                None => None,
            },
        }
    }
}

/// The light configuration described by a JSON value.
pub open spec fn config_of(v: JVal) -> Option<ConfigView> {
    match (req_str_of(v, "archetype"@), req_str_of(v, "function"@), req_str_of(v, "direction"@)) {
        (Some(arche_type), Some(function), Some(direction)) => {
            match jval_get(v, "startup"@) {
                None => Some(ConfigView { arche_type, function, direction, startup: None }),
                Some(JVal::Null) => Some(
                    ConfigView { arche_type, function, direction, startup: None },
                ),
                Some(sv) => match startup_config_of(sv) {
                    Some(st) => Some(
                        ConfigView { arche_type, function, direction, startup: Some(st) },
                    ),
                    None => None,
                },
            }
        },
        _ => None,
    }
}

impl Config {
    /// Decodes a light's configuration from its JSON body.
    pub fn from_json(j: &Json) -> (r: Result<Config, crate::Error>)
        ensures
            match config_of(j@) {
                Some(cv) => r is Ok && r->Ok_0@ == cv,
                None => r == Err::<Config, crate::Error>(crate::Error::Decode),
            },
    {
        let arche_type = match get_req_str(j, "archetype") {
            Ok(s) => s,
            Err(e) => {
                return Err(e);
            },
        };
        let function = match get_req_str(j, "function") {
            Ok(s) => s,
            Err(e) => {
                return Err(e);
            },
        };
        let direction = match get_req_str(j, "direction") {
            Ok(s) => s,
            Err(e) => {
                return Err(e);
            },
        };
        let startup = match j.get("startup") {
            None => None,
            Some(Json::Null) => None,
            Some(sv) => match StartupConfig::from_json(sv) {
                Ok(st) => Some(st),
                Err(e) => {
                    return Err(e);
                },
            },
        };
        Ok(Config { arche_type, function, direction, startup })
    }
}

/// Color temperature capabilities of a light.
#[derive(Clone, Copy, Debug, Eq, PartialEq)]
pub struct ColorTemperatureCapabilities {
    /// Minimal color temperature.
    pub min: usize,
    /// Maximal color temperature.
    pub max: usize,
}

/// The color temperature capabilities described by a JSON value.
pub open spec fn ct_capabilities_of(v: JVal) -> Option<ColorTemperatureCapabilities> {
    match (jval_get(v, "min"@), jval_get(v, "max"@)) {
        (Some(JVal::Int(mn)), Some(JVal::Int(mx))) => {
            if 0 <= mn <= usize::MAX && 0 <= mx <= usize::MAX {
                Some(ColorTemperatureCapabilities { min: mn as usize, max: mx as usize })
            } else {
                None
            }
        },
        _ => None,
    }
}

impl ColorTemperatureCapabilities {
    /// Decodes color temperature capabilities from their JSON body.
    pub fn from_json(j: &Json) -> (r: Result<ColorTemperatureCapabilities, crate::Error>)
        ensures
            match ct_capabilities_of(j@) {
                Some(cv) => r == Ok::<ColorTemperatureCapabilities, crate::Error>(cv),
                None => r == Err::<ColorTemperatureCapabilities, crate::Error>(
                    crate::Error::Decode,
                ),
            },
    {
        let min = match j.get("min") {
            Some(Json::Int(t)) => {
                if *t >= 0 && (*t as u64) <= (usize::MAX as u64) {
                    *t as usize
                } else {
                    return Err(crate::Error::Decode);
                }
            },
            _ => {
                return Err(crate::Error::Decode);
            },
        };
        let max = match j.get("max") {
            Some(Json::Int(t)) => {
                if *t >= 0 && (*t as u64) <= (usize::MAX as u64) {
                    *t as usize
                } else {
                    return Err(crate::Error::Decode);
                }
            },
            _ => {
                return Err(crate::Error::Decode);
            },
        };
        Ok(ColorTemperatureCapabilities { min, max })
    }
}

/// Streaming capabilities of a light.
#[derive(Clone, Copy, Debug, Eq, PartialEq)]
pub struct StreamingCapabilities {
    /// Whether a renderer is enabled.
    pub renderer: bool,
    /// Whether a proxy is enabled.
    pub proxy: bool,
}

/// The streaming capabilities described by a JSON value.
pub open spec fn streaming_capabilities_of(v: JVal) -> Option<StreamingCapabilities> {
    match (req_bool_of(v, "renderer"@), req_bool_of(v, "proxy"@)) {
        (Some(renderer), Some(proxy)) => Some(StreamingCapabilities { renderer, proxy }),
        _ => None,
    }
}

impl StreamingCapabilities {
    /// Decodes streaming capabilities from their JSON body.
    pub fn from_json(j: &Json) -> (r: Result<StreamingCapabilities, crate::Error>)
        ensures
            match streaming_capabilities_of(j@) {
                Some(cv) => r == Ok::<StreamingCapabilities, crate::Error>(cv),
                None => r == Err::<StreamingCapabilities, crate::Error>(crate::Error::Decode),
            },
    {
        let renderer = match get_req_bool(j, "renderer") {
            Ok(b) => b,
            Err(e) => {
                return Err(e);
            },
        };
        let proxy = match get_req_bool(j, "proxy") {
            Ok(b) => b,
            Err(e) => {
                return Err(e);
            },
        };
        Ok(StreamingCapabilities { renderer, proxy })
    }
}

/// Control capabilities of a light.
#[derive(Clone, Debug, Eq, PartialEq)]
pub struct ControlCapabilities {
    /// Minimal dimlevel of the light.
    pub min_dimlevel: Option<usize>,
    /// Maximal lumen of the light.
    pub max_lumen: Option<usize>,
    /// Type of the color gamut of the light.
    pub color_gamut_type: Option<String>,
    /// Maximal/minimal color temperature of the light.
    pub color_temperature: Option<ColorTemperatureCapabilities>,
}

/// The model of a light's control capabilities.
pub struct ControlCapabilitiesView {
    /// Minimal dimlevel of the light.
    pub min_dimlevel: Option<usize>,
    /// Maximal lumen of the light.
    pub max_lumen: Option<usize>,
    /// Type of the color gamut of the light.
    pub color_gamut_type: Option<Seq<char>>,
    /// Maximal/minimal color temperature of the light.
    pub color_temperature: Option<ColorTemperatureCapabilities>,
}

impl View for ControlCapabilities {
    type V = ControlCapabilitiesView;

    open spec fn view(&self) -> ControlCapabilitiesView {
        ControlCapabilitiesView {
            min_dimlevel: self.min_dimlevel,
            max_lumen: self.max_lumen,
            color_gamut_type: match self.color_gamut_type {
                Some(s) => Some(s@),
                None => None,
            },
            color_temperature: self.color_temperature,
        }
    }
}

/// The control capabilities described by a JSON value.
pub open spec fn control_capabilities_of(v: JVal) -> Option<ControlCapabilitiesView> {
    match (
        opt_int_of(v, "mindimlevel"@, 0, usize::MAX as int),
        opt_int_of(v, "maxlumen"@, 0, usize::MAX as int),
        opt_str_of(v, "colorgamuttype"@),
    ) {
        (Some(md), Some(ml), Some(gt)) => {
            let ct = match jval_get(v, "ct"@) {
                None => Some(None),
                Some(JVal::Null) => Some(None),
                Some(cv) => match ct_capabilities_of(cv) {
                    Some(c) => Some(Some(c)),
                    None => None::<Option<ColorTemperatureCapabilities>>,
                },
            };
            match ct {
                Some(color_temperature) => Some(
                    ControlCapabilitiesView {
                        min_dimlevel: match md {
                            Some(t) => Some(t as usize),
                            None => None,
                        },
                        max_lumen: match ml {
                            Some(t) => Some(t as usize),
                            None => None,
                        },
                        color_gamut_type: gt,
                        color_temperature,
                    },
                ),
                None => None,
            }
        },
        _ => None,
    }
}

impl ControlCapabilities {
    /// Decodes a light's control capabilities from their JSON body.
    pub fn from_json(j: &Json) -> (r: Result<ControlCapabilities, crate::Error>)
        ensures
            match control_capabilities_of(j@) {
                Some(cv) => r is Ok && r->Ok_0@ == cv,
                None => r == Err::<ControlCapabilities, crate::Error>(crate::Error::Decode),
            },
    {
        let min_dimlevel = match get_opt_usize(j, "mindimlevel") {
            Ok(x) => x,
            Err(e) => {
                return Err(e);
            },
        };
        let max_lumen = match get_opt_usize(j, "maxlumen") {
            Ok(x) => x,
            Err(e) => {
                return Err(e);
            },
        };
        let color_gamut_type = match get_opt_str(j, "colorgamuttype") {
            Ok(x) => x,
            Err(e) => {
                return Err(e);
            },
        };
        let color_temperature = match j.get("ct") {
            None => None,
            Some(Json::Null) => None,
            Some(cv) => match ColorTemperatureCapabilities::from_json(cv) {
                Ok(c) => Some(c),
                Err(e) => {
                    return Err(e);
                },
            },
        };
        Ok(ControlCapabilities { min_dimlevel, max_lumen, color_gamut_type, color_temperature })
    }
}

/// Capabilities of a light.
#[derive(Clone, Debug, Eq, PartialEq)]
pub struct Capabilities {
    /// Whether the light is certified.
    pub certified: bool,
    /// Control capabilities of the light.
    pub control: ControlCapabilities,
    /// Streaming capabilities of the light.
    pub streaming: StreamingCapabilities,
}

/// The model of a light's capabilities.
pub struct CapabilitiesView {
    /// Whether the light is certified.
    pub certified: bool,
    /// Control capabilities of the light.
    pub control: ControlCapabilitiesView,
    /// Streaming capabilities of the light.
    pub streaming: StreamingCapabilities,
}

impl View for Capabilities {
    type V = CapabilitiesView;

    open spec fn view(&self) -> CapabilitiesView {
        CapabilitiesView {
            certified: self.certified,
            control: self.control@,
            streaming: self.streaming,
        }
    }
}

/// The capabilities described by a JSON value.
pub open spec fn capabilities_of(v: JVal) -> Option<CapabilitiesView> {
    match req_bool_of(v, "certified"@) {
        Some(certified) => match jval_get(v, "control"@) {
            Some(ctrl) => match control_capabilities_of(ctrl) {
                Some(control) => match jval_get(v, "streaming"@) {
                    Some(st) => match streaming_capabilities_of(st) {
                        Some(streaming) => Some(CapabilitiesView { certified, control, streaming }),
                        None => None,
                    },
                    None => None,
                },
                None => None,
            },
            None => None,
        },
        None => None,
    }
}

impl Capabilities {
    /// Decodes a light's capabilities from their JSON body.
    pub fn from_json(j: &Json) -> (r: Result<Capabilities, crate::Error>)
        ensures
            match capabilities_of(j@) {
                Some(cv) => r is Ok && r->Ok_0@ == cv,
                None => r == Err::<Capabilities, crate::Error>(crate::Error::Decode),
            },
    {
        let certified = match get_req_bool(j, "certified") {
            Ok(b) => b,
            Err(e) => {
                return Err(e);
            },
        };
        let control = match j.get("control") {
            Some(cv) => match ControlCapabilities::from_json(cv) {
                Ok(c) => c,
                Err(e) => {
                    return Err(e);
                },
            },
            None => {
                return Err(crate::Error::Decode);
            },
        };
        let streaming = match j.get("streaming") {
            Some(sv) => match StreamingCapabilities::from_json(sv) {
                Ok(s) => s,
                Err(e) => {
                    return Err(e);
                },
            },
            None => {
                return Err(crate::Error::Decode);
            },
        };
        Ok(Capabilities { certified, control, streaming })
    }
}

/// A light.
#[derive(Clone, Debug, Eq, PartialEq)]
pub struct Light {
    /// Identifier of the light.
    pub id: String,
    /// Name of the light.
    pub name: String,
    /// Type of the light.
    pub kind: String,
    /// Current state of the light.
    pub state: State,
    /// The hardware model of the light.
    pub model_id: String,
    /// Unique ID of the light.
    pub unique_id: String,
    /// Product ID of the light.
    pub product_id: Option<String>,
    /// Product name of the light.
    pub product_name: Option<String>,
    /// Manufacturer name of the light.
    pub manufacturer_name: Option<String>,
    /// The software version running on the light.
    pub software_version: String,
    /// Information about software updates of the light.
    pub software_update: SoftwareUpdate,
    /// Configuration of the light.
    pub config: Config,
    /// Capabilities of the light.
    pub capabilities: Capabilities,
}

/// The model of a light.
pub struct LightView {
    /// Identifier of the light.
    pub id: Seq<char>,
    /// Name of the light.
    pub name: Seq<char>,
    /// Type of the light.
    pub kind: Seq<char>,
    /// Current state of the light.
    pub state: State,
    /// The hardware model of the light.
    pub model_id: Seq<char>,
    /// Unique ID of the light.
    pub unique_id: Seq<char>,
    /// Product ID of the light.
    pub product_id: Option<Seq<char>>,
    /// Product name of the light.
    pub product_name: Option<Seq<char>>,
    /// Manufacturer name of the light.
    pub manufacturer_name: Option<Seq<char>>,
    /// The software version running on the light.
    pub software_version: Seq<char>,
    /// Information about software updates of the light.
    pub software_update: SoftwareUpdateView,
    /// Configuration of the light.
    pub config: ConfigView,
    /// Capabilities of the light.
    pub capabilities: CapabilitiesView,
}

/// The view of an optional owned string.
pub open spec fn opt_view(s: Option<String>) -> Option<Seq<char>> {
    match s {
        Some(x) => Some(x@),
        None => None,
    }
}

impl View for Light {
    type V = LightView;

    open spec fn view(&self) -> LightView {
        LightView {
            id: self.id@,
            name: self.name@,
            kind: self.kind@,
            state: self.state,
            model_id: self.model_id@,
            unique_id: self.unique_id@,
            product_id: opt_view(self.product_id),
            product_name: opt_view(self.product_name),
            manufacturer_name: opt_view(self.manufacturer_name),
            software_version: self.software_version@,
            software_update: self.software_update@,
            config: self.config@,
            capabilities: self.capabilities@,
        }
    }
}

/// The light described by a JSON value, if it carries every required
/// attribute in the right shape. The identifier is not part of the body; the
/// described value carries an empty one.
pub open spec fn light_of(v: JVal) -> Option<LightView> {
    if req_str_of(v, "name"@) is None {
        None
    } else if req_str_of(v, "type"@) is None {
        None
    } else if !(jval_get(v, "state"@) is Some && state_of(jval_get(v, "state"@)->Some_0) is Some) {
        None
    } else if req_str_of(v, "modelid"@) is None {
        None
    } else if req_str_of(v, "uniqueid"@) is None {
        None
    } else if opt_str_of(v, "productid"@) is None {
        None
    } else if opt_str_of(v, "productname"@) is None {
        None
    } else if opt_str_of(v, "manufacturername"@) is None {
        None
    } else if req_str_of(v, "swversion"@) is None {
        None
    } else if !(jval_get(v, "swupdate"@) is Some && software_update_of(
        jval_get(v, "swupdate"@)->Some_0,
    ) is Some) {
        None
    } else if !(jval_get(v, "config"@) is Some && config_of(jval_get(v, "config"@)->Some_0)
        is Some) {
        None
    } else if !(jval_get(v, "capabilities"@) is Some && capabilities_of(
        jval_get(v, "capabilities"@)->Some_0,
    ) is Some) {
        None
    } else {
        Some(
            LightView {
                id: Seq::empty(),
                name: req_str_of(v, "name"@)->Some_0,
                kind: req_str_of(v, "type"@)->Some_0,
                state: state_of(jval_get(v, "state"@)->Some_0)->Some_0,
                model_id: req_str_of(v, "modelid"@)->Some_0,
                unique_id: req_str_of(v, "uniqueid"@)->Some_0,
                product_id: opt_str_of(v, "productid"@)->Some_0,
                product_name: opt_str_of(v, "productname"@)->Some_0,
                manufacturer_name: opt_str_of(v, "manufacturername"@)->Some_0,
                software_version: req_str_of(v, "swversion"@)->Some_0,
                software_update: software_update_of(jval_get(v, "swupdate"@)->Some_0)->Some_0,
                config: config_of(jval_get(v, "config"@)->Some_0)->Some_0,
                capabilities: capabilities_of(jval_get(v, "capabilities"@)->Some_0)->Some_0,
            },
        )
    }
}

impl Light {
    /// Decodes a light from its JSON body. The body never carries the
    /// identifier; the decoded value holds an empty one until it is injected.
    pub fn from_json(j: &Json) -> (r: Result<Light, crate::Error>)
        ensures
            match light_of(j@) {
                Some(lv) => r is Ok && r->Ok_0@ == lv,
                None => r == Err::<Light, crate::Error>(crate::Error::Decode),
            },
    {
        let name = match get_req_str(j, "name") {
            Ok(s) => s,
            Err(e) => {
                return Err(e);
            },
        };
        let kind = match get_req_str(j, "type") {
            Ok(s) => s,
            Err(e) => {
                return Err(e);
            },
        };
        let state = match j.get("state") {
            Some(sv) => match State::from_json(sv) {
                Ok(s) => s,
                Err(e) => {
                    return Err(e);
                },
            },
            None => {
                return Err(crate::Error::Decode);
            },
        };
        let model_id = match get_req_str(j, "modelid") {
            Ok(s) => s,
            Err(e) => {
                return Err(e);
            },
        };
        let unique_id = match get_req_str(j, "uniqueid") {
            Ok(s) => s,
            Err(e) => {
                return Err(e);
            },
        };
        let product_id = match get_opt_str(j, "productid") {
            Ok(x) => x,
            Err(e) => {
                return Err(e);
            },
        };
        let product_name = match get_opt_str(j, "productname") {
            Ok(x) => x,
            Err(e) => {
                return Err(e);
            },
        };
        let manufacturer_name = match get_opt_str(j, "manufacturername") {
            Ok(x) => x,
            Err(e) => {
                return Err(e);
            },
        };
        let software_version = match get_req_str(j, "swversion") {
            Ok(s) => s,
            Err(e) => {
                return Err(e);
            },
        };
        let software_update = match j.get("swupdate") {
            Some(sv) => match SoftwareUpdate::from_json(sv) {
                Ok(s) => s,
                Err(e) => {
                    return Err(e);
                },
            },
            None => {
                return Err(crate::Error::Decode);
            },
        };
        let config = match j.get("config") {
            Some(cv) => match Config::from_json(cv) {
                Ok(c) => c,
                Err(e) => {
                    return Err(e);
                },
            },
            None => {
                return Err(crate::Error::Decode);
            },
        };
        let capabilities = match j.get("capabilities") {
            Some(cv) => match Capabilities::from_json(cv) {
                Ok(c) => c,
                Err(e) => {
                    return Err(e);
                },
            },
            None => {
                return Err(crate::Error::Decode);
            },
        };
        let r = Light {
            id: String::new(),
            name,
            kind,
            state,
            model_id,
            unique_id,
            product_id,
            product_name,
            manufacturer_name,
            software_version,
            software_update,
            config,
            capabilities,
        };
        proof {
            assert(r@.id =~= Seq::<char>::empty());
        }
        Ok(r)
    }

    /// Injects the bridge-assigned identifier into a decoded light.
    pub fn with_id(self, id: String) -> (r: Self)
        ensures
            r@ == (LightView { id: id@, ..self@ }),
    {
        Light { id, ..self }
    }
}

/// Modifier for light attributes.
#[derive(Clone, Debug, Default, Eq, PartialEq)]
pub struct AttributeModifier {
    /// Sets the name of the light.
    pub name: Option<String>,
}

/// The wire-format pairs of a light attribute modifier: only set fields.
pub open spec fn attribute_modifier_pairs(m: AttributeModifier) -> Seq<(Seq<char>, JVal)> {
    match m.name {
        Some(n) => seq![("name"@, JVal::Str(n@))],
        None => seq![],
    }
}

impl AttributeModifier {
    /// Creates a new [`AttributeModifier`] with every field unset.
    pub fn new() -> (r: Self)
        ensures
            r.name is None,
    {
        Self { name: None }
    }

    /// Sets the name of the light.
    pub fn with_name(self, value: String) -> (r: Self)
        ensures
            r.name == Some(value),
    {
        AttributeModifier { name: Some(value) }
    }

    /// Serializes this modifier into the bridge's flat wire format: only set
    /// fields are emitted.
    pub fn to_json(&self) -> (r: Json)
        ensures
            r@ == JVal::Obj(attribute_modifier_pairs(*self)),
    {
        let mut pairs: Vec<(String, Json)> = Vec::new();
        if let Some(n) = &self.name {
            pairs.push((String::from_str("name"), Json::Str(n.clone())));
        }
        proof {
            crate::json::lemma_model_pairs(pairs@);
            assert(Json::model_pairs(pairs@) =~~= attribute_modifier_pairs(*self));
        }
        Json::Obj(pairs)
    }
}

/// The wire-format pairs of one 8-bit adjustable field: the base key with
/// the absolute value, or the suffixed key with the signed delta, widened one
/// integer rank.
pub open spec fn adjuster_pairs_u8(
    key: Seq<char>,
    key_inc: Seq<char>,
    a: Option<crate::resource::Adjuster<u8, i16>>,
) -> Seq<(Seq<char>, JVal)> {
    match a {
        Some(crate::resource::Adjuster::Override(v)) => seq![(key, JVal::Int(v as int))],
        Some(crate::resource::Adjuster::Increment(d)) => seq![(key_inc, JVal::Int(d as int))],
        None => seq![],
    }
}

/// The wire-format pairs of one 16-bit adjustable field: the base key with
/// the absolute value, or the suffixed key with the signed delta, widened one
/// integer rank.
pub open spec fn adjuster_pairs_u16(
    key: Seq<char>,
    key_inc: Seq<char>,
    a: Option<crate::resource::Adjuster<u16, i32>>,
) -> Seq<(Seq<char>, JVal)> {
    match a {
        Some(crate::resource::Adjuster::Override(v)) => seq![(key, JVal::Int(v as int))],
        Some(crate::resource::Adjuster::Increment(d)) => seq![(key_inc, JVal::Int(d as int))],
        None => seq![],
    }
}




/// The wire-format pairs of one optional alert field.
pub open spec fn opt_alert_pair(key: Seq<char>, v: Option<Alert>) -> Seq<(Seq<char>, JVal)> {
    match v {
        Some(a) => seq![(key, JVal::Str(crate::resource::alert_name(a)))],
        None => seq![],
    }
}

/// The wire-format pairs of one optional dynamic-effect field.
pub open spec fn opt_effect_pair(key: Seq<char>, v: Option<Effect>) -> Seq<(Seq<char>, JVal)> {
    match v {
        Some(e) => seq![(key, JVal::Str(crate::resource::effect_name(e)))],
        None => seq![],
    }
}





/// Appends the wire-format pairs of one optional alert field.
fn push_alert_field(pairs: &mut Vec<(String, Json)>, key: &str, v: &Option<Alert>)
    ensures
        Json::model_pairs(final (pairs)@) == Json::model_pairs(old(pairs)@) + opt_alert_pair(
            key@,
            *v,
        ),
{
    if let Some(a) = v {
        let name = match a {
            Alert::Select => "select",
            Alert::LSelect => "lselect",
            Alert::Off => "none",
        };
        push_pair(pairs, key, Json::Str(String::from_str(name)));
    } else {
        proof {
            assert(Json::model_pairs(pairs@) + opt_alert_pair(key@, *v) =~= Json::model_pairs(
                pairs@,
            ));
        }
    }
}

/// Appends the wire-format pairs of one optional dynamic-effect field.
fn push_effect_field(pairs: &mut Vec<(String, Json)>, key: &str, v: &Option<Effect>)
    ensures
        Json::model_pairs(final (pairs)@) == Json::model_pairs(old(pairs)@) + opt_effect_pair(
            key@,
            *v,
        ),
{
    if let Some(e) = v {
        let name = match e {
            Effect::Colorloop => "colorloop",
            Effect::Off => "none",
        };
        push_pair(pairs, key, Json::Str(String::from_str(name)));
    } else {
        proof {
            assert(Json::model_pairs(pairs@) + opt_effect_pair(key@, *v) =~= Json::model_pairs(
                pairs@,
            ));
        }
    }
}

/// Appends the wire-format pairs of one 8-bit adjustable field.
fn push_adjuster_u8_field(
    pairs: &mut Vec<(String, Json)>,
    key: &str,
    key_inc: &str,
    v: &Option<crate::resource::Adjuster<u8, i16>>,
)
    ensures
        Json::model_pairs(final (pairs)@) == Json::model_pairs(old(pairs)@) + adjuster_pairs_u8(
            key@,
            key_inc@,
            *v,
        ),
{
    match v {
        Some(crate::resource::Adjuster::Override(t)) => {
            push_pair(pairs, key, Json::Int(*t as i64));
        },
        Some(crate::resource::Adjuster::Increment(d)) => {
            push_pair(pairs, key_inc, Json::Int(*d as i64));
        },
        None => {
            proof {
                assert(Json::model_pairs(pairs@) + adjuster_pairs_u8(key@, key_inc@, *v)
                    =~= Json::model_pairs(pairs@));
            }
        },
    }
}

/// Appends the wire-format pairs of one 16-bit adjustable field.
fn push_adjuster_u16_field(
    pairs: &mut Vec<(String, Json)>,
    key: &str,
    key_inc: &str,
    v: &Option<crate::resource::Adjuster<u16, i32>>,
)
    ensures
        Json::model_pairs(final (pairs)@) == Json::model_pairs(old(pairs)@) + adjuster_pairs_u16(
            key@,
            key_inc@,
            *v,
        ),
{
    match v {
        Some(crate::resource::Adjuster::Override(t)) => {
            push_pair(pairs, key, Json::Int(*t as i64));
        },
        Some(crate::resource::Adjuster::Increment(d)) => {
            push_pair(pairs, key_inc, Json::Int(*d as i64));
        },
        None => {
            proof {
                assert(Json::model_pairs(pairs@) + adjuster_pairs_u16(key@, key_inc@, *v)
                    =~= Json::model_pairs(pairs@));
            }
        },
    }
}

/// Modifier for the light state.
#[derive(Clone, Copy, Debug, Default, Eq, PartialEq)]
pub struct StateModifier {
    /// Turns the light on or off.
    pub on: Option<bool>,
    /// Sets the brightness of the light.
    pub brightness: Option<crate::resource::Adjuster<u8, i16>>,
    /// Sets the hue of a light.
    pub hue: Option<crate::resource::Adjuster<u16, i32>>,
    /// Sets the saturation of a light.
    pub saturation: Option<crate::resource::Adjuster<u8, i16>>,
    /// Sets the color temperature of a light.
    pub color_temperature: Option<crate::resource::Adjuster<u16, i32>>,
    /// Sets the alert effect of a light.
    pub alert: Option<Alert>,
    /// Sets the dynamic effect of a light.
    pub effect: Option<Effect>,
    /// Sets the transition duration of state changes.
    ///
    /// This is given as a multiple of 100ms.
    pub transition_time: Option<u16>,
}

/// The wire-format pairs of a light state modifier: only set fields, in
/// declaration order, each adjustable field under its base key for an
/// absolute value or its `_inc` key for a signed delta.
pub open spec fn state_modifier_pairs(m: StateModifier) -> Seq<(Seq<char>, JVal)> {
    opt_bool_pair("on"@, m.on) + adjuster_pairs_u8("bri"@, "bri_inc"@, m.brightness)
        + adjuster_pairs_u16("hue"@, "hue_inc"@, m.hue) + adjuster_pairs_u8(
        "sat"@,
        "sat_inc"@,
        m.saturation,
    ) + adjuster_pairs_u16("ct"@, "ct_inc"@, m.color_temperature) + opt_alert_pair(
        "alert"@,
        m.alert,
    ) + opt_effect_pair("effect"@, m.effect) + opt_u16_pair("transitiontime"@, m.transition_time)
}

impl StateModifier {
    /// Creates a new [`StateModifier`] with every field unset.
    pub fn new() -> (r: Self)
        ensures
            r.on is None,
            r.brightness is None,
            r.hue is None,
            r.saturation is None,
            r.color_temperature is None,
            r.alert is None,
            r.effect is None,
            r.transition_time is None,
    {
        Self {
            on: None,
            brightness: None,
            hue: None,
            saturation: None,
            color_temperature: None,
            alert: None,
            effect: None,
            transition_time: None,
        }
    }

    /// Turns the light on or off.
    pub fn with_on(self, value: bool) -> (r: Self)
        ensures
            r == (StateModifier { on: Some(value), ..self }),
    {
        StateModifier { on: Some(value), ..self }
    }

    /// Sets the brightness of the light.
    pub fn with_brightness(self, value: crate::resource::Adjuster<u8, i16>) -> (r: Self)
        ensures
            r == (StateModifier { brightness: Some(value), ..self }),
    {
        StateModifier { brightness: Some(value), ..self }
    }

    /// Sets the hue of a light.
    pub fn with_hue(self, value: crate::resource::Adjuster<u16, i32>) -> (r: Self)
        ensures
            r == (StateModifier { hue: Some(value), ..self }),
    {
        StateModifier { hue: Some(value), ..self }
    }

    /// Sets the saturation of a light.
    pub fn with_saturation(self, value: crate::resource::Adjuster<u8, i16>) -> (r: Self)
        ensures
            r == (StateModifier { saturation: Some(value), ..self }),
    {
        StateModifier { saturation: Some(value), ..self }
    }

    /// Sets the color temperature of a light.
    pub fn with_color_temperature(self, value: crate::resource::Adjuster<u16, i32>) -> (r: Self)
        ensures
            r == (StateModifier { color_temperature: Some(value), ..self }),
    {
        StateModifier { color_temperature: Some(value), ..self }
    }

    /// Sets the alert effect of a light.
    pub fn with_alert(self, value: Alert) -> (r: Self)
        ensures
            r == (StateModifier { alert: Some(value), ..self }),
    {
        StateModifier { alert: Some(value), ..self }
    }

    /// Sets the dynamic effect of a light.
    pub fn with_effect(self, value: Effect) -> (r: Self)
        ensures
            r == (StateModifier { effect: Some(value), ..self }),
    {
        StateModifier { effect: Some(value), ..self }
    }

    /// Sets the transition duration of state changes.
    pub fn with_transition_time(self, value: u16) -> (r: Self)
        ensures
            r == (StateModifier { transition_time: Some(value), ..self }),
    {
        StateModifier { transition_time: Some(value), ..self }
    }

    /// Serializes this modifier into the bridge's flat wire format: only set
    /// fields are emitted, an absolute value under the base key and a signed
    /// delta under the `_inc` key.
    pub fn to_json(&self) -> (r: Json)
        ensures
            r@ == JVal::Obj(state_modifier_pairs(*self)),
    {
        let mut pairs: Vec<(String, Json)> = Vec::new();
        push_bool_field(&mut pairs, "on", &self.on);
        push_adjuster_u8_field(&mut pairs, "bri", "bri_inc", &self.brightness);
        push_adjuster_u16_field(&mut pairs, "hue", "hue_inc", &self.hue);
        push_adjuster_u8_field(&mut pairs, "sat", "sat_inc", &self.saturation);
        push_adjuster_u16_field(&mut pairs, "ct", "ct_inc", &self.color_temperature);
        push_alert_field(&mut pairs, "alert", &self.alert);
        push_effect_field(&mut pairs, "effect", &self.effect);
        push_u16_field(&mut pairs, "transitiontime", &self.transition_time);
        proof {
            assert(Seq::<(Seq<char>, JVal)>::empty() + opt_bool_pair("on"@, self.on)
                =~= opt_bool_pair("on"@, self.on));
        }
        Json::Obj(pairs)
    }
}

/// Static modifier for the light state.
///
/// In comparison to [`StateModifier`], this modifier cannot
/// increment/decrement any attributes or change the alert effect.
#[derive(Clone, Copy, Debug, Default, Eq, PartialEq)]
pub struct StaticStateModifier {
    /// Turns the light on or off.
    pub on: Option<bool>,
    /// Sets the brightness of the light.
    pub brightness: Option<u8>,
    /// Sets the hue of the light.
    pub hue: Option<u16>,
    /// Sets the saturation of a light.
    pub saturation: Option<u8>,
    /// Sets the color temperature of a light.
    pub color_temperature: Option<u16>,
    /// Sets the dynamic effect of a light.
    pub effect: Option<Effect>,
    /// Sets the transition duration of state changes.
    ///
    /// This is given as a multiple of 100ms.
    pub transition_time: Option<u16>,
}

/// The wire-format pairs of a static light state modifier: only set fields,
/// in declaration order.
pub open spec fn static_state_modifier_pairs(m: StaticStateModifier) -> Seq<(Seq<char>, JVal)> {
    opt_bool_pair("on"@, m.on) + opt_u8_pair("bri"@, m.brightness) + opt_u16_pair("hue"@, m.hue)
        + opt_u8_pair("sat"@, m.saturation) + opt_u16_pair("ct"@, m.color_temperature)
        + opt_effect_pair("effect"@, m.effect) + opt_u16_pair("transitiontime"@, m.transition_time)
}

impl StaticStateModifier {
    /// Creates a new [`StaticStateModifier`] with every field unset.
    pub fn new() -> (r: Self)
        ensures
            r.on is None,
            r.brightness is None,
            r.hue is None,
            r.saturation is None,
            r.color_temperature is None,
            r.effect is None,
            r.transition_time is None,
    {
        Self {
            on: None,
            brightness: None,
            hue: None,
            saturation: None,
            color_temperature: None,
            effect: None,
            transition_time: None,
        }
    }

    /// Turns the light on or off.
    pub fn with_on(self, value: bool) -> (r: Self)
        ensures
            r == (StaticStateModifier { on: Some(value), ..self }),
    {
        StaticStateModifier { on: Some(value), ..self }
    }

    /// Sets the brightness of the light.
    pub fn with_brightness(self, value: u8) -> (r: Self)
        ensures
            r == (StaticStateModifier { brightness: Some(value), ..self }),
    {
        StaticStateModifier { brightness: Some(value), ..self }
    }

    /// Sets the hue of the light.
    pub fn with_hue(self, value: u16) -> (r: Self)
        ensures
            r == (StaticStateModifier { hue: Some(value), ..self }),
    {
        StaticStateModifier { hue: Some(value), ..self }
    }

    /// Sets the saturation of a light.
    pub fn with_saturation(self, value: u8) -> (r: Self)
        ensures
            r == (StaticStateModifier { saturation: Some(value), ..self }),
    {
        StaticStateModifier { saturation: Some(value), ..self }
    }

    /// Sets the color temperature of a light.
    pub fn with_color_temperature(self, value: u16) -> (r: Self)
        ensures
            r == (StaticStateModifier { color_temperature: Some(value), ..self }),
    {
        StaticStateModifier { color_temperature: Some(value), ..self }
    }

    /// Sets the dynamic effect of a light.
    pub fn with_effect(self, value: Effect) -> (r: Self)
        ensures
            r == (StaticStateModifier { effect: Some(value), ..self }),
    {
        StaticStateModifier { effect: Some(value), ..self }
    }

    /// Sets the transition duration of state changes.
    pub fn with_transition_time(self, value: u16) -> (r: Self)
        ensures
            r == (StaticStateModifier { transition_time: Some(value), ..self }),
    {
        StaticStateModifier { transition_time: Some(value), ..self }
    }

    /// Serializes this modifier into the bridge's flat wire format: only set
    /// fields are emitted.
    pub fn to_json(&self) -> (r: Json)
        ensures
            r@ == JVal::Obj(static_state_modifier_pairs(*self)),
    {
        let mut pairs: Vec<(String, Json)> = Vec::new();
        push_bool_field(&mut pairs, "on", &self.on);
        push_u8_field(&mut pairs, "bri", &self.brightness);
        push_u16_field(&mut pairs, "hue", &self.hue);
        push_u8_field(&mut pairs, "sat", &self.saturation);
        push_u16_field(&mut pairs, "ct", &self.color_temperature);
        push_effect_field(&mut pairs, "effect", &self.effect);
        push_u16_field(&mut pairs, "transitiontime", &self.transition_time);
        proof {
            assert(Seq::<(Seq<char>, JVal)>::empty() + opt_bool_pair("on"@, self.on)
                =~= opt_bool_pair("on"@, self.on));
        }
        Json::Obj(pairs)
    }
}


/// A light state modifier with every field unset serializes to an empty
/// object.
pub proof fn lemma_state_modifier_unset_empty(m: StateModifier)
    requires
        m.on is None,
        m.brightness is None,
        m.hue is None,
        m.saturation is None,
        m.color_temperature is None,
        m.alert is None,
        m.effect is None,
        m.transition_time is None,
    ensures
        state_modifier_pairs(m) == Seq::<(Seq<char>, JVal)>::empty(),
{
    assert(state_modifier_pairs(m) =~= Seq::<(Seq<char>, JVal)>::empty());
}

/// A static light state modifier with every field unset serializes to an
/// empty object.
pub proof fn lemma_static_state_modifier_unset_empty(m: StaticStateModifier)
    requires
        m.on is None,
        m.brightness is None,
        m.hue is None,
        m.saturation is None,
        m.color_temperature is None,
        m.effect is None,
        m.transition_time is None,
    ensures
        static_state_modifier_pairs(m) == Seq::<(Seq<char>, JVal)>::empty(),
{
    assert(static_state_modifier_pairs(m) =~= Seq::<(Seq<char>, JVal)>::empty());
}

/// A light attribute modifier with every field unset serializes to an empty
/// object.
pub proof fn lemma_attribute_modifier_unset_empty(m: AttributeModifier)
    requires
        m.name is None,
    ensures
        attribute_modifier_pairs(m) == Seq::<(Seq<char>, JVal)>::empty(),
{
    assert(attribute_modifier_pairs(m) =~= Seq::<(Seq<char>, JVal)>::empty());
}

/// With only the brightness field set, serialization yields exactly one
/// pair: the base key with the absolute value for an override, or the
/// suffixed key with the signed delta for an increment. Setting both modes
/// at once is impossible by construction: the field holds one tagged value.
pub proof fn lemma_state_modifier_brightness_only(m: StateModifier)
    requires
        m.on is None,
        m.hue is None,
        m.saturation is None,
        m.color_temperature is None,
        m.alert is None,
        m.effect is None,
        m.transition_time is None,
        m.brightness is Some,
    ensures
        match m.brightness->Some_0 {
            crate::resource::Adjuster::Override(v) => state_modifier_pairs(m) == seq![
                ("bri"@, JVal::Int(v as int)),
            ],
            crate::resource::Adjuster::Increment(d) => state_modifier_pairs(m) == seq![
                ("bri_inc"@, JVal::Int(d as int)),
            ],
        },
{
    match m.brightness->Some_0 {
        crate::resource::Adjuster::Override(v) => {
            assert(state_modifier_pairs(m) =~= seq![("bri"@, JVal::Int(v as int))]);
        },
        crate::resource::Adjuster::Increment(d) => {
            assert(state_modifier_pairs(m) =~= seq![("bri_inc"@, JVal::Int(d as int))]);
        },
    }
}

/// With only the hue field set, serialization yields exactly one pair, under
/// the base key or the suffixed key by the field's mode.
pub proof fn lemma_state_modifier_hue_only(m: StateModifier)
    requires
        m.on is None,
        m.brightness is None,
        m.saturation is None,
        m.color_temperature is None,
        m.alert is None,
        m.effect is None,
        m.transition_time is None,
        m.hue is Some,
    ensures
        match m.hue->Some_0 {
            crate::resource::Adjuster::Override(v) => state_modifier_pairs(m) == seq![
                ("hue"@, JVal::Int(v as int)),
            ],
            crate::resource::Adjuster::Increment(d) => state_modifier_pairs(m) == seq![
                ("hue_inc"@, JVal::Int(d as int)),
            ],
        },
{
    match m.hue->Some_0 {
        crate::resource::Adjuster::Override(v) => {
            assert(state_modifier_pairs(m) =~= seq![("hue"@, JVal::Int(v as int))]);
        },
        crate::resource::Adjuster::Increment(d) => {
            assert(state_modifier_pairs(m) =~= seq![("hue_inc"@, JVal::Int(d as int))]);
        },
    }
}

/// With only the saturation field set, serialization yields exactly one
/// pair, under the base key or the suffixed key by the field's mode.
pub proof fn lemma_state_modifier_saturation_only(m: StateModifier)
    requires
        m.on is None,
        m.brightness is None,
        m.hue is None,
        m.color_temperature is None,
        m.alert is None,
        m.effect is None,
        m.transition_time is None,
        m.saturation is Some,
    ensures
        match m.saturation->Some_0 {
            crate::resource::Adjuster::Override(v) => state_modifier_pairs(m) == seq![
                ("sat"@, JVal::Int(v as int)),
            ],
            crate::resource::Adjuster::Increment(d) => state_modifier_pairs(m) == seq![
                ("sat_inc"@, JVal::Int(d as int)),
            ],
        },
{
    match m.saturation->Some_0 {
        crate::resource::Adjuster::Override(v) => {
            assert(state_modifier_pairs(m) =~= seq![("sat"@, JVal::Int(v as int))]);
        },
        crate::resource::Adjuster::Increment(d) => {
            assert(state_modifier_pairs(m) =~= seq![("sat_inc"@, JVal::Int(d as int))]);
        },
    }
}

/// With only the color temperature field set, serialization yields exactly
/// one pair, under the base key or the suffixed key by the field's mode.
pub proof fn lemma_state_modifier_color_temperature_only(m: StateModifier)
    requires
        m.on is None,
        m.brightness is None,
        m.hue is None,
        m.saturation is None,
        m.alert is None,
        m.effect is None,
        m.transition_time is None,
        m.color_temperature is Some,
    ensures
        match m.color_temperature->Some_0 {
            crate::resource::Adjuster::Override(v) => state_modifier_pairs(m) == seq![
                ("ct"@, JVal::Int(v as int)),
            ],
            crate::resource::Adjuster::Increment(d) => state_modifier_pairs(m) == seq![
                ("ct_inc"@, JVal::Int(d as int)),
            ],
        },
{
    match m.color_temperature->Some_0 {
        crate::resource::Adjuster::Override(v) => {
            assert(state_modifier_pairs(m) =~= seq![("ct"@, JVal::Int(v as int))]);
        },
        crate::resource::Adjuster::Increment(d) => {
            assert(state_modifier_pairs(m) =~= seq![("ct_inc"@, JVal::Int(d as int))]);
        },
    }
}

} // verus!

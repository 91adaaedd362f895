//! Serialization of modifiers, creators and reference strings.

use huelib2::bridge::Bridge;
use huelib2::json::Json;
use huelib2::resource::light::{AttributeModifier, StateModifier, StaticStateModifier};
use huelib2::resource::resourcelink::{self, Kind, Link, LinkKind};
use huelib2::resource::schedule::{self, Action, Status};
use huelib2::resource::{Adjuster, Alert, Effect, RequestMethod, Scanner};
use huelib2::Error;

fn s(text: &str) -> String {
    String::from(text)
}

fn empty_obj() -> Json {
    Json::Obj(Vec::new())
}

#[test]
fn unset_state_modifier_serializes_empty() {
    assert_eq!(StateModifier::new().to_json(), empty_obj());
}

#[test]
fn unset_static_state_modifier_serializes_empty() {
    assert_eq!(StaticStateModifier::new().to_json(), empty_obj());
}

#[test]
fn unset_attribute_modifier_serializes_empty() {
    assert_eq!(AttributeModifier::new().to_json(), empty_obj());
}

#[test]
fn unset_resourcelink_modifier_serializes_empty() {
    assert_eq!(resourcelink::Modifier::new().to_json(), empty_obj());
}

#[test]
fn unset_schedule_modifier_serializes_empty() {
    assert_eq!(schedule::Modifier::new().to_json(), empty_obj());
}

#[test]
fn brightness_override_serializes_base_key() {
    let m = StateModifier::new().with_brightness(Adjuster::Override(42));
    assert_eq!(m.to_json(), Json::Obj(vec![(s("bri"), Json::Int(42))]));
}

#[test]
fn brightness_increment_serializes_inc_key() {
    let m = StateModifier::new().with_brightness(Adjuster::Increment(25));
    assert_eq!(m.to_json(), Json::Obj(vec![(s("bri_inc"), Json::Int(25))]));
}

#[test]
fn brightness_negative_increment_stays_signed() {
    let m = StateModifier::new().with_brightness(Adjuster::Increment(-10));
    assert_eq!(m.to_json(), Json::Obj(vec![(s("bri_inc"), Json::Int(-10))]));
}

#[test]
fn hue_override_and_increment_keys() {
    let m = StateModifier::new().with_hue(Adjuster::Override(25500));
    assert_eq!(m.to_json(), Json::Obj(vec![(s("hue"), Json::Int(25500))]));
    let m = StateModifier::new().with_hue(Adjuster::Increment(-30000));
    assert_eq!(m.to_json(), Json::Obj(vec![(s("hue_inc"), Json::Int(-30000))]));
}

#[test]
fn saturation_and_color_temperature_keys() {
    let m = StateModifier::new().with_saturation(Adjuster::Increment(-1));
    assert_eq!(m.to_json(), Json::Obj(vec![(s("sat_inc"), Json::Int(-1))]));
    let m = StateModifier::new().with_color_temperature(Adjuster::Override(153));
    assert_eq!(m.to_json(), Json::Obj(vec![(s("ct"), Json::Int(153))]));
}

#[test]
fn state_modifier_fields_serialize_in_declaration_order() {
    let m = StateModifier::new()
        .with_on(true)
        .with_brightness(Adjuster::Override(1))
        .with_alert(Alert::Select)
        .with_effect(Effect::Colorloop)
        .with_transition_time(4);
    assert_eq!(
        m.to_json(),
        Json::Obj(vec![
            (s("on"), Json::Bool(true)),
            (s("bri"), Json::Int(1)),
            (s("alert"), Json::Str(s("select"))),
            (s("effect"), Json::Str(s("colorloop"))),
            (s("transitiontime"), Json::Int(4)),
        ])
    );
}

#[test]
fn static_state_modifier_serializes_literals() {
    let m = StaticStateModifier::new()
        .with_on(false)
        .with_brightness(254)
        .with_effect(Effect::Off);
    assert_eq!(
        m.to_json(),
        Json::Obj(vec![
            (s("on"), Json::Bool(false)),
            (s("bri"), Json::Int(254)),
            (s("effect"), Json::Str(s("none"))),
        ])
    );
}

#[test]
fn attribute_modifier_serializes_name() {
    let m = AttributeModifier::new().with_name(s("desk"));
    assert_eq!(m.to_json(), Json::Obj(vec![(s("name"), Json::Str(s("desk")))]));
}

#[test]
fn link_decodes_known_kind() {
    let l = Link::from_str("/lights/3").unwrap();
    assert_eq!(l.kind, LinkKind::Light);
    assert_eq!(l.id, s("3"));
}

#[test]
fn link_decode_rejects_unknown_kind() {
    match Link::from_str("/unknowns/3") {
        Err(Error::UnknownLinkKind(k)) => assert_eq!(k, s("unknowns")),
        other => panic!("expected an unknown-kind error, got {:?}", other),
    }
}

#[test]
fn link_decode_rejects_string_without_separator() {
    assert_eq!(Link::from_str("lights"), Err(Error::Decode));
}

#[test]
fn link_decode_uses_last_two_segments() {
    let l = Link::from_str("extra/groups/7").unwrap();
    assert_eq!(l.kind, LinkKind::Group);
    assert_eq!(l.id, s("7"));
}

#[test]
fn link_encodes_reference_string() {
    let l = Link { kind: LinkKind::Schedule, id: s("12") };
    assert_eq!(l.encode(), s("/schedules/12"));
}

#[test]
fn link_kind_names_round_trip() {
    for kind in [
        LinkKind::Group,
        LinkKind::Light,
        LinkKind::Resourcelink,
        LinkKind::Rule,
        LinkKind::Scene,
        LinkKind::Schedule,
        LinkKind::Sensor,
    ] {
        assert_eq!(LinkKind::from_str(kind.to_str()), Some(kind));
    }
    assert_eq!(LinkKind::from_str("unknowns"), None);
}

#[test]
fn resourcelink_creator_serializes_required_and_set_fields() {
    let links = vec![Link { kind: LinkKind::Light, id: s("3") }];
    let c = resourcelink::Creator::new(s("bedroom"), 2, links).with_kind(Kind::Link);
    assert_eq!(
        c.to_json(),
        Json::Obj(vec![
            (s("name"), Json::Str(s("bedroom"))),
            (s("type"), Json::Str(s("Link"))),
            (s("classid"), Json::Int(2)),
            (s("links"), Json::Arr(vec![Json::Str(s("/lights/3"))])),
        ])
    );
}

#[test]
fn resourcelink_modifier_serializes_set_fields() {
    let m = resourcelink::Modifier::new()
        .with_name(s("r"))
        .with_class_id(9);
    assert_eq!(
        m.to_json(),
        Json::Obj(vec![(s("name"), Json::Str(s("r"))), (s("classid"), Json::Int(9))])
    );
}

#[test]
fn schedule_creator_serializes_action_and_local_time() {
    let action = Action {
        address: s("/api/user/lights/1/state"),
        request_method: RequestMethod::Put,
        body: Some(Json::Obj(vec![(s("on"), Json::Bool(true))])),
    };
    let c = schedule::Creator::new(action, s("W124/T06:00:00")).with_status(Status::Enabled);
    assert_eq!(
        c.to_json(),
        Json::Obj(vec![
            (
                s("action"),
                Json::Obj(vec![
                    (s("address"), Json::Str(s("/api/user/lights/1/state"))),
                    (s("method"), Json::Str(s("PUT"))),
                    (s("body"), Json::Obj(vec![(s("on"), Json::Bool(true))])),
                ])
            ),
            (s("local_time"), Json::Str(s("W124/T06:00:00"))),
            (s("status"), Json::Str(s("enabled"))),
        ])
    );
}

#[test]
fn scanner_with_no_devices_serializes_empty() {
    assert_eq!(Scanner::new().to_json(), empty_obj());
}

#[test]
fn scanner_with_devices_serializes_deviceid_list() {
    let sc = Scanner { device_ids: vec![s("45AF34")] };
    assert_eq!(
        sc.to_json(),
        Json::Obj(vec![(s("deviceid"), Json::Arr(vec![Json::Str(s("45AF34"))]))])
    );
}

#[test]
fn increment_spans_the_full_negative_range() {
    // One step from the maximum brightness down to zero needs the widened rank.
    let m = StateModifier::new().with_brightness(Adjuster::Increment(-254));
    assert_eq!(m.to_json(), Json::Obj(vec![(s("bri_inc"), Json::Int(-254))]));
    let m = StateModifier::new().with_color_temperature(Adjuster::Increment(-65535));
    assert_eq!(m.to_json(), Json::Obj(vec![(s("ct_inc"), Json::Int(-65535))]));
}

#[test]
fn resourcelink_creator_serializes_every_field_in_order() {
    let c = resourcelink::Creator::new(s("n"), 65535, vec![])
        .with_description(s("d"))
        .with_owner(s("o"))
        .with_kind(Kind::Link)
        .with_recycle(true);
    assert_eq!(
        c.to_json(),
        Json::Obj(vec![
            (s("name"), Json::Str(s("n"))),
            (s("description"), Json::Str(s("d"))),
            (s("owner"), Json::Str(s("o"))),
            (s("type"), Json::Str(s("Link"))),
            (s("classid"), Json::Int(65535)),
            (s("recycle"), Json::Bool(true)),
            (s("links"), Json::Arr(vec![])),
        ])
    );
}

#[test]
fn schedule_modifier_serializes_set_fields_in_order() {
    let m = schedule::Modifier::new()
        .with_name(s("n"))
        .with_local_time(s("t"))
        .with_status(Status::Disabled)
        .with_auto_delete(true);
    assert_eq!(
        m.to_json(),
        Json::Obj(vec![
            (s("name"), Json::Str(s("n"))),
            (s("local_time"), Json::Str(s("t"))),
            (s("status"), Json::Str(s("disabled"))),
            (s("autodelete"), Json::Bool(true)),
        ])
    );
}

#[test]
fn object_lookup_finds_the_first_binding() {
    let j = Json::Obj(vec![(s("k"), Json::Int(1)), (s("k"), Json::Int(2))]);
    assert_eq!(j.get("k"), Some(&Json::Int(1)));
    assert_eq!(j.get("missing"), None);
}

#[test]
fn bridge_builds_api_urls() {
    let b = Bridge::new(s("192.168.1.2"), s("u1"));
    assert_eq!(b.username(), "u1");
    assert_eq!(b.ip_address(), "192.168.1.2");
    let r = b.get_light_request("7");
    assert_eq!(r.url, s("http://192.168.1.2/api/u1/lights/7"));
    assert_eq!(r.method, RequestMethod::Get);
    assert_eq!(r.body, None);
    let r = b.set_light_state_request("7", &StateModifier::new());
    assert_eq!(r.url, s("http://192.168.1.2/api/u1/lights/7/state"));
    assert_eq!(r.method, RequestMethod::Put);
    assert_eq!(r.body, Some(empty_obj()));
    let r = b.delete_light_request("7");
    assert_eq!(r.method, RequestMethod::Delete);
    let r = b.create_schedule_request(&schedule::Creator::new(
        Action {
            address: s("/a"),
            request_method: RequestMethod::Get,
            body: None,
        },
        s("t"),
    ));
    assert_eq!(r.url, s("http://192.168.1.2/api/u1/schedules"));
    assert_eq!(r.method, RequestMethod::Post);
}

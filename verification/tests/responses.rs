//! Normalization of bridge responses and decoding of resources.

use huelib2::bridge::{
    parse_all_lights, parse_light_response, parse_resourcelink_response, parse_scan_response,
    parse_schedule_response,
};
use huelib2::json::Json;
use huelib2::resource::light::{Light, SoftwareUpdate, SoftwareUpdateState, State};
use huelib2::resource::resourcelink::{Kind, LinkKind, Resourcelink};
use huelib2::resource::schedule::{Schedule, Status};
use huelib2::resource::{LastScan, RequestMethod, Scan};
use huelib2::response::{
    check_all_records, extract_created_id, normalize, parse_modified_records, Modified, Response,
};
use huelib2::Error;

fn s(text: &str) -> String {
    String::from(text)
}

fn obj(pairs: Vec<(&str, Json)>) -> Json {
    Json::Obj(pairs.into_iter().map(|(k, v)| (s(k), v)).collect())
}

fn success_record(payload: Json) -> Json {
    obj(vec![("success", payload)])
}

fn error_record(kind: i64, address: &str, description: &str) -> Json {
    obj(vec![(
        "error",
        obj(vec![
            ("type", Json::Int(kind)),
            ("address", Json::Str(s(address))),
            ("description", Json::Str(s(description))),
        ]),
    )])
}

/// A minimal JSON body for a light: every required attribute, no optional
/// ones.
fn light_body() -> Json {
    obj(vec![
        ("name", Json::Str(s("Desk lamp"))),
        ("type", Json::Str(s("Extended color light"))),
        ("state", obj(vec![("reachable", Json::Bool(true))])),
        ("modelid", Json::Str(s("LCT001"))),
        ("uniqueid", Json::Str(s("ab:cd"))),
        ("swversion", Json::Str(s("1.0"))),
        ("swupdate", obj(vec![("state", Json::Str(s("noupdates")))])),
        (
            "config",
            obj(vec![
                ("archetype", Json::Str(s("sultanbulb"))),
                ("function", Json::Str(s("functional"))),
                ("direction", Json::Str(s("omnidirectional"))),
            ]),
        ),
        (
            "capabilities",
            obj(vec![
                ("certified", Json::Bool(true)),
                ("control", obj(vec![])),
                (
                    "streaming",
                    obj(vec![("renderer", Json::Bool(false)), ("proxy", Json::Bool(false))]),
                ),
            ]),
        ),
    ])
}

#[test]
fn normalize_passes_bare_objects_through() {
    assert_eq!(normalize(&light_body()), Ok(()));
    assert_eq!(normalize(&Json::Int(3)), Ok(()));
    assert_eq!(normalize(&Json::Arr(vec![])), Ok(()));
}

#[test]
fn normalize_fails_on_error_in_last_record() {
    let payload = Json::Arr(vec![
        success_record(obj(vec![("/lights/1/name", Json::Str(s("ok")))])),
        error_record(3, "/lights/1", "not found"),
    ]);
    match normalize(&payload) {
        Err(Error::Response(e)) => {
            assert_eq!(e.kind, 3);
            assert_eq!(e.address, s("/lights/1"));
            assert_eq!(e.description, s("not found"));
        },
        other => panic!("expected a bridge error, got {:?}", other),
    }
}

#[test]
fn normalize_inspects_only_the_last_record() {
    let payload = Json::Arr(vec![
        error_record(3, "/lights/1", "not found"),
        success_record(obj(vec![("/lights/1/name", Json::Str(s("ok")))])),
    ]);
    assert_eq!(normalize(&payload), Ok(()));
}

#[test]
fn delete_succeeds_on_success_records() {
    let payload = Json::Arr(vec![success_record(obj(vec![(
        "/lights/1",
        Json::Str(s("deleted")),
    )]))]);
    assert_eq!(check_all_records(&payload), Ok(()));
}

#[test]
fn delete_checks_every_record() {
    let payload = Json::Arr(vec![
        success_record(obj(vec![("/lights/1/name", Json::Str(s("ok")))])),
        error_record(3, "/lights/1", "not found"),
    ]);
    match check_all_records(&payload) {
        Err(Error::Response(e)) => {
            assert_eq!(e.kind, 3);
            assert_eq!(e.address, s("/lights/1"));
            assert_eq!(e.description, s("not found"));
        },
        other => panic!("expected a bridge error, got {:?}", other),
    }
}

#[test]
fn delete_rejects_payload_that_is_not_records() {
    assert_eq!(check_all_records(&light_body()), Err(Error::Decode));
    assert_eq!(
        check_all_records(&Json::Arr(vec![Json::Int(1)])),
        Err(Error::Decode)
    );
}

#[test]
fn create_returns_the_assigned_identifier() {
    let payload = Json::Arr(vec![success_record(obj(vec![("id", Json::Str(s("5")))]))]);
    assert_eq!(extract_created_id(&payload), Ok(s("5")));
}

#[test]
fn create_fails_without_an_identifier() {
    assert_eq!(extract_created_id(&Json::Arr(vec![])), Err(Error::GetCreatedId));
    let payload = Json::Arr(vec![success_record(obj(vec![]))]);
    assert_eq!(extract_created_id(&payload), Err(Error::GetCreatedId));
}

#[test]
fn create_surfaces_a_bridge_error() {
    let payload = Json::Arr(vec![error_record(101, "/", "link button not pressed")]);
    match extract_created_id(&payload) {
        Err(Error::Response(e)) => assert_eq!(e.kind, 101),
        other => panic!("expected a bridge error, got {:?}", other),
    }
}

#[test]
fn set_returns_all_outcome_records() {
    let payload = Json::Arr(vec![
        success_record(obj(vec![("/lights/1/state/bri", Json::Int(200))])),
        error_record(201, "/lights/1/state/on", "parameter not modifiable"),
    ]);
    let records = parse_modified_records(payload).unwrap();
    assert_eq!(records.len(), 2);
    assert_eq!(
        records[0],
        Response::Success(Modified { address: s("/lights/1/state/bri"), value: Json::Int(200) })
    );
    match &records[1] {
        Response::Error(e) => assert_eq!(e.kind, 201),
        other => panic!("expected an error record, got {:?}", other),
    }
}

#[test]
fn set_rejects_malformed_success_payloads() {
    let payload = Json::Arr(vec![success_record(Json::Int(1))]);
    assert_eq!(parse_modified_records(payload), Err(Error::Decode));
}

#[test]
fn light_decode_injects_requested_id() {
    let light = parse_light_response(&light_body(), s("7")).unwrap();
    assert_eq!(light.id, s("7"));
    assert_eq!(light.name, s("Desk lamp"));
    assert_eq!(light.state.reachable, true);
    assert_eq!(light.state.on, None);
    assert_eq!(light.software_update.state, SoftwareUpdateState::NoUpdates);
}

#[test]
fn light_decode_reads_optional_state_fields() {
    let mut body = light_body();
    if let Json::Obj(pairs) = &mut body {
        pairs[2].1 = obj(vec![
            ("on", Json::Bool(true)),
            ("bri", Json::Int(254)),
            ("hue", Json::Int(46920)),
            ("sat", Json::Int(100)),
            ("ct", Json::Int(153)),
            ("alert", Json::Str(s("lselect"))),
            ("effect", Json::Str(s("none"))),
            ("colormode", Json::Str(s("xy"))),
            ("reachable", Json::Bool(false)),
        ]);
    }
    let light = parse_light_response(&body, s("1")).unwrap();
    assert_eq!(light.state.on, Some(true));
    assert_eq!(light.state.brightness, Some(254));
    assert_eq!(light.state.hue, Some(46920));
    assert_eq!(light.state.saturation, Some(100));
    assert_eq!(light.state.color_temperature, Some(153));
    assert_eq!(
        light.state.color_mode,
        Some(huelib2::resource::ColorMode::ColorSpaceCoordinates)
    );
}

#[test]
fn light_decode_rejects_out_of_range_brightness() {
    let mut body = light_body();
    if let Json::Obj(pairs) = &mut body {
        pairs[2].1 = obj(vec![("bri", Json::Int(300)), ("reachable", Json::Bool(true))]);
    }
    assert_eq!(parse_light_response(&body, s("1")), Err(Error::Decode));
}

#[test]
fn light_decode_rejects_missing_required_field() {
    let body = obj(vec![("name", Json::Str(s("x")))]);
    assert_eq!(parse_light_response(&body, s("1")), Err(Error::Decode));
}

#[test]
fn light_decode_validates_update_timestamp() {
    let mut body = light_body();
    if let Json::Obj(pairs) = &mut body {
        pairs[6].1 = obj(vec![
            ("state", Json::Str(s("noupdates"))),
            ("lastinstall", Json::Str(s("2020-04-21T17:44:30"))),
        ]);
    }
    let light = parse_light_response(&body, s("1")).unwrap();
    assert_eq!(light.software_update.last_install, Some(s("2020-04-21T17:44:30")));

    let mut body = light_body();
    if let Json::Obj(pairs) = &mut body {
        pairs[6].1 = obj(vec![
            ("state", Json::Str(s("noupdates"))),
            ("lastinstall", Json::Str(s("yesterday"))),
        ]);
    }
    assert_eq!(parse_light_response(&body, s("1")), Err(Error::Decode));
}

#[test]
fn get_all_lights_injects_map_keys_as_ids() {
    let payload = obj(vec![("1", light_body()), ("2", light_body())]);
    let lights = parse_all_lights(&payload).unwrap();
    assert_eq!(lights.len(), 2);
    let ids: Vec<String> = lights.iter().map(|l| l.id.clone()).collect();
    assert!(ids.contains(&s("1")));
    assert!(ids.contains(&s("2")));
    assert!(!ids.contains(&s("0")));
}

#[test]
fn get_all_lights_rejects_non_object_payload() {
    assert_eq!(parse_all_lights(&Json::Int(1)), Err(Error::Decode));
}

#[test]
fn schedule_decode_reads_command_and_status() {
    let body = obj(vec![
        ("name", Json::Str(s("Wake up"))),
        ("description", Json::Str(s("morning"))),
        (
            "command",
            obj(vec![
                ("address", Json::Str(s("/api/u/groups/0/action"))),
                ("method", Json::Str(s("PUT"))),
                ("body", obj(vec![("on", Json::Bool(true))])),
            ]),
        ),
        ("localtime", Json::Str(s("W124/T06:00:00"))),
        ("starttime", Json::Str(s("2020-01-01T00:00:00"))),
        ("status", Json::Str(s("enabled"))),
        ("autodelete", Json::Bool(false)),
    ]);
    let sch: Schedule = parse_schedule_response(&body, s("9")).unwrap();
    assert_eq!(sch.id, s("9"));
    assert_eq!(sch.action.request_method, RequestMethod::Put);
    assert_eq!(sch.status, Status::Enabled);
    assert_eq!(sch.auto_delete, Some(false));
    assert_eq!(sch.start_time, Some(s("2020-01-01T00:00:00")));
}

#[test]
fn schedule_decode_rejects_unknown_method() {
    let body = obj(vec![
        ("name", Json::Str(s("x"))),
        ("description", Json::Str(s("y"))),
        (
            "command",
            obj(vec![("address", Json::Str(s("/a"))), ("method", Json::Str(s("PATCH")))]),
        ),
        ("localtime", Json::Str(s("t"))),
        ("status", Json::Str(s("enabled"))),
    ]);
    assert_eq!(parse_schedule_response(&body, s("1")), Err(Error::Decode));
}

#[test]
fn resourcelink_decode_reads_links() {
    let body = obj(vec![
        ("name", Json::Str(s("Bedroom")))
        ,
        ("description", Json::Str(s("scenes"))),
        ("owner", Json::Str(s("abc"))),
        ("type", Json::Str(s("Link"))),
        ("classid", Json::Int(2)),
        ("recycle", Json::Bool(false)),
        (
            "links",
            Json::Arr(vec![Json::Str(s("/scenes/abc123")), Json::Str(s("/lights/3"))]),
        ),
    ]);
    let rl: Resourcelink = parse_resourcelink_response(&body, s("4")).unwrap();
    assert_eq!(rl.id, s("4"));
    assert_eq!(rl.kind, Kind::Link);
    assert_eq!(rl.class_id, 2);
    assert_eq!(rl.links.len(), 2);
    assert_eq!(rl.links[1].kind, LinkKind::Light);
    assert_eq!(rl.links[1].id, s("3"));
}

#[test]
fn resourcelink_decode_rejects_bad_link() {
    let body = obj(vec![
        ("name", Json::Str(s("Bedroom"))),
        ("description", Json::Str(s("scenes"))),
        ("owner", Json::Str(s("abc"))),
        ("type", Json::Str(s("Link"))),
        ("classid", Json::Int(2)),
        ("recycle", Json::Bool(false)),
        ("links", Json::Arr(vec![Json::Str(s("/unknowns/3"))])),
    ]);
    assert_eq!(parse_resourcelink_response(&body, s("4")), Err(Error::Decode));
}

#[test]
fn scan_decode_reads_status_and_devices() {
    let payload = obj(vec![
        ("lastscan", Json::Str(s("active"))),
        ("7", obj(vec![("name", Json::Str(s("Hue Lamp 7")))])),
    ]);
    let scan: Scan = parse_scan_response(&payload).unwrap();
    assert_eq!(scan.last_scan, LastScan::Active);
    assert_eq!(scan.resources.len(), 1);
    assert_eq!(scan.resources[0].id, s("7"));
    assert_eq!(scan.resources[0].name, s("Hue Lamp 7"));
}

#[test]
fn scan_decode_accepts_timestamp_status() {
    let payload = obj(vec![("lastscan", Json::Str(s("2020-01-01T00:00:00")))]);
    let scan = parse_scan_response(&payload).unwrap();
    assert_eq!(scan.last_scan, LastScan::DateTime(s("2020-01-01T00:00:00")));
    assert_eq!(scan.resources.len(), 0);

    let payload = obj(vec![("lastscan", Json::Str(s("whenever")))]);
    assert_eq!(parse_scan_response(&payload), Err(Error::Decode));
}

#[test]
fn response_record_into_result() {
    let ok: Response<Json> = Response::Success(Json::Int(1));
    assert_eq!(ok.into_result(), Ok(Json::Int(1)));
    let err: Response<Json> = Response::Error(huelib2::response::Error {
        kind: 1,
        address: s("/"),
        description: s("unauthorized user"),
    });
    assert!(err.into_result().is_err());
}

#[test]
fn light_state_equality_ignores_nothing() {
    let a = State {
        on: Some(true),
        brightness: None,
        hue: None,
        saturation: None,
        color_temperature: None,
        alert: None,
        effect: None,
        color_mode: None,
        reachable: true,
    };
    assert_eq!(a, a);
}

#[test]
fn software_update_decode_requires_known_state() {
    let body = obj(vec![("state", Json::Str(s("noupdates")))]);
    let su = SoftwareUpdate::from_json(&body).unwrap();
    assert_eq!(su.state, SoftwareUpdateState::NoUpdates);
    assert_eq!(su.last_install, None);
    let bad = obj(vec![("state", Json::Str(s("unknownstate")))]);
    assert_eq!(SoftwareUpdate::from_json(&bad), Err(Error::Decode));
}

#[test]
fn light_with_id_replaces_only_the_id() {
    let light: Light = parse_light_response(&light_body(), s("1")).unwrap();
    let renamed = light.clone().with_id(s("2"));
    assert_eq!(renamed.id, s("2"));
    assert_eq!(renamed.name, light.name);
}

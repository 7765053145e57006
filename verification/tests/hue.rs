use rusty_hue::colors::RGB;
use rusty_hue::hue::{
    api_token, find_color, light_info_text, Hue, HueError, IndexedLight, Light, LightState, NamedColor, Request,
};
use rusty_hue::json::{get_hue_ip, ip_of, light_records, quote, records_of, LightRecord};

fn state(on: bool, reachable: bool) -> LightState {
    LightState {
        on,
        bri: 254,
        hue: 14956,
        sat: 140,
        effect: "none".to_string(),
        xy: vec![4571, 4097],
        ct: 366,
        alert: "none".to_string(),
        colormode: "ct".to_string(),
        reachable,
    }
}

fn light(name: &str, modelid: &str, on: bool, reachable: bool) -> Light {
    Light {
        state: state(on, reachable),
        light_type: "Extended color light".to_string(),
        name: name.to_string(),
        modelid: modelid.to_string(),
        manufacturername: "Philips".to_string(),
        uniqueid: "00:17:88:01:00:f1:01:17-0b".to_string(),
        swversion: "5.50.1.19085".to_string(),
    }
}

fn bridge(lights: Vec<(&str, Light)>) -> Hue {
    let mut hue = Hue::new("10.0.0.2".to_string(), "tok".to_string());
    for (index, light) in lights {
        hue.insert_light(index.to_string(), light);
    }
    hue
}

fn palette() -> Vec<NamedColor> {
    vec![
        NamedColor { name: "white".to_string(), rgb: RGB { r: 255, g: 255, b: 255 } },
        NamedColor { name: "grey".to_string(), rgb: RGB { r: 100, g: 100, b: 100 } },
        NamedColor { name: "blue".to_string(), rgb: RGB { r: 0, g: 0, b: 255 } },
    ]
}

fn put(url: &str, body: &str) -> Request {
    Request { url: url.to_string(), body: body.to_string() }
}

const LIGHT_JSON: &str = r#"{
            "state": {
                "on": false,
                "bri": 254,
                "hue": 14956,
                "sat": 140,
                "effect": "none",
                "xy": [
                    0.4571,
                    0.4097
                ],
                "ct": 366,
                "alert": "none",
                "colormode": "ct",
                "reachable": true
            },
            "type": "Extended color light",
            "name": "Sinnerlig",
            "modelid": "LCT003",
            "manufacturername": "Philips",
            "uniqueid": "00:17:88:01:00:f1:01:17-0b",
            "swversion": "5.50.1.19085"
        }"#;

fn text_of(v: &serde_json::Value, key: &str) -> String {
    v[key].as_str().unwrap().to_string()
}

fn state_from(v: &serde_json::Value) -> LightState {
    LightState {
        on: v["on"].as_bool().unwrap(),
        bri: v["bri"].as_u64().unwrap() as u8,
        hue: v["hue"].as_u64().unwrap() as u16,
        sat: v["sat"].as_u64().unwrap() as u8,
        effect: text_of(v, "effect"),
        xy: v["xy"]
            .as_array()
            .unwrap()
            .iter()
            .map(|c| (c.as_f64().unwrap() * 10000.0).round() as i64)
            .collect(),
        ct: v["ct"].as_u64().unwrap() as u32,
        alert: text_of(v, "alert"),
        colormode: text_of(v, "colormode"),
        reachable: v["reachable"].as_bool().unwrap(),
    }
}

fn light_from(v: &serde_json::Value) -> Light {
    Light {
        state: state_from(&v["state"]),
        light_type: text_of(v, "light_type"),
        name: text_of(v, "name"),
        modelid: text_of(v, "modelid"),
        manufacturername: text_of(v, "manufacturername"),
        uniqueid: text_of(v, "uniqueid"),
        swversion: text_of(v, "swversion"),
    }
}

fn make_light_state() {
    let data = r#"{
            "on": false,
            "bri": 254,
            "hue": 14956,
            "sat": 140,
            "effect": "none",
            "xy": [
            0.4571,
            0.4097
            ],
            "ct": 366,
            "alert": "none",
            "colormode": "ct",
            "reachable": true
        }"#;

    let light_state: LightState = state_from(&serde_json::from_str(data).unwrap());

    assert_eq!(light_state.colormode, "ct");
    assert!(light_state.reachable);
    assert_eq!(light_state.xy, vec![4571, 4097]);
}

fn make_light() {
    let data = LIGHT_JSON.replace("type", "light_type");

    let light: Light = light_from(&serde_json::from_str(&data).unwrap());

    assert_eq!(light.light_type, "Extended color light");
    assert!(light.state.reachable);
}

#[test]
fn hue_make_light_state() {
    make_light_state();
}

#[test]
fn hue_make_light() {
    make_light();
}

#[test]
fn lib_make_light_state() {
    make_light_state();
}

#[test]
fn lib_make_light() {
    make_light();
}

#[test]
fn light_records_follow_the_indices() {
    let body = format!("{{\"1\": {}, \"2\": {}, \"4\": {}}}", LIGHT_JSON, LIGHT_JSON, LIGHT_JSON);
    let records = light_records(&body).unwrap();
    assert_eq!(records.len(), 2);
    assert_eq!(records[0].index, "1");
    assert_eq!(records[1].index, "2");
    let light = light_from(&serde_json::from_str(&records[0].json).unwrap());
    assert_eq!(light.light_type, "Extended color light");
    assert_eq!(light.name, "Sinnerlig");
    assert_eq!(light.modelid, "LCT003");
    assert!(!light.state.on);
}

#[test]
fn light_records_rename_every_type() {
    let records = light_records(r#"{"1": {"type": "a type", "name": "x"}, "2": 5}"#).unwrap();
    assert_eq!(
        records,
        vec![LightRecord {
            index: "1".to_string(),
            json: r#"{"name":"x","light_type":"a light_type"}"#.to_string()
        }]
    );
}

#[test]
fn light_records_of_other_answers() {
    assert_eq!(light_records("{}").unwrap(), vec![]);
    assert_eq!(light_records(r#"[{"error": {"type": 1}}]"#).unwrap(), vec![]);
    assert_eq!(light_records(r#"{"2": {}}"#).unwrap(), vec![]);
    assert_eq!(light_records(r#"{"01": {}}"#).unwrap(), vec![]);
    assert_eq!(light_records("null").unwrap(), vec![]);
    let eleven: Vec<String> = (1..=11).map(|i| format!("\"{}\": {{}}", i)).collect();
    let records = light_records(&format!("{{{}}}", eleven.join(","))).unwrap();
    assert_eq!(records.len(), 11);
    assert_eq!(records[9].index, "10");
    assert_eq!(records[10].index, "11");
    assert_eq!(records[10].json, "{}");
}

#[test]
fn light_records_need_json() {
    assert!(matches!(light_records("{"), Err(HueError::InvalidJson(_))));
    assert!(matches!(light_records(""), Err(HueError::InvalidJson(_))));
    assert!(matches!(light_records("<html>"), Err(HueError::InvalidJson(_))));
}

#[test]
fn records_of_a_parsed_answer() {
    let root: serde_json::Value = serde_json::from_str(r#"{"1": {"a": [1, 2]}, "2": {}}"#).unwrap();
    let records = records_of(&root);
    assert_eq!(records.len(), 2);
    assert_eq!(records[0].json, r#"{"a":[1,2]}"#);
    assert_eq!(records[1].json, "{}");
}

#[test]
fn discovery_gives_the_first_address() {
    let body = r#"[{"id":"001788fffe100491","internalipaddress":"192.168.1.37"},{"id":"x","internalipaddress":"192.168.1.38"}]"#;
    assert_eq!(get_hue_ip(body).unwrap(), "192.168.1.37");
    let root: serde_json::Value = serde_json::from_str(body).unwrap();
    assert_eq!(ip_of(&root), "192.168.1.37");
}

#[test]
fn discovery_without_a_bridge() {
    assert_eq!(get_hue_ip("[]").unwrap(), "null");
    assert_eq!(get_hue_ip("{}").unwrap(), "null");
    assert_eq!(get_hue_ip(r#"[{"id":"x"}]"#).unwrap(), "null");
    assert_eq!(get_hue_ip(r#"[{"internalipaddress":7}]"#).unwrap(), "7");
    assert_eq!(get_hue_ip(r#"[{"internalipaddress":"a\"b"}]"#).unwrap(), "a\\b");
    assert!(matches!(get_hue_ip("not json"), Err(HueError::InvalidJson(_))));
}

#[test]
fn quote_escapes() {
    assert_eq!(quote("Desk"), "\"Desk\"");
    assert_eq!(quote("a\"b\\c"), "\"a\\\"b\\\\c\"");
    assert_eq!(quote(""), "\"\"");
    assert_eq!(
        quote("\u{8}\t\n\u{c}\r\u{0}\u{1}\u{b}\u{1f} \u{7f}/\u{e9}"),
        "\"\\b\\t\\n\\f\\r\\u0000\\u0001\\u000b\\u001f \u{7f}/\u{e9}\""
    );
}

#[test]
fn token_is_cut_at_forty_bytes() {
    assert_eq!(api_token("abc\n"), Some("abc\n"));
    assert_eq!(api_token(""), Some(""));
    let forty = "0123456789012345678901234567890123456789";
    assert_eq!(api_token(forty), Some(forty));
    assert_eq!(api_token("0123456789012345678901234567890123456789\n"), Some(forty));
    assert_eq!(api_token("0123456789012345678901234567890123456789abc"), Some(forty));
    assert_eq!(api_token("012345678901234567890123456789012345678\u{e9}x"), None);
    assert_eq!(
        api_token("01234567890123456789012345678901234567\u{e9}x"),
        Some("01234567890123456789012345678901234567\u{e9}")
    );
}

#[test]
fn new_bridge_has_its_address() {
    let hue = Hue::new("10.0.0.2".to_string(), "tok".to_string());
    assert_eq!(hue.ip(), "10.0.0.2");
    assert_eq!(hue.token(), "tok");
    assert_eq!(hue.base_address(), "http://10.0.0.2/api/tok/lights");
    assert!(hue.lights().is_empty());
}

#[test]
fn inserting_under_an_index_replaces() {
    let mut hue = bridge(vec![("1", light("a", "LCT003", true, true)), ("2", light("b", "LCT003", true, true))]);
    hue.insert_light("1".to_string(), light("c", "LCT001", false, true));
    let lights: &Vec<IndexedLight> = hue.lights();
    assert_eq!(lights.len(), 2);
    assert_eq!(lights[0].index, "1");
    assert_eq!(lights[0].light.name, "c");
    assert_eq!(lights[1].light.name, "b");
    assert_eq!(hue.position_of("2"), Some(1));
    assert_eq!(hue.position_of("3"), None);
    assert!(hue.contains_key("1"));
    assert!(!hue.contains_key("01"));
    assert_eq!(hue.position_of_name("b"), Some(1));
    assert_eq!(hue.position_of_name("a"), None);
}

#[test]
fn power_switches_what_needs_it() {
    let hue = bridge(vec![
        ("1", light("a", "LCT003", true, true)),
        ("2", light("b", "LCT003", false, true)),
        ("3", light("c", "LCT003", true, false)),
        ("4", light("d", "LCT003", true, true)),
    ]);
    assert_eq!(
        hue.power(false),
        vec![
            put("http://10.0.0.2/api/tok/lights/1/state", "{\"on\":false}"),
            put("http://10.0.0.2/api/tok/lights/4/state", "{\"on\":false}"),
        ]
    );
    assert_eq!(hue.power(true), vec![put("http://10.0.0.2/api/tok/lights/2/state", "{\"on\":true}")]);
}

#[test]
fn toggle_switches_off_when_a_light_is_on() {
    let hue = bridge(vec![("1", light("a", "LCT003", false, true)), ("2", light("b", "LCT003", true, true))]);
    assert!(hue.any_light_on());
    assert_eq!(hue.toggle_lights(), vec![put("http://10.0.0.2/api/tok/lights/2/state", "{\"on\":false}")]);
}

#[test]
fn toggle_switches_on_when_no_light_is_on() {
    let hue = bridge(vec![
        ("1", light("a", "LCT003", false, true)),
        ("2", light("b", "LCT003", true, false)),
        ("3", light("c", "LCT003", false, true)),
    ]);
    assert!(!hue.any_light_on());
    assert_eq!(
        hue.toggle_lights(),
        vec![
            put("http://10.0.0.2/api/tok/lights/1/state", "{\"on\":true}"),
            put("http://10.0.0.2/api/tok/lights/3/state", "{\"on\":true}"),
        ]
    );
    assert_eq!(bridge(vec![]).toggle_lights(), vec![]);
}

#[test]
fn toggle_one_light() {
    let hue = bridge(vec![("1", light("a", "LCT003", false, true)), ("7", light("b", "LCT003", true, true))]);
    assert_eq!(hue.toggle_by_index("7"), Ok((put("http://10.0.0.2/api/tok/lights/7/state", "{\"on\":false}"), false)));
    assert_eq!(hue.toggle_by_index("1"), Ok((put("http://10.0.0.2/api/tok/lights/1/state", "{\"on\":true}"), true)));
    assert_eq!(hue.toggle_by_index("2"), Err(HueError::NoSuchIndex("2".to_string())));
    assert_eq!(hue.toggle_by_name("b"), Ok((put("http://10.0.0.2/api/tok/lights/7/state", "{\"on\":false}"), false)));
    assert_eq!(hue.toggle_by_name("c"), Err(HueError::NoSuchName("c".to_string())));
}

#[test]
fn rename_one_light() {
    let hue = bridge(vec![("1", light("a", "LCT003", false, true))]);
    assert_eq!(hue.rename_light("1", "Desk \"left\""), Ok(put("http://10.0.0.2/api/tok/lights/1", "{\"name\":\"Desk \\\"left\\\"\"}")));
    assert_eq!(hue.rename_light("1", "a\tb\\"), Ok(put("http://10.0.0.2/api/tok/lights/1", "{\"name\":\"a\\tb\\\\\"}")));
    assert_eq!(hue.rename_light("2", "Desk"), Err(HueError::NoSuchIndex("2".to_string())));
}

#[test]
fn colour_by_index_and_rgb() {
    let hue = bridge(vec![("1", light("a", "LCT003", false, true)), ("2", light("b", "unknown", false, true))]);
    assert_eq!(
        hue.set_color_by_index_and_rgb("1", &RGB { r: 100, g: 100, b: 100 }),
        Ok(put("http://10.0.0.2/api/tok/lights/1/state", "{\"bri\": 32, \"xy\": [0.3227, 0.329] }"))
    );
    assert_eq!(
        hue.set_color_by_index_and_rgb("1", &RGB { r: 0, g: 0, b: 255 }),
        Ok(put("http://10.0.0.2/api/tok/lights/1/state", "{\"bri\": 12, \"xy\": [0.1429, 0.0266] }"))
    );
    assert_eq!(
        hue.set_color_by_index_and_rgb("2", &RGB { r: 0, g: 0, b: 255 }),
        Ok(put("http://10.0.0.2/api/tok/lights/2/state", "{\"bri\": 12, \"xy\": [0.1355, 0.0399] }"))
    );
    assert_eq!(
        hue.set_color_by_index_and_rgb("3", &RGB { r: 0, g: 0, b: 255 }),
        Err(HueError::NoSuchIndex("3".to_string()))
    );
}

#[test]
fn colour_by_index_and_name_of_colour() {
    let hue = bridge(vec![("1", light("a", "LCT003", false, true))]);
    assert_eq!(
        hue.set_color_by_index_and_color("1", "white", &palette()),
        Ok(put("http://10.0.0.2/api/tok/lights/1/state", "{\"bri\": 254, \"xy\": [0.3227, 0.329] }"))
    );
    assert_eq!(
        hue.set_color_by_index_and_color("1", "red", &palette()),
        Err(HueError::ColorNotSet("red".to_string()))
    );
    assert_eq!(
        hue.set_color_by_index_and_color("9", "red", &palette()),
        Err(HueError::NoSuchIndex("9".to_string()))
    );
    assert_eq!(find_color(&palette(), "grey"), Some(RGB { r: 100, g: 100, b: 100 }));
    assert_eq!(find_color(&palette(), "Grey"), None);
}

#[test]
fn colour_by_name_of_light() {
    let hue = bridge(vec![
        ("1", light("desk", "LCT003", false, true)),
        ("2", light("bed", "LCT003", false, true)),
        ("3", light("desk", "other", false, false)),
    ]);
    assert_eq!(
        hue.set_color_by_name_and_color("desk", "blue", &palette()),
        Ok(vec![
            put("http://10.0.0.2/api/tok/lights/1/state", "{\"bri\": 12, \"xy\": [0.1429, 0.0266] }"),
            put("http://10.0.0.2/api/tok/lights/3/state", "{\"bri\": 12, \"xy\": [0.1355, 0.0399] }"),
        ])
    );
    assert_eq!(
        hue.set_color_by_name_and_color("sofa", "blue", &palette()),
        Err(HueError::NoSuchName("sofa".to_string()))
    );
    assert_eq!(
        hue.set_color_by_name_and_color("sofa", "red", &palette()),
        Err(HueError::NoSuchName("sofa".to_string()))
    );
    assert_eq!(
        hue.set_color_by_name_and_color("bed", "red", &palette()),
        Err(HueError::ColorNotSet("red".to_string()))
    );
}

#[test]
fn colour_of_all_lights() {
    let hue = bridge(vec![
        ("1", light("desk", "LCT003", false, true)),
        ("2", light("bed", "LCT003", false, false)),
        ("3", light("desk", "other", true, true)),
    ]);
    assert_eq!(
        hue.set_all_by_color("grey", &palette()),
        Ok(vec![
            put("http://10.0.0.2/api/tok/lights/1/state", "{\"bri\": 32, \"xy\": [0.3227, 0.329] }"),
            put("http://10.0.0.2/api/tok/lights/3/state", "{\"bri\": 32, \"xy\": [0.3227, 0.329] }"),
        ])
    );
    assert_eq!(hue.set_all_by_color("red", &palette()), Err(HueError::ColorNotSet("red".to_string())));
    let dark = bridge(vec![("1", light("desk", "LCT003", false, false))]);
    assert_eq!(dark.set_all_by_color("red", &palette()), Ok(vec![]));
    assert_eq!(dark.set_all_by_color("grey", &palette()), Ok(vec![]));
}

#[test]
fn info_lists_every_item() {
    let entry = IndexedLight { index: "3".to_string(), light: light("Sinnerlig", "LCT003", false, true) };
    let expected = "Light 3:\n\tName: Sinnerlig\n\tType: Extended color light\n\tModel ID: LCT003\n\tManufacturer: Philips\n\tUnique ID: 00:17:88:01:00:f1:01:17-0b\n\tSoftware Version: 5.50.1.19085\n\tState:\n\t\tOn: false\n\t\tBrightness: 254\n\t\tHue: 14956\n\t\tSaturation: 140\n\t\tEffect: none\n\t\tx: 0.4571\ty: 0.4097\n\t\tColor Temperature: 366\n\t\tAlert: none\n\t\tColor Mode: ct\n\t\tReachable: true\n";
    assert_eq!(light_info_text(&entry), expected);
    let hue = bridge(vec![("3", light("Sinnerlig", "LCT003", false, true)), ("4", light("b", "LCT001", true, false))]);
    assert!(hue.lights_have_chromaticity());
    let text = hue.info_text();
    assert!(text.starts_with(expected));
    assert!(text.ends_with("Light 4:\n\tName: b\n\tType: Extended color light\n\tModel ID: LCT001\n\tManufacturer: Philips\n\tUnique ID: 00:17:88:01:00:f1:01:17-0b\n\tSoftware Version: 5.50.1.19085\n\tState:\n\t\tOn: true\n\t\tBrightness: 254\n\t\tHue: 14956\n\t\tSaturation: 140\n\t\tEffect: none\n\t\tx: 0.4571\ty: 0.4097\n\t\tColor Temperature: 366\n\t\tAlert: none\n\t\tColor Mode: ct\n\t\tReachable: false\n"));
    assert_eq!(bridge(vec![]).info_text(), "");
    let mut dark = light("c", "LCT001", true, false);
    dark.state.xy = vec![1];
    assert!(!bridge(vec![("1", dark)]).lights_have_chromaticity());
}

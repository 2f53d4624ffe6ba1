use skoffroad::manifest::{parse_manifest, license_ok};
use skoffroad::config::parse_config;
use skoffroad::ads::{JsResult, AdResult, classify_results, results_pending};
use skoffroad::glb::{parse_glb_args, scene_url};
use skoffroad::json::{parse_json, Json};
use skoffroad::logo::{build_logo_plate, BrandCategory, glyph_for, TEX_BYTES};

#[test]
fn licences_are_exact() {
    assert!(license_ok("CC0"));
    assert!(license_ok("Public Domain"));
    assert!(!license_ok("cc0"));
    assert!(!license_ok("GPL-3.0"));
    assert!(!license_ok(""));
}

#[test]
fn manifest_keeps_licensed_entries() {
    let text = r#"{
        "vehicles": [
            {"name": "Jeep", "glb_path": "v/jeep.glb", "mass_kg": 1500, "license": "MIT", "author": "A"},
            {"name": "Bad", "glb_path": "v/bad.glb", "license": "Proprietary"},
            {"name": "NoMass", "glb_path": "v/x.glb", "license": "CC0"}
        ],
        "maps": [{"name": "Valley", "heightmap_path": "m/v.png", "license": "CC-BY-4.0"}],
        "mods": "not a list"
    }"#;
    let m = parse_manifest(text);
    assert_eq!(m.vehicles.len(), 2);
    assert_eq!(m.vehicles[0].name, "Jeep");
    assert_eq!(m.vehicles[0].mass_kg.as_deref(), Some("1500"));
    assert_eq!(m.vehicles[1].mass_kg, None);
    assert_eq!(m.vehicles[1].author, "");
    assert_eq!(m.maps.len(), 1);
    assert_eq!(m.maps[0].heightmap_path, "m/v.png");
    assert_eq!(m.mods.len(), 0);
}

#[test]
fn manifest_of_garbage_is_empty() {
    let m = parse_manifest("{not json");
    assert!(m.vehicles.is_empty() && m.maps.is_empty() && m.mods.is_empty());
}

#[test]
fn json_get_and_str() {
    let v = parse_json(r#"{"a": "x", "b": 2}"#).unwrap();
    assert_eq!(v.get("a").and_then(|x| x.as_str()), Some("x"));
    assert!(matches!(v.get("b"), Some(Json::Number(t)) if t == "2"));
    assert!(v.get("c").is_none());
    assert!(parse_json("[1,").is_none());
}

#[test]
fn config_fields_by_type() {
    let c = parse_config(r#"{"master_volume": 0.5, "mouse_sensitivity": "fast", "day_length_s": 120}"#).unwrap();
    assert_eq!(c.master_volume.as_deref(), Some("0.5"));
    assert_eq!(c.mouse_sensitivity, None);
    assert_eq!(c.day_length_s.as_deref(), Some("120"));
    assert!(parse_config("[1, 2]").is_none());
    assert!(parse_config("nope").is_none());
    let empty = parse_config("{}").unwrap();
    assert!(empty.master_volume.is_none() && empty.day_length_s.is_none());
}

fn js(kind: &str, slot: Option<&str>, placement: Option<&str>, reason: Option<&str>) -> JsResult {
    JsResult {
        kind: kind.to_string(),
        slot: slot.map(|s| s.to_string()),
        placement: placement.map(|s| s.to_string()),
        reason: reason.map(|s| s.to_string()),
    }
}

#[test]
fn ad_results_classified_in_order() {
    let raw = vec![
        js("watched", Some("refuel"), None, None),
        js("bogus", Some("x"), None, None),
        js("shown", None, Some("between_runs"), None),
        js("failed", None, None, Some("no fill")),
        js("skipped", None, None, None),
    ];
    let out = classify_results(raw);
    assert_eq!(out.len(), 4);
    assert!(matches!(&out[0], AdResult::Watched { slot } if slot == "refuel"));
    assert!(matches!(&out[1], AdResult::Shown { placement } if placement == "between_runs"));
    assert!(matches!(&out[2], AdResult::Failed { slot, reason } if slot.is_empty() && reason == "no fill"));
    assert!(matches!(&out[3], AdResult::Skipped { slot } if slot.is_empty()));
    assert!(!results_pending("[]"));
    assert!(!results_pending(""));
    assert!(results_pending("[{\"kind\":\"shown\"}]"));
}

fn args(list: &[&str]) -> Vec<String> {
    list.iter().map(|s| s.to_string()).collect()
}

#[test]
fn glb_command_line() {
    let a = parse_glb_args(&args(&["game", "--load-glb=maps/a.glb", "--glb-scale", "2.5"]));
    assert_eq!(a.path.as_deref(), Some("maps/a.glb"));
    assert_eq!(a.scale_texts, vec!["2.5".to_string()]);
    let a = parse_glb_args(&args(&["game", "--load-glb", "b.glb", "--glb-scale=x", "--glb-scale=3"]));
    assert_eq!(a.path.as_deref(), Some("b.glb"));
    assert_eq!(a.scale_texts, vec!["x".to_string(), "3".to_string()]);
    let a = parse_glb_args(&args(&["game", "--load-glb=a.glb", "--load-glb"]));
    assert_eq!(a.path, None, "a trailing --load-glb clears the path");
    let a = parse_glb_args(&args(&["game", "--glb-scale", "--load-glb=c.glb"]));
    assert_eq!(a.path, None, "the scale flag takes the next argument whatever it is");
    assert_eq!(a.scale_texts, vec!["--load-glb=c.glb".to_string()]);
    let a = parse_glb_args(&args(&["game"]));
    assert!(a.path.is_none() && a.scale_texts.is_empty());
}

#[test]
fn scene_urls() {
    assert_eq!(scene_url("maps/a.glb"), "maps/a.glb#Scene0");
    assert_eq!(scene_url("maps/a.glb#Scene2"), "maps/a.glb#Scene2");
    assert_eq!(scene_url(""), "#Scene0");
}

#[test]
fn logo_plate_layout() {
    let bg = [10u8, 20, 30, 255];
    let fg = [250u8, 240, 230, 255];
    let plate = build_logo_plate(&bg, &fg, "AB", BrandCategory::Tires);
    assert_eq!(plate.len(), TEX_BYTES);
    assert_eq!(&plate[0..4], &bg);
    assert!(plate.chunks(4).any(|p| p == fg));
    let other = build_logo_plate(&bg, &fg, "ab", BrandCategory::Tires);
    assert_eq!(plate, other, "glyphs are case-insensitive");
    assert_eq!(glyph_for(b'a'), glyph_for(b'A'));
    assert_ne!(glyph_for(b'A'), glyph_for(b'B'));
}


use edith::config::{default_location, WebToolsConfig};
use edith::json::JsonValue;
use edith::security::Permission;
use edith::tools::builtin::{
    mvp_registry, osascript_args, osascript_outcome, GetTime, OpenApplication, PlayMusic, SetVolume,
};
use edith::tools::web::{register_web_tools, weather_description, GetWeather, SearchWeb};
use edith::tools::builtin::LocalTime;
use edith::tools::{AssistantTool, Registry, ToolInfo};

fn s(t: &str) -> JsonValue {
    JsonValue::Str(t.to_string())
}

fn obj(members: Vec<(&str, JsonValue)>) -> JsonValue {
    JsonValue::Object(members.into_iter().map(|(k, v)| (k.to_string(), v)).collect())
}

#[test]
fn weather_codes_have_french_descriptions() {
    assert_eq!(weather_description(0), "ciel dégagé");
    assert_eq!(weather_description(1), "peu nuageux");
    assert_eq!(weather_description(2), "peu nuageux");
    assert_eq!(weather_description(3), "nuageux");
    assert_eq!(weather_description(45), "brouillard");
    assert_eq!(weather_description(48), "brouillard");
    assert_eq!(weather_description(51), "bruine");
    assert_eq!(weather_description(57), "bruine");
    assert_eq!(weather_description(63), "pluie");
    assert_eq!(weather_description(77), "neige");
    assert_eq!(weather_description(81), "averses");
    assert_eq!(weather_description(86), "averses de neige");
    assert_eq!(weather_description(99), "orage");
    assert_eq!(weather_description(4), "conditions inconnues");
    assert_eq!(weather_description(-1), "conditions inconnues");
    assert_eq!(weather_description(100), "conditions inconnues");
}

#[test]
fn mvp_registry_holds_the_four_tools_in_name_order() {
    let reg = mvp_registry();
    let names: Vec<String> = reg.definitions().into_iter().map(|d| d.name).collect();
    assert_eq!(names, vec!["get_time", "open_application", "play_music", "set_volume"]);
    assert!(matches!(reg.get("get_time"), Some(AssistantTool::GetTime(_))));
    assert!(matches!(reg.get("open_application"), Some(AssistantTool::OpenApplication(_))));
    assert!(matches!(reg.get("set_volume"), Some(AssistantTool::SetVolume(_))));
    assert!(matches!(reg.get("play_music"), Some(AssistantTool::PlayMusic(_))));
    assert!(reg.get("shell").is_none());
    assert_eq!(reg.level_of("get_time"), Some(Permission::Read));
    assert_eq!(reg.level_of("play_music"), Some(Permission::Reversible));
}

#[test]
fn registering_again_replaces_the_tool() {
    let mut reg = mvp_registry();
    reg.register(AssistantTool::GetWeather(GetWeather::new("Nice".to_string())));
    reg.register(AssistantTool::GetWeather(GetWeather::new("Lyon".to_string())));
    assert_eq!(reg.definitions().len(), 5);
    match reg.get("get_weather") {
        Some(AssistantTool::GetWeather(w)) => assert_eq!(w.location(&JsonValue::Null), "Lyon"),
        _ => panic!("expected the weather tool"),
    }
}

#[test]
fn web_tools_need_a_search_instance_for_search() {
    let mut reg: Registry<AssistantTool> = Registry::new();
    let cfg = WebToolsConfig { default_location: default_location(), searxng_url: String::new() };
    register_web_tools(&mut reg, &cfg);
    let names: Vec<String> = reg.definitions().into_iter().map(|d| d.name).collect();
    assert_eq!(names, vec!["get_weather"]);
    match reg.get("get_weather") {
        Some(AssistantTool::GetWeather(w)) => assert_eq!(w.location(&JsonValue::Null), "Paris"),
        _ => panic!("expected the weather tool"),
    }

    let mut reg = mvp_registry();
    let cfg = WebToolsConfig { default_location: "Lyon".into(), searxng_url: "http://localhost:8888/".into() };
    register_web_tools(&mut reg, &cfg);
    let names: Vec<String> = reg.definitions().into_iter().map(|d| d.name).collect();
    assert_eq!(
        names,
        vec!["get_time", "get_weather", "open_application", "play_music", "search_web", "set_volume"]
    );
    match reg.get("get_weather") {
        Some(AssistantTool::GetWeather(w)) => assert_eq!(w.location(&JsonValue::Null), "Lyon"),
        _ => panic!("expected the weather tool"),
    }
    match reg.get("search_web") {
        Some(AssistantTool::SearchWeb(t)) => assert_eq!(t.search_url(), "http://localhost:8888/search"),
        _ => panic!("expected the search tool"),
    }
}

#[test]
fn config_defaults() {
    assert_eq!(default_location(), "Paris");
    let d = WebToolsConfig::default();
    assert_eq!(d.default_location, "");
    assert_eq!(d.searxng_url, "");
}

#[test]
fn tool_levels_and_schemas() {
    assert_eq!(GetTime.level(), Permission::Read);
    assert_eq!(OpenApplication.level(), Permission::Reversible);
    assert_eq!(SetVolume.level(), Permission::Reversible);
    assert_eq!(PlayMusic.level(), Permission::Reversible);
    let p = SetVolume.parameters();
    let level = p.get("properties").and_then(|v| v.get("level")).expect("level");
    assert_eq!(level.get_i64("minimum"), Some(0));
    assert_eq!(level.get_i64("maximum"), Some(100));
    let req = p.get("required").and_then(|v| v.as_array()).expect("required");
    assert_eq!(req[0].as_str(), Some("level"));
    let t = GetTime.parameters();
    assert_eq!(t.get_str("type"), Some("object"));
    let m = PlayMusic.parameters();
    let actions = m
        .get("properties")
        .and_then(|v| v.get("action"))
        .and_then(|v| v.get("enum"))
        .and_then(|v| v.as_array())
        .expect("enum");
    let names: Vec<&str> = actions.iter().map(|a| a.as_str().unwrap()).collect();
    assert_eq!(names, vec!["play", "pause", "next", "previous"]);
}

#[test]
fn open_application_arguments_and_outcome() {
    let t = OpenApplication;
    assert_eq!(t.app_name(&obj(vec![("name", s("Safari"))])), Ok("Safari".to_string()));
    assert_eq!(t.app_name(&obj(vec![])), Err("paramètre 'name' manquant".to_string()));
    assert_eq!(t.command_args("Safari"), vec!["-a".to_string(), "Safari".to_string()]);
    assert_eq!(t.outcome("Safari", true), Ok("Application Safari ouverte.".to_string()));
    assert_eq!(t.outcome("Foo", false), Err("impossible d'ouvrir 'Foo'".to_string()));
}

#[test]
fn set_volume_validates_the_level() {
    let t = SetVolume;
    assert_eq!(t.requested_level(&obj(vec![("level", JsonValue::Int(50))])), Ok(50));
    assert_eq!(t.requested_level(&obj(vec![("level", JsonValue::Int(0))])), Ok(0));
    assert_eq!(t.requested_level(&obj(vec![("level", JsonValue::Int(100))])), Ok(100));
    assert_eq!(
        t.requested_level(&obj(vec![("level", JsonValue::Int(150))])),
        Err("le niveau doit être entre 0 et 100".to_string())
    );
    assert_eq!(
        t.requested_level(&obj(vec![("level", JsonValue::Int(-1))])),
        Err("le niveau doit être entre 0 et 100".to_string())
    );
    assert_eq!(
        t.requested_level(&obj(vec![("level", s("50"))])),
        Err("paramètre 'level' manquant".to_string())
    );
    assert_eq!(t.requested_level(&JsonValue::Null), Err("paramètre 'level' manquant".to_string()));
    assert_eq!(t.script(42), "set volume output volume 42");
    assert_eq!(t.reply(7), "Volume réglé à 7 %.");
}

#[test]
fn play_music_scripts() {
    let t = PlayMusic;
    assert_eq!(t.action(&obj(vec![])), "play");
    assert_eq!(t.action(&obj(vec![("action", s("next"))])), "next");
    assert_eq!(t.query(&obj(vec![("query", s(""))])), None);
    assert_eq!(t.query(&obj(vec![("query", s("Daft Punk"))])), Some("Daft Punk".to_string()));
    assert_eq!(t.script("pause", Some("x")), "tell application \"Music\" to pause");
    assert_eq!(t.script("next", None), "tell application \"Music\" to next track");
    assert_eq!(t.script("previous", None), "tell application \"Music\" to previous track");
    assert_eq!(t.script("play", None), "tell application \"Music\" to playpause");
    let expected = "tell application \"Music\"\n                    set results to (search playlist \"Library\" for \"Daft Punk\")\n                    if length of results > 0 then\n                        play item 1 of results\n                        return name of item 1 of results\n                    else\n                        return \"\"\n                    end if\n                end tell";
    assert_eq!(t.script("play", Some("Daft \"Punk\"")), expected);
}

#[test]
fn play_music_replies() {
    let t = PlayMusic;
    assert_eq!(t.reply("play", Some("Zaz"), ""), "Rien trouvé pour « Zaz » dans la bibliothèque.");
    assert_eq!(t.reply("play", Some("Zaz"), "Je veux"), "Lecture : Je veux");
    assert_eq!(t.reply("pause", None, ""), "Musique en pause.");
    assert_eq!(t.reply("next", None, ""), "Piste suivante.");
    assert_eq!(t.reply("previous", None, ""), "Piste précédente.");
    assert_eq!(t.reply("pause", Some("Zaz"), ""), "Rien trouvé pour « Zaz » dans la bibliothèque.");
    assert_eq!(t.reply("next", Some("Zaz"), "Je veux"), "Lecture : Je veux");
    assert_eq!(t.reply("play", None, ""), "Lecture/pause basculé.");
}

#[test]
fn osascript_runs_a_script_and_trims_its_output() {
    assert_eq!(osascript_args("beep"), vec!["-e".to_string(), "beep".to_string()]);
    assert_eq!(osascript_outcome(true, "  Je veux \n", ""), Ok("Je veux".to_string()));
    assert_eq!(
        osascript_outcome(false, "", "execution error\n"),
        Err("osascript a échoué: execution error".to_string())
    );
}

#[test]
fn weather_location_defaults() {
    let w = GetWeather::new("Paris".to_string());
    assert_eq!(w.location(&obj(vec![])), "Paris");
    assert_eq!(w.location(&obj(vec![("location", s(""))])), "Paris");
    assert_eq!(w.location(&obj(vec![("location", s("Lyon"))])), "Lyon");
    let q = w.geocoding_query("Lyon");
    assert_eq!(q[0], ("name".to_string(), "Lyon".to_string()));
    assert_eq!(q[1], ("count".to_string(), "1".to_string()));
    assert_eq!(q[2], ("language".to_string(), "fr".to_string()));
}

#[test]
fn weather_place_and_report() {
    let w = GetWeather::new("Paris".to_string());
    let none = obj(vec![("results", JsonValue::Array(vec![]))]);
    assert_eq!(w.place(&none, "Atlantis").err(), Some("ville « Atlantis » introuvable".to_string()));
    assert_eq!(w.place(&obj(vec![]), "X").err(), Some("ville « X » introuvable".to_string()));
    let geo = obj(vec![(
        "results",
        JsonValue::Array(vec![obj(vec![("name", s("Lyon")), ("latitude", JsonValue::Float("45.75".into()))])]),
    )]);
    let place = w.place(&geo, "lyon").expect("place");
    let cur = obj(vec![("weather_code", JsonValue::Int(61))]);
    assert_eq!(
        w.report(place, "lyon", &cur, "12.5", "11", "20.3"),
        "Lyon : pluie, température 12.5 °C (ressenti 11 °C), vent 20.3 km/h."
    );
    assert_eq!(
        w.report(&obj(vec![]), "lyon", &obj(vec![]), "1", "2", "3"),
        "lyon : ciel dégagé, température 1 °C (ressenti 2 °C), vent 3 km/h."
    );
    assert_eq!(w.coordinate(place, "latitude"), "45.75");
    assert_eq!(w.coordinate(place, "longitude"), "null");
    let f = w.forecast_query("45.75", "4.85");
    assert_eq!(f[2].1, "temperature_2m,apparent_temperature,weather_code,wind_speed_10m");
}

#[test]
fn search_url_and_query() {
    let t = SearchWeb::new("http://localhost:8888//".to_string());
    assert_eq!(t.search_url(), "http://localhost:8888/search");
    assert_eq!(SearchWeb::new("http://x".into()).search_url(), "http://x/search");
    assert_eq!(t.query(&obj(vec![])), Err("paramètre 'query' manquant".to_string()));
    assert_eq!(t.query(&obj(vec![("query", s("rust"))])), Ok("rust".to_string()));
    let q = t.search_query("rust");
    assert_eq!(q, vec![("q".to_string(), "rust".to_string()), ("format".to_string(), "json".to_string())]);
}

#[test]
fn search_summary_keeps_five_results_and_short_extracts() {
    let t = SearchWeb::new("http://x".into());
    let long: String = "a".repeat(250);
    let mut results = vec![obj(vec![
        ("title", s("Rust")),
        ("url", s("https://www.rust-lang.org")),
        ("content", s(&long)),
    ])];
    results.push(obj(vec![("content", s("sans titre ici"))]));
    for i in 0..5 {
        results.push(obj(vec![("title", s(&format!("r{i}")))]));
    }
    let resp = obj(vec![("results", JsonValue::Array(results))]);
    let out = t.summary(&resp, "rust").expect("summary");
    let lines: Vec<&str> = out.split('\n').collect();
    assert_eq!(lines.len(), 5);
    assert_eq!(lines[0], format!("- Rust — https://www.rust-lang.org — {}", "a".repeat(200)));
    assert_eq!(lines[1], "- (sans titre) — sans titre ici");
    assert_eq!(lines[2], "- r0 — ");
    assert_eq!(lines[4], "- r2 — ");
    assert_eq!(
        t.summary(&obj(vec![("results", JsonValue::Array(vec![]))]), "rien"),
        Err("aucun résultat pour « rien »".to_string())
    );
    assert_eq!(t.summary(&JsonValue::Null, "rien"), Err("aucun résultat pour « rien »".to_string()));
}

#[test]
fn search_result_gives_title_url_and_extract() {
    let t = SearchWeb::new("http://x".into());
    let resp = obj(vec![(
        "results",
        JsonValue::Array(vec![obj(vec![
            ("title", s("Rust")),
            ("url", s("https://www.rust-lang.org")),
            ("content", s("Un langage")),
        ])]),
    )]);
    assert_eq!(t.summary(&resp, "rust"), Ok("- Rust — https://www.rust-lang.org — Un langage".to_string()));
}

#[test]
fn json_text_is_compact_and_escaped() {
    let v = obj(vec![
        ("a", JsonValue::Int(-12)),
        ("b", JsonValue::Array(vec![JsonValue::Bool(true), JsonValue::Null, JsonValue::UInt(18446744073709551615)])),
        ("c", s("dit \"oui\"\n\u{1}\\")),
        ("d", JsonValue::Float("2.5".into())),
        ("e", obj(vec![])),
    ]);
    assert_eq!(
        v.to_json_text(),
        "{\"a\":-12,\"b\":[true,null,18446744073709551615],\"c\":\"dit \\\"oui\\\"\\n\\u0001\\\\\",\"d\":2.5,\"e\":{}}"
    );
    assert_eq!(JsonValue::Int(i64::MIN).to_json_text(), i64::MIN.to_string());
}

#[test]
fn registering_a_tool_lists_its_own_definition_and_level() {
    let mut reg: Registry<AssistantTool> = Registry::new();
    let tool = AssistantTool::SetVolume(SetVolume);
    let expected = format!("{:?}", tool.definition());
    reg.register(tool);
    let defs = reg.definitions();
    assert_eq!(defs.len(), 1);
    assert_eq!(format!("{:?}", defs[0]), expected);
    assert_eq!(defs[0].name, "set_volume");
    assert_eq!(reg.level_of("set_volume"), Some(Permission::Reversible));
    assert!(matches!(reg.get("set_volume"), Some(AssistantTool::SetVolume(_))));

    let weather = AssistantTool::GetWeather(GetWeather::new("Nice".to_string()));
    let expected = format!("{:?}", weather.definition());
    reg.register(weather);
    let defs = reg.definitions();
    assert_eq!(defs.len(), 2);
    assert_eq!(format!("{:?}", defs[0]), expected);
    assert_eq!(reg.level_of("get_weather"), Some(Permission::Read));
}

#[test]
fn time_tool_writes_the_date_and_time() {
    let t = LocalTime::new(2024, 3, 15, 9, 5).expect("an existing minute");
    assert_eq!(GetTime.reply(&t), "Friday 15 March 2024, 09:05");
    let t = LocalTime::new(2023, 12, 31, 23, 59).expect("an existing minute");
    assert_eq!(GetTime.reply(&t), "Sunday 31 December 2023, 23:59");
}

#[test]
fn local_time_accepts_only_existing_minutes() {
    assert!(LocalTime::new(2024, 2, 29, 0, 0).is_some());
    assert!(LocalTime::new(2023, 2, 29, 0, 0).is_none());
    assert!(LocalTime::new(2000, 2, 29, 12, 0).is_some());
    assert!(LocalTime::new(1900, 2, 29, 12, 0).is_none());
    assert!(LocalTime::new(2024, 4, 31, 12, 0).is_none());
    assert!(LocalTime::new(2024, 13, 1, 12, 0).is_none());
    assert!(LocalTime::new(2024, 0, 1, 12, 0).is_none());
    assert!(LocalTime::new(2024, 1, 0, 12, 0).is_none());
    assert!(LocalTime::new(2024, 1, 1, 24, 0).is_none());
    assert!(LocalTime::new(2024, 1, 1, 23, 60).is_none());
    assert!(LocalTime::new(262142, 12, 31, 23, 59).is_some());
    assert!(LocalTime::new(262143, 1, 1, 0, 0).is_none());
    assert!(LocalTime::new(-262143, 1, 1, 0, 0).is_some());
    assert!(LocalTime::new(-262144, 12, 31, 0, 0).is_none());
}

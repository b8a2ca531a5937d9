use devinfo::band::{elapsed, staleness, temperature_band, temperature_text, Staleness, TempBand};
use devinfo::device::{DecodeError, RawUpdate, Temperature, UpdatePatch};
use devinfo::dispatch::{
    classify_action, log_command, publish_command, topic, transition_log, ActionKind, Command,
    Plugin, HELP, MODULE,
};
use devinfo::registry::{ApplyOutcome, Registry, Transition};
use devinfo::report::render_device;

fn patch(name: &str) -> UpdatePatch {
    UpdatePatch {
        name: name.to_string(),
        onboard: None,
        uptime: None,
        hostname: None,
        os: None,
        temperature: None,
        sw_uptime: None,
    }
}

fn raw(name: Option<&str>) -> RawUpdate {
    RawUpdate {
        name: name.map(|n| n.to_string()),
        onboard: Some(true),
        uptime: Some(5),
        hostname: None,
        os: None,
        temperature: None,
        sw_uptime: None,
    }
}

#[test]
fn fresh_device_gets_defaults() {
    let mut r = Registry::new();
    let out = r.apply_update(patch("a"), 10);
    assert_eq!(out, ApplyOutcome { created: true, transition: None });
    let mut p = patch("a");
    p.uptime = Some(99);
    let out = r.apply_update(p, 20);
    assert_eq!(out, ApplyOutcome { created: false, transition: None });
    let d = r.find_by_name(&"a".to_string()).unwrap();
    assert!(d.onboard);
    assert_eq!(d.uptime, 99);
    assert_eq!(d.hostname, "n/a");
    assert_eq!(d.os, "n/a");
    assert_eq!(d.temperature, Temperature { centi: 0 });
    assert_eq!(d.sw_uptime, 0);
    assert_eq!(d.last_update, 20);
    assert_eq!(r.len(), 1);
}

#[test]
fn onboard_true_on_new_name_announces() {
    let mut r = Registry::new();
    let mut p = patch("dev1");
    p.onboard = Some(true);
    let out = r.apply_update(p, 7);
    assert!(out.created);
    assert_eq!(out.transition, Some(Transition { prev: false, curr: true }));
    assert!(r.get(0).onboard);
    assert_eq!(r.get(0).last_update, 7);
}

#[test]
fn onboard_false_on_new_name_is_silent() {
    let mut r = Registry::new();
    let mut p = patch("dev1");
    p.onboard = Some(false);
    let out = r.apply_update(p, 7);
    assert!(out.created);
    assert_eq!(out.transition, None);
    assert!(!r.get(0).onboard);
}

#[test]
fn same_onboard_no_transition_but_stamped() {
    let mut r = Registry::new();
    let mut p = patch("dev1");
    p.onboard = Some(true);
    r.apply_update(p, 100);
    let mut p = patch("dev1");
    p.onboard = Some(true);
    let out = r.apply_update(p, 250);
    assert_eq!(out, ApplyOutcome { created: false, transition: None });
    assert_eq!(r.get(0).last_update, 250);
}

#[test]
fn changed_onboard_reports_transition() {
    let mut r = Registry::new();
    r.apply_update(patch("dev1"), 1);
    let mut p = patch("dev1");
    p.onboard = Some(false);
    let out = r.apply_update(p, 2);
    assert_eq!(out.transition, Some(Transition { prev: true, curr: false }));
    assert!(!r.get(0).onboard);
}

#[test]
fn disjoint_patches_merge_both_ways() {
    let mut r1 = Registry::new();
    let mut r2 = Registry::new();
    let mk1 = || {
        let mut p = patch("x");
        p.hostname = Some("host".to_string());
        p.uptime = Some(42);
        p
    };
    let mk2 = || {
        let mut p = patch("x");
        p.os = Some("linux".to_string());
        p.temperature = Some(Temperature { centi: 4550 });
        p.sw_uptime = Some(3);
        p
    };
    r1.apply_update(mk1(), 1);
    r1.apply_update(mk2(), 2);
    r2.apply_update(mk2(), 1);
    r2.apply_update(mk1(), 2);
    for r in [&r1, &r2] {
        let d = r.get(0);
        assert_eq!(d.hostname, "host");
        assert_eq!(d.uptime, 42);
        assert_eq!(d.os, "linux");
        assert_eq!(d.temperature, Temperature { centi: 4550 });
        assert_eq!(d.sw_uptime, 3);
    }
    assert_eq!(r1.len(), 1);
}

#[test]
fn registration_order_kept() {
    let mut r = Registry::new();
    r.apply_update(patch("b"), 1);
    r.apply_update(patch("a"), 2);
    r.apply_update(patch("b"), 3);
    let names: Vec<&str> = r.list_devices().iter().map(|d| d.name.as_str()).collect();
    assert_eq!(names, vec!["b", "a"]);
    assert!(r.find_by_name(&"c".to_string()).is_none());
}

#[test]
fn refresh_all_one_publish_per_device() {
    let mut pl = Plugin::new();
    for n in ["d1", "d2", "d3"] {
        pl.update(Ok(patch(n)), 1).unwrap();
    }
    let cs = pl.refresh("all");
    assert_eq!(cs.len(), 3);
    for (c, n) in cs.iter().zip(["d1", "d2", "d3"]) {
        match c {
            Command::Publish { topic } => assert_eq!(topic, &format!("tln/{n}/send")),
            Command::Log { .. } => panic!("unexpected log"),
        }
    }
}

#[test]
fn refresh_other_payload_is_noop() {
    let mut pl = Plugin::new();
    pl.update(Ok(patch("d1")), 1).unwrap();
    assert!(pl.refresh("x").is_empty());
    assert!(pl.refresh("").is_empty());
    assert!(Plugin::new().refresh("all").is_empty());
}

#[test]
fn temperature_bands() {
    assert_eq!(temperature_band(Temperature { centi: 6000 }), TempBand::Normal);
    assert_eq!(temperature_band(Temperature { centi: 6001 }), TempBand::Warm);
    assert_eq!(temperature_band(Temperature { centi: 8500 }), TempBand::Warm);
    assert_eq!(temperature_band(Temperature { centi: 8501 }), TempBand::Hot);
    assert_eq!(temperature_band(Temperature { centi: -30000 }), TempBand::Normal);
}

#[test]
fn staleness_bands() {
    assert_eq!(staleness(300), Staleness::Fresh);
    assert_eq!(staleness(301), Staleness::Stale);
    assert_eq!(staleness(0), Staleness::Fresh);
    assert_eq!(elapsed(1301, 1000), 301);
    assert_eq!(elapsed(5, 10), 0);
}

#[test]
fn missing_name_is_malformed_and_changes_nothing() {
    let r = UpdatePatch::from_raw(raw(None));
    assert_eq!(r.as_ref().err(), Some(&DecodeError::Malformed));
    let mut pl = Plugin::new();
    pl.update(Ok(patch("keep")), 1).unwrap();
    let res = pl.update(r, 2);
    assert_eq!(res.err(), Some(DecodeError::Malformed));
    assert_eq!(pl.registry().len(), 1);
    assert_eq!(pl.registry().get(0).last_update, 1);
}

#[test]
fn raw_with_name_is_accepted() {
    let p = UpdatePatch::from_raw(raw(Some("n1"))).unwrap();
    assert_eq!(p.name, "n1");
    assert_eq!(p.onboard, Some(true));
    assert_eq!(p.uptime, Some(5));
}

#[test]
fn temperature_text_forms() {
    assert_eq!(temperature_text(Temperature { centi: 4550 }), "45.5");
    assert_eq!(temperature_text(Temperature { centi: 6000 }), "60");
    assert_eq!(temperature_text(Temperature { centi: 6001 }), "60.01");
    assert_eq!(temperature_text(Temperature { centi: -325 }), "-3.25");
    assert_eq!(temperature_text(Temperature { centi: 0 }), "0");
    assert_eq!(temperature_text(Temperature { centi: 5 }), "0.05");
}

#[test]
fn update_emits_transition_log() {
    let mut pl = Plugin::new();
    let mut p = patch("dev9");
    p.onboard = Some(true);
    let cs = pl.update(Ok(p), 1).unwrap();
    assert_eq!(cs.len(), 1);
    match &cs[0] {
        Command::Log { message } => assert_eq!(
            message,
            "[\x1b[34mdevinfo\x1b[39m] dev9: \x1b[32mfalse -> true\x1b[39m"
        ),
        Command::Publish { .. } => panic!("unexpected publish"),
    }
    let cs = pl.update(Ok(patch("dev9")), 2).unwrap();
    assert!(cs.is_empty());
}

#[test]
fn transition_log_offline_is_red() {
    let t = Transition { prev: true, curr: false };
    assert_eq!(
        transition_log("d", t),
        "[\x1b[34mdevinfo\x1b[39m] d: \x1b[31mtrue -> false\x1b[39m"
    );
}

#[test]
fn command_framing() {
    assert_eq!(log_command("abc"), "record log 'abc'");
    assert_eq!(
        publish_command(&topic("d1"), "xyz"),
        "publish report topic='tln/d1/send' payload='xyz'"
    );
}

#[test]
fn action_classification() {
    assert_eq!(classify_action("update", "{}"), ActionKind::Update);
    assert_eq!(classify_action("refresh", "all"), ActionKind::RefreshAll);
    assert_eq!(classify_action("refresh", "x"), ActionKind::Ignored);
    assert_eq!(classify_action("other", "all"), ActionKind::Ignored);
}

#[test]
fn device_block_rendering() {
    let mut r = Registry::new();
    let mut p = patch("box");
    p.uptime = Some(61);
    p.sw_uptime = Some(3600);
    p.hostname = Some("h".to_string());
    p.os = Some("o".to_string());
    p.temperature = Some(Temperature { centi: 8501 });
    r.apply_update(p, 1000);
    let s = render_device(r.get(0), 1400);
    assert_eq!(
        s,
        "\x1b[34mbox\x1b[39m\n\
         \tOnboard: \x1b[1m\x1b[32mtrue\x1b[39m\x1b[0m (Last updated: \x1b[31m6m, 40s\x1b[39m ago)\n\
         \tSW uptime: 1h\n\
         \tTemperature: \x1b[31m85.01\x1b[39m°C\n\
         \tUptime: 1m, 1s\n\
         \tHostname: h\n\
         \tOs: o\n"
    );
    let fresh = render_device(r.get(0), 1300);
    assert!(fresh.contains("\x1b[32m5m\x1b[39m ago"));
    assert_eq!(r.render(1400), s);
}

#[test]
fn plugin_name_and_help() {
    let pl = Plugin::new();
    assert_eq!(pl.name(), MODULE);
    assert_eq!(pl.show(), HELP);
    assert!(pl.show().contains("refresh all"));
    assert_eq!(pl.status(0), "");
}

#[test]
fn warm_temperature_rendered_yellow() {
    let mut r = Registry::new();
    let mut p = patch("w");
    p.temperature = Some(Temperature { centi: 7000 });
    r.apply_update(p, 0);
    let s = render_device(r.get(0), 0);
    assert!(s.contains("\tTemperature: \x1b[33m70\x1b[39m°C\n"));
    assert!(s.contains("\tHostname: n/a\n"));
    assert!(s.contains("\tSW uptime: 0s\n"));
}

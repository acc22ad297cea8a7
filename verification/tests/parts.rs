use reaper_notify::document::{binding_document, binding_fields, write_binding, BindingFields};
use reaper_notify::fixture::{
    binding_path, seed_team, set_heartbeat_fresh, set_heartbeat_stale_over_1h, tmp_home,
};
use reaper_notify::judgment::{is_orphan, reconcile_orphan, HeartbeatPair};
use reaper_notify::notice::{revoked, Notice};
use reaper_notify::reaping::{
    notify_binding_reaped, remove_and_notify, Effect, Event, Phase, Reaping,
};
use reaper_notify::text::{notify_body, opt_field};

const HOUR: u64 = 3_600_000;

fn sample() -> serde_json::Value {
    binding_document("worker", "t-1", "feat/x", "/wt/w", "2026-08-14T00:00:00+00:00")
}

fn fields(task_id: &str, branch: &str, worktree: &str) -> BindingFields {
    BindingFields {
        task_id: task_id.to_string(),
        branch: branch.to_string(),
        worktree: worktree.to_string(),
    }
}

fn sample_body() -> String {
    "binding for instance `worker` was revoked by the daemon-startup orphan reaper \
     (binding issued_at > 24h ago AND heartbeat stale > 1h — #693 protection did not apply). \
     worktree=`/wt/w` branch=`feat/x` task_id=`t-1`. If `worker` still needs this worktree, \
     recover with `bind_self` (instance=`worker`, task_id=`t-1`, branch=`feat/x`)."
        .to_string()
}

fn sample_notice(recipient: &str) -> Notice {
    Notice {
        recipient: recipient.to_string(),
        sender: "system:binding_reaper".to_string(),
        kind: "binding_reaper_revoked".to_string(),
        body: sample_body(),
        context: None,
        task_id: Some("t-1".to_string()),
    }
}

fn reaping(phase: Phase) -> Reaping {
    Reaping { agent: "worker".to_string(), fields: fields("t-1", "feat/x", "/wt/w"), phase }
}

#[test]
fn empty_field_is_unknown() {
    assert_eq!(opt_field(""), "(unknown)");
    assert_eq!(opt_field("x"), "x");
    assert_eq!(opt_field(" "), " ");
    assert_eq!(opt_field(opt_field("")), "(unknown)");
}

#[test]
fn body_word_for_word() {
    assert_eq!(notify_body("worker", "t-1", "feat/x", "/wt/w"), sample_body());
    assert_eq!(
        notify_body("a", "", "", ""),
        "binding for instance `a` was revoked by the daemon-startup orphan reaper \
         (binding issued_at > 24h ago AND heartbeat stale > 1h — #693 protection did not apply). \
         worktree=`(unknown)` branch=`(unknown)` task_id=`(unknown)`. If `a` still needs this \
         worktree, recover with `bind_self` (instance=`a`, task_id=`(unknown)`, \
         branch=`(unknown)`)."
    );
}

#[test]
fn notice_names_the_task_where_known() {
    assert_eq!(revoked("lead", "worker", &fields("t-1", "feat/x", "/wt/w")), sample_notice("lead"));
    assert_eq!(revoked("lead", "worker", &fields("", "feat/x", "/wt/w")).task_id, None);
}

#[test]
fn fields_are_read_from_the_document() {
    assert_eq!(binding_fields(&sample()), fields("t-1", "feat/x", "/wt/w"));
    let odd: serde_json::Value =
        serde_json::from_str(r#"{"task_id": 7, "branch": null, "worktree": {"a": "b"}}"#).unwrap();
    assert_eq!(binding_fields(&odd), fields("", "", ""));
    let partial: serde_json::Value =
        serde_json::from_str(r#"{"branch": "main", "other": [1]}"#).unwrap();
    assert_eq!(binding_fields(&partial), fields("", "main", ""));
    for text in ["null", "[\"task_id\"]", "\"task_id\"", "3", "true", "{}"] {
        let value: serde_json::Value = serde_json::from_str(text).unwrap();
        assert_eq!(binding_fields(&value), fields("", "", ""));
    }
}

#[test]
fn document_holds_what_was_written() {
    let value = sample();
    assert_eq!(value["version"].as_i64(), Some(1));
    assert_eq!(value["agent"].as_str(), Some("worker"));
    assert_eq!(value["task_id"].as_str(), Some("t-1"));
    assert_eq!(value["branch"].as_str(), Some("feat/x"));
    assert_eq!(value["worktree"].as_str(), Some("/wt/w"));
    assert_eq!(value["issued_at"].as_str(), Some("2026-08-14T00:00:00+00:00"));
    assert_eq!(value.as_object().unwrap().len(), 6);
}

#[test]
fn written_binding_text() {
    assert_eq!(
        write_binding("w", "t", "b", "/w", 1_431_648_000, 0).unwrap(),
        "{\n  \"agent\": \"w\",\n  \"branch\": \"b\",\n  \
         \"issued_at\": \"2015-05-15T00:00:00+00:00\",\n  \"task_id\": \"t\",\n  \
         \"version\": 1,\n  \"worktree\": \"/w\"\n}"
    );
    let text = write_binding("w", "t", "b", "/w", -1, 500_000_000).unwrap();
    let value: serde_json::Value = serde_json::from_str(&text).unwrap();
    assert_eq!(value["issued_at"].as_str(), Some("1969-12-31T23:59:59.500+00:00"));
    assert_eq!(binding_fields(&value), fields("t", "b", "/w"));
}

#[test]
fn no_such_instant_is_not_written() {
    assert_eq!(write_binding("w", "t", "b", "/w", i64::MAX, 0), None);
    assert_eq!(write_binding("w", "t", "b", "/w", 0, 2_000_000_000), None);
    assert_eq!(write_binding("w", "t", "b", "/w", 0, u32::MAX), None);
    assert_eq!(write_binding("w", "t", "b", "/w", 8_210_266_876_800, 0), None);
    assert_eq!(write_binding("w", "t", "b", "/w", -8_334_601_228_801, 0), None);
}

fn issued_at(secs: i64, nanos: u32) -> String {
    let text = write_binding("w", "t", "b", "/w", secs, nanos).unwrap();
    let value: serde_json::Value = serde_json::from_str(&text).unwrap();
    value["issued_at"].as_str().unwrap().to_string()
}

#[test]
fn every_instant_is_written() {
    assert_eq!(issued_at(8_210_266_876_799, 0), "+262142-12-31T23:59:59+00:00");
    assert_eq!(
        issued_at(8_210_266_876_799, 1_999_999_999),
        "+262142-12-31T23:59:60.999999999+00:00"
    );
    assert_eq!(issued_at(-8_334_601_228_800, 0), "-262143-01-01T00:00:00+00:00");
    assert_eq!(issued_at(59, 1_500_000_000), "1970-01-01T00:00:60.500+00:00");
    let odd = chrono::Timelike::with_nanosecond(
        &chrono::DateTime::from_timestamp(1_431_648_004, 0).unwrap(),
        1_250_000_000,
    )
    .unwrap();
    assert_eq!(
        issued_at(odd.timestamp(), odd.timestamp_subsec_nanos()),
        odd.to_rfc3339()
    );
    let now = chrono::Utc::now();
    assert_eq!(issued_at(now.timestamp(), now.timestamp_subsec_nanos()), now.to_rfc3339());
}

#[test]
fn orphans_are_over_both_ages() {
    let now = 1_000 * HOUR;
    let day_ago = (now - 24 * HOUR) as i64;
    let hour_ago = now - HOUR;
    let stale = HeartbeatPair { heartbeat_at_ms: hour_ago - 1 };
    let on_the_hour = HeartbeatPair { heartbeat_at_ms: hour_ago };
    assert!(is_orphan(day_ago - 1, &stale, now));
    assert!(is_orphan(day_ago - 1, &stale, now + 5 * HOUR));
    assert!(!is_orphan(day_ago, &stale, now));
    assert!(!is_orphan(day_ago - 1, &on_the_hour, now));
    assert!(!is_orphan(i64::MAX, &stale, now));
    assert!(is_orphan(i64::MIN, &stale, u64::MAX));
    assert!(!is_orphan(i64::MIN, &HeartbeatPair { heartbeat_at_ms: u64::MAX }, now));
}

#[test]
fn only_orphans_are_reaped() {
    let now = 1_000 * HOUR;
    let stale = HeartbeatPair { heartbeat_at_ms: 0 };
    assert_eq!(
        reconcile_orphan("worker", &sample(), 0, &stale, now),
        Some((reaping(Phase::Removing), vec![Effect::RemoveBinding]))
    );
    assert_eq!(reconcile_orphan("worker", &sample(), now as i64, &stale, now), None);
}

#[test]
fn heartbeats_are_set() {
    let mut pair = HeartbeatPair { heartbeat_at_ms: 5 };
    set_heartbeat_stale_over_1h(&mut pair, 10 * HOUR);
    assert_eq!(pair.heartbeat_at_ms, 8 * HOUR);
    assert!(is_orphan(-100 * HOUR as i64, &pair, 10 * HOUR));
    set_heartbeat_fresh(&mut pair, 10 * HOUR);
    assert_eq!(pair.heartbeat_at_ms, 10 * HOUR);
    assert!(!is_orphan(-100 * HOUR as i64, &pair, 10 * HOUR));
    set_heartbeat_stale_over_1h(&mut pair, HOUR);
    assert_eq!(pair.heartbeat_at_ms, 0);
}

#[test]
fn reaping_begins_with_the_removal() {
    assert_eq!(
        remove_and_notify("worker", &sample()),
        (reaping(Phase::Removing), vec![Effect::RemoveBinding])
    );
    assert_eq!(
        notify_binding_reaped("worker", &sample()),
        (reaping(Phase::NotifyingSelf), vec![Effect::Send(sample_notice("worker"))])
    );
}

#[test]
fn reaping_step_by_step() {
    assert_eq!(
        reaping(Phase::Removing).step(Event::Removed),
        (
            reaping(Phase::NotifyingSelf),
            vec![
                Effect::ForgetBinding("worker".to_string()),
                Effect::ReportRemoved,
                Effect::Send(sample_notice("worker")),
            ]
        )
    );
    assert_eq!(
        reaping(Phase::Removing).step(Event::RemoveFailed),
        (reaping(Phase::Finished), vec![Effect::ReportRemoveFailed])
    );
    assert_eq!(
        reaping(Phase::NotifyingSelf).step(Event::Sent),
        (reaping(Phase::Resolving), vec![Effect::ResolveOrchestrator("worker".to_string())])
    );
    assert_eq!(
        reaping(Phase::NotifyingSelf).step(Event::SendFailed),
        (
            reaping(Phase::Resolving),
            vec![
                Effect::ReportSelfNotTold("worker".to_string()),
                Effect::ResolveOrchestrator("worker".to_string()),
            ]
        )
    );
    assert_eq!(
        reaping(Phase::Resolving).step(Event::Orchestrator(None)),
        (reaping(Phase::Finished), vec![])
    );
    assert_eq!(
        reaping(Phase::Resolving).step(Event::Orchestrator(Some("worker".to_string()))),
        (reaping(Phase::Finished), vec![])
    );
    assert_eq!(
        reaping(Phase::Resolving).step(Event::Orchestrator(Some("lead".to_string()))),
        (
            reaping(Phase::NotifyingOrchestrator("lead".to_string())),
            vec![Effect::Send(sample_notice("lead"))]
        )
    );
    assert_eq!(
        reaping(Phase::NotifyingOrchestrator("lead".to_string())).step(Event::Sent),
        (reaping(Phase::Finished), vec![])
    );
    assert_eq!(
        reaping(Phase::NotifyingOrchestrator("lead".to_string())).step(Event::SendFailed),
        (
            reaping(Phase::Finished),
            vec![Effect::ReportOrchestratorNotTold {
                agent: "worker".to_string(),
                recipient: "lead".to_string(),
            }]
        )
    );
}

#[test]
fn last_effect_is_what_the_reaping_waits_for() {
    let steps = [
        reaping(Phase::Removing).step(Event::Removed),
        reaping(Phase::Removing).step(Event::RemoveFailed),
        reaping(Phase::NotifyingSelf).step(Event::Sent),
        reaping(Phase::NotifyingSelf).step(Event::SendFailed),
        reaping(Phase::Resolving).step(Event::Orchestrator(None)),
        reaping(Phase::Resolving).step(Event::Orchestrator(Some("lead".to_string()))),
        reaping(Phase::NotifyingOrchestrator("lead".to_string())).step(Event::Sent),
        reaping(Phase::NotifyingOrchestrator("lead".to_string())).step(Event::SendFailed),
    ];
    for (state, effects) in steps {
        let fits = match effects.last() {
            Some(Effect::Send(_)) => {
                matches!(state.phase, Phase::NotifyingSelf | Phase::NotifyingOrchestrator(_))
            }
            Some(Effect::ResolveOrchestrator(_)) => state.phase == Phase::Resolving,
            _ => state.phase == Phase::Finished,
        };
        assert!(fits, "{state:?} after {effects:?}");
    }
}

#[test]
fn unexpected_events_change_nothing() {
    assert_eq!(reaping(Phase::Removing).step(Event::Sent), (reaping(Phase::Removing), vec![]));
    assert_eq!(
        reaping(Phase::NotifyingSelf).step(Event::Removed),
        (reaping(Phase::NotifyingSelf), vec![])
    );
    assert_eq!(reaping(Phase::Finished).step(Event::Removed), (reaping(Phase::Finished), vec![]));
}

#[test]
fn fleet_file_of_one_team() {
    assert_eq!(
        seed_team("lead", "worker"),
        "teams:\n  ops:\n    members: [worker, lead]\n    orchestrator: lead\n"
    );
}

#[test]
fn binding_files_stand_under_the_runtime_directory() {
    assert_eq!(binding_path("worker"), vec!["worker".to_string(), "binding.json".to_string()]);
    for dir in ["/home/d/runtime", "/home/d/runtime/", "/", "run", "", "über"] {
        for agent in ["worker", "a/b", "a/", "/abs", ""] {
            let mut path = std::path::PathBuf::from(dir);
            for part in binding_path(agent) {
                path = path.join(part);
            }
            assert_eq!(path, std::path::Path::new(dir).join(agent).join("binding.json"));
        }
    }
    assert_ne!(binding_path("a"), binding_path("a/"));
}

#[test]
fn homes_are_numbered() {
    assert_eq!(tmp_home(4_294_967_295, "case1", 0), "agend-reaper-notify-test-4294967295-case1-0");
    for (pid, id) in [(0u32, 10u32), (9, 100), (120, 99), (1_203, 4_294_967_295)] {
        assert_eq!(
            tmp_home(pid, "a-1", id),
            format!("agend-reaper-notify-test-{}-{}-{}", pid, "a-1", id)
        );
    }
    assert_ne!(tmp_home(1, "2-3", 4), tmp_home(1, "2", 34));
}

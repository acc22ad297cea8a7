use reaper_notify::document::write_binding;
use reaper_notify::fixture::{
    binding_path, seed_team, set_heartbeat_fresh, set_heartbeat_stale_over_1h, tmp_home,
};
use reaper_notify::judgment::{reconcile_orphan, HeartbeatPair};
use reaper_notify::notice::Notice;
use reaper_notify::reaping::{Effect, Event, Reaping};
use std::collections::HashMap;

/// A daemon home in memory: files by path, inboxes by name.
struct Home {
    dir: String,
    files: HashMap<String, String>,
    inboxes: HashMap<String, Vec<Notice>>,
    index: Vec<String>,
    log: Vec<String>,
    removable: bool,
    deliverable: bool,
}

impl Home {
    fn new(tag: &str) -> Home {
        Home {
            dir: tmp_home(7, tag, 0),
            files: HashMap::new(),
            inboxes: HashMap::new(),
            index: Vec::new(),
            log: Vec::new(),
            removable: true,
            deliverable: true,
        }
    }

    fn path(&self, agent: &str) -> String {
        format!("/{}/runtime/{}", self.dir, binding_path(agent).join("/"))
    }

    fn fleet_yaml(&mut self, text: &str) {
        self.files.insert("fleet.yaml".to_string(), text.to_string());
    }

    fn write_binding(
        &mut self,
        agent: &str,
        task_id: &str,
        branch: &str,
        worktree: &str,
        issued_at: chrono::DateTime<chrono::Utc>,
    ) {
        let text = write_binding(
            agent,
            task_id,
            branch,
            worktree,
            issued_at.timestamp(),
            issued_at.timestamp_subsec_nanos(),
        )
        .unwrap();
        let path = self.path(agent);
        self.files.insert(path, text);
        self.index.push(agent.to_string());
    }

    fn has_binding(&self, agent: &str) -> bool {
        self.files.contains_key(&self.path(agent))
    }

    fn orchestrator_for(&self, agent: &str) -> Option<String> {
        let fleet = self.files.get("fleet.yaml")?;
        let members = fleet.split("members: [").nth(1)?.split(']').next()?;
        let orchestrator = fleet.split("orchestrator: ").nth(1)?.trim().to_string();
        if members.split(", ").any(|m| m == agent) {
            Some(orchestrator)
        } else {
            None
        }
    }

    fn perform(&mut self, agent: &str, effect: Effect) -> Option<Event> {
        match effect {
            Effect::RemoveBinding => {
                let path = self.path(agent);
                if self.removable && self.files.remove(&path).is_some() {
                    Some(Event::Removed)
                } else {
                    Some(Event::RemoveFailed)
                }
            }
            Effect::ForgetBinding(name) => {
                self.index.retain(|n| *n != name);
                None
            }
            Effect::Send(notice) => {
                if self.deliverable {
                    self.inboxes.entry(notice.recipient.clone()).or_default().push(notice);
                    Some(Event::Sent)
                } else {
                    Some(Event::SendFailed)
                }
            }
            Effect::ResolveOrchestrator(name) => {
                Some(Event::Orchestrator(self.orchestrator_for(&name)))
            }
            report => {
                self.log.push(format!("{report:?}"));
                None
            }
        }
    }

    fn reconcile(&mut self, agent: &str, heartbeat: &HeartbeatPair, now_ms: u64) {
        let path = self.path(agent);
        let binding: serde_json::Value = serde_json::from_str(&self.files[&path]).unwrap();
        let issued_at =
            chrono::DateTime::parse_from_rfc3339(binding["issued_at"].as_str().unwrap()).unwrap();
        let begun =
            reconcile_orphan(agent, &binding, issued_at.timestamp_millis(), heartbeat, now_ms);
        let (mut reaping, mut effects): (Reaping, Vec<Effect>) = match begun {
            Some(begun) => begun,
            None => return,
        };
        loop {
            let mut answer = None;
            for effect in effects {
                answer = self.perform(agent, effect);
            }
            match answer {
                Some(event) => {
                    let (next, todo) = reaping.step(event);
                    reaping = next;
                    effects = todo;
                }
                None => return,
            }
        }
    }

    fn drain(&mut self, name: &str) -> Vec<Notice> {
        self.inboxes.remove(name).unwrap_or_default()
    }
}

fn now_ms() -> u64 {
    chrono::Utc::now().timestamp_millis() as u64
}

fn stale() -> HeartbeatPair {
    let mut pair = HeartbeatPair { heartbeat_at_ms: 0 };
    set_heartbeat_stale_over_1h(&mut pair, now_ms());
    pair
}

fn fresh() -> HeartbeatPair {
    let mut pair = HeartbeatPair { heartbeat_at_ms: 0 };
    set_heartbeat_fresh(&mut pair, now_ms());
    pair
}

/// Both conditions met: the binding is removed, and both the revoked instance and its
/// team orchestrator get a notice that carries worktree, branch, task and the way back.
#[test]
fn reconcile_orphans_notifies_revoked_instance_and_orchestrator_case1_89366_26() {
    let mut home = Home::new("case1");
    let agent = "worker-89366-26-case1";
    let orch = "lead-89366-26-case1";
    home.fleet_yaml(&seed_team(orch, agent));
    home.write_binding(
        agent,
        "t-fixture-1",
        "feat/stuck",
        "/wt/worker",
        chrono::Utc::now() - chrono::Duration::hours(25),
    );

    home.reconcile(agent, &stale(), now_ms());

    assert!(
        !home.has_binding(agent),
        "three conditions met: binding.json must still be removed (judgment unchanged)"
    );
    assert!(home.index.is_empty());

    let worker_inbox = home.drain(agent);
    assert_eq!(
        worker_inbox.len(),
        1,
        "revoked instance must receive exactly one notification: {worker_inbox:?}"
    );
    let text = &worker_inbox[0].body;
    assert!(text.contains("t-fixture-1"), "must carry task_id: {text}");
    assert!(text.contains("feat/stuck"), "must carry branch: {text}");
    assert!(text.contains("/wt/worker"), "must carry worktree: {text}");
    assert!(text.contains("bind_self"), "must instruct bind_self recovery: {text}");

    let orch_inbox = home.drain(orch);
    assert_eq!(
        orch_inbox.len(),
        1,
        "team orchestrator must also receive exactly one notification: {orch_inbox:?}"
    );
    assert_eq!(orch_inbox[0].body, worker_inbox[0].body);
    assert!(home.inboxes.is_empty());
}

/// A heartbeat within the hour keeps the binding, though it is well past a day old.
#[test]
fn reconcile_orphans_skips_fresh_heartbeat_case2_693_regression() {
    let mut home = Home::new("case2");
    let agent = "worker-89366-26-case2";
    home.write_binding(
        agent,
        "t-fixture-2",
        "feat/active",
        "/wt/worker2",
        chrono::Utc::now() - chrono::Duration::hours(25),
    );

    home.reconcile(agent, &fresh(), now_ms());

    assert!(
        home.has_binding(agent),
        "#693: a fresh-heartbeat binding must survive reconcile_orphans"
    );
    assert!(home.drain(agent).is_empty(), "no removal must mean no notification");
}

/// A binding under a day old is kept, though the heartbeat is stale.
#[test]
fn reconcile_orphans_skips_young_binding_case3_regression() {
    let mut home = Home::new("case3");
    let agent = "worker-89366-26-case3";
    home.write_binding(
        agent,
        "t-fixture-3",
        "feat/young",
        "/wt/worker3",
        chrono::Utc::now() - chrono::Duration::hours(1),
    );

    home.reconcile(agent, &stale(), now_ms());

    assert!(
        home.has_binding(agent),
        "a binding under 24h old must survive reconcile_orphans"
    );
    assert!(home.drain(agent).is_empty(), "no removal must mean no notification");
}

/// An instance that no team lists is told itself, and nobody is told in a team's place.
#[test]
fn reconcile_orphans_teamless_notifies_only_self_no_general_fallback_case4() {
    let mut home = Home::new("case4");
    let agent = "worker-89366-26-case4";
    home.fleet_yaml("teams:\n  ops:\n    members: [someoneelse]\n    orchestrator: someoneelse\n");
    home.write_binding(
        agent,
        "t-fixture-4",
        "feat/lonely",
        "/wt/worker4",
        chrono::Utc::now() - chrono::Duration::hours(25),
    );

    home.reconcile(agent, &stale(), now_ms());

    assert!(
        !home.has_binding(agent),
        "three conditions met: binding.json must still be removed"
    );
    assert_eq!(
        home.drain(agent).len(),
        1,
        "the teamless revoked instance itself must still be notified"
    );
    assert!(
        home.drain("general").is_empty(),
        "teamless must NOT fall back to a `general` notification — no actionable owner, no send"
    );
    assert!(home.inboxes.is_empty());
}

/// A binding that cannot be removed stays in the index, and nobody is told.
#[test]
fn failed_removal_claims_nothing() {
    let mut home = Home::new("stuck");
    home.removable = false;
    home.fleet_yaml(&seed_team("lead", "worker"));
    home.write_binding(
        "worker",
        "t-1",
        "b",
        "/w",
        chrono::Utc::now() - chrono::Duration::hours(30),
    );

    home.reconcile("worker", &stale(), now_ms());

    assert!(home.has_binding("worker"));
    assert_eq!(home.index, vec!["worker".to_string()]);
    assert!(home.inboxes.is_empty());
    assert_eq!(home.log, vec!["ReportRemoveFailed".to_string()]);
}

/// Notices that cannot be delivered are reported and bring nothing back.
#[test]
fn failed_delivery_keeps_the_removal() {
    let mut home = Home::new("readonly");
    home.deliverable = false;
    home.fleet_yaml(&seed_team("lead", "worker"));
    home.write_binding(
        "worker",
        "t-1",
        "b",
        "/w",
        chrono::Utc::now() - chrono::Duration::hours(30),
    );

    home.reconcile("worker", &stale(), now_ms());

    assert!(!home.has_binding("worker"));
    assert!(home.index.is_empty());
    assert!(home.inboxes.is_empty());
    assert_eq!(
        home.log,
        vec![
            "ReportRemoved".to_string(),
            "ReportSelfNotTold(\"worker\")".to_string(),
            "ReportOrchestratorNotTold { agent: \"worker\", recipient: \"lead\" }".to_string(),
        ]
    );
}

/// An orchestrator that loses its own binding is told once.
#[test]
fn orchestrator_of_itself_is_told_once() {
    let mut home = Home::new("lead");
    home.fleet_yaml(&seed_team("lead", "worker"));
    home.write_binding(
        "lead",
        "t-1",
        "b",
        "/w",
        chrono::Utc::now() - chrono::Duration::hours(30),
    );

    home.reconcile("lead", &stale(), now_ms());

    assert_eq!(home.drain("lead").len(), 1);
    assert!(home.inboxes.is_empty());
}

//! The wording of a revocation notice.

use vstd::prelude::*;

verus! {

/// How a binding field is shown in a notice: an empty one as `(unknown)`.
pub open spec fn shown(v: Seq<char>) -> Seq<char> {
    if v.len() == 0 {
        "(unknown)"@
    } else {
        v
    }
}

/// The notice about the binding of `agent`, word for word.
pub open spec fn body_text(
    agent: Seq<char>,
    task_id: Seq<char>,
    branch: Seq<char>,
    worktree: Seq<char>,
) -> Seq<char> {
    "binding for instance `"@ + agent
        + "` was revoked by the daemon-startup orphan reaper (binding issued_at > 24h ago AND heartbeat stale > 1h — #693 protection did not apply). worktree=`"@
        + shown(worktree) + "` branch=`"@ + shown(branch) + "` task_id=`"@ + shown(task_id)
        + "`. If `"@ + agent + "` still needs this worktree, recover with `"@ + "bind_self"@
        + "` (instance=`"@ + agent + "`, task_id=`"@ + shown(task_id) + "`, branch=`"@ + shown(
        branch,
    ) + "`)."@
}

/// `v` itself, or `(unknown)` where `v` is empty.
pub fn opt_field(v: &str) -> (r: &str)
    ensures
        r@ == shown(v@),
{
    if v.is_empty() {
        "(unknown)"
    } else {
        v
    }
}

/// Words the notice that tells an instance, or its orchestrator, that the reaper
/// revoked the instance's binding, and how to recover it.
pub fn notify_body(agent_name: &str, task_id: &str, branch: &str, worktree: &str) -> (r: String)
    ensures
        r@ == body_text(agent_name@, task_id@, branch@, worktree@),
{
    let mut body = String::new();
    body.append("binding for instance `");
    body.append(agent_name);
    body.append("` was revoked by the daemon-startup orphan reaper (binding issued_at > 24h ago AND heartbeat stale > 1h — #693 protection did not apply). worktree=`");
    body.append(opt_field(worktree));
    body.append("` branch=`");
    body.append(opt_field(branch));
    body.append("` task_id=`");
    body.append(opt_field(task_id));
    body.append("`. If `");
    body.append(agent_name);
    body.append("` still needs this worktree, recover with `");
    body.append("bind_self");
    body.append("` (instance=`");
    body.append(agent_name);
    body.append("`, task_id=`");
    body.append(opt_field(task_id));
    body.append("`, branch=`");
    body.append(opt_field(branch));
    body.append("`).");
    body
}

} // verus!

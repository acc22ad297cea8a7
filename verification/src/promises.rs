//! What each operation owes its caller, in terms of what goes in and what comes out.

use crate::document::{
    document_members, fields_of, is_instant, BindingFields, FieldsView, Member,
};
use crate::fixture::{
    binding_parts, decimal_text, home_text, team_text, texts, two_hours_back,
};
use crate::judgment::{binding_old, heartbeat_stale};
use crate::laws::{carries, law_notices, law_sweep, notices, sweep, World};
use crate::notice::{revoked_notice, Notice};
use crate::reaping::{
    effects_view, next, reaping_of, Effect, EffectView, Event, EventView, Phase, PhaseView,
    Reaping, ReapingView,
};
use crate::text::{body_text, shown};
use vstd::prelude::*;

verus! {

// ---- Who is told ----

/// An instance whose team has an orchestrator of another name is told first, and that
/// orchestrator second, whatever the two names are; and nobody else is.
pub proof fn law_orchestrator_is_told(
    agent: Seq<char>,
    orchestrator: Seq<char>,
    fields: FieldsView,
    world: World,
)
    requires
        world.removed,
        world.orchestrator == Some(orchestrator),
        orchestrator != agent,
    ensures
        notices(sweep(true, agent, fields, world)).len() == 2,
        notices(sweep(true, agent, fields, world))[0].recipient == agent,
        notices(sweep(true, agent, fields, world))[1].recipient == orchestrator,
{
    law_notices(true, agent, fields, world);
}

/// An instance without an orchestrator, or that is its own, is told alone.
pub proof fn law_told_alone(agent: Seq<char>, fields: FieldsView, world: World)
    requires
        world.removed,
        world.orchestrator is None || world.orchestrator == Some(agent),
    ensures
        notices(sweep(true, agent, fields, world)).len() == 1,
        notices(sweep(true, agent, fields, world))[0].recipient == agent,
{
    law_notices(true, agent, fields, world);
}

/// A sweep that removes nothing tells nobody.
pub proof fn law_told_nobody(orphan: bool, agent: Seq<char>, fields: FieldsView, world: World)
    requires
        !orphan || !world.removed,
    ensures
        notices(sweep(orphan, agent, fields, world)).len() == 0,
{
    law_notices(orphan, agent, fields, world);
}

// ---- What a step does ----

/// A reaping heeds only what it waits for: the outcome of the removal, of a delivery,
/// or the name of an orchestrator, each in its own phase. Any other event leaves the
/// phase as it is and calls for nothing.
pub proof fn law_other_events_change_nothing(s: ReapingView, event: EventView)
    requires
        s.phase is Removing ==> !(event is Removed) && !(event is RemoveFailed),
        s.phase is NotifyingSelf ==> !(event is Sent) && !(event is SendFailed),
        s.phase is NotifyingOrchestrator ==> !(event is Sent) && !(event is SendFailed),
        s.phase is Resolving ==> !(event is Orchestrator),
    ensures
        next(s, event).0 == s.phase,
        next(s, event).1.len() == 0,
{
}

/// Once the binding is gone, exactly three things are called for, in this order: the
/// index forgets the agent, the removal is logged, and a notice goes to the agent.
pub proof fn law_step_removed(s: ReapingView)
    requires
        s.phase is Removing,
    ensures
        next(s, EventView::Removed).0 is NotifyingSelf,
        next(s, EventView::Removed).1.len() == 3,
        next(s, EventView::Removed).1[0] == EffectView::ForgetBinding(s.agent),
        next(s, EventView::Removed).1[1] is ReportRemoved,
        next(s, EventView::Removed).1[2] is Send,
        next(s, EventView::Removed).1[2]->Send_0 == revoked_notice(s.agent, s.agent, s.fields),
{
}

/// Where the binding could not be removed, that is logged and the reaping is over.
pub proof fn law_step_remove_failed(s: ReapingView)
    requires
        s.phase is Removing,
    ensures
        next(s, EventView::RemoveFailed).0 is Finished,
        next(s, EventView::RemoveFailed).1.len() == 1,
        next(s, EventView::RemoveFailed).1[0] is ReportRemoveFailed,
{
}

/// Whether or not the agent could be told, its orchestrator is asked for next; where
/// it could not, that is logged before, and nothing else differs.
pub proof fn law_step_self_notice(s: ReapingView)
    requires
        s.phase is NotifyingSelf,
    ensures
        next(s, EventView::Sent).0 is Resolving,
        next(s, EventView::Sent).1.len() == 1,
        next(s, EventView::Sent).1[0] == EffectView::ResolveOrchestrator(s.agent),
        next(s, EventView::SendFailed).0 is Resolving,
        next(s, EventView::SendFailed).1.len() == 2,
        next(s, EventView::SendFailed).1[0] == EffectView::ReportSelfNotTold(s.agent),
        next(s, EventView::SendFailed).1[1] == EffectView::ResolveOrchestrator(s.agent),
{
}

/// An orchestrator of any name other than the agent's gets a notice of its own, the
/// only thing that is called for, and the reaping waits for its delivery.
pub proof fn law_step_orchestrator(s: ReapingView, name: Seq<char>)
    requires
        s.phase is Resolving,
        name != s.agent,
    ensures
        next(s, EventView::Orchestrator(Some(name))).0 == PhaseView::NotifyingOrchestrator(name),
        next(s, EventView::Orchestrator(Some(name))).1.len() == 1,
        next(s, EventView::Orchestrator(Some(name))).1[0] is Send,
        next(s, EventView::Orchestrator(Some(name))).1[0]->Send_0 == revoked_notice(
            name,
            s.agent,
            s.fields,
        ),
{
}

/// Without an orchestrator, or where the agent is its own, the reaping is over.
pub proof fn law_step_no_orchestrator(s: ReapingView)
    requires
        s.phase is Resolving,
    ensures
        next(s, EventView::Orchestrator(None)).0 is Finished,
        next(s, EventView::Orchestrator(None)).1.len() == 0,
        next(s, EventView::Orchestrator(Some(s.agent))).0 is Finished,
        next(s, EventView::Orchestrator(Some(s.agent))).1.len() == 0,
{
}

/// The outcome of the notice to the orchestrator ends the reaping; a failure is logged
/// with both names.
pub proof fn law_step_orchestrator_notice(s: ReapingView, name: Seq<char>)
    requires
        s.phase == PhaseView::NotifyingOrchestrator(name),
    ensures
        next(s, EventView::Sent).0 is Finished,
        next(s, EventView::Sent).1.len() == 0,
        next(s, EventView::SendFailed).0 is Finished,
        next(s, EventView::SendFailed).1.len() == 1,
        next(s, EventView::SendFailed).1[0] == (EffectView::ReportOrchestratorNotTold {
            agent: s.agent,
            recipient: name,
        }),
{
}

/// A reaping is begun of the agent and in the phase that are asked for, with the
/// fields of the binding document.
pub proof fn law_begun(agent: Seq<char>, binding: serde_json::Value, phase: PhaseView)
    ensures
        reaping_of(agent, binding, phase).agent == agent,
        reaping_of(agent, binding, phase).phase == phase,
        reaping_of(agent, binding, phase).fields == fields_of(crate::document::members(binding)),
{
}

/// Two agents with the same fields are reaped alike: the phases that follow an answer
/// do not depend on who the agent is or what the binding says, but for whether a name
/// that comes back is the agent's own.
pub proof fn law_agents_are_alike(s: ReapingView, other: ReapingView, event: EventView)
    requires
        s.phase == other.phase,
        event is Orchestrator ==> (event->Orchestrator_0 == Some(s.agent)
            <==> event->Orchestrator_0 == Some(other.agent)),
    ensures
        next(s, event).0 == next(other, event).0,
        next(s, event).1.len() == next(other, event).1.len(),
{
}

// ---- What a notice says ----

/// Every notice of a sweep comes from the reaper and says so, answers nothing, and
/// names the task of the binding, or none where the binding names none.
pub proof fn law_notice_marks(
    orphan: bool,
    agent: Seq<char>,
    fields: FieldsView,
    world: World,
    i: int,
)
    requires
        0 <= i < notices(sweep(orphan, agent, fields, world)).len(),
    ensures
        notices(sweep(orphan, agent, fields, world))[i].sender == "system:binding_reaper"@,
        notices(sweep(orphan, agent, fields, world))[i].kind == "binding_reaper_revoked"@,
        notices(sweep(orphan, agent, fields, world))[i].context is None,
        fields.task_id.len() == 0 ==> notices(
            sweep(orphan, agent, fields, world),
        )[i].task_id is None,
        fields.task_id.len() > 0 ==> notices(sweep(orphan, agent, fields, world))[i].task_id
            == Some(fields.task_id),
{
    law_notices(orphan, agent, fields, world);
}

/// The same of any notice, whoever it goes to; and it goes to whom it is made for.
pub proof fn law_notice(recipient: Seq<char>, agent: Seq<char>, fields: FieldsView)
    ensures
        revoked_notice(recipient, agent, fields).recipient == recipient,
        revoked_notice(recipient, agent, fields).sender == "system:binding_reaper"@,
        revoked_notice(recipient, agent, fields).kind == "binding_reaper_revoked"@,
        revoked_notice(recipient, agent, fields).context is None,
        fields.task_id.len() == 0 ==> revoked_notice(recipient, agent, fields).task_id is None,
        fields.task_id.len() > 0 ==> revoked_notice(recipient, agent, fields).task_id == Some(
            fields.task_id,
        ),
        revoked_notice(recipient, agent, fields).body == body_text(
            agent,
            fields.task_id,
            fields.branch,
            fields.worktree,
        ),
{
}

/// An empty field is shown as `(unknown)`, any other as it is.
pub proof fn law_shown_as(v: Seq<char>)
    ensures
        v.len() == 0 ==> shown(v) == "(unknown)"@,
        v.len() > 0 ==> shown(v) == v,
{
}

proof fn lemma_head_ends_in_label()
    ensures
        "` was revoked by the daemon-startup orphan reaper (binding issued_at > 24h ago AND heartbeat stale > 1h — #693 protection did not apply). worktree=`"@
            == "` was revoked by the daemon-startup orphan reaper (binding issued_at > 24h ago AND heartbeat stale > 1h — #693 protection did not apply). "@
            + "worktree=`"@,
{
    reveal_strlit(
        "` was revoked by the daemon-startup orphan reaper (binding issued_at > 24h ago AND heartbeat stale > 1h — #693 protection did not apply). worktree=`",
    );
    reveal_strlit(
        "` was revoked by the daemon-startup orphan reaper (binding issued_at > 24h ago AND heartbeat stale > 1h — #693 protection did not apply). ",
    );
    reveal_strlit("worktree=`");
    assert("` was revoked by the daemon-startup orphan reaper (binding issued_at > 24h ago AND heartbeat stale > 1h — #693 protection did not apply). worktree=`"@
        =~= "` was revoked by the daemon-startup orphan reaper (binding issued_at > 24h ago AND heartbeat stale > 1h — #693 protection did not apply). "@
        + "worktree=`"@);
}

proof fn lemma_labels()
    ensures
        "` branch=`"@ == "`"@ + (" "@ + "branch=`"@),
        "` task_id=`"@ == "`"@ + (" "@ + "task_id=`"@),
        "`. If `"@ == "`"@ + (". "@ + "If `"@),
        "`)."@ == "`)"@ + "."@,
{
    reveal_strlit("`");
    reveal_strlit(" ");
    reveal_strlit(". ");
    reveal_strlit(".");
    reveal_strlit("`)");
    reveal_strlit("`).");
    reveal_strlit("If `");
    reveal_strlit("`. If `");
    reveal_strlit("branch=`");
    reveal_strlit("` branch=`");
    reveal_strlit("task_id=`");
    reveal_strlit("` task_id=`");
    assert("` branch=`"@ =~= "`"@ + (" "@ + "branch=`"@));
    assert("` task_id=`"@ =~= "`"@ + (" "@ + "task_id=`"@));
    assert("`. If `"@ =~= "`"@ + (". "@ + "If `"@));
    assert("`)."@ =~= "`)"@ + "."@);
}

proof fn lemma_recovery()
    ensures
        "` still needs this worktree, recover with `"@
            == "` still needs this worktree, recover with "@ + "`"@,
        "`"@ + ("bind_self"@ + "` (instance=`"@) == "`bind_self` (instance=`"@,
{
    reveal_strlit("`");
    reveal_strlit("` still needs this worktree, recover with ");
    reveal_strlit("` still needs this worktree, recover with `");
    reveal_strlit("bind_self");
    reveal_strlit("` (instance=`");
    reveal_strlit("`bind_self` (instance=`");
    assert("` still needs this worktree, recover with `"@
        =~= "` still needs this worktree, recover with "@ + "`"@);
    assert("`"@ + ("bind_self"@ + "` (instance=`"@) =~= "`bind_self` (instance=`"@);
}

/// A notice opens with the instance and the reason, then gives the worktree, the
/// branch and the task, each behind its own label, and closes with the call that
/// recovers the binding; there is nothing else in it.
pub proof fn law_body_in_full(
    agent: Seq<char>,
    task_id: Seq<char>,
    branch: Seq<char>,
    worktree: Seq<char>,
)
    ensures
        ({
            let opening = "binding for instance `"@ + agent
                + "` was revoked by the daemon-startup orphan reaper (binding issued_at > 24h ago AND heartbeat stale > 1h — #693 protection did not apply). "@;
            let held = ("worktree=`"@ + shown(worktree) + "`"@) + " "@ + ("branch=`"@ + shown(
                branch,
            ) + "`"@) + " "@ + ("task_id=`"@ + shown(task_id) + "`"@) + ". "@;
            let advice = "If `"@ + agent + "` still needs this worktree, recover with "@;
            let call = "`bind_self` (instance=`"@ + agent + "`, task_id=`"@ + shown(task_id)
                + "`, branch=`"@ + shown(branch) + "`)"@;
            body_text(agent, task_id, branch, worktree) == opening + held + advice + call + "."@
        }),
{
    lemma_head_ends_in_label();
    lemma_labels();
    lemma_recovery();
    assert forall|a: Seq<char>, b: Seq<char>, c: Seq<char>| #[trigger] ((a + b) + c) == a + (b
        + c) by {
        assert((a + b) + c =~= a + (b + c));
    }
}

/// Each value stands behind its own label, and the call that recovers the binding
/// names the instance, the task and the branch.
pub proof fn law_body_labels(
    agent: Seq<char>,
    task_id: Seq<char>,
    branch: Seq<char>,
    worktree: Seq<char>,
)
    ensures
        carries(
            body_text(agent, task_id, branch, worktree),
            "worktree=`"@ + shown(worktree) + "`"@,
        ),
        carries(body_text(agent, task_id, branch, worktree), "branch=`"@ + shown(branch) + "`"@),
        carries(body_text(agent, task_id, branch, worktree), "task_id=`"@ + shown(task_id) + "`"@),
        carries(
            body_text(agent, task_id, branch, worktree),
            "`bind_self` (instance=`"@ + agent + "`, task_id=`"@ + shown(task_id) + "`, branch=`"@
                + shown(branch) + "`)"@,
        ),
{
    law_body_in_full(agent, task_id, branch, worktree);
    let text = body_text(agent, task_id, branch, worktree);
    let opening = "binding for instance `"@ + agent
        + "` was revoked by the daemon-startup orphan reaper (binding issued_at > 24h ago AND heartbeat stale > 1h — #693 protection did not apply). "@;
    let w = "worktree=`"@ + shown(worktree) + "`"@;
    let b = "branch=`"@ + shown(branch) + "`"@;
    let t = "task_id=`"@ + shown(task_id) + "`"@;
    let advice = "If `"@ + agent + "` still needs this worktree, recover with "@;
    let call = "`bind_self` (instance=`"@ + agent + "`, task_id=`"@ + shown(task_id)
        + "`, branch=`"@ + shown(branch) + "`)"@;
    let tail = ". "@ + advice + call + "."@;
    lemma_pieces(opening, w, b, t, ". "@, advice, call, "."@);
    assert(text == opening + w + (" "@ + b + " "@ + t + tail));
    assert(text == (opening + w + " "@) + b + (" "@ + t + tail));
    assert(text == (opening + w + " "@ + b + " "@) + t + tail);
    assert(text == (opening + w + " "@ + b + " "@ + t + ". "@ + advice) + call + "."@);
}

proof fn lemma_pieces(
    o: Seq<char>,
    w: Seq<char>,
    b: Seq<char>,
    t: Seq<char>,
    dot: Seq<char>,
    advice: Seq<char>,
    call: Seq<char>,
    end: Seq<char>,
)
    ensures
        ({
            let text = o + (w + " "@ + b + " "@ + t + dot) + advice + call + end;
            let tail = dot + advice + call + end;
            &&& text == o + w + (" "@ + b + " "@ + t + tail)
            &&& text == (o + w + " "@) + b + (" "@ + t + tail)
            &&& text == (o + w + " "@ + b + " "@) + t + tail
            &&& text == (o + w + " "@ + b + " "@ + t + dot + advice) + call + end
        }),
{
    assert forall|a: Seq<char>, b: Seq<char>, c: Seq<char>| #[trigger] ((a + b) + c) == a + (b
        + c) by {
        assert((a + b) + c =~= a + (b + c));
    }
}

/// Every notice of a sweep carries what the binding says, each behind its label, and
/// the call that recovers the binding.
pub proof fn law_notices_labels(
    orphan: bool,
    agent: Seq<char>,
    fields: FieldsView,
    world: World,
    i: int,
)
    requires
        0 <= i < notices(sweep(orphan, agent, fields, world)).len(),
    ensures
        ({
            let body = notices(sweep(orphan, agent, fields, world))[i].body;
            &&& carries(body, "worktree=`"@ + shown(fields.worktree) + "`"@)
            &&& carries(body, "branch=`"@ + shown(fields.branch) + "`"@)
            &&& carries(body, "task_id=`"@ + shown(fields.task_id) + "`"@)
            &&& carries(
                body,
                "`bind_self` (instance=`"@ + agent + "`, task_id=`"@ + shown(fields.task_id)
                    + "`, branch=`"@ + shown(fields.branch) + "`)"@,
            )
        }),
{
    law_notices(orphan, agent, fields, world);
    law_body_labels(agent, fields.task_id, fields.branch, fields.worktree);
}

// ---- What a binding document says ----

/// Each field is read on its own: it is the string that the document holds under its
/// name, and empty where the document holds no string there, whatever else it holds.
pub proof fn law_fields_read_on_their_own(members: Map<Seq<char>, Member>, text: Seq<char>)
    ensures
        members.contains_key("task_id"@) && members["task_id"@] == Member::Text(text) ==> fields_of(
            members,
        ).task_id == text,
        members.contains_key("branch"@) && members["branch"@] == Member::Text(text) ==> fields_of(
            members,
        ).branch == text,
        members.contains_key("worktree"@) && members["worktree"@] == Member::Text(text)
            ==> fields_of(members).worktree == text,
        !members.contains_key("task_id"@) || !(members["task_id"@] is Text) ==> fields_of(
            members,
        ).task_id.len() == 0,
        !members.contains_key("branch"@) || !(members["branch"@] is Text) ==> fields_of(
            members,
        ).branch.len() == 0,
        !members.contains_key("worktree"@) || !(members["worktree"@] is Text) ==> fields_of(
            members,
        ).worktree.len() == 0,
{
}

/// A member of any other name changes no field, and a field is changed by the member
/// of its own name alone.
pub proof fn law_fields_keep_apart(members: Map<Seq<char>, Member>, key: Seq<char>, value: Member)
    ensures
        key != "task_id"@ ==> fields_of(members.insert(key, value)).task_id == fields_of(
            members,
        ).task_id,
        key != "branch"@ ==> fields_of(members.insert(key, value)).branch == fields_of(
            members,
        ).branch,
        key != "worktree"@ ==> fields_of(members.insert(key, value)).worktree == fields_of(
            members,
        ).worktree,
        key != "task_id"@ ==> fields_of(members.remove(key)).task_id == fields_of(members).task_id,
        key != "branch"@ ==> fields_of(members.remove(key)).branch == fields_of(members).branch,
        key != "worktree"@ ==> fields_of(members.remove(key)).worktree == fields_of(
            members,
        ).worktree,
{
}

/// A written document holds its version, one, and each of its five texts under the
/// name of that text, and nothing else.
pub proof fn law_written_document(
    agent: Seq<char>,
    task_id: Seq<char>,
    branch: Seq<char>,
    worktree: Seq<char>,
    issued_at: Seq<char>,
    key: Seq<char>,
)
    ensures
        ({
            let members = document_members(agent, task_id, branch, worktree, issued_at);
            &&& members["version"@] == Member::Whole(1)
            &&& members["agent"@] == Member::Text(agent)
            &&& members["task_id"@] == Member::Text(task_id)
            &&& members["branch"@] == Member::Text(branch)
            &&& members["worktree"@] == Member::Text(worktree)
            &&& members["issued_at"@] == Member::Text(issued_at)
            &&& members.contains_key(key) <==> key == "version"@ || key == "agent"@ || key
                == "task_id"@ || key == "branch"@ || key == "worktree"@ || key == "issued_at"@
        }),
{
    reveal_strlit("version");
    reveal_strlit("agent");
    reveal_strlit("task_id");
    reveal_strlit("branch");
    reveal_strlit("worktree");
    reveal_strlit("issued_at");
    assert("version"@[0] == 'v' && "task_id"@[0] == 't');
    assert("agent"@.len() == 5 && "branch"@.len() == 6 && "version"@.len() == 7);
    assert("task_id"@.len() == 7 && "worktree"@.len() == 8 && "issued_at"@.len() == 9);
}

/// There is an instant for every second of the days from 96,465,292 days before the
/// start of 1970 to 95,026,236 days after it, and in each for every sub-second part
/// below two seconds; and for nothing else.
pub proof fn law_instants(secs: int, nanos: int)
    ensures
        is_instant(secs, nanos) <==> -96_465_292 <= secs / 86_400 <= 95_026_236 && 0 <= nanos
            < 2_000_000_000,
{
}

// ---- Which binding is swept ----

/// A binding issued more than twenty-four hours ago, of an agent whose last heartbeat
/// is more than one hour ago, is an orphan, and its sweep begins with its removal.
pub proof fn law_orphan_is_swept(
    issued_at_ms: int,
    heartbeat_at_ms: int,
    now_ms: int,
    agent: Seq<char>,
    fields: FieldsView,
    world: World,
)
    requires
        now_ms > issued_at_ms + 24 * 60 * 60 * 1000,
        now_ms > heartbeat_at_ms + 60 * 60 * 1000,
    ensures
        binding_old(issued_at_ms, now_ms),
        heartbeat_stale(heartbeat_at_ms, now_ms),
        sweep(
            binding_old(issued_at_ms, now_ms) && heartbeat_stale(heartbeat_at_ms, now_ms),
            agent,
            fields,
            world,
        ).len() > 0,
        sweep(
            binding_old(issued_at_ms, now_ms) && heartbeat_stale(heartbeat_at_ms, now_ms),
            agent,
            fields,
            world,
        )[0] is RemoveBinding,
{
    law_sweep(true, agent, fields, world);
}

/// The two conditions of the sweep do not depend on each other, and each is met from
/// the first millisecond past its limit on and not before.
pub proof fn law_limits(at_ms: int, now_ms: int)
    ensures
        binding_old(at_ms, now_ms) <==> now_ms >= at_ms + 86_400_001,
        heartbeat_stale(at_ms, now_ms) <==> now_ms >= at_ms + 3_600_001,
{
}

/// Only the time that has passed counts, not what the clock says.
pub proof fn law_clock_may_shift(at_ms: int, now_ms: int, shift: int)
    ensures
        binding_old(at_ms + shift, now_ms + shift) == binding_old(at_ms, now_ms),
        heartbeat_stale(at_ms + shift, now_ms + shift) == heartbeat_stale(at_ms, now_ms),
{
}

// ---- Fixtures ----

/// From two in the morning of the first of January 1970 on, a heartbeat is set back by
/// two hours to the millisecond; before that it is set to the start of that day.
pub proof fn law_set_back(now_ms: int)
    requires
        now_ms >= 0,
    ensures
        now_ms >= 7_200_000 ==> two_hours_back(now_ms) + 7_200_000 == now_ms,
        now_ms < 7_200_000 ==> two_hours_back(now_ms) == 0,
{
}

/// The fleet file names one team, its members in brackets, the member before the
/// orchestrator, and then the orchestrator once more by its own key.
pub proof fn law_team_in_full(orchestrator: Seq<char>, member: Seq<char>)
    ensures
        team_text(orchestrator, member) == ("teams:\n"@ + "  ops:\n"@) + ("    members: ["@ + member
            + ", "@ + orchestrator + "]\n"@) + ("    orchestrator: "@ + orchestrator + "\n"@),
{
    reveal_strlit("teams:\n");
    reveal_strlit("  ops:\n");
    reveal_strlit("    members: [");
    reveal_strlit("teams:\n  ops:\n    members: [");
    reveal_strlit("]\n");
    reveal_strlit("    orchestrator: ");
    reveal_strlit("]\n    orchestrator: ");
    assert("teams:\n  ops:\n    members: ["@ =~= ("teams:\n"@ + "  ops:\n"@)
        + "    members: ["@);
    assert("]\n    orchestrator: "@ =~= "]\n"@ + "    orchestrator: "@);
    assert forall|a: Seq<char>, b: Seq<char>, c: Seq<char>| #[trigger] ((a + b) + c) == a + (b
        + c) by {
        assert((a + b) + c =~= a + (b + c));
    }
}

/// The way to a binding file has two parts: the agent, and then the name of the file.
pub proof fn law_way_to_binding(agent: Seq<char>)
    ensures
        binding_parts(agent).len() == 2,
        binding_parts(agent)[0] == agent,
        binding_parts(agent)[1] == "binding.json"@,
{
}

/// The number that a row of decimal digits stands for.
pub open spec fn value_of(digits: Seq<char>) -> int
    decreases digits.len(),
{
    if digits.len() == 0 {
        0
    } else {
        10 * value_of(digits.drop_last()) + (digits.last() as int - '0' as int)
    }
}

/// A number is written in decimal digits that stand for it, without a leading zero but
/// for zero itself.
pub proof fn law_decimal(n: nat)
    ensures
        value_of(decimal_text(n)) == n,
        forall|i: int|
            0 <= i < decimal_text(n).len() ==> '0' as int <= #[trigger] decimal_text(n)[i] as int
                <= '9' as int,
        decimal_text(n).len() > 0,
        decimal_text(n)[0] == '0' ==> n == 0 && decimal_text(n).len() == 1,
    decreases n,
{
    let digits = decimal_text(n);
    if n < 10 {
        assert(digits.drop_last() =~= Seq::empty());
        assert(value_of(digits.drop_last()) == 0);
    } else {
        law_decimal(n / 10);
        assert(digits.drop_last() =~= decimal_text(n / 10));
        assert(digits[0] == decimal_text(n / 10)[0]);
    }
}

/// The name of a home opens with a fixed text, the process and the tag, closes with the
/// number of the test, and holds nothing else.
pub proof fn law_home_in_full(pid: nat, tag: Seq<char>, id: nat)
    ensures
        ({
            let opening = "agend-reaper-notify-test-"@ + decimal_text(pid) + "-"@ + tag;
            let closing = "-"@ + decimal_text(id);
            let name = home_text(pid, tag, id);
            &&& name.len() == opening.len() + closing.len()
            &&& name.take(opening.len() as int) == opening
            &&& name.skip(opening.len() as int) == closing
        }),
{
    let opening = "agend-reaper-notify-test-"@ + decimal_text(pid) + "-"@ + tag;
    let closing = "-"@ + decimal_text(id);
    let name = home_text(pid, tag, id);
    assert(name =~= opening + closing);
    assert(name.take(opening.len() as int) =~= opening);
    assert(name.skip(opening.len() as int) =~= closing);
}

// ---- Views ----

/// The view of a notice, of fields and of a reaping is that of each of their parts.
pub proof fn law_views_of_records(notice: Notice, fields: BindingFields, reaping: Reaping)
    ensures
        notice@.recipient == notice.recipient@,
        notice@.sender == notice.sender@,
        notice@.kind == notice.kind@,
        notice@.body == notice.body@,
        notice@.context is Some <==> notice.context is Some,
        notice.context is Some ==> notice@.context->Some_0 == notice.context->Some_0@,
        notice@.task_id is Some <==> notice.task_id is Some,
        notice.task_id is Some ==> notice@.task_id->Some_0 == notice.task_id->Some_0@,
        fields@.task_id == fields.task_id@,
        fields@.branch == fields.branch@,
        fields@.worktree == fields.worktree@,
        reaping@.agent == reaping.agent@,
        reaping@.fields == reaping.fields@,
        reaping@.phase == reaping.phase@,
{
}

/// The view of a phase and of an event is of the same kind and holds the same name.
pub proof fn law_views_of_phases(phase: Phase, event: Event)
    ensures
        phase is Removing <==> phase@ is Removing,
        phase is NotifyingSelf <==> phase@ is NotifyingSelf,
        phase is Resolving <==> phase@ is Resolving,
        phase is NotifyingOrchestrator <==> phase@ is NotifyingOrchestrator,
        phase is Finished <==> phase@ is Finished,
        phase matches Phase::NotifyingOrchestrator(name) ==> phase@
            == PhaseView::NotifyingOrchestrator(name@),
        event is Removed <==> event@ is Removed,
        event is RemoveFailed <==> event@ is RemoveFailed,
        event is Sent <==> event@ is Sent,
        event is SendFailed <==> event@ is SendFailed,
        event is Orchestrator <==> event@ is Orchestrator,
        event matches Event::Orchestrator(Some(name)) ==> event@ == EventView::Orchestrator(
            Some(name@),
        ),
        event matches Event::Orchestrator(None) ==> event@ == EventView::Orchestrator(None),
{
}

/// The view of an effect is of the same kind and holds the same names and notice.
pub proof fn law_views_of_effects(effect: Effect)
    ensures
        effect is RemoveBinding <==> effect@ is RemoveBinding,
        effect is ForgetBinding <==> effect@ is ForgetBinding,
        effect is ReportRemoved <==> effect@ is ReportRemoved,
        effect is ReportRemoveFailed <==> effect@ is ReportRemoveFailed,
        effect is Send <==> effect@ is Send,
        effect is ReportSelfNotTold <==> effect@ is ReportSelfNotTold,
        effect is ResolveOrchestrator <==> effect@ is ResolveOrchestrator,
        effect is ReportOrchestratorNotTold <==> effect@ is ReportOrchestratorNotTold,
        effect matches Effect::ForgetBinding(agent) ==> effect@ == EffectView::ForgetBinding(
            agent@,
        ),
        effect matches Effect::Send(notice) ==> effect@ == EffectView::Send(notice@),
        effect matches Effect::ReportSelfNotTold(agent) ==> effect@
            == EffectView::ReportSelfNotTold(agent@),
        effect matches Effect::ResolveOrchestrator(agent) ==> effect@
            == EffectView::ResolveOrchestrator(agent@),
        effect matches Effect::ReportOrchestratorNotTold { agent, recipient } ==> effect@
            == (EffectView::ReportOrchestratorNotTold { agent: agent@, recipient: recipient@ }),
{
}

/// The view of a list is the list of the views, in the same order.
pub proof fn law_views_of_lists(effects: Seq<Effect>, parts: Seq<String>)
    ensures
        effects_view(effects).len() == effects.len(),
        forall|i: int|
            0 <= i < effects.len() ==> #[trigger] effects_view(effects)[i] == effects[i]@,
        texts(parts).len() == parts.len(),
        forall|i: int| 0 <= i < parts.len() ==> #[trigger] texts(parts)[i] == parts[i]@,
{
}

} // verus!

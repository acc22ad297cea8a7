//! What holds of the reaper as a whole.

use crate::document::{document_members, fields_of, FieldsView, Member};
use crate::fixture::{binding_parts, decimal_text, home_text, two_hours_back};
use crate::judgment::{binding_old, heartbeat_stale};
use crate::notice::{revoked_notice, NoticeView};
use crate::reaping::{
    next, removed_effects, EffectView, EventView, PhaseView, ReapingView,
};
use crate::text::{body_text, shown};
use vstd::prelude::*;

verus! {

/// How the world answers the effects of one reaping.
pub struct World {
    pub removed: bool,
    pub self_sent: bool,
    pub orchestrator: Option<Seq<char>>,
    pub orchestrator_sent: bool,
}

/// The event by which `world` answers a reaping that is in `phase`.
pub open spec fn answer(phase: PhaseView, world: World) -> EventView {
    match phase {
        PhaseView::Removing => if world.removed {
            EventView::Removed
        } else {
            EventView::RemoveFailed
        },
        PhaseView::NotifyingSelf => if world.self_sent {
            EventView::Sent
        } else {
            EventView::SendFailed
        },
        PhaseView::NotifyingOrchestrator(_) => if world.orchestrator_sent {
            EventView::Sent
        } else {
            EventView::SendFailed
        },
        _ => EventView::Orchestrator(world.orchestrator),
    }
}

/// The number of answers that a reaping in `phase` can still take.
pub open spec fn answers_left(phase: PhaseView) -> nat {
    match phase {
        PhaseView::Removing => 4,
        PhaseView::NotifyingSelf => 3,
        PhaseView::Resolving => 2,
        PhaseView::NotifyingOrchestrator(_) => 1,
        PhaseView::Finished => 0,
    }
}

/// All effects of a reaping from state `s` to its end.
pub open spec fn run(s: ReapingView, world: World) -> Seq<EffectView>
    decreases answers_left(s.phase),
{
    if s.phase is Finished {
        Seq::empty()
    } else {
        let (phase, effects) = next(s, answer(s.phase, world));
        effects + run(ReapingView { phase, ..s }, world)
    }
}

/// The notices among `effects`, in their order.
pub open spec fn notices(effects: Seq<EffectView>) -> Seq<NoticeView>
    decreases effects.len(),
{
    if effects.len() == 0 {
        Seq::empty()
    } else {
        let before = notices(effects.drop_last());
        match effects.last() {
            EffectView::Send(notice) => before.push(notice),
            _ => before,
        }
    }
}

/// All effects on a binding of `agent` that the startup sweep finds: none where it is
/// no orphan, and else those of its reaping.
pub open spec fn sweep(
    orphan: bool,
    agent: Seq<char>,
    fields: FieldsView,
    world: World,
) -> Seq<EffectView> {
    if orphan {
        seq![EffectView::RemoveBinding] + run(
            ReapingView { agent, fields, phase: PhaseView::Removing },
            world,
        )
    } else {
        Seq::empty()
    }
}

/// Whether `part` stands somewhere in `text`.
pub open spec fn carries(text: Seq<char>, part: Seq<char>) -> bool {
    exists|before: Seq<char>, after: Seq<char>| text == #[trigger] (before + part + after)
}

/// The effects of telling the instance and the orchestrator, from the answer to the
/// first notice on.
pub open spec fn telling(agent: Seq<char>, fields: FieldsView, world: World) -> Seq<EffectView> {
    let self_report = if world.self_sent {
        Seq::empty()
    } else {
        seq![EffectView::ReportSelfNotTold(agent)]
    };
    let orchestrator = world.orchestrator->Some_0;
    let orchestrator_part = if !(world.orchestrator is Some && world.orchestrator != Some(agent)) {
        Seq::empty()
    } else if world.orchestrator_sent {
        seq![EffectView::Send(revoked_notice(orchestrator, agent, fields))]
    } else {
        seq![
            EffectView::Send(revoked_notice(orchestrator, agent, fields)),
            EffectView::ReportOrchestratorNotTold { agent, recipient: orchestrator },
        ]
    };
    self_report + seq![EffectView::ResolveOrchestrator(agent)] + orchestrator_part
}

/// A reaping ends: each answer that it waits for brings it nearer to its end, after
/// at most four of them it is over, and then nothing changes it any more.
pub proof fn law_reaping_ends(s: ReapingView, world: World, event: EventView)
    ensures
        answers_left(s.phase) <= 4,
        !(s.phase is Finished) ==> answers_left(next(s, answer(s.phase, world)).0) < answers_left(
            s.phase,
        ),
        s.phase is Finished ==> next(s, event) == (PhaseView::Finished, Seq::<EffectView>::empty()),
{
}

/// Whether an effect is one that the caller answers with an event.
pub open spec fn is_answered(effect: EffectView) -> bool {
    effect is RemoveBinding || effect is Send || effect is ResolveOrchestrator
}

/// Whether an effect is a line for the log.
pub open spec fn is_report(effect: EffectView) -> bool {
    effect is ReportRemoved || effect is ReportRemoveFailed || effect is ReportSelfNotTold
        || effect is ReportOrchestratorNotTold
}

/// The last effect of a step is what the reaping waits for, and no effect before it
/// is answered: a notice leads to the phases that wait for its delivery, the question
/// for the orchestrator to the phase that waits for a name, and a report, or no effect
/// at all, is the end.
pub proof fn law_last_effect_is_awaited(s: ReapingView, world: World)
    requires
        !(s.phase is Finished),
    ensures
        ({
            let (phase, effects) = next(s, answer(s.phase, world));
            let some = effects.len() > 0;
            &&& phase is NotifyingSelf || phase is NotifyingOrchestrator <==> some
                && effects.last() is Send
            &&& phase is Resolving <==> some && effects.last() is ResolveOrchestrator
            &&& phase is Finished <==> !some || is_report(effects.last())
            &&& !(phase is Removing)
            &&& forall|i: int| 0 <= i < effects.len() - 1 ==> !is_answered(#[trigger] effects[i])
        }),
{
}

/// What is told after a removal, whatever the world answers: a report where the
/// instance could not be told, then the question for its orchestrator, then, where
/// there is one other than the instance, the notice to it and a report where that
/// could not be delivered.
pub proof fn law_telling(s: ReapingView, world: World)
    requires
        s.phase is NotifyingSelf,
    ensures
        run(s, world) == telling(s.agent, s.fields, world),
{
    let s1 = ReapingView { phase: PhaseView::Resolving, ..s };
    let name = world.orchestrator->Some_0;
    let s2 = ReapingView { phase: PhaseView::NotifyingOrchestrator(name), ..s };
    let end = ReapingView { phase: PhaseView::Finished, ..s };
    assert(run(end, world) =~= Seq::empty());
    if (world.orchestrator is Some && world.orchestrator != Some(s.agent)) {
        assert(run(s2, world) =~= next(s2, answer(s2.phase, world)).1);
        assert(run(s1, world) == next(s1, answer(s1.phase, world)).1 + run(s2, world));
    } else {
        assert(run(s1, world) =~= Seq::empty());
    }
    assert(run(s, world) == next(s, answer(s.phase, world)).1 + run(s1, world));
    assert(run(s, world) =~= telling(s.agent, s.fields, world));
}

/// Everything that a sweep does, in order.
pub proof fn law_sweep(orphan: bool, agent: Seq<char>, fields: FieldsView, world: World)
    ensures
        sweep(orphan, agent, fields, world) == if !orphan {
            Seq::empty()
        } else if !world.removed {
            seq![EffectView::RemoveBinding, EffectView::ReportRemoveFailed]
        } else {
            seq![EffectView::RemoveBinding] + removed_effects(agent, fields) + telling(
                agent,
                fields,
                world,
            )
        },
{
    let s = ReapingView { agent, fields, phase: PhaseView::Removing };
    let told = ReapingView { phase: PhaseView::NotifyingSelf, ..s };
    let end = ReapingView { phase: PhaseView::Finished, ..s };
    assert(run(end, world) =~= Seq::empty());
    if orphan {
        if world.removed {
            law_telling(told, world);
            assert(run(s, world) == removed_effects(agent, fields) + run(told, world));
            assert(sweep(orphan, agent, fields, world) =~= seq![EffectView::RemoveBinding]
                + removed_effects(agent, fields) + telling(agent, fields, world));
        } else {
            assert(run(s, world) == seq![EffectView::ReportRemoveFailed] + run(end, world));
            assert(sweep(orphan, agent, fields, world) =~= seq![
                EffectView::RemoveBinding,
                EffectView::ReportRemoveFailed,
            ]);
        }
    }
}

proof fn lemma_notices_concat(a: Seq<EffectView>, b: Seq<EffectView>)
    ensures
        notices(a + b) == notices(a) + notices(b),
    decreases b.len(),
{
    if b.len() == 0 {
        assert(a + b =~= a);
        assert(notices(a) + notices(b) =~= notices(a));
    } else {
        lemma_notices_concat(a, b.drop_last());
        assert((a + b).drop_last() =~= a + b.drop_last());
        assert((a + b).last() == b.last());
        assert(notices(a + b) =~= notices(a) + notices(b));
    }
}

proof fn lemma_notices_one(e: EffectView)
    ensures
        notices(seq![e]) == match e {
            EffectView::Send(notice) => seq![notice],
            _ => Seq::empty(),
        },
{
    assert(seq![e].drop_last() =~= Seq::empty());
    assert(notices(Seq::<EffectView>::empty()) =~= Seq::empty());
    match e {
        EffectView::Send(notice) => {
            assert(notices(seq![e]) =~= seq![notice]);
        },
        _ => {},
    }
}

/// Who is told, and what: where a binding was removed, the instance that lost it,
/// once, and after it the orchestrator of its team, once, where there is one other
/// than the instance; where none was removed, nobody. Whether a notice could be
/// delivered changes nothing in that.
pub proof fn law_notices(orphan: bool, agent: Seq<char>, fields: FieldsView, world: World)
    ensures
        notices(sweep(orphan, agent, fields, world)) == if !orphan || !world.removed {
            Seq::empty()
        } else if (world.orchestrator is Some && world.orchestrator != Some(agent)) {
            seq![
                revoked_notice(agent, agent, fields),
                revoked_notice(world.orchestrator->Some_0, agent, fields),
            ]
        } else {
            seq![revoked_notice(agent, agent, fields)]
        },
{
    law_sweep(orphan, agent, fields, world);
    assert(notices(Seq::<EffectView>::empty()) =~= Seq::empty());
    if orphan && !world.removed {
        let a = seq![EffectView::RemoveBinding];
        let b = seq![EffectView::ReportRemoveFailed];
        lemma_notices_one(a[0]);
        lemma_notices_one(b[0]);
        lemma_notices_concat(a, b);
        assert(sweep(orphan, agent, fields, world) =~= a + b);
        assert(notices(a) + notices(b) =~= Seq::empty());
    } else if orphan {
        let own = EffectView::Send(revoked_notice(agent, agent, fields));
        let a = seq![EffectView::RemoveBinding];
        let b = seq![EffectView::ForgetBinding(agent)];
        let c = seq![EffectView::ReportRemoved];
        let d = seq![own];
        let rest = telling(agent, fields, world);
        assert(sweep(orphan, agent, fields, world) =~= a + b + c + d + rest);
        lemma_notices_concat(a + b + c + d, rest);
        lemma_notices_concat(a + b + c, d);
        lemma_notices_concat(a + b, c);
        lemma_notices_concat(a, b);
        lemma_notices_one(a[0]);
        lemma_notices_one(b[0]);
        lemma_notices_one(c[0]);
        lemma_notices_one(own);
        lemma_notices_telling(agent, fields, world);
        assert(notices(sweep(orphan, agent, fields, world)) =~= seq![
            revoked_notice(agent, agent, fields),
        ] + notices(rest));
        if (world.orchestrator is Some && world.orchestrator != Some(agent)) {
            assert(notices(sweep(orphan, agent, fields, world)) =~= seq![
                revoked_notice(agent, agent, fields),
                revoked_notice(world.orchestrator->Some_0, agent, fields),
            ]);
        } else {
            assert(notices(sweep(orphan, agent, fields, world)) =~= seq![
                revoked_notice(agent, agent, fields),
            ]);
        }
    }
}

proof fn lemma_notices_telling(agent: Seq<char>, fields: FieldsView, world: World)
    ensures
        notices(telling(agent, fields, world)) == if (world.orchestrator is Some && world.orchestrator != Some(agent)) {
            seq![revoked_notice(world.orchestrator->Some_0, agent, fields)]
        } else {
            Seq::empty()
        },
{
    let name = world.orchestrator->Some_0;
    let report = EffectView::ReportSelfNotTold(agent);
    let ask = EffectView::ResolveOrchestrator(agent);
    let send = EffectView::Send(revoked_notice(name, agent, fields));
    let late = EffectView::ReportOrchestratorNotTold { agent, recipient: name };
    lemma_notices_one(report);
    lemma_notices_one(ask);
    lemma_notices_one(send);
    lemma_notices_one(late);
    assert(notices(Seq::<EffectView>::empty()) =~= Seq::empty());
    let first: Seq<EffectView> = if world.self_sent {
        Seq::empty()
    } else {
        seq![report]
    };
    let last: Seq<EffectView> = if !(world.orchestrator is Some && world.orchestrator != Some(agent)) {
        Seq::empty()
    } else if world.orchestrator_sent {
        seq![send]
    } else {
        seq![send, late]
    };
    assert(telling(agent, fields, world) =~= first + seq![ask] + last);
    lemma_notices_concat(first + seq![ask], last);
    lemma_notices_concat(first, seq![ask]);
    lemma_notices_concat(seq![send], seq![late]);
    assert(seq![send, late] =~= seq![send] + seq![late]);
    assert(notices(first + seq![ask]) =~= Seq::empty());
    assert(notices(telling(agent, fields, world)) =~= notices(last));
    assert(seq![revoked_notice(name, agent, fields)] + Seq::<NoticeView>::empty() =~= seq![
        revoked_notice(name, agent, fields),
    ]);
}

/// A removal is claimed only where it happened: the index forgets the binding, the
/// removal is reported and notices go out only after it, and where it failed the one
/// thing that follows is the report of the failure.
pub proof fn law_no_false_claim(
    orphan: bool,
    agent: Seq<char>,
    fields: FieldsView,
    world: World,
    i: int,
)
    requires
        0 <= i < sweep(orphan, agent, fields, world).len(),
    ensures
        ({
            let effect = sweep(orphan, agent, fields, world)[i];
            &&& effect is ForgetBinding || effect is ReportRemoved || effect is Send ==> orphan
                && world.removed
            &&& effect is ReportRemoveFailed ==> orphan && !world.removed
            &&& effect is RemoveBinding <==> i == 0
        }),
{
    law_sweep(orphan, agent, fields, world);
}

/// Once a binding is removed, the index forgets it, the removal is reported and the
/// instance is told, in this order and whatever comes of the notices: a notice that
/// cannot be delivered undoes nothing.
pub proof fn law_removal_is_followed_up(agent: Seq<char>, fields: FieldsView, world: World)
    requires
        world.removed,
    ensures
        sweep(true, agent, fields, world).len() >= 5,
        sweep(true, agent, fields, world)[1] == EffectView::ForgetBinding(agent),
        sweep(true, agent, fields, world)[2] is ReportRemoved,
        sweep(true, agent, fields, world)[3] == EffectView::Send(
            revoked_notice(agent, agent, fields),
        ),
{
    law_sweep(true, agent, fields, world);
}

/// A reaping in which the removal succeeds tells from then on what
/// `notify_binding_reaped` tells.
pub proof fn law_removal_then_telling(agent: Seq<char>, fields: FieldsView, world: World)
    requires
        world.removed,
    ensures
        run(ReapingView { agent, fields, phase: PhaseView::Removing }, world) == seq![
            EffectView::ForgetBinding(agent),
            EffectView::ReportRemoved,
            EffectView::Send(revoked_notice(agent, agent, fields)),
        ] + run(ReapingView { agent, fields, phase: PhaseView::NotifyingSelf }, world),
{
    assert(removed_effects(agent, fields) =~= seq![
        EffectView::ForgetBinding(agent),
        EffectView::ReportRemoved,
        EffectView::Send(revoked_notice(agent, agent, fields)),
    ]);
}

/// The same notices go out whether or not any of them can be delivered.
pub proof fn law_delivery_changes_no_notice(
    orphan: bool,
    agent: Seq<char>,
    fields: FieldsView,
    one: World,
    other: World,
)
    requires
        one.removed == other.removed,
        one.orchestrator == other.orchestrator,
    ensures
        notices(sweep(orphan, agent, fields, one)) == notices(sweep(orphan, agent, fields, other)),
{
    law_notices(orphan, agent, fields, one);
    law_notices(orphan, agent, fields, other);
}

/// A notice goes to the instance that lost its binding or to the orchestrator of its
/// team, and to nobody else: without an orchestrator there is no other recipient to
/// fall back on. No two notices of a sweep go to one recipient, and all say the same.
pub proof fn law_recipients(
    orphan: bool,
    agent: Seq<char>,
    fields: FieldsView,
    world: World,
    i: int,
    j: int,
)
    requires
        0 <= i < notices(sweep(orphan, agent, fields, world)).len(),
        0 <= j < notices(sweep(orphan, agent, fields, world)).len(),
    ensures
        ({
            let sent = notices(sweep(orphan, agent, fields, world));
            &&& sent[i].recipient == agent || world.orchestrator == Some(sent[i].recipient)
            &&& i != j ==> sent[i].recipient != sent[j].recipient
            &&& sent[i] == NoticeView { recipient: sent[i].recipient, ..sent[j] }
        }),
{
    law_notices(orphan, agent, fields, world);
}

/// The task of a notice is named exactly where the binding names one, and never as an
/// empty string.
pub proof fn law_task_named(recipient: Seq<char>, agent: Seq<char>, fields: FieldsView)
    ensures
        revoked_notice(recipient, agent, fields).task_id is Some <==> fields.task_id.len() > 0,
        revoked_notice(recipient, agent, fields).task_id matches Some(t) ==> t == fields.task_id,
{
}

/// A notice carries the instance, its worktree, branch and task as far as they are
/// known, and the instruction to recover with `bind_self`.
pub proof fn law_body_carries(
    agent: Seq<char>,
    task_id: Seq<char>,
    branch: Seq<char>,
    worktree: Seq<char>,
)
    ensures
        carries(body_text(agent, task_id, branch, worktree), agent),
        carries(body_text(agent, task_id, branch, worktree), shown(task_id)),
        carries(body_text(agent, task_id, branch, worktree), shown(branch)),
        carries(body_text(agent, task_id, branch, worktree), shown(worktree)),
        carries(body_text(agent, task_id, branch, worktree), "bind_self"@),
{
    assert forall|a: Seq<char>, b: Seq<char>, c: Seq<char>| #[trigger] ((a + b) + c) == a + (b
        + c) by {
        assert((a + b) + c =~= a + (b + c));
    }
    let text = body_text(agent, task_id, branch, worktree);
    let w = shown(worktree);
    let b = shown(branch);
    let t = shown(task_id);
    let t0 = "binding for instance `"@;
    let l1 =
        "` was revoked by the daemon-startup orphan reaper (binding issued_at > 24h ago AND heartbeat stale > 1h — #693 protection did not apply). worktree=`"@;
    let t1 = t0 + agent + l1;
    let t2 = t1 + w + "` branch=`"@;
    let t3 = t2 + b + "` task_id=`"@;
    let t4 = t3 + t + "`. If `"@ + agent + "` still needs this worktree, recover with `"@;
    let r4 = "` (instance=`"@ + (agent + ("`, task_id=`"@ + (t + ("`, branch=`"@ + (b + "`)."@)))));
    let r3 = "`. If `"@ + (agent + ("` still needs this worktree, recover with `"@ + ("bind_self"@
        + r4)));
    let r2 = "` task_id=`"@ + (t + r3);
    let r1 = "` branch=`"@ + (b + r2);
    let r0 = l1 + (w + r1);
    assert(text == t4 + "bind_self"@ + r4);
    assert(text == t3 + t + r3);
    assert(text == t2 + b + r2);
    assert(text == t1 + w + r1);
    assert(text == t0 + agent + r0);
}

/// Every notice of a sweep carries the instance, what the binding says of its
/// worktree, branch and task, and the instruction to recover with `bind_self`.
pub proof fn law_notices_carry(
    orphan: bool,
    agent: Seq<char>,
    fields: FieldsView,
    world: World,
    i: int,
)
    requires
        0 <= i < notices(sweep(orphan, agent, fields, world)).len(),
    ensures
        ({
            let body = notices(sweep(orphan, agent, fields, world))[i].body;
            &&& carries(body, agent)
            &&& carries(body, shown(fields.task_id))
            &&& carries(body, shown(fields.branch))
            &&& carries(body, shown(fields.worktree))
            &&& carries(body, "bind_self"@)
        }),
{
    law_notices(orphan, agent, fields, world);
    law_body_carries(agent, fields.task_id, fields.branch, fields.worktree);
}

/// A shown field is never empty, and showing it again changes nothing: a notice reads
/// the same whether a field is empty or says `(unknown)`.
pub proof fn law_shown(v: Seq<char>)
    ensures
        shown(v).len() > 0,
        shown(shown(v)) == shown(v),
        v.len() > 0 ==> shown(v) == v,
{
    reveal_strlit("(unknown)");
}

/// A binding that is at most a day old is kept, however old the last heartbeat is.
pub proof fn law_young_binding_kept(
    issued_at_ms: int,
    heartbeat_at_ms: int,
    now_ms: int,
    agent: Seq<char>,
    fields: FieldsView,
    world: World,
)
    requires
        now_ms <= issued_at_ms + 24 * 60 * 60 * 1000,
    ensures
        sweep(
            binding_old(issued_at_ms, now_ms) && heartbeat_stale(heartbeat_at_ms, now_ms),
            agent,
            fields,
            world,
        ) == Seq::<EffectView>::empty(),
{
}

/// A binding whose owner showed a heartbeat in the last hour is kept, however old the
/// binding is.
pub proof fn law_fresh_heartbeat_kept(
    issued_at_ms: int,
    heartbeat_at_ms: int,
    now_ms: int,
    agent: Seq<char>,
    fields: FieldsView,
    world: World,
)
    requires
        now_ms <= heartbeat_at_ms + 60 * 60 * 1000,
    ensures
        sweep(
            binding_old(issued_at_ms, now_ms) && heartbeat_stale(heartbeat_at_ms, now_ms),
            agent,
            fields,
            world,
        ) == Seq::<EffectView>::empty(),
{
}

/// An orphan stays one as time passes, until a heartbeat or a new binding comes.
pub proof fn law_orphan_stays(
    issued_at_ms: int,
    heartbeat_at_ms: int,
    now_ms: int,
    later_ms: int,
)
    requires
        binding_old(issued_at_ms, now_ms),
        heartbeat_stale(heartbeat_at_ms, now_ms),
        now_ms <= later_ms,
    ensures
        binding_old(issued_at_ms, later_ms),
        heartbeat_stale(heartbeat_at_ms, later_ms),
{
}

/// A heartbeat set two hours back is stale, and one set to now is not. Within the
/// first hour of 1970 none can be stale.
pub proof fn law_heartbeats(now_ms: u64)
    requires
        now_ms > 60 * 60 * 1000,
    ensures
        heartbeat_stale(two_hours_back(now_ms as int), now_ms as int),
        !heartbeat_stale(now_ms as int, now_ms as int),
{
}

/// What is read back from a written binding document is what was written into it.
pub proof fn law_written_binding_reads_back(
    agent: Seq<char>,
    task_id: Seq<char>,
    branch: Seq<char>,
    worktree: Seq<char>,
    issued_at: Seq<char>,
)
    ensures
        fields_of(document_members(agent, task_id, branch, worktree, issued_at)) == (FieldsView {
            task_id,
            branch,
            worktree,
        }),
        document_members(agent, task_id, branch, worktree, issued_at).dom() == set![
            "version"@,
            "agent"@,
            "task_id"@,
            "branch"@,
            "worktree"@,
            "issued_at"@,
        ],
{
    reveal_strlit("version");
    reveal_strlit("agent");
    reveal_strlit("task_id");
    reveal_strlit("branch");
    reveal_strlit("worktree");
    reveal_strlit("issued_at");
    assert("version"@[0] == 'v' && "task_id"@[0] == 't');
    assert("branch"@.len() == 6 && "task_id"@.len() == 7 && "worktree"@.len() == 8);
    assert("issued_at"@.len() == 9);
    let members = document_members(agent, task_id, branch, worktree, issued_at);
    assert(members["task_id"@] == Member::Text(task_id));
    assert(members["branch"@] == Member::Text(branch));
    assert(members["worktree"@] == Member::Text(worktree));
    assert(members.dom() =~= set![
        "version"@,
        "agent"@,
        "task_id"@,
        "branch"@,
        "worktree"@,
        "issued_at"@,
    ]);
}

/// Whether no character of `text` is `c`.
pub open spec fn free_of(text: Seq<char>, c: char) -> bool {
    forall|i: int| 0 <= i < text.len() ==> text[i] != c
}

proof fn lemma_split_first(a: Seq<char>, rest: Seq<char>, b: Seq<char>, tail: Seq<char>, c: char)
    requires
        free_of(a, c),
        free_of(b, c),
        a + seq![c] + rest == b + seq![c] + tail,
    ensures
        a == b,
        rest == tail,
{
    let left = a + seq![c] + rest;
    let right = b + seq![c] + tail;
    assert(left[a.len() as int] == c);
    assert(right[b.len() as int] == c);
    if a.len() < b.len() {
        assert(right[a.len() as int] == b[a.len() as int]);
    } else if b.len() < a.len() {
        assert(left[b.len() as int] == a[b.len() as int]);
    }
    assert(a =~= left.take(a.len() as int));
    assert(b =~= right.take(b.len() as int));
    assert(rest =~= left.skip(a.len() as int + 1));
    assert(tail =~= right.skip(b.len() as int + 1));
}

proof fn lemma_split_last(rest: Seq<char>, a: Seq<char>, tail: Seq<char>, b: Seq<char>, c: char)
    requires
        free_of(a, c),
        free_of(b, c),
        rest + seq![c] + a == tail + seq![c] + b,
    ensures
        a == b,
        rest == tail,
{
    let left = rest + seq![c] + a;
    let right = tail + seq![c] + b;
    assert(left.len() == right.len());
    assert(left[rest.len() as int] == c);
    assert(right[tail.len() as int] == c);
    if rest.len() < tail.len() {
        assert(left[tail.len() as int] == a[tail.len() - rest.len() - 1]);
    } else if tail.len() < rest.len() {
        assert(right[rest.len() as int] == b[rest.len() - tail.len() - 1]);
    }
    assert(rest =~= left.take(rest.len() as int));
    assert(tail =~= right.take(tail.len() as int));
    assert(a =~= left.skip(rest.len() as int + 1));
    assert(b =~= right.skip(tail.len() as int + 1));
}

proof fn lemma_decimal_digits(n: nat)
    ensures
        decimal_text(n).len() > 0,
        free_of(decimal_text(n), '-'),
        decimal_text(n).last() as int == '0' as int + n % 10,
        n >= 10 ==> decimal_text(n).drop_last() == decimal_text(n / 10),
        n < 10 ==> decimal_text(n).len() == 1,
        n >= 10 ==> decimal_text(n).len() > 1,
    decreases n,
{
    if n >= 10 {
        lemma_decimal_digits(n / 10);
        assert(decimal_text(n).drop_last() =~= decimal_text(n / 10));
    }
}

proof fn lemma_decimal_injective(m: nat, n: nat)
    requires
        decimal_text(m) == decimal_text(n),
    ensures
        m == n,
    decreases m,
{
    lemma_decimal_digits(m);
    lemma_decimal_digits(n);
    if m >= 10 {
        lemma_decimal_injective(m / 10, n / 10);
    }
}

/// No two tests share a home: the process, the tag and the number of the test can each
/// be told from the name of its directory.
pub proof fn law_homes_distinct(
    pid: nat,
    tag: Seq<char>,
    id: nat,
    other_pid: nat,
    other_tag: Seq<char>,
    other_id: nat,
)
    requires
        home_text(pid, tag, id) == home_text(other_pid, other_tag, other_id),
    ensures
        pid == other_pid,
        tag == other_tag,
        id == other_id,
{
    reveal_strlit("-");
    assert("-"@ =~= seq!['-']);
    let prefix = "agend-reaper-notify-test-"@;
    let p = decimal_text(pid);
    let q = decimal_text(other_pid);
    lemma_decimal_digits(pid);
    lemma_decimal_digits(other_pid);
    lemma_decimal_digits(id);
    lemma_decimal_digits(other_id);
    lemma_split_last(
        prefix + p + "-"@ + tag,
        decimal_text(id),
        prefix + q + "-"@ + other_tag,
        decimal_text(other_id),
        '-',
    );
    lemma_decimal_injective(id, other_id);
    let head = prefix + p + "-"@ + tag;
    assert(head.skip(prefix.len() as int) =~= p + seq!['-'] + tag);
    assert((prefix + q + "-"@ + other_tag).skip(prefix.len() as int) =~= q + seq!['-'] + other_tag);
    lemma_split_first(p, tag, q, other_tag, '-');
    lemma_decimal_injective(pid, other_pid);
}

/// Agents of different names have different ways to their binding files, and all of
/// them end in `binding.json`.
pub proof fn law_binding_paths_distinct(agent: Seq<char>, other: Seq<char>)
    ensures
        binding_parts(agent) == binding_parts(other) ==> agent == other,
        binding_parts(agent).last() == "binding.json"@,
{
    assert(binding_parts(agent)[0] == agent);
    assert(binding_parts(other)[0] == other);
}

} // verus!

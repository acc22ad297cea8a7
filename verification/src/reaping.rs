//! The reaping of one binding, as a machine that hands out work and takes reports.
//!
//! The caller carries out the effects of a step in their order and answers the last
//! one with an [`Event`]. A step without effects, or whose last effect is a report,
//! ends the reaping.

use crate::document::{binding_fields, fields_of, members, BindingFields, FieldsView};
use crate::notice::{revoked, revoked_notice, text_view, Notice, NoticeView};
use vstd::prelude::*;

verus! {

/// What a reaping waits for.
#[derive(Debug, PartialEq, Eq)]
pub enum Phase {
    /// The removal of the binding file.
    Removing,
    /// The delivery of the notice to the instance that lost the binding.
    NotifyingSelf,
    /// The name of the orchestrator of the instance's team.
    Resolving,
    /// The delivery of the notice to that orchestrator.
    NotifyingOrchestrator(String),
    /// Nothing: the reaping is over.
    Finished,
}

/// The reaping of the binding of `agent`.
#[derive(Debug, PartialEq, Eq)]
pub struct Reaping {
    pub agent: String,
    pub fields: BindingFields,
    pub phase: Phase,
}

/// What the caller is to do.
#[derive(Debug, PartialEq, Eq)]
pub enum Effect {
    /// Remove the binding file. Answered by [`Event::Removed`] or
    /// [`Event::RemoveFailed`].
    RemoveBinding,
    /// Drop the agent from the index of bindings.
    ForgetBinding(String),
    /// Log, for information, that the orphan binding was removed.
    ReportRemoved,
    /// Log, as a warning, that it could not be removed, is still in force, and that
    /// nobody was told.
    ReportRemoveFailed,
    /// Put a notice into its recipient's inbox. Answered by [`Event::Sent`] or
    /// [`Event::SendFailed`].
    Send(Notice),
    /// Log, as a warning, that the agent could not be told.
    ReportSelfNotTold(String),
    /// Look up the orchestrator of the agent's team. Answered by
    /// [`Event::Orchestrator`].
    ResolveOrchestrator(String),
    /// Log, as a warning, that the orchestrator of the agent could not be told.
    ReportOrchestratorNotTold { agent: String, recipient: String },
}

/// What the caller reports back.
#[derive(Debug, PartialEq, Eq)]
pub enum Event {
    Removed,
    RemoveFailed,
    Sent,
    SendFailed,
    /// The orchestrator of the agent's team, where there is one.
    Orchestrator(Option<String>),
}

/// The view of [`Phase`].
#[verifier::ext_equal]
pub enum PhaseView {
    Removing,
    NotifyingSelf,
    Resolving,
    NotifyingOrchestrator(Seq<char>),
    Finished,
}

/// The view of [`Reaping`].
#[verifier::ext_equal]
pub struct ReapingView {
    pub agent: Seq<char>,
    pub fields: FieldsView,
    pub phase: PhaseView,
}

/// The view of [`Effect`].
#[verifier::ext_equal]
pub enum EffectView {
    RemoveBinding,
    ForgetBinding(Seq<char>),
    ReportRemoved,
    ReportRemoveFailed,
    Send(NoticeView),
    ReportSelfNotTold(Seq<char>),
    ResolveOrchestrator(Seq<char>),
    ReportOrchestratorNotTold { agent: Seq<char>, recipient: Seq<char> },
}

/// The view of [`Event`].
#[verifier::ext_equal]
pub enum EventView {
    Removed,
    RemoveFailed,
    Sent,
    SendFailed,
    Orchestrator(Option<Seq<char>>),
}

impl View for Phase {
    type V = PhaseView;

    open spec fn view(&self) -> PhaseView {
        match self {
            Phase::Removing => PhaseView::Removing,
            Phase::NotifyingSelf => PhaseView::NotifyingSelf,
            Phase::Resolving => PhaseView::Resolving,
            Phase::NotifyingOrchestrator(recipient) => PhaseView::NotifyingOrchestrator(recipient@),
            Phase::Finished => PhaseView::Finished,
        }
    }
}

impl View for Reaping {
    type V = ReapingView;

    open spec fn view(&self) -> ReapingView {
        ReapingView { agent: self.agent@, fields: self.fields@, phase: self.phase@ }
    }
}

impl View for Effect {
    type V = EffectView;

    open spec fn view(&self) -> EffectView {
        match self {
            Effect::RemoveBinding => EffectView::RemoveBinding,
            Effect::ForgetBinding(agent) => EffectView::ForgetBinding(agent@),
            Effect::ReportRemoved => EffectView::ReportRemoved,
            Effect::ReportRemoveFailed => EffectView::ReportRemoveFailed,
            Effect::Send(notice) => EffectView::Send(notice@),
            Effect::ReportSelfNotTold(agent) => EffectView::ReportSelfNotTold(agent@),
            Effect::ResolveOrchestrator(agent) => EffectView::ResolveOrchestrator(agent@),
            Effect::ReportOrchestratorNotTold { agent, recipient } =>
                EffectView::ReportOrchestratorNotTold { agent: agent@, recipient: recipient@ },
        }
    }
}

impl View for Event {
    type V = EventView;

    open spec fn view(&self) -> EventView {
        match self {
            Event::Removed => EventView::Removed,
            Event::RemoveFailed => EventView::RemoveFailed,
            Event::Sent => EventView::Sent,
            Event::SendFailed => EventView::SendFailed,
            Event::Orchestrator(name) => EventView::Orchestrator(text_view(*name)),
        }
    }
}

/// The view of a list of effects.
pub open spec fn effects_view(effects: Seq<Effect>) -> Seq<EffectView> {
    effects.map_values(|e: Effect| e@)
}

/// What follows the removal of the binding of `agent`: it leaves the index, the
/// removal is reported, and the instance is told.
pub open spec fn removed_effects(agent: Seq<char>, fields: FieldsView) -> Seq<EffectView> {
    seq![
        EffectView::ForgetBinding(agent),
        EffectView::ReportRemoved,
        EffectView::Send(revoked_notice(agent, agent, fields)),
    ]
}

/// Whether `name` is an orchestrator to tell: there is one, and it is not the agent
/// itself.
pub open spec fn to_tell(agent: Seq<char>, name: Option<Seq<char>>) -> bool {
    name is Some && name->Some_0 != agent
}

/// The phase and the effects that follow when `event` answers a reaping in state `s`.
/// An event that the state does not wait for changes nothing.
pub open spec fn next(s: ReapingView, event: EventView) -> (PhaseView, Seq<EffectView>) {
    match (s.phase, event) {
        (PhaseView::Removing, EventView::Removed) => (
            PhaseView::NotifyingSelf,
            removed_effects(s.agent, s.fields),
        ),
        (PhaseView::Removing, EventView::RemoveFailed) => (
            PhaseView::Finished,
            seq![EffectView::ReportRemoveFailed],
        ),
        (PhaseView::NotifyingSelf, EventView::Sent) => (
            PhaseView::Resolving,
            seq![EffectView::ResolveOrchestrator(s.agent)],
        ),
        (PhaseView::NotifyingSelf, EventView::SendFailed) => (
            PhaseView::Resolving,
            seq![
                EffectView::ReportSelfNotTold(s.agent),
                EffectView::ResolveOrchestrator(s.agent),
            ],
        ),
        (PhaseView::Resolving, EventView::Orchestrator(name)) => if to_tell(s.agent, name) {
            (
                PhaseView::NotifyingOrchestrator(name->Some_0),
                seq![EffectView::Send(revoked_notice(name->Some_0, s.agent, s.fields))],
            )
        } else {
            (PhaseView::Finished, Seq::empty())
        },
        (PhaseView::NotifyingOrchestrator(_), EventView::Sent) => (
            PhaseView::Finished,
            Seq::empty(),
        ),
        (PhaseView::NotifyingOrchestrator(recipient), EventView::SendFailed) => (
            PhaseView::Finished,
            seq![EffectView::ReportOrchestratorNotTold { agent: s.agent, recipient }],
        ),
        _ => (s.phase, Seq::empty()),
    }
}

/// A reaping of the binding of `agent`, in the given phase.
pub open spec fn reaping_of(
    agent: Seq<char>,
    binding: serde_json::Value,
    phase: PhaseView,
) -> ReapingView {
    ReapingView { agent, fields: fields_of(members(binding)), phase }
}

/// Begins to reap the binding of `agent_name`, whose parsed document is `binding`:
/// its file is to be removed, and nothing is claimed before that has happened.
pub fn remove_and_notify(agent_name: &str, binding: &serde_json::Value) -> (r: (
    Reaping,
    Vec<Effect>,
))
    ensures
        r.0@ == reaping_of(agent_name@, *binding, PhaseView::Removing),
        effects_view(r.1@) == seq![EffectView::RemoveBinding],
{
    let reaping = Reaping {
        agent: agent_name.to_owned(),
        fields: binding_fields(binding),
        phase: Phase::Removing,
    };
    let effects = vec![Effect::RemoveBinding];
    assert(effects_view(effects@) =~= seq![EffectView::RemoveBinding]);
    (reaping, effects)
}

/// Begins to tell that the binding of `agent_name` was reaped, for a caller that has
/// removed it already: the instance is told first, then the orchestrator of its team.
/// An instance without a team is told alone.
pub fn notify_binding_reaped(agent_name: &str, binding: &serde_json::Value) -> (r: (
    Reaping,
    Vec<Effect>,
))
    ensures
        r.0@ == reaping_of(agent_name@, *binding, PhaseView::NotifyingSelf),
        effects_view(r.1@) == seq![
            EffectView::Send(
                revoked_notice(agent_name@, agent_name@, fields_of(members(*binding))),
            ),
        ],
{
    let fields = binding_fields(binding);
    let effects = vec![Effect::Send(revoked(agent_name, agent_name, &fields))];
    assert(effects_view(effects@) =~= seq![
        EffectView::Send(revoked_notice(agent_name@, agent_name@, fields@)),
    ]);
    (Reaping { agent: agent_name.to_owned(), fields, phase: Phase::NotifyingSelf }, effects)
}

impl Reaping {
    /// Takes the answer to the last effect and says what is to be done next.
    pub fn step(self, event: Event) -> (r: (Reaping, Vec<Effect>))
        ensures
            r.0@ == (ReapingView { phase: next(self@, event@).0, ..self@ }),
            effects_view(r.1@) == next(self@, event@).1,
    {
        let Reaping { agent, fields, phase } = self;
        let (phase, effects) = match (phase, event) {
            (Phase::Removing, Event::Removed) => {
                let notice = revoked(agent.as_str(), agent.as_str(), &fields);
                (
                    Phase::NotifyingSelf,
                    vec![
                        Effect::ForgetBinding(agent.clone()),
                        Effect::ReportRemoved,
                        Effect::Send(notice),
                    ],
                )
            },
            (Phase::Removing, Event::RemoveFailed) => (
                Phase::Finished,
                vec![Effect::ReportRemoveFailed],
            ),
            (Phase::NotifyingSelf, Event::Sent) => (
                Phase::Resolving,
                vec![Effect::ResolveOrchestrator(agent.clone())],
            ),
            (Phase::NotifyingSelf, Event::SendFailed) => (
                Phase::Resolving,
                vec![
                    Effect::ReportSelfNotTold(agent.clone()),
                    Effect::ResolveOrchestrator(agent.clone()),
                ],
            ),
            (Phase::Resolving, Event::Orchestrator(Some(name))) => if name == agent {
                (Phase::Finished, Vec::new())
            } else {
                let notice = revoked(name.as_str(), agent.as_str(), &fields);
                (Phase::NotifyingOrchestrator(name), vec![Effect::Send(notice)])
            },
            (Phase::Resolving, Event::Orchestrator(None)) => (Phase::Finished, Vec::new()),
            (Phase::NotifyingOrchestrator(_), Event::Sent) => (Phase::Finished, Vec::new()),
            (Phase::NotifyingOrchestrator(recipient), Event::SendFailed) => (
                Phase::Finished,
                vec![Effect::ReportOrchestratorNotTold { agent: agent.clone(), recipient }],
            ),
            (phase, _) => (phase, Vec::new()),
        };
        assert(effects_view(effects@) =~= next(self@, event@).1);
        (Reaping { agent, fields, phase }, effects)
    }
}

} // verus!

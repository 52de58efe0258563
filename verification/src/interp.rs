//! Step interpreter: a state machine over one checklist walkthrough.
//!
//! The machine consumes the document's steps strictly in order, one at a
//! time, and answers each with an [`Effect`] for the surrounding program to
//! perform: render text, render and wait for the operator, dispatch a
//! command packet and pace, skip a malformed record with a diagnostic, or
//! halt on an unsupported kind. The machine itself performs no input or
//! output; the spec function [`run_effects`] gives the whole run's effect
//! sequence, and the lemmas at the end of this module state the run's laws
//! over it.

use crate::document::{ChecklistDocument, Step};
use crate::packet::{
    CommandPacket, PACING_MS, action_description, build_packet, is_action, packet_spec,
};
use crate::registry::{RegistryError, craft_id_for, craft_id_spec, valid_selector};
use vstd::prelude::*;

verus! {

/// What the surrounding program must do next on behalf of the run.
pub enum Effect {
    /// Show `text` to the operator; do not suspend.
    Render { text: String },
    /// Show `text` and suspend until the operator acknowledges.
    RenderAndAwaitAck { text: String },
    /// Show `description`, send `packet` to the fixed destination, then
    /// pace for `pacing_ms` milliseconds before the next step.
    Dispatch { description: String, packet: CommandPacket, pacing_ms: u64 },
    /// Surface a diagnostic for one malformed record; the run continues.
    SkippedMalformed,
    /// The run halted on a step of unsupported kind; fatal, nothing of
    /// this step or any later one is performed.
    Abort { kind: i64 },
    /// Every step has been processed; the run is done.
    Finished,
}

/// Where the machine stands between calls.
#[derive(Clone, Copy, PartialEq, Eq, Structural, Debug)]
pub enum Phase {
    /// Ready to read the next step.
    AwaitingStep,
    /// Suspended until the operator acknowledges a displayed step.
    AwaitingAck,
    /// A command was dispatched; suspended for the fixed settling time.
    Pacing,
    /// The last step was processed.
    Done,
    /// Halted on an unsupported step kind; terminal and fatal to the run.
    UnsupportedStepError,
}

/// The effect one classified step asks for, under the craft `craft_id`.
pub open spec fn effect_of(s: Step, craft_id: u32) -> Effect {
    match s {
        Step::Display { text } => Effect::RenderAndAwaitAck { text },
        Step::DisplayOnly { text } => Effect::Render { text },
        Step::Malformed => Effect::SkippedMalformed,
        Step::Unsupported { kind } => Effect::Abort { kind },
        _ => Effect::Dispatch {
            description: action_description(s),
            packet: packet_spec(s, craft_id),
            pacing_ms: PACING_MS,
        },
    }
}

/// The phase the machine suspends in after one classified step.
pub open spec fn phase_after(s: Step) -> Phase {
    match s {
        Step::Display { .. } => Phase::AwaitingAck,
        Step::DisplayOnly { .. } => Phase::AwaitingStep,
        Step::Malformed => Phase::AwaitingStep,
        Step::Unsupported { .. } => Phase::UnsupportedStepError,
        _ => Phase::Pacing,
    }
}

/// One checklist walkthrough: the run context the interpreter carries, in
/// place of any ambient process-wide selection state.
pub struct Run {
    /// The checklist being walked through; read-only for the whole run.
    pub doc: ChecklistDocument,
    /// The wire craft identifier the run's packets are addressed to.
    pub craft_id: u32,
    /// The position of the next step to process.
    pub index: usize,
    /// Where the machine stands.
    pub phase: Phase,
}

impl Run {
    /// The machine never stands past the end of the document.
    pub open spec fn wf(self) -> bool {
        self.index <= self.doc.steps.len()
    }

    /// Opens a run over `doc` for the craft the `selector` names, resolved
    /// through the registry; rejected exactly for a selector outside the
    /// registry's closed range.
    pub fn new(doc: ChecklistDocument, selector: u32) -> (r: Result<Run, RegistryError>)
        ensures
            r is Ok <==> valid_selector(selector),
            r matches Ok(run) ==> {
                &&& run.doc == doc
                &&& run.craft_id == craft_id_spec(selector)
                &&& run.index == 0
                &&& run.phase == Phase::AwaitingStep
                &&& run.wf()
            },
            !valid_selector(selector) ==> r == Err::<Run, RegistryError>(
                RegistryError::UnknownSpacecraft,
            ),
    {
        match craft_id_for(selector) {
            Ok(craft_id) => Ok(Run { doc, craft_id, index: 0, phase: Phase::AwaitingStep }),
            Err(e) => Err(e),
        }
    }

    /// Processes the next step, in document order, no skipping and no
    /// reordering: the returned effect is exactly what [`effect_of`] gives
    /// for that step, and the machine moves to the phase the step asks
    /// for. Past the last step the run finishes.
    pub fn advance(&mut self) -> (e: Effect)
        requires
            old(self).phase == Phase::AwaitingStep,
            old(self).wf(),
        ensures
            final(self).doc == old(self).doc,
            final(self).craft_id == old(self).craft_id,
            final(self).wf(),
            old(self).index == old(self).doc.steps.len() ==> {
                &&& e == Effect::Finished
                &&& final(self).phase == Phase::Done
                &&& final(self).index == old(self).index
            },
            old(self).index < old(self).doc.steps.len() ==> {
                let s = old(self).doc.steps@[old(self).index as int];
                &&& e == effect_of(s, old(self).craft_id)
                &&& final(self).phase == phase_after(s)
                &&& (s is Unsupported ==> final(self).index == old(self).index)
                &&& (!(s is Unsupported) ==> final(self).index == old(self).index + 1)
            },
    {
        if self.index == self.doc.steps.len() {
            self.phase = Phase::Done;
            return Effect::Finished;
        }
        let step = &self.doc.steps[self.index];
        match step {
            Step::Display { text } => {
                let text = text.clone();
                self.index = self.index + 1;
                self.phase = Phase::AwaitingAck;
                Effect::RenderAndAwaitAck { text }
            },
            Step::DisplayOnly { text } => {
                let text = text.clone();
                self.index = self.index + 1;
                Effect::Render { text }
            },
            Step::Malformed => {
                self.index = self.index + 1;
                Effect::SkippedMalformed
            },
            Step::Unsupported { kind } => {
                let kind = *kind;
                self.phase = Phase::UnsupportedStepError;
                Effect::Abort { kind }
            },
            Step::SetSwitch { description, .. }
            | Step::SetCircuitBreaker { description, .. }
            | Step::SetSelector { description, .. }
            | Step::SetHandle { description, .. } => {
                let description = description.clone();
                let packet = match build_packet(step, self.craft_id) {
                    Option::Some(p) => p,
                    Option::None => unreached(),
                };
                self.index = self.index + 1;
                self.phase = Phase::Pacing;
                Effect::Dispatch { description, packet, pacing_ms: PACING_MS }
            },
        }
    }

    /// Records the operator's acknowledgement of a displayed step; the
    /// machine is ready for the next step, everything else unchanged.
    pub fn acknowledge(&mut self)
        requires
            old(self).phase == Phase::AwaitingAck,
        ensures
            final(self).phase == Phase::AwaitingStep,
            final(self).doc == old(self).doc,
            final(self).craft_id == old(self).craft_id,
            final(self).index == old(self).index,
    {
        self.phase = Phase::AwaitingStep;
    }

    /// Records that the fixed settling time after a dispatch has elapsed;
    /// the machine is ready for the next step, everything else unchanged.
    pub fn paced(&mut self)
        requires
            old(self).phase == Phase::Pacing,
        ensures
            final(self).phase == Phase::AwaitingStep,
            final(self).doc == old(self).doc,
            final(self).craft_id == old(self).craft_id,
            final(self).index == old(self).index,
    {
        self.phase = Phase::AwaitingStep;
    }
}

/// The effect sequence of a whole run over `steps`: one effect per step in
/// document order, cut short at the first step of unsupported kind.
pub open spec fn run_effects(steps: Seq<Step>, craft_id: u32) -> Seq<Effect>
    decreases steps.len(),
{
    if steps.len() == 0 {
        Seq::empty()
    } else if steps[0] is Unsupported {
        seq![effect_of(steps[0], craft_id)]
    } else {
        seq![effect_of(steps[0], craft_id)] + run_effects(steps.drop_first(), craft_id)
    }
}

/// The packets an effect sequence dispatches, in order.
pub open spec fn dispatch_packets(t: Seq<Effect>) -> Seq<CommandPacket>
    decreases t.len(),
{
    if t.len() == 0 {
        Seq::empty()
    } else {
        match t[0] {
            Effect::Dispatch { packet, .. } => seq![packet] + dispatch_packets(t.drop_first()),
            _ => dispatch_packets(t.drop_first()),
        }
    }
}

/// Dispatched packets of a concatenation are the two parts' packets in
/// order.
pub proof fn lemma_dispatch_concat(a: Seq<Effect>, b: Seq<Effect>)
    ensures
        dispatch_packets(a + b) == dispatch_packets(a) + dispatch_packets(b),
    decreases a.len(),
{
    if a.len() == 0 {
        assert(a + b =~= b);
        assert(dispatch_packets(a) + dispatch_packets(b) =~= dispatch_packets(b));
    } else {
        lemma_dispatch_concat(a.drop_first(), b);
        assert((a + b).drop_first() =~= a.drop_first() + b);
        match a[0] {
            Effect::Dispatch { packet, .. } => {
                assert(dispatch_packets(a + b) =~= dispatch_packets(a) + dispatch_packets(b));
            },
            _ => {
                assert(dispatch_packets(a + b) =~= dispatch_packets(a) + dispatch_packets(b));
            },
        }
    }
}

/// Up to any point that no unsupported step precedes, a run splits: the
/// effects of the whole are the effects of the prefix followed by the
/// effects of the rest.
pub proof fn lemma_effects_decompose(steps: Seq<Step>, craft_id: u32, i: int)
    requires
        0 <= i <= steps.len(),
        forall|j: int| 0 <= j < i ==> !(steps[j] is Unsupported),
    ensures
        run_effects(steps, craft_id) == run_effects(steps.take(i), craft_id) + run_effects(
            steps.skip(i),
            craft_id,
        ),
    decreases i,
{
    if i == 0 {
        assert(steps.skip(0) =~= steps);
        assert(run_effects(steps.take(0), craft_id) + run_effects(steps, craft_id) =~= run_effects(
            steps,
            craft_id,
        ));
    } else {
        let rest = steps.drop_first();
        assert(forall|j: int| 0 <= j < i - 1 ==> !(rest[j] is Unsupported));
        lemma_effects_decompose(rest, craft_id, i - 1);
        assert(rest.take(i - 1) =~= steps.take(i).drop_first());
        assert(rest.skip(i - 1) =~= steps.skip(i));
        let e0 = seq![effect_of(steps[0], craft_id)];
        assert(run_effects(steps, craft_id) == e0 + run_effects(rest, craft_id));
        assert(run_effects(steps.take(i), craft_id) == e0 + run_effects(
            steps.take(i).drop_first(),
            craft_id,
        ));
        assert(e0 + (run_effects(rest.take(i - 1), craft_id) + run_effects(
            rest.skip(i - 1),
            craft_id,
        )) =~= (e0 + run_effects(rest.take(i - 1), craft_id)) + run_effects(
            rest.skip(i - 1),
            craft_id,
        ));
    }
}

/// A run over action steps alone dispatches one packet per step: exactly
/// as many packets as steps, in document order, each the packet its step
/// asks for.
pub proof fn lemma_actions_dispatch_one_packet_each(steps: Seq<Step>, craft_id: u32)
    requires
        forall|i: int| 0 <= i < steps.len() ==> is_action(#[trigger] steps[i]),
    ensures
        dispatch_packets(run_effects(steps, craft_id)).len() == steps.len(),
        forall|i: int|
            0 <= i < steps.len() ==> dispatch_packets(run_effects(steps, craft_id))[i]
                == packet_spec(#[trigger] steps[i], craft_id),
    decreases steps.len(),
{
    if steps.len() == 0 {
    } else {
        let rest = steps.drop_first();
        assert(is_action(steps[0]));
        assert(forall|i: int| 0 <= i < rest.len() ==> is_action(#[trigger] rest[i]));
        lemma_actions_dispatch_one_packet_each(rest, craft_id);
        let e0 = effect_of(steps[0], craft_id);
        let t = run_effects(steps, craft_id);
        assert(t == seq![e0] + run_effects(rest, craft_id));
        assert(t[0] == e0);
        assert(t.drop_first() =~= run_effects(rest, craft_id));
        assert(e0 matches Effect::Dispatch { packet, .. } && packet == packet_spec(
            steps[0],
            craft_id,
        ));
        assert(dispatch_packets(t) == seq![packet_spec(steps[0], craft_id)] + dispatch_packets(
            run_effects(rest, craft_id),
        ));
        assert forall|i: int| 0 <= i < steps.len() implies dispatch_packets(
            run_effects(steps, craft_id),
        )[i] == packet_spec(#[trigger] steps[i], craft_id) by {
            if i > 0 {
                assert(rest[i - 1] == steps[i]);
            }
        }
    }
}

/// A step of unsupported kind halts the run where it stands: the run's
/// effects are the effects of the steps before it followed by the one
/// abort, and no packet is dispatched for that step or any step after it.
pub proof fn lemma_unsupported_halts(steps: Seq<Step>, craft_id: u32, i: int)
    requires
        0 <= i < steps.len(),
        steps[i] is Unsupported,
        forall|j: int| 0 <= j < i ==> !(steps[j] is Unsupported),
    ensures
        run_effects(steps, craft_id) == run_effects(steps.take(i), craft_id) + seq![
            Effect::Abort { kind: steps[i]->Unsupported_kind },
        ],
        dispatch_packets(run_effects(steps, craft_id)) == dispatch_packets(
            run_effects(steps.take(i), craft_id),
        ),
{
    lemma_effects_decompose(steps, craft_id, i);
    assert(steps.skip(i)[0] == steps[i]);
    assert(run_effects(steps.skip(i), craft_id) =~= seq![
        Effect::Abort { kind: steps[i]->Unsupported_kind },
    ]);
    lemma_dispatch_concat(
        run_effects(steps.take(i), craft_id),
        run_effects(steps.skip(i), craft_id),
    );
    let abort = seq![Effect::Abort { kind: steps[i]->Unsupported_kind }];
    assert(abort.drop_first() =~= Seq::<Effect>::empty());
    assert(dispatch_packets(Seq::<Effect>::empty()) =~= Seq::<CommandPacket>::empty());
    assert(dispatch_packets(abort) =~= Seq::<CommandPacket>::empty());
    assert(dispatch_packets(run_effects(steps, craft_id)) =~= dispatch_packets(
        run_effects(steps.take(i), craft_id),
    ));
}

/// A malformed record is skipped and only skipped: it contributes exactly
/// one diagnostic and no packet, and the run continues with the steps
/// after it.
pub proof fn lemma_malformed_is_skipped(steps: Seq<Step>, craft_id: u32, i: int)
    requires
        0 <= i < steps.len(),
        steps[i] is Malformed,
        forall|j: int| 0 <= j < i ==> !(steps[j] is Unsupported),
    ensures
        run_effects(steps, craft_id) == run_effects(steps.take(i), craft_id) + seq![
            Effect::SkippedMalformed,
        ] + run_effects(steps.skip(i + 1), craft_id),
        dispatch_packets(run_effects(steps, craft_id)) == dispatch_packets(
            run_effects(steps.take(i), craft_id),
        ) + dispatch_packets(run_effects(steps.skip(i + 1), craft_id)),
{
    lemma_effects_decompose(steps, craft_id, i);
    let tail = steps.skip(i);
    assert(tail[0] == steps[i]);
    assert(tail.drop_first() =~= steps.skip(i + 1));
    assert(run_effects(tail, craft_id) == seq![Effect::SkippedMalformed] + run_effects(
        steps.skip(i + 1),
        craft_id,
    ));
    assert(run_effects(steps, craft_id) =~= run_effects(steps.take(i), craft_id) + seq![
        Effect::SkippedMalformed,
    ] + run_effects(steps.skip(i + 1), craft_id));
    lemma_dispatch_concat(run_effects(steps.take(i), craft_id), run_effects(tail, craft_id));
    lemma_dispatch_concat(seq![Effect::SkippedMalformed], run_effects(steps.skip(i + 1), craft_id));
    assert(seq![Effect::SkippedMalformed].drop_first() =~= Seq::<Effect>::empty());
    assert(dispatch_packets(Seq::<Effect>::empty()) =~= Seq::<CommandPacket>::empty());
    assert(dispatch_packets(seq![Effect::SkippedMalformed]) =~= Seq::<CommandPacket>::empty());
    assert(dispatch_packets(run_effects(steps, craft_id)) =~= dispatch_packets(
        run_effects(steps.take(i), craft_id),
    ) + dispatch_packets(run_effects(steps.skip(i + 1), craft_id)));
}

} // verus!

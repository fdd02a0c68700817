//! The interactive composition wizard.
//!
//! One prompt step races a free-text reply against a reaction from a
//! fixed set of control emoji; the first to arrive wins.  `classify_race`
//! turns the raced outcome into one `PromptResult`.  The orchestrator is a
//! state machine: `ComposeSession::apply` consumes one prompt result and
//! says what happens next; `run_composition` folds a whole sequence of
//! results into the final outcome.  The waiting itself, and every visible
//! message, is the business of the surrounding program: this module only
//! decides.

use vstd::prelude::*;

use crate::errors::{BotstoneError, BotstoneErrorView};
use crate::message::{Embed, EmbedView, Message, MessageView};
use crate::payload::{materialize, spec_materialize, SendPayload, SendPayloadView};
use crate::text::str_eq;

verus! {

/// The one result of a prompt step.
#[derive(Debug, PartialEq)]
pub enum PromptResult {
    /// Finish now and send what has been accumulated.
    Accept,
    /// Abort the whole session.
    Cancel,
    /// Leave this part unset and move on.
    Skip,
    /// Show the accumulated state, then ask the same step again.
    Preview,
    /// Neither a reply nor a reaction arrived in time.
    TimedOut,
    /// A free-text reply.
    Message(String),
}

/// Spec-level view of `PromptResult`.
pub enum PromptResultView {
    Accept,
    Cancel,
    Skip,
    Preview,
    TimedOut,
    Message(Seq<char>),
}

impl View for PromptResult {
    type V = PromptResultView;

    open spec fn view(&self) -> PromptResultView {
        match self {
            PromptResult::Accept => PromptResultView::Accept,
            PromptResult::Cancel => PromptResultView::Cancel,
            PromptResult::Skip => PromptResultView::Skip,
            PromptResult::Preview => PromptResultView::Preview,
            PromptResult::TimedOut => PromptResultView::TimedOut,
            PromptResult::Message(s) => PromptResultView::Message(s@),
        }
    }
}

/// The control emoji of each signal, if it has one.  `TimedOut` and
/// `Message` are never signalled by a reaction.
pub open spec fn spec_emoji(p: PromptResultView) -> Option<Seq<char>> {
    match p {
        PromptResultView::Accept => Some(seq!['\u{2705}']),
        PromptResultView::Cancel => Some(seq!['\u{274c}']),
        PromptResultView::Skip => Some(seq!['\u{23e9}']),
        PromptResultView::Preview => Some(seq!['\u{1f441}']),
        PromptResultView::TimedOut => None,
        PromptResultView::Message(_) => None,
    }
}

/// The signal a control emoji stands for, if any.
pub open spec fn spec_from_emoji(e: Seq<char>) -> Option<PromptResultView> {
    if e == seq!['\u{2705}'] {
        Some(PromptResultView::Accept)
    } else if e == seq!['\u{274c}'] {
        Some(PromptResultView::Cancel)
    } else if e == seq!['\u{23e9}'] {
        Some(PromptResultView::Skip)
    } else if e == seq!['\u{1f441}'] {
        Some(PromptResultView::Preview)
    } else {
        None
    }
}

impl PromptResult {
    /// The emoji that signals this result, if it has one.
    pub fn emoji_representation(&self) -> (r: Option<String>)
        ensures
            ({
                let rv = match r {
                    Some(s) => Some(s@),
                    None => None,
                };
                rv == spec_emoji(self@)
            }),
    {
        proof {
            reveal_strlit("\u{2705}");
            reveal_strlit("\u{274c}");
            reveal_strlit("\u{23e9}");
            reveal_strlit("\u{1f441}");
        }
        match self {
            PromptResult::Accept => Some("\u{2705}".to_owned()),
            PromptResult::Cancel => Some("\u{274c}".to_owned()),
            PromptResult::Skip => Some("\u{23e9}".to_owned()),
            PromptResult::Preview => Some("\u{1f441}".to_owned()),
            PromptResult::TimedOut => None,
            PromptResult::Message(_) => None,
        }
    }

    /// All recognized control emoji, in the fixed order accept, cancel,
    /// skip, preview.
    pub fn all_representations() -> (r: Vec<String>)
        ensures
            r@.len() == 4,
            r@[0]@ == seq!['\u{2705}'],
            r@[1]@ == seq!['\u{274c}'],
            r@[2]@ == seq!['\u{23e9}'],
            r@[3]@ == seq!['\u{1f441}'],
    {
        proof {
            reveal_strlit("\u{2705}");
            reveal_strlit("\u{274c}");
            reveal_strlit("\u{23e9}");
            reveal_strlit("\u{1f441}");
        }
        let mut v: Vec<String> = Vec::new();
        v.push("\u{2705}".to_owned());
        v.push("\u{274c}".to_owned());
        v.push("\u{23e9}".to_owned());
        v.push("\u{1f441}".to_owned());
        v
    }

    /// The signal a reaction emoji stands for; `None` marks an emoji
    /// outside the recognized set.
    pub fn from_emoji(emoji: &str) -> (r: Option<PromptResult>)
        ensures
            ({
                let rv = match r {
                    Some(p) => Some(p@),
                    None => None,
                };
                rv == spec_from_emoji(emoji@)
            }),
    {
        proof {
            reveal_strlit("\u{2705}");
            reveal_strlit("\u{274c}");
            reveal_strlit("\u{23e9}");
            reveal_strlit("\u{1f441}");
            assert("\u{2705}"@ =~= seq!['\u{2705}']);
            assert("\u{274c}"@ =~= seq!['\u{274c}']);
            assert("\u{23e9}"@ =~= seq!['\u{23e9}']);
            assert("\u{1f441}"@ =~= seq!['\u{1f441}']);
        }
        if str_eq(emoji, "\u{2705}") {
            Some(PromptResult::Accept)
        } else if str_eq(emoji, "\u{274c}") {
            Some(PromptResult::Cancel)
        } else if str_eq(emoji, "\u{23e9}") {
            Some(PromptResult::Skip)
        } else if str_eq(emoji, "\u{1f441}") {
            Some(PromptResult::Preview)
        } else {
            None
        }
    }
}

/// Failure of one wait: the step timed out, or the underlying capability
/// itself failed.
#[derive(Debug, PartialEq)]
pub enum InteractionError {
    /// The wait ran out of time.  Not a failure: it ends the session
    /// quietly.
    Timeout,
    /// The send or receive capability failed; fatal to the session.
    Transport(String),
}

/// Spec-level view of `InteractionError`.
pub enum InteractionErrorView {
    Timeout,
    Transport(Seq<char>),
}

impl View for InteractionError {
    type V = InteractionErrorView;

    open spec fn view(&self) -> InteractionErrorView {
        match self {
            InteractionError::Timeout => InteractionErrorView::Timeout,
            InteractionError::Transport(s) => InteractionErrorView::Transport(s@),
        }
    }
}

/// What one prompt step's race produced: the text wait won, or the
/// reaction wait won.  The loser is abandoned.
#[derive(Debug, PartialEq)]
pub enum RaceOutcome {
    /// The text wait resolved: a reply, or `None` on timeout.
    Text(Option<String>),
    /// The reaction wait resolved: the emoji that was added, or a failure.
    Reaction(Result<String, InteractionError>),
}

/// Spec-level view of `RaceOutcome`.
pub enum RaceOutcomeView {
    Text(Option<Seq<char>>),
    Reaction(Result<Seq<char>, InteractionErrorView>),
}

impl View for RaceOutcome {
    type V = RaceOutcomeView;

    open spec fn view(&self) -> RaceOutcomeView {
        match self {
            RaceOutcome::Text(t) => RaceOutcomeView::Text(crate::text::opt_str_view(*t)),
            RaceOutcome::Reaction(r) => RaceOutcomeView::Reaction(
                match r {
                    Ok(e) => Ok(e@),
                    Err(err) => Err(err@),
                },
            ),
        }
    }
}

/// What one raced outcome means: a reply becomes `Message`, either wait
/// timing out becomes `TimedOut`, a recognized reaction becomes its
/// signal, an unrecognized one is an internal-invariant violation, and a
/// transport failure is passed on.
pub open spec fn spec_classify(o: RaceOutcomeView) -> Result<PromptResultView, BotstoneErrorView> {
    match o {
        RaceOutcomeView::Text(Some(t)) => Ok(PromptResultView::Message(t)),
        RaceOutcomeView::Text(None) => Ok(PromptResultView::TimedOut),
        RaceOutcomeView::Reaction(Ok(e)) => match spec_from_emoji(e) {
            Some(p) => Ok(p),
            None => Err(BotstoneErrorView::ImpossibleError("Unknown reaction!"@)),
        },
        RaceOutcomeView::Reaction(Err(InteractionErrorView::Timeout)) => Ok(
            PromptResultView::TimedOut,
        ),
        RaceOutcomeView::Reaction(Err(InteractionErrorView::Transport(s))) => Err(
            BotstoneErrorView::Transport(s),
        ),
    }
}

/// Turns the raced outcome of one prompt step into its result.
pub fn classify_race(o: RaceOutcome) -> (r: Result<PromptResult, BotstoneError>)
    ensures
        match r {
            Ok(p) => spec_classify(o@) == Ok::<PromptResultView, BotstoneErrorView>(p@),
            Err(e) => spec_classify(o@) == Err::<PromptResultView, BotstoneErrorView>(e@),
        },
{
    match o {
        RaceOutcome::Text(Some(t)) => Ok(PromptResult::Message(t)),
        RaceOutcome::Text(None) => Ok(PromptResult::TimedOut),
        RaceOutcome::Reaction(Ok(e)) => match PromptResult::from_emoji(e.as_str()) {
            Some(p) => Ok(p),
            None => Err(BotstoneError::ImpossibleError("Unknown reaction!".to_owned())),
        },
        RaceOutcome::Reaction(Err(InteractionError::Timeout)) => Ok(PromptResult::TimedOut),
        RaceOutcome::Reaction(Err(InteractionError::Transport(s))) => Err(
            BotstoneError::Transport(s),
        ),
    }
}

/// The steps of the composition wizard, in order: the message content,
/// then the embed description.
#[derive(Debug, PartialEq, Clone, Copy)]
pub enum ComposeStep {
    Content,
    Description,
}

/// One composition session: the step it is waiting on and the message
/// accumulated so far.
#[derive(Debug, PartialEq)]
pub struct ComposeSession {
    pub step: ComposeStep,
    pub builder: Message,
}

/// Spec-level view of `ComposeSession`.
pub struct ComposeSessionView {
    pub step: ComposeStep,
    pub builder: MessageView,
}

impl View for ComposeSession {
    type V = ComposeSessionView;

    open spec fn view(&self) -> ComposeSessionView {
        ComposeSessionView { step: self.step, builder: self.builder@ }
    }
}

/// The wizard only ever writes the content and the embed description, so
/// the accumulated message never holds a colour; materializing it cannot
/// fail.
pub open spec fn session_wf(s: ComposeSessionView) -> bool {
    match s.builder.embed {
        Some(e) => e.colour is None,
        None => true,
    }
}

/// What one applied prompt result leads to.
#[derive(Debug, PartialEq)]
pub enum ComposeTransition {
    /// The session goes on with the next step.
    Continue(ComposeSession),
    /// Send this preview, then ask the same step again.
    Preview(ComposeSession, SendPayload),
    /// The session is complete; send this payload.
    Finished(SendPayload),
    /// The session was cancelled or timed out; nothing is sent.
    Cancelled,
}

/// Spec-level view of `ComposeTransition`.
pub enum ComposeTransitionView {
    Continue(ComposeSessionView),
    Preview(ComposeSessionView, SendPayloadView),
    Finished(SendPayloadView),
    Cancelled,
}

impl View for ComposeTransition {
    type V = ComposeTransitionView;

    open spec fn view(&self) -> ComposeTransitionView {
        match self {
            ComposeTransition::Continue(s) => ComposeTransitionView::Continue(s@),
            ComposeTransition::Preview(s, p) => ComposeTransitionView::Preview(s@, p@),
            ComposeTransition::Finished(p) => ComposeTransitionView::Finished(p@),
            ComposeTransition::Cancelled => ComposeTransitionView::Cancelled,
        }
    }
}

/// The payload of a builder that the wizard accumulated.  Under
/// `session_wf` materializing cannot fail, so this is total.
pub open spec fn builder_payload(b: MessageView) -> SendPayloadView
    recommends
        spec_materialize(b) is Ok,
{
    spec_materialize(b)->Ok_0
}

/// The builder after the given step's text is written into it.
pub open spec fn builder_with(b: MessageView, step: ComposeStep, t: Seq<char>) -> MessageView {
    match step {
        ComposeStep::Content => MessageView { content: Some(t), ..b },
        ComposeStep::Description => MessageView {
            embed: Some(
                EmbedView {
                    colour: None,
                    description: Some(t),
                    field: None,
                    footer: None,
                    author: None,
                },
            ),
            ..b
        },
    }
}

/// The session advanced past `step` with builder `b`: on to the next
/// step, or finished with the builder's payload after the last one.
pub open spec fn spec_advance(step: ComposeStep, b: MessageView) -> ComposeTransitionView {
    match step {
        ComposeStep::Content => ComposeTransitionView::Continue(
            ComposeSessionView { step: ComposeStep::Description, builder: b },
        ),
        ComposeStep::Description => ComposeTransitionView::Finished(builder_payload(b)),
    }
}

/// What one prompt result does to a session: a reply fills the step's
/// part and advances; skip advances with the part unset; accept finishes
/// at once with whatever has accumulated; cancel and timeout abort;
/// preview shows the accumulated state and repeats the step.
pub open spec fn spec_apply(s: ComposeSessionView, p: PromptResultView) -> ComposeTransitionView {
    match p {
        PromptResultView::Accept => ComposeTransitionView::Finished(builder_payload(s.builder)),
        PromptResultView::Cancel => ComposeTransitionView::Cancelled,
        PromptResultView::TimedOut => ComposeTransitionView::Cancelled,
        PromptResultView::Preview => ComposeTransitionView::Preview(
            s,
            builder_payload(s.builder),
        ),
        PromptResultView::Skip => spec_advance(s.step, s.builder),
        PromptResultView::Message(t) => spec_advance(s.step, builder_with(s.builder, s.step, t)),
    }
}

/// Every transition out of a well-formed session leaves any continuing
/// session well-formed.
pub open spec fn transition_wf(t: ComposeTransitionView) -> bool {
    match t {
        ComposeTransitionView::Continue(s) => session_wf(s),
        ComposeTransitionView::Preview(s, _) => session_wf(s),
        _ => true,
    }
}

impl ComposeSession {
    /// A fresh session: waiting for the content, nothing accumulated.
    pub fn new() -> (s: ComposeSession)
        ensures
            s@ == (ComposeSessionView {
                step: ComposeStep::Content,
                builder: MessageView { content: None, embed: None },
            }),
            session_wf(s@),
    {
        ComposeSession { step: ComposeStep::Content, builder: Message::default() }
    }

    /// Whether this session is one the wizard can have produced: its
    /// builder holds no colour, so it can always be materialized.  Always
    /// true of sessions that came from `new` and from transitions.
    pub fn well_formed(&self) -> (r: bool)
        ensures
            r == session_wf(self@),
    {
        match &self.builder.embed {
            Some(e) => e.colour.is_none(),
            None => true,
        }
    }

    /// The prompt text of the step this session is waiting on.
    pub fn prompt_text(&self) -> (r: String)
        ensures
            self@.step is Content ==> r@ == "What should the content of the message be?"@,
            self@.step is Description ==> r@ == "What should the content of the embed be?"@,
    {
        match self.step {
            ComposeStep::Content => "What should the content of the message be?".to_owned(),
            ComposeStep::Description => "What should the content of the embed be?".to_owned(),
        }
    }

    /// Applies one prompt result to the session.
    pub fn apply(self, result: &PromptResult) -> (t: ComposeTransition)
        requires
            session_wf(self@),
        ensures
            t@ == spec_apply(self@, result@),
            transition_wf(t@),
    {
        proof {
            lemma_wf_builder_materializes(self@.builder);
        }
        match result {
            PromptResult::Accept => {
                let p = must_materialize(&self.builder);
                ComposeTransition::Finished(p)
            },
            PromptResult::Cancel => ComposeTransition::Cancelled,
            PromptResult::TimedOut => ComposeTransition::Cancelled,
            PromptResult::Preview => {
                let p = must_materialize(&self.builder);
                ComposeTransition::Preview(self, p)
            },
            PromptResult::Skip => self.advance(),
            PromptResult::Message(t) => {
                let text = t.clone();
                let builder = match self.step {
                    ComposeStep::Content => Message { content: Some(text), ..self.builder },
                    ComposeStep::Description => {
                        let mut embed = Embed::default();
                        embed.description = Some(text);
                        Message { embed: Some(embed), ..self.builder }
                    },
                };
                let next = ComposeSession { step: self.step, builder };
                next.advance()
            },
        }
    }

    /// Moves past the current step: on to the next, or finished.
    fn advance(self) -> (t: ComposeTransition)
        requires
            session_wf(self@),
        ensures
            t@ == spec_advance(self@.step, self@.builder),
            transition_wf(t@),
    {
        proof {
            lemma_wf_builder_materializes(self@.builder);
        }
        match self.step {
            ComposeStep::Content => ComposeTransition::Continue(
                ComposeSession { step: ComposeStep::Description, builder: self.builder },
            ),
            ComposeStep::Description => {
                let p = must_materialize(&self.builder);
                ComposeTransition::Finished(p)
            },
        }
    }
}

/// A builder without a colour always materializes.
proof fn lemma_wf_builder_materializes(b: MessageView)
    requires
        match b.embed {
            Some(e) => e.colour is None,
            None => true,
        },
    ensures
        spec_materialize(b) is Ok,
{
}

/// Materializes a builder that is known to have no colour to resolve.
fn must_materialize(b: &Message) -> (r: SendPayload)
    requires
        match b@.embed {
            Some(e) => e.colour is None,
            None => true,
        },
    ensures
        r@ == builder_payload(b@),
{
    proof {
        lemma_wf_builder_materializes(b@);
    }
    match materialize(b) {
        Ok(p) => p,
        Err(_) => {
            proof {
                assert(false);
            }
            SendPayload { content: None, embed: None }
        },
    }
}

/// The static usage message sent once at the start of a session,
/// summarizing the control signals.
pub fn usage_text() -> (r: String)
    ensures
        r@ == (
        "Accept and immediately finish by clicking \u{2705}\nCancel message creation by pressing \u{274c}\nSkip current part of the prompt by using \u{23e9}\nPreview changes so far with \u{1f441}\nIf you take too long, the process is cancelled automatically"
        )@,
{
    "Accept and immediately finish by clicking \u{2705}\nCancel message creation by pressing \u{274c}\nSkip current part of the prompt by using \u{23e9}\nPreview changes so far with \u{1f441}\nIf you take too long, the process is cancelled automatically".to_owned()
}

/// The outcome of a whole composition run: the payload (or none, on
/// cancel or timeout), every preview that was sent, in order, and how many
/// prompt results were consumed.
#[derive(Debug, PartialEq)]
pub struct CompositionOutcome {
    pub payload: Option<SendPayload>,
    pub previews: Vec<SendPayload>,
    pub steps_taken: usize,
}

/// Spec-level view of `CompositionOutcome`.
pub struct CompositionOutcomeView {
    pub payload: Option<SendPayloadView>,
    pub previews: Seq<SendPayloadView>,
    pub steps_taken: int,
}

/// The views of a list of payloads.
pub open spec fn payloads_view(ps: Seq<SendPayload>) -> Seq<SendPayloadView> {
    Seq::new(ps.len(), |i: int| ps[i]@)
}

impl View for CompositionOutcome {
    type V = CompositionOutcomeView;

    open spec fn view(&self) -> CompositionOutcomeView {
        CompositionOutcomeView {
            payload: match self.payload {
                Some(p) => Some(p@),
                None => None,
            },
            previews: payloads_view(self.previews@),
            steps_taken: self.steps_taken as int,
        }
    }
}

/// The views of a list of prompt results.
pub open spec fn events_view(es: Seq<PromptResult>) -> Seq<PromptResultView> {
    Seq::new(es.len(), |i: int| es[i]@)
}

/// What a session does with the prompt results from position `i` on:
/// the outcome, or `None` where the results run out before the session
/// ends.
pub open spec fn spec_run_from(
    s: ComposeSessionView,
    events: Seq<PromptResultView>,
    i: int,
) -> Option<CompositionOutcomeView>
    decreases events.len() - i,
{
    if i < 0 || i >= events.len() {
        None
    } else {
        match spec_apply(s, events[i]) {
            ComposeTransitionView::Finished(p) => Some(
                CompositionOutcomeView { payload: Some(p), previews: Seq::empty(), steps_taken: 1 },
            ),
            ComposeTransitionView::Cancelled => Some(
                CompositionOutcomeView { payload: None, previews: Seq::empty(), steps_taken: 1 },
            ),
            ComposeTransitionView::Continue(s2) => match spec_run_from(s2, events, i + 1) {
                None => None,
                Some(o) => Some(
                    CompositionOutcomeView {
                        payload: o.payload,
                        previews: o.previews,
                        steps_taken: o.steps_taken + 1,
                    },
                ),
            },
            ComposeTransitionView::Preview(s2, p) => match spec_run_from(s2, events, i + 1) {
                None => None,
                Some(o) => Some(
                    CompositionOutcomeView {
                        payload: o.payload,
                        previews: seq![p] + o.previews,
                        steps_taken: o.steps_taken + 1,
                    },
                ),
            },
        }
    }
}

/// What a whole composition does with a sequence of prompt results.
pub open spec fn spec_run_composition(events: Seq<PromptResultView>) -> Option<
    CompositionOutcomeView,
> {
    spec_run_from(
        ComposeSessionView {
            step: ComposeStep::Content,
            builder: MessageView { content: None, embed: None },
        },
        events,
        0,
    )
}

/// Runs a whole composition over a sequence of prompt results, one per
/// step taken.  Returns `None` where the results run out before the
/// session ends; a session driven by real prompt steps always ends,
/// because a timed-out step ends it.
#[verifier::loop_isolation(false)]
pub fn run_composition(events: &Vec<PromptResult>) -> (r: Option<CompositionOutcome>)
    ensures
        match spec_run_composition(events_view(events@)) {
            Some(o) => r matches Some(out) && out@ == o,
            None => r is None,
        },
{
    let ghost evs = events_view(events@);
    let mut session = ComposeSession::new();
    let mut previews: Vec<SendPayload> = Vec::new();
    let mut i: usize = 0;
    loop
        invariant
            i <= events.len(),
            session_wf(session@),
            match spec_run_from(session@, evs, i as int) {
                None => spec_run_composition(evs) is None,
                Some(o) => spec_run_composition(evs) matches Some(full) && full.payload
                    == o.payload && full.previews == payloads_view(previews@) + o.previews
                    && full.steps_taken == i + o.steps_taken,
            },
        decreases events.len() - i,
    {
        if i >= events.len() {
            return None;
        }
        let ghost pre = session@;
        match session.apply(&events[i]) {
            ComposeTransition::Finished(p) => {
                proof {
                    assert(spec_run_from(pre, evs, i as int) matches Some(o) && o.payload
                        == Some(p@) && o.previews =~= Seq::<SendPayloadView>::empty());
                    assert(payloads_view(previews@) + Seq::<SendPayloadView>::empty()
                        =~= payloads_view(previews@));
                }
                return Some(
                    CompositionOutcome {
                        payload: Some(p),
                        previews,
                        steps_taken: i + 1,
                    },
                );
            },
            ComposeTransition::Cancelled => {
                proof {
                    assert(payloads_view(previews@) + Seq::<SendPayloadView>::empty()
                        =~= payloads_view(previews@));
                }
                return Some(
                    CompositionOutcome { payload: None, previews, steps_taken: i + 1 },
                );
            },
            ComposeTransition::Continue(s2) => {
                session = s2;
            },
            ComposeTransition::Preview(s2, p) => {
                proof {
                    assert(spec_apply(pre, evs[i as int]) matches ComposeTransitionView::Preview(
                        sv,
                        pv,
                    ) && pv == p@);
                }
                previews.push(p);
                session = s2;
                proof {
                    assert(forall|o2: Seq<SendPayloadView>|
                        payloads_view(previews@) + o2 =~= payloads_view(
                            previews@.drop_last(),
                        ) + (seq![p@] + o2));
                }
            },
        }
        i += 1;
    }
}

} // verus!

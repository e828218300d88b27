use vstd::prelude::*;
use crate::trigger::TriggerEvent;

verus! {

/// Pause between writing the clipboard and synthesizing the paste, in
/// milliseconds, so the target application sees the new contents.
pub const SETTLE_DELAY_MS: u64 = 100;

/// The text sent to the generator: the base prompt, a blank line, then the
/// selected text after a label.
pub open spec fn full_prompt(prompt: Seq<char>, selected: Seq<char>) -> Seq<char> {
    prompt + "\n\nSelected text: "@ + selected
}

/// Builds the text sent to the generator for a prompt and a selection.
pub fn build_full_prompt(prompt: &str, selected: &str) -> (r: String)
    ensures
        r@ == full_prompt(prompt@, selected@),
{
    let mut text = String::from_str(prompt);
    text.append("\n\nSelected text: ");
    text.append(selected);
    text
}

/// One candidate answer of the generator: its text parts in order.
#[derive(Clone, Debug)]
pub struct Candidate {
    pub parts: Vec<String>,
}

/// The text used when the generator answered with no candidate or no part.
pub open spec fn no_response_text() -> Seq<char> {
    "No response from Gemini"@
}

/// The generated text of an answer: the first part of the first candidate,
/// or a fixed notice when there is none.
pub open spec fn spec_response_text(candidates: Seq<Candidate>) -> Seq<char> {
    if candidates.len() > 0 && candidates[0].parts@.len() > 0 {
        candidates[0].parts@[0]@
    } else {
        no_response_text()
    }
}

/// Picks the generated text out of the generator's candidates.
pub fn response_text(candidates: &Vec<Candidate>) -> (r: String)
    ensures
        r@ == spec_response_text(candidates@),
{
    if candidates.len() > 0 && candidates[0].parts.len() > 0 {
        candidates[0].parts[0].clone()
    } else {
        String::from_str("No response from Gemini")
    }
}

/// Everything one task needs, copied at dispatch so tasks share nothing.
#[derive(Clone, Debug)]
pub struct ProcessingContext {
    pub prompt: String,
    pub api_key: String,
    pub selected_text: String,
}

impl ProcessingContext {
    /// The context for a trigger under the given prompt and API key.
    pub fn new(prompt: &String, api_key: &String, event: TriggerEvent) -> (r: ProcessingContext)
        ensures
            r.prompt@ == prompt@,
            r.api_key@ == api_key@,
            r.selected_text@ == event.text@,
    {
        ProcessingContext { prompt: prompt.clone(), api_key: api_key.clone(), selected_text: event.text }
    }
}

/// Where a task stands.
#[derive(PartialEq, Eq, Structural, Clone, Copy, Debug)]
pub enum Stage {
    Dispatched,
    CallingApi,
    WritingClipboard,
    Settling,
    Pasting,
    Done,
    Failed,
}

/// What the host reports back to a task.
#[derive(Clone, Debug)]
pub enum TaskEvent {
    /// The task was picked up.
    Start,
    /// The generator answered with this text.
    Generated(String),
    /// The generator call failed (network, status or decoding).
    GenerationFailed,
    ClipboardWritten,
    ClipboardWriteFailed,
    /// The settle delay has passed.
    Settled,
    PasteDone,
    PasteFailed,
}

/// What the host must do next for a task.
#[derive(Clone, Debug)]
pub enum Command {
    /// Call the generator with this full prompt and the task's API key.
    CallApi(String),
    /// Put this text on the clipboard.
    WriteClipboard(String),
    /// Wait this many milliseconds.
    Wait(u64),
    /// Synthesize the paste chord.
    SynthesizePaste,
    /// Nothing to do for this event: it does not belong to the stage.
    Idle,
    /// The task has ended.
    Stop,
}

/// One processing task: `Dispatched -> CallingApi -> WritingClipboard ->
/// Settling -> Pasting -> Done`, or `Failed` from any step that fails. No
/// step is retried.
#[derive(Clone, Debug)]
pub struct PipelineTask {
    pub stage: Stage,
    pub context: ProcessingContext,
}

/// A command as the contracts see it: texts by their characters.
pub enum CommandView {
    CallApi(Seq<char>),
    WriteClipboard(Seq<char>),
    Wait(u64),
    SynthesizePaste,
    Idle,
    Stop,
}

impl View for Command {
    type V = CommandView;

    open spec fn view(&self) -> CommandView {
        match self {
            Command::CallApi(t) => CommandView::CallApi(t@),
            Command::WriteClipboard(t) => CommandView::WriteClipboard(t@),
            Command::Wait(ms) => CommandView::Wait(*ms),
            Command::SynthesizePaste => CommandView::SynthesizePaste,
            Command::Idle => CommandView::Idle,
            Command::Stop => CommandView::Stop,
        }
    }
}

/// The stage and command after an event in a stage (the context never
/// changes). Once `Done` or `Failed`, every event yields `Stop`; an event
/// that does not belong to a live stage leaves it unchanged.
pub open spec fn spec_advance(stage: Stage, ctx: ProcessingContext, ev: TaskEvent) -> (
    Stage,
    CommandView,
) {
    match (stage, ev) {
        (Stage::Done, _) => (Stage::Done, CommandView::Stop),
        (Stage::Failed, _) => (Stage::Failed, CommandView::Stop),
        (Stage::Dispatched, TaskEvent::Start) => (
            Stage::CallingApi,
            CommandView::CallApi(full_prompt(ctx.prompt@, ctx.selected_text@)),
        ),
        (Stage::CallingApi, TaskEvent::Generated(t)) => (
            Stage::WritingClipboard,
            CommandView::WriteClipboard(t@),
        ),
        (Stage::CallingApi, TaskEvent::GenerationFailed) => (Stage::Failed, CommandView::Stop),
        (Stage::WritingClipboard, TaskEvent::ClipboardWritten) => (
            Stage::Settling,
            CommandView::Wait(SETTLE_DELAY_MS),
        ),
        (Stage::WritingClipboard, TaskEvent::ClipboardWriteFailed) => (
            Stage::Failed,
            CommandView::Stop,
        ),
        (Stage::Settling, TaskEvent::Settled) => (Stage::Pasting, CommandView::SynthesizePaste),
        (Stage::Pasting, TaskEvent::PasteDone) => (Stage::Done, CommandView::Stop),
        (Stage::Pasting, TaskEvent::PasteFailed) => (Stage::Failed, CommandView::Stop),
        _ => (stage, CommandView::Idle),
    }
}

/// The commands a task emits for a sequence of events.
pub open spec fn spec_run(stage: Stage, ctx: ProcessingContext, evs: Seq<TaskEvent>) -> Seq<
    CommandView,
>
    decreases evs.len(),
{
    if evs.len() == 0 {
        Seq::empty()
    } else {
        let (next, cmd) = spec_advance(stage, ctx, evs[0]);
        seq![cmd] + spec_run(next, ctx, evs.drop_first())
    }
}

/// A command that touches the clipboard or the keyboard.
pub open spec fn is_effect(c: CommandView) -> bool {
    c is WriteClipboard || c is SynthesizePaste
}

impl PipelineTask {
    /// A fresh task for a context.
    pub fn new(context: ProcessingContext) -> (r: PipelineTask)
        ensures
            r.stage == Stage::Dispatched,
            r.context == context,
    {
        PipelineTask { stage: Stage::Dispatched, context }
    }

    /// Feeds one event to the task and returns what the host must do next.
    pub fn advance(&mut self, ev: TaskEvent) -> (r: Command)
        ensures
            (final(self).stage, r@) == spec_advance(old(self).stage, old(self).context, ev),
            final(self).context == old(self).context,
    {
        match (self.stage, ev) {
            (Stage::Done, _) => Command::Stop,
            (Stage::Failed, _) => Command::Stop,
            (Stage::Dispatched, TaskEvent::Start) => {
                self.stage = Stage::CallingApi;
                Command::CallApi(
                    build_full_prompt(
                        self.context.prompt.as_str(),
                        self.context.selected_text.as_str(),
                    ),
                )
            },
            (Stage::CallingApi, TaskEvent::Generated(t)) => {
                self.stage = Stage::WritingClipboard;
                Command::WriteClipboard(t)
            },
            (Stage::CallingApi, TaskEvent::GenerationFailed) => {
                self.stage = Stage::Failed;
                Command::Stop
            },
            (Stage::WritingClipboard, TaskEvent::ClipboardWritten) => {
                self.stage = Stage::Settling;
                Command::Wait(SETTLE_DELAY_MS)
            },
            (Stage::WritingClipboard, TaskEvent::ClipboardWriteFailed) => {
                self.stage = Stage::Failed;
                Command::Stop
            },
            (Stage::Settling, TaskEvent::Settled) => {
                self.stage = Stage::Pasting;
                Command::SynthesizePaste
            },
            (Stage::Pasting, TaskEvent::PasteDone) => {
                self.stage = Stage::Done;
                Command::Stop
            },
            (Stage::Pasting, TaskEvent::PasteFailed) => {
                self.stage = Stage::Failed;
                Command::Stop
            },
            _ => Command::Idle,
        }
    }
}

/// A task emits one command per event.
pub proof fn lemma_run_len(stage: Stage, ctx: ProcessingContext, evs: Seq<TaskEvent>)
    ensures
        spec_run(stage, ctx, evs).len() == evs.len(),
    decreases evs.len(),
{
    if evs.len() > 0 {
        let (next, _) = spec_advance(stage, ctx, evs[0]);
        lemma_run_len(next, ctx, evs.drop_first());
    }
}

/// A task that has failed emits only `Stop`, whatever it is told after.
pub proof fn lemma_failed_is_final(ctx: ProcessingContext, evs: Seq<TaskEvent>)
    ensures
        forall|i: int|
            0 <= i < evs.len() ==> #[trigger] spec_run(Stage::Failed, ctx, evs)[i]
                == CommandView::Stop,
    decreases evs.len(),
{
    if evs.len() > 0 {
        lemma_failed_is_final(ctx, evs.drop_first());
        lemma_run_len(Stage::Failed, ctx, evs.drop_first());
        let tail = spec_run(Stage::Failed, ctx, evs.drop_first());
        assert(spec_run(Stage::Failed, ctx, evs) == seq![CommandView::Stop] + tail);
        assert forall|i: int| 0 <= i < evs.len() implies #[trigger] spec_run(
            Stage::Failed,
            ctx,
            evs,
        )[i] == CommandView::Stop by {
            if i > 0 {
                assert(spec_run(Stage::Failed, ctx, evs)[i] == tail[i - 1]);
            }
        }
    }
}

/// A failed generation call ends the task: from then on it never writes
/// the clipboard nor synthesizes a paste, whatever events follow.
pub proof fn lemma_failed_generation_has_no_effect(
    ctx: ProcessingContext,
    later: Seq<TaskEvent>,
)
    ensures
        forall|i: int|
            0 <= i < later.len() + 1 ==> !is_effect(
                #[trigger] spec_run(Stage::CallingApi, ctx, seq![TaskEvent::GenerationFailed] + later)[i],
            ),
{
    let evs = seq![TaskEvent::GenerationFailed] + later;
    assert(evs.drop_first() =~= later);
    lemma_failed_is_final(ctx, later);
    lemma_run_len(Stage::Failed, ctx, later);
    let run = spec_run(Stage::CallingApi, ctx, evs);
    assert(run == seq![CommandView::Stop] + spec_run(Stage::Failed, ctx, later));
    assert forall|i: int| 0 <= i < later.len() + 1 implies !is_effect(#[trigger] run[i]) by {
        if i > 0 {
            assert(run[i] == spec_run(Stage::Failed, ctx, later)[i - 1]);
        }
    }
}

} // verus!

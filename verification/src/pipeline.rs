//! The command-execution pipeline.
//!
//! Every action runs the same fixed sequence: preview, dry-run gate,
//! confirmation, execution, report.  The pipeline itself only decides;
//! the host performs the blocking work (prompting the user, calling the
//! backend) and feeds the result back in.  Each interaction point is a
//! `Need` value, and the protocol is a small state machine: `start`
//! yields the preview and the first need, `on_answer` consumes the
//! confirmation answer, `on_response` consumes the backend's response
//! and yields the report.
//!
//! A ghost history records which externally visible steps have run, and
//! every finished pipeline's history equals `pipeline_trace`, the
//! specification of the whole run.

use vstd::prelude::*;

use crate::action::ActionDescriptor;
use crate::confirm::interpret_answer;
use crate::confirm::proceeds;
use crate::context::ExecutionContext;
use crate::outcome::BackendView;
use crate::render::preview_lines;
use crate::render::preview_lines_text;
use crate::render::raw_lines_text;
use crate::render::raw_response_lines;
use crate::render::report_lines_text;
use crate::render::report_outcome;

verus! {

/// One externally visible step of a pipeline run.
pub enum StepTag {
    /// The request preview was displayed.
    Preview,
    /// The confirmation prompt was put to the user.
    Prompt,
    /// The backend was invoked.
    Execute,
    /// The raw response representation was displayed.
    RawShow,
    /// The outcome report was displayed.
    Report,
}

/// How a pipeline run ended.
#[derive(Clone, Copy, Debug, PartialEq, Eq, Structural)]
pub enum Terminal {
    /// A dry run stopped before any backend contact.
    DryRunStop,
    /// The user declined the confirmation prompt.
    ConfirmAbort,
    /// The outcome was reported.
    Reported,
}

/// What the host must do next.
#[derive(Clone, Copy, Debug, PartialEq, Eq, Structural)]
pub enum Need {
    /// Show the confirmation prompt, read one line, pass it to
    /// `on_answer`.
    Answer,
    /// Invoke the backend once, pass its response to `on_response`.
    Call,
    /// Nothing: the run is over.
    Done(Terminal),
}

/// Where a pipeline stands between calls.
#[derive(Clone, Copy, Debug, PartialEq, Eq, Structural)]
pub enum Phase {
    AwaitAnswer,
    AwaitCall,
    Finished(Terminal),
}

/// The steps before the dry-run gate: the preview, when verbose.
pub open spec fn preview_steps(c: ExecutionContext) -> Seq<StepTag> {
    if c.verbose {
        seq![StepTag::Preview]
    } else {
        Seq::empty()
    }
}

/// The confirmation step: present exactly when the descriptor mutates
/// and confirmation is not skipped.
pub open spec fn prompt_steps(d: ActionDescriptor, c: ExecutionContext) -> Seq<StepTag> {
    if d.mutating && !c.skip_confirm {
        seq![StepTag::Prompt]
    } else {
        Seq::empty()
    }
}

/// The steps once the backend is reached: the single call, the raw
/// display when verbose and a raw view came back, and the report.
pub open spec fn execute_steps(c: ExecutionContext, has_raw: bool) -> Seq<StepTag> {
    seq![StepTag::Execute] + (if c.verbose && has_raw {
        seq![StepTag::RawShow]
    } else {
        Seq::empty()
    }) + seq![StepTag::Report]
}

/// The externally visible steps of one whole run, in order: preview
/// first, then the dry-run gate, then the confirmation, then execution
/// and report.  `answer` is the confirmation answer (read only when the
/// prompt runs) and `has_raw` says whether the backend handed back a raw
/// view.
pub open spec fn pipeline_trace(
    d: ActionDescriptor,
    c: ExecutionContext,
    answer: Seq<char>,
    has_raw: bool,
) -> Seq<StepTag> {
    if c.dry_run {
        preview_steps(c)
    } else if d.mutating && !c.skip_confirm {
        if proceeds(answer) {
            preview_steps(c) + seq![StepTag::Prompt] + execute_steps(c, has_raw)
        } else {
            preview_steps(c) + seq![StepTag::Prompt]
        }
    } else {
        preview_steps(c) + execute_steps(c, has_raw)
    }
}

/// The lines `on_response` renders: the raw view when asked for and
/// provided, then the uniform report.
pub open spec fn response_lines_text(
    d: ActionDescriptor,
    c: ExecutionContext,
    view: BackendView,
) -> Seq<Seq<char>> {
    (if c.verbose && view.raw is Some {
        raw_lines_text(view.raw->0@)
    } else {
        Seq::empty()
    }) + report_lines_text(d, view.outcome)
}

/// One run of the command-execution pipeline over one descriptor.
pub struct Pipeline {
    pub desc: ActionDescriptor,
    pub ctx: ExecutionContext,
    pub phase: Phase,
    /// The externally visible steps run so far.
    pub hist: Ghost<Seq<StepTag>>,
    /// The confirmation answer consumed, if any.
    pub answer: Ghost<Seq<char>>,
    /// Whether the backend's response carried a raw view.
    pub has_raw: Ghost<bool>,
}

impl Pipeline {
    /// What holds of a pipeline between calls: the history matches the
    /// phase, and a finished history equals the whole trace.
    pub open spec fn inv(self) -> bool {
        &&& self.desc.wf()
        &&& match self.phase {
            Phase::AwaitAnswer => {
                &&& !self.ctx.dry_run
                &&& self.desc.mutating
                &&& !self.ctx.skip_confirm
                &&& self.hist@ == preview_steps(self.ctx)
            },
            Phase::AwaitCall => {
                &&& !self.ctx.dry_run
                &&& (self.desc.mutating && !self.ctx.skip_confirm ==> proceeds(self.answer@))
                &&& self.hist@ == preview_steps(self.ctx) + prompt_steps(self.desc, self.ctx)
            },
            Phase::Finished(t) => {
                &&& self.hist@ == pipeline_trace(self.desc, self.ctx, self.answer@, self.has_raw@)
                &&& (t is DryRunStop <==> self.ctx.dry_run)
                &&& (t is ConfirmAbort <==> !self.ctx.dry_run && self.desc.mutating
                    && !self.ctx.skip_confirm && !proceeds(self.answer@))
            },
        }
    }

    /// Begin a run: render the preview when verbose, stop on a dry run,
    /// and otherwise say whether confirmation or the backend call comes
    /// next.  The confirmation prompt is requested exactly for mutating
    /// descriptors whose context does not skip it.
    pub fn start(desc: ActionDescriptor, ctx: ExecutionContext) -> (r: (Pipeline, Vec<String>, Need))
        requires
            desc.wf(),
        ensures
            r.0.inv(),
            r.0.desc == desc,
            r.0.ctx == ctx,
            r.1.deep_view() == if ctx.verbose {
                preview_lines_text(desc)
            } else {
                Seq::<Seq<char>>::empty()
            },
            (r.2 == Need::Answer) <==> (!ctx.dry_run && desc.mutating && !ctx.skip_confirm),
            (r.2 == Need::Call) <==> (!ctx.dry_run && !(desc.mutating && !ctx.skip_confirm)),
            (r.2 == Need::Done(Terminal::DryRunStop)) <==> ctx.dry_run,
            r.0.phase == (match r.2 {
                Need::Answer => Phase::AwaitAnswer,
                Need::Call => Phase::AwaitCall,
                Need::Done(t) => Phase::Finished(t),
            }),
            r.0.hist@ == preview_steps(ctx),
    {
        let lines: Vec<String> = if ctx.verbose {
            preview_lines(&desc)
        } else {
            Vec::new()
        };
        let ghost h = preview_steps(ctx);
        let (phase, need): (Phase, Need) = if ctx.dry_run {
            (Phase::Finished(Terminal::DryRunStop), Need::Done(Terminal::DryRunStop))
        } else if desc.mutating && !ctx.skip_confirm {
            (Phase::AwaitAnswer, Need::Answer)
        } else {
            (Phase::AwaitCall, Need::Call)
        };
        let p = Pipeline {
            desc,
            ctx,
            phase,
            hist: Ghost(h),
            answer: Ghost(Seq::empty()),
            has_raw: Ghost(false),
        };
        proof {
            if !p.ctx.dry_run && !(p.desc.mutating && !p.ctx.skip_confirm) {
                assert(p.hist@ =~= preview_steps(p.ctx) + prompt_steps(p.desc, p.ctx));
            }
            if p.ctx.verbose {
                assert(lines.deep_view() == preview_lines_text(p.desc));
            } else {
                assert(lines.deep_view() =~= Seq::<Seq<char>>::empty());
            }
        }
        (p, lines, need)
    }

    /// Consume the confirmation answer.  An affirmative answer moves on
    /// to the backend call; anything else ends the run with a neutral
    /// abort and no backend contact.
    pub fn on_answer(&mut self, answer: &str) -> (need: Need)
        requires
            old(self).inv(),
            old(self).phase is AwaitAnswer,
        ensures
            final(self).inv(),
            final(self).desc == old(self).desc,
            final(self).ctx == old(self).ctx,
            final(self).answer@ == answer@,
            final(self).hist@ == old(self).hist@ + seq![StepTag::Prompt],
            (need == Need::Call) <==> proceeds(answer@),
            (need == Need::Done(Terminal::ConfirmAbort)) <==> !proceeds(answer@),
            final(self).phase == (if proceeds(answer@) {
                Phase::AwaitCall
            } else {
                Phase::Finished(Terminal::ConfirmAbort)
            }),
    {
        let ok = interpret_answer(answer);
        self.answer = Ghost(answer@);
        self.hist = Ghost(self.hist@ + seq![StepTag::Prompt]);
        if ok {
            self.phase = Phase::AwaitCall;
            assert(self.hist@ =~= preview_steps(self.ctx) + prompt_steps(self.desc, self.ctx));
            Need::Call
        } else {
            self.phase = Phase::Finished(Terminal::ConfirmAbort);
            assert(self.hist@ =~= pipeline_trace(self.desc, self.ctx, self.answer@, self.has_raw@));
            Need::Done(Terminal::ConfirmAbort)
        }
    }

    /// Consume the backend's response to the single call of this run:
    /// render the raw view when verbose and provided, then the report.
    /// Exactly one of the success and failure banners appears, and the
    /// run is over.
    pub fn on_response(&mut self, view: BackendView) -> (r: (Vec<String>, Need))
        requires
            old(self).inv(),
            old(self).phase is AwaitCall,
        ensures
            final(self).inv(),
            final(self).desc == old(self).desc,
            final(self).ctx == old(self).ctx,
            final(self).phase == Phase::Finished(Terminal::Reported),
            final(self).hist@ == old(self).hist@ + execute_steps(old(self).ctx, view.raw is Some),
            r.1 == Need::Done(Terminal::Reported),
            r.0.deep_view() == response_lines_text(old(self).desc, old(self).ctx, view),
    {
        let mut lines: Vec<String> = Vec::new();
        if self.ctx.verbose {
            match &view.raw {
                Some(raw) => {
                    lines = raw_response_lines(raw.as_str());
                },
                None => {},
            }
        }
        let mut rep = report_outcome(&self.desc, &view.outcome);
        let ghost head = lines.deep_view();
        lines.append(&mut rep);
        self.has_raw = Ghost(view.raw is Some);
        self.hist = Ghost(self.hist@ + execute_steps(self.ctx, view.raw is Some));
        self.phase = Phase::Finished(Terminal::Reported);
        proof {
            assert(lines.deep_view() =~= head + report_lines_text(self.desc, view.outcome));
            assert(lines.deep_view() =~= response_lines_text(self.desc, self.ctx, view));
            assert(self.hist@ =~= pipeline_trace(self.desc, self.ctx, self.answer@, self.has_raw@));
        }
        (lines, Need::Done(Terminal::Reported))
    }
}

/// A descriptor that does not mutate is never confirmed: no run over it
/// contains the prompt step, whatever the context and the answer.
pub proof fn lemma_readonly_never_prompts(
    d: ActionDescriptor,
    c: ExecutionContext,
    answer: Seq<char>,
    has_raw: bool,
)
    requires
        !d.mutating,
    ensures
        !pipeline_trace(d, c, answer, has_raw).contains(StepTag::Prompt),
{
    let t = pipeline_trace(d, c, answer, has_raw);
    if c.dry_run {
        assert(t == preview_steps(c));
    } else {
        assert(t == preview_steps(c) + execute_steps(c, has_raw));
    }
    assert forall|i: int| 0 <= i < t.len() implies t[i] != StepTag::Prompt by {}
}

/// A dry run never contacts the backend, and — when verbose — the
/// preview still runs.
pub proof fn lemma_dry_run_never_executes(
    d: ActionDescriptor,
    c: ExecutionContext,
    answer: Seq<char>,
    has_raw: bool,
)
    requires
        c.dry_run,
    ensures
        !pipeline_trace(d, c, answer, has_raw).contains(StepTag::Execute),
        c.verbose ==> pipeline_trace(d, c, answer, has_raw).contains(StepTag::Preview),
{
    let t = pipeline_trace(d, c, answer, has_raw);
    assert(t == preview_steps(c));
    if c.verbose {
        assert(t.contains(StepTag::Preview)) by {
            assert(t[0] == StepTag::Preview);
        }
    }
    assert forall|i: int| 0 <= i < t.len() implies t[i] != StepTag::Execute by {}
}

/// With verbosity on and a mutating descriptor whose confirmation is
/// not skipped, the run is exactly: preview, then prompt, then — only
/// on an affirmative answer — execute, raw display, report.  The
/// preview comes strictly before the prompt, and the prompt strictly
/// before any backend contact.
pub proof fn lemma_preview_prompt_execute_order(
    d: ActionDescriptor,
    c: ExecutionContext,
    answer: Seq<char>,
    has_raw: bool,
)
    requires
        c.verbose,
        d.mutating,
        !c.dry_run,
        !c.skip_confirm,
    ensures
        proceeds(answer) ==> pipeline_trace(d, c, answer, has_raw) == seq![
            StepTag::Preview,
            StepTag::Prompt,
            StepTag::Execute,
        ] + (if has_raw {
            seq![StepTag::RawShow]
        } else {
            Seq::empty()
        }) + seq![StepTag::Report],
        !proceeds(answer) ==> pipeline_trace(d, c, answer, has_raw) == seq![
            StepTag::Preview,
            StepTag::Prompt,
        ],
{
    let t = pipeline_trace(d, c, answer, has_raw);
    if proceeds(answer) {
        assert(t =~= seq![StepTag::Preview, StepTag::Prompt, StepTag::Execute] + (if has_raw {
            seq![StepTag::RawShow]
        } else {
            Seq::empty()
        }) + seq![StepTag::Report]);
    } else {
        assert(t =~= seq![StepTag::Preview, StepTag::Prompt]);
    }
}

/// A declined confirmation never reaches the backend: when the prompt
/// gates a run and the answer does not proceed, no step executes.
pub proof fn lemma_abort_never_executes(
    d: ActionDescriptor,
    c: ExecutionContext,
    answer: Seq<char>,
    has_raw: bool,
)
    requires
        d.mutating,
        !c.skip_confirm,
        !proceeds(answer),
    ensures
        !pipeline_trace(d, c, answer, has_raw).contains(StepTag::Execute),
{
    let t = pipeline_trace(d, c, answer, has_raw);
    if c.dry_run {
        assert(t == preview_steps(c));
    } else {
        assert(t == preview_steps(c) + seq![StepTag::Prompt]);
    }
    assert forall|i: int| 0 <= i < t.len() implies t[i] != StepTag::Execute by {}
}

} // verus!

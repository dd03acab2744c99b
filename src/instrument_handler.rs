//! A wrapper that runs each phase of an inner handler inside a child span of the
//! span attached to the request, and puts the parent back afterwards.
use vstd::prelude::*;

verus! {

/// Wraps an inner handler with a tracer, so that each of the inner handler's
/// phases runs inside a span of its own.
///
/// The request's span is expected to have been attached by the request tracing
/// before this handler runs; where none is attached, the inner handler runs as
/// it would unwrapped.
#[derive(Clone, Debug)]
pub struct InstrumentHandler<H, T> {
    handler: H,
    tracer: T,
}

impl<H, T> InstrumentHandler<H, T> {
    /// The wrapped handler.
    pub closed spec fn spec_handler(&self) -> H {
        self.handler
    }

    /// The tracer that starts the child spans.
    pub closed spec fn spec_tracer(&self) -> T {
        self.tracer
    }

    /// Wraps `handler`, starting its spans with `tracer`.
    pub fn new(handler: H, tracer: T) -> (r: Self)
        ensures
            r.spec_handler() == handler,
            r.spec_tracer() == tracer,
    {
        InstrumentHandler { handler, tracer }
    }

    /// The wrapped handler.
    pub fn handler(&self) -> (r: &H)
        ensures
            *r == self.spec_handler(),
    {
        &self.handler
    }

    /// The tracer that starts the child spans.
    pub fn tracer(&self) -> (r: &T)
        ensures
            *r == self.spec_tracer(),
    {
        &self.tracer
    }

    /// The wrapped handler and the tracer.
    pub fn into_parts(self) -> (r: (H, T))
        ensures
            r == (self.spec_handler(), self.spec_tracer()),
    {
        (self.handler, self.tracer)
    }
}

/// Wraps `handler`, starting its spans with `tracer`.
pub fn instrument_handler<H, T>(handler: H, tracer: T) -> (r: InstrumentHandler<H, T>)
    ensures
        r.spec_handler() == handler,
        r.spec_tracer() == tracer,
{
    InstrumentHandler::new(handler, tracer)
}

/// A phase of a handler's life.
#[derive(Clone, Copy, Debug, PartialEq, Eq, Structural)]
pub enum Phase {
    Init,
    Run,
    BeforeSend,
    Upgrade,
}

/// The name of a phase.
pub open spec fn phase_text(p: Phase) -> Seq<char> {
    match p {
        Phase::Init => "init"@,
        Phase::Run => "run"@,
        Phase::BeforeSend => "before_send"@,
        Phase::Upgrade => "upgrade"@,
    }
}

/// The name of the span of a phase of the handler named `handler_name`:
/// `<handler_name>::<phase>`.
pub open spec fn child_span_name_of(handler_name: Seq<char>, p: Phase) -> Seq<char> {
    handler_name + "::"@ + phase_text(p)
}

/// The name of a phase.
pub fn phase_name(p: Phase) -> (r: &'static str)
    ensures
        r@ == phase_text(p),
{
    match p {
        Phase::Init => "init",
        Phase::Run => "run",
        Phase::BeforeSend => "before_send",
        Phase::Upgrade => "upgrade",
    }
}

/// The name of the span of a phase of the handler named `handler_name`.
pub fn child_span_name(handler_name: &str, p: Phase) -> (r: String)
    ensures
        r@ == child_span_name_of(handler_name@, p),
{
    let mut name = String::from_str(handler_name);
    name.append("::");
    name.append(phase_name(p));
    name
}

/// What a wrapped phase does with the context attached to the request.
#[derive(Clone, Debug)]
pub enum PhaseScope<C> {
    /// No context was attached: the inner phase runs untraced.
    PassThrough,
    /// The inner phase runs with a child of `parent` attached, and `parent` is
    /// put back afterwards.
    Nested { parent: C },
}

/// The scope of a phase that finds `slot` attached to the request.
pub open spec fn scope_of<C>(slot: Option<C>) -> PhaseScope<C> {
    match slot {
        Some(p) => PhaseScope::Nested { parent: p },
        None => PhaseScope::PassThrough,
    }
}

/// What is attached to the request while the inner phase runs.
pub open spec fn inner_slot<C>(scope: PhaseScope<C>, child: C) -> Option<C> {
    match scope {
        PhaseScope::Nested { .. } => Some(child),
        PhaseScope::PassThrough => None,
    }
}

/// What is attached to the request once the phase returns, where the inner
/// phase left `after_inner` attached.
pub open spec fn closed_slot<C>(scope: PhaseScope<C>, after_inner: Option<C>) -> Option<C> {
    match scope {
        PhaseScope::Nested { parent } => Some(parent),
        PhaseScope::PassThrough => after_inner,
    }
}

/// Opens the scope of a phase: takes the attached context out of the request.
pub fn open_scope<C>(slot: &mut Option<C>) -> (r: PhaseScope<C>)
    ensures
        r == scope_of(*old(slot)),
        *final(slot) is None,
{
    match slot.take() {
        Some(p) => PhaseScope::Nested { parent: p },
        None => PhaseScope::PassThrough,
    }
}

/// Attaches the child context for the inner phase, in a nested scope.
pub fn attach_child<C>(slot: &mut Option<C>, scope: &PhaseScope<C>, child: C)
    ensures
        *final(slot) == match *scope {
            PhaseScope::Nested { .. } => Some(child),
            PhaseScope::PassThrough => *old(slot),
        },
{
    match scope {
        PhaseScope::Nested { .. } => {
            *slot = Some(child);
        },
        PhaseScope::PassThrough => {},
    }
}

/// Closes the scope of a phase once the inner phase has returned: a nested
/// scope puts its parent back, whatever the inner phase left attached.
pub fn close_scope<C>(slot: &mut Option<C>, scope: PhaseScope<C>)
    ensures
        *final(slot) == closed_slot(scope, *old(slot)),
{
    match scope {
        PhaseScope::Nested { parent } => {
            *slot = Some(parent);
        },
        PhaseScope::PassThrough => {},
    }
}

/// A wrapped phase is stack-like: where a context is attached, the inner phase
/// sees the child as its parent, and once the phase returns the context it found
/// is attached again, whatever the inner phase did (further wrapping included);
/// where none is attached, the inner phase runs with nothing attached and what
/// it leaves stands, as without the wrapper.
pub proof fn wrapped_phase_is_stack_like<C>(before: Option<C>, child: C, after_inner: Option<C>)
    ensures
        before is Some ==> inner_slot(scope_of(before), child) == Some(child),
        before is Some ==> closed_slot(scope_of(before), after_inner) == before,
        before is None ==> inner_slot(scope_of(before), child) == before,
        before is None ==> closed_slot(scope_of(before), after_inner) == after_inner,
{
}

/// What is attached once the phases of nested wrappers have all returned, where
/// the outermost finds `before`, the wrappers' child contexts are `children` from
/// the outside in, and the innermost handler leaves `after_innermost`.
pub open spec fn nested_closed_slot<C>(
    before: Option<C>,
    children: Seq<C>,
    after_innermost: Option<C>,
) -> Option<C>
    decreases children.len(),
{
    if children.len() == 0 {
        after_innermost
    } else {
        closed_slot(
            scope_of(before),
            nested_closed_slot(
                inner_slot(scope_of(before), children[0]),
                children.drop_first(),
                after_innermost,
            ),
        )
    }
}

/// What the innermost handler finds attached under nested wrappers.
pub open spec fn nested_inner_slot<C>(before: Option<C>, children: Seq<C>) -> Option<C>
    decreases children.len(),
{
    if children.len() == 0 {
        before
    } else {
        nested_inner_slot(inner_slot(scope_of(before), children[0]), children.drop_first())
    }
}

/// Wrapping a wrapped handler nests without special cases: under one wrapper or
/// more, the innermost handler runs inside the innermost child, and once all the
/// phases have returned the context that the outermost found is attached again;
/// with no context attached, the wrappers change nothing.
pub proof fn nested_wrappers_are_stack_like<C>(
    before: Option<C>,
    children: Seq<C>,
    after_innermost: Option<C>,
)
    ensures
        before is Some && children.len() > 0 ==> nested_inner_slot(before, children) == Some(
            children.last(),
        ),
        before is Some && children.len() > 0 ==> nested_closed_slot(
            before,
            children,
            after_innermost,
        ) == before,
        before is None ==> nested_inner_slot(before, children) == before,
        before is None ==> nested_closed_slot(before, children, after_innermost)
            == after_innermost,
    decreases children.len(),
{
    if children.len() > 0 {
        let rest = children.drop_first();
        nested_wrappers_are_stack_like(
            inner_slot(scope_of(before), children[0]),
            rest,
            after_innermost,
        );
        if rest.len() > 0 {
            assert(rest.last() == children.last());
        }
    }
}

} // verus!

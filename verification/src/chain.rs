//! The handler chain: plugins in the order of their registration, and the
//! dispatch of one message to them.

use crate::handler::{
    verdict, verdict_of, HandleResult, MessageContext, MessageHandler, Outbound, Outcome,
};
use vstd::prelude::*;

verus! {

/// `outcomes` is what a chain of `plugins` can yield on `ctx`: the plugins
/// were asked in order from the first, each gave an outcome that it may give,
/// everyone before the last one asked let the message pass, and the asking
/// ended at a `Stop` or with the chain.
pub open spec fn is_run_of<H: MessageHandler>(
    plugins: Seq<&H>,
    ctx: MessageContext,
    outcomes: Seq<Outcome>,
) -> bool {
    &&& outcomes.len() <= plugins.len()
    &&& forall|i: int|
        0 <= i < outcomes.len() ==> plugins[i].may_answer(ctx, #[trigger] outcomes[i])
    &&& forall|i: int|
        0 <= i < outcomes.len() - 1 ==> verdict_of(#[trigger] outcomes[i]) is Continue
    &&& outcomes.len() < plugins.len() ==> outcomes.len() > 0 && verdict_of(outcomes.last())
        is Stop
}

/// Whether a plugin took the message for itself: the last outcome is a `Stop`.
pub open spec fn is_handled(outcomes: Seq<Outcome>) -> bool {
    outcomes.len() > 0 && verdict_of(outcomes.last()) is Stop
}

/// The messages that an outcome asks to send: those of the reaction, and none
/// for a failure.
pub open spec fn replies_of(outcome: Outcome) -> Seq<Outbound> {
    match outcome {
        Ok(reaction) => reaction.replies@,
        Err(_) => Seq::empty(),
    }
}

/// The messages that `outcomes` ask to send, those of an earlier outcome
/// before those of a later one.
pub open spec fn all_replies(outcomes: Seq<Outcome>) -> Seq<Outbound>
    decreases outcomes.len(),
{
    if outcomes.len() == 0 {
        Seq::empty()
    } else {
        all_replies(outcomes.drop_last()) + replies_of(outcomes.last())
    }
}

/// What the dispatch of one message came to: the outcome of each plugin that
/// saw the message, in the order in which they saw it.
#[derive(Debug)]
pub struct DispatchReport {
    pub outcomes: Vec<Outcome>,
}

impl DispatchReport {
    /// The report of a message that no plugin saw.
    pub fn empty() -> (report: DispatchReport)
        ensures
            report.outcomes@.len() == 0,
    {
        DispatchReport { outcomes: Vec::new() }
    }

    /// How many plugins saw the message.
    pub fn invoked(&self) -> (count: usize)
        ensures
            count == self.outcomes@.len(),
    {
        self.outcomes.len()
    }

    /// The messages to send, in the order in which they are to go out: plugin
    /// by plugin, and for each plugin in the order it gave them.
    pub fn replies(&self) -> (out: Vec<Outbound>)
        ensures
            out@ == all_replies(self.outcomes@),
    {
        let mut out: Vec<Outbound> = Vec::new();
        let mut i: usize = 0;
        while i < self.outcomes.len()
            invariant
                i <= self.outcomes@.len(),
                out@ == all_replies(self.outcomes@.take(i as int)),
            decreases self.outcomes@.len() - i,
        {
            let ghost before = out@;
            match &self.outcomes[i] {
                Ok(reaction) => {
                    let mut j: usize = 0;
                    while j < reaction.replies.len()
                        invariant
                            j <= reaction.replies@.len(),
                            out@ == before + reaction.replies@.take(j as int),
                        decreases reaction.replies@.len() - j,
                    {
                        out.push(reaction.replies[j].clone());
                        assert(reaction.replies@.take(j + 1) == reaction.replies@.take(
                            j as int,
                        ).push(reaction.replies@[j as int]));
                        j += 1;
                    }
                    assert(reaction.replies@.take(j as int) == reaction.replies@);
                },
                Err(_) => {
                    assert(before + Seq::<Outbound>::empty() == before);
                },
            }
            assert(self.outcomes@.take(i + 1).drop_last() == self.outcomes@.take(i as int));
            i += 1;
        }
        assert(self.outcomes@.take(i as int) == self.outcomes@);
        out
    }

    /// Whether a plugin took the message for itself. A message that every
    /// plugin let pass is unhandled, which is no error.
    pub fn handled(&self) -> (handled: bool)
        ensures
            handled == is_handled(self.outcomes@),
    {
        let n = self.outcomes.len();
        if n == 0 {
            false
        } else {
            match verdict(&self.outcomes[n - 1]) {
                HandleResult::Stop => true,
                HandleResult::Continue => false,
            }
        }
    }
}

/// The plugins of a bot, in the order of their registration.
pub struct HandlerChain<'a, H: MessageHandler> {
    handlers: Vec<&'a H>,
}

impl<'a, H: MessageHandler> View for HandlerChain<'a, H> {
    type V = Seq<&'a H>;

    closed spec fn view(&self) -> Seq<&'a H> {
        self.handlers@
    }
}

impl<'a, H: MessageHandler> Clone for HandlerChain<'a, H> {
    /// A chain of the same plugins in the same order.
    fn clone(&self) -> (chain: Self)
        ensures
            chain@ == self@,
    {
        let mut handlers: Vec<&'a H> = Vec::new();
        let mut i: usize = 0;
        while i < self.handlers.len()
            invariant
                i <= self.handlers@.len(),
                handlers@ == self.handlers@.take(i as int),
            decreases self.handlers@.len() - i,
        {
            handlers.push(self.handlers[i]);
            i += 1;
        }
        assert(self.handlers@.take(i as int) == self.handlers@);
        HandlerChain { handlers }
    }
}

impl<'a, H: MessageHandler> HandlerChain<'a, H> {
    /// A chain without plugins.
    pub fn new() -> (chain: Self)
        ensures
            chain@ == Seq::<&'a H>::empty(),
    {
        HandlerChain { handlers: Vec::new() }
    }

    /// The number of registered plugins.
    pub fn len(&self) -> (n: usize)
        ensures
            n == self@.len(),
    {
        self.handlers.len()
    }

    /// Appends `plugin` to the chain. Nothing is reordered and nothing is
    /// left out: a plugin registered twice stands in the chain twice.
    pub fn register(&mut self, plugin: &'a H)
        ensures
            final(self)@ == old(self)@.push(plugin),
    {
        self.handlers.push(plugin);
    }

    /// Hands `ctx` to the plugins in the order of their registration, up to
    /// and including the first whose verdict is `Stop`. A plugin that fails
    /// is passed over as if it had said `Continue`.
    pub fn dispatch(&self, ctx: &MessageContext) -> (report: DispatchReport)
        ensures
            is_run_of(self@, *ctx, report.outcomes@),
    {
        let mut outcomes: Vec<Outcome> = Vec::new();
        let mut i: usize = 0;
        let mut stopped = false;
        while i < self.handlers.len() && !stopped
            invariant
                i <= self.handlers@.len(),
                outcomes@.len() == i,
                forall|j: int|
                    0 <= j < i ==> self.handlers@[j].may_answer(*ctx, #[trigger] outcomes@[j]),
                forall|j: int|
                    0 <= j < i - 1 ==> verdict_of(#[trigger] outcomes@[j]) is Continue,
                stopped ==> i > 0 && verdict_of(outcomes@.last()) is Stop,
                !stopped && i > 0 ==> verdict_of(outcomes@.last()) is Continue,
            decreases self.handlers@.len() - i, if stopped { 0int } else { 1int },
        {
            let outcome = self.handlers[i].handle_message(ctx);
            match verdict(&outcome) {
                HandleResult::Continue => {},
                HandleResult::Stop => {
                    stopped = true;
                },
            }
            outcomes.push(outcome);
            i += 1;
        }
        DispatchReport { outcomes }
    }
}

/// In a run, a `Stop` is the last thing that happens: no plugin after the one
/// that said `Stop` sees the message.
pub proof fn lemma_stop_ends_run<H: MessageHandler>(
    plugins: Seq<&H>,
    ctx: MessageContext,
    outcomes: Seq<Outcome>,
    k: int,
)
    requires
        is_run_of(plugins, ctx, outcomes),
        0 <= k < outcomes.len(),
        verdict_of(outcomes[k]) is Stop,
    ensures
        k == outcomes.len() - 1,
        is_handled(outcomes),
{
}

/// A run in which no plugin says `Stop` takes the message through the whole
/// chain and leaves it unhandled.
pub proof fn lemma_unhandled_run_is_whole<H: MessageHandler>(
    plugins: Seq<&H>,
    ctx: MessageContext,
    outcomes: Seq<Outcome>,
)
    requires
        is_run_of(plugins, ctx, outcomes),
        forall|i: int| 0 <= i < outcomes.len() ==> verdict_of(#[trigger] outcomes[i]) is Continue,
    ensures
        outcomes.len() == plugins.len(),
        !is_handled(outcomes),
{
}

} // verus!

//! The chain of plugins that answers the queries of one listener.
//!
//! The chain is built back to front, so that each plugin's pool can be given
//! the pool of the plugin after it. Once built it is only ever entered at its
//! head: whether a query goes further down is each plugin's own decision.

pub mod config;
pub mod pool;

use crate::dns::{
    bytes_or_text, check_decodes, complaint, decode_failure, decoded_wire, known_wire,
    servfail_reply, servfail_wire,
};
use crate::plugins::config::Plugin;
use crate::plugins::pool::CallOutcome;
use std::sync::Arc;
use vstd::prelude::*;

verus! {

/// The failure that a plugin reports: an error number, or 1 where none
/// applies, and a message.
#[derive(Clone, Debug, PartialEq, Eq)]
pub struct PluginError {
    pub code: u32,
    pub msg: String,
}

/// A plugin's failure, with the message as a sequence.
pub struct PluginErrorView {
    pub code: u32,
    pub msg: Seq<char>,
}

impl View for PluginError {
    type V = PluginErrorView;

    open spec fn view(&self) -> PluginErrorView {
        PluginErrorView { code: self.code, msg: self.msg@ }
    }
}

/// Why a query got no answer from the chain.
#[derive(Debug, PartialEq, Eq)]
pub enum Error<E> {
    /// The sandbox stopped the head plugin.
    PluginRun(E),
    /// The codec refused the plugin's answer, or could not encode the failure
    /// reply; the text is its complaint.
    Proto(String),
    /// No instance of the head plugin could be had from its pool.
    PluginPool(E),
}

/// Why a query got no answer, with text as sequences.
pub enum ErrorView<E> {
    PluginRun(E),
    Proto(Seq<char>),
    PluginPool(E),
}

impl<E> View for Error<E> {
    type V = ErrorView<E>;

    open spec fn view(&self) -> ErrorView<E> {
        match self {
            Error::PluginRun(err) => ErrorView::PluginRun(*err),
            Error::Proto(text) => ErrorView::Proto(text@),
            Error::PluginPool(err) => ErrorView::PluginPool(*err),
        }
    }
}

/// An answer of the chain, with bytes and text as sequences.
pub open spec fn answer_view<E>(answer: Result<Vec<u8>, Error<E>>) -> Result<Seq<u8>, ErrorView<E>> {
    match answer {
        Ok(bytes) => Ok(bytes@),
        Err(err) => Err(err@),
    }
}

/// The chain's answer where the head plugin returned `data`: the same bytes,
/// if the codec decodes them, and else the codec's complaint.
pub open spec fn spec_plugin_answered<E>(data: Seq<u8>, failure: Option<Seq<char>>) -> Result<
    Seq<u8>,
    ErrorView<E>,
> {
    match failure {
        None => Ok(data),
        Some(text) => Err(ErrorView::Proto(text)),
    }
}

/// The chain's answer where the head plugin reported a failure: the failure
/// reply to the request, or the codec's complaint where there is none.
pub open spec fn spec_plugin_failed<E>(servfail: Result<Seq<u8>, Seq<char>>) -> Result<
    Seq<u8>,
    ErrorView<E>,
> {
    match servfail {
        Ok(reply) => Ok(reply),
        Err(text) => Err(ErrorView::Proto(text)),
    }
}

/// The chain's answer to the request `dns_packet`, from how the run of the
/// head plugin ended.
pub open spec fn spec_handle_dns<E>(
    dns_packet: Seq<u8>,
    outcome: CallOutcome<Vec<u8>, E>,
) -> Result<Seq<u8>, ErrorView<E>> {
    match outcome {
        CallOutcome::PoolFailed(err) => Err(ErrorView::PluginPool(err)),
        CallOutcome::Trapped(err) => Err(ErrorView::PluginRun(err)),
        CallOutcome::Returned(Ok(data)) => spec_plugin_answered(data@, decode_failure(data@)),
        CallOutcome::Returned(Err(_)) => spec_plugin_failed(servfail_wire(dns_packet)),
    }
}

/// The chain's answer where the head plugin returned `data` and the codec's
/// check of it gave `checked`.
pub fn plugin_answered<E>(data: Vec<u8>, checked: Result<(), String>) -> (answer: Result<
    Vec<u8>,
    Error<E>,
>)
    ensures
        answer_view(answer) == spec_plugin_answered::<E>(data@, complaint(checked)),
{
    match checked {
        Ok(()) => Ok(data),
        Err(text) => Err(Error::Proto(text)),
    }
}

/// The chain's answer where the head plugin reported a failure and the codec
/// gave `servfail` as the failure reply to the request.
pub fn plugin_failed<E>(servfail: Result<Vec<u8>, String>) -> (answer: Result<Vec<u8>, Error<E>>)
    ensures
        answer_view(answer) == spec_plugin_failed::<E>(bytes_or_text(servfail)),
{
    match servfail {
        Ok(reply) => Ok(reply),
        Err(text) => Err(Error::Proto(text)),
    }
}

/// `Arc::clone`: another handle of the same value.
#[verifier::external_body]
fn share<S>(handle: &Arc<S>) -> (shared: Arc<S>)
    ensures
        shared == *handle,
{
    Arc::clone(handle)
}

/// A chain that is ready to answer: the pool of its head plugin. Every other
/// pool is reached from the one before it.
#[derive(Debug, PartialEq, Eq)]
pub struct PluginChain<P> {
    plugin: P,
}

impl<P> PluginChain<P> {
    /// The pool of the head plugin.
    pub closed spec fn spec_plugin(&self) -> P {
        self.plugin
    }

    /// The pool of the head plugin, from which the instance for a query is
    /// taken.
    pub fn plugin(&self) -> (pool: &P)
        ensures
            *pool == self.spec_plugin(),
    {
        &self.plugin
    }

    /// Starts the building of a chain for the given plugins, the head first.
    /// Every pool of the chain is to hold `plugin_store_map`, the handle of
    /// the one store that the chain's plugins share.
    pub fn new<C, S, E>(configs: Vec<Plugin<C>>, plugin_store_map: Arc<S>) -> (builder:
        ChainBuilder<C, P, S, E>)
        ensures
            builder.wf(),
            builder@ == BuilderView::<C, P, S, E>::start(configs@, plugin_store_map),
    {
        ChainBuilder::new(configs, plugin_store_map)
    }

    /// The answer to the request `dns_packet`, from how the run of the head
    /// plugin on it ended.
    ///
    /// What the plugin returned is the answer, provided that the codec
    /// decodes it. A failure that the plugin reported is answered with the
    /// failure reply to the request. A query that never reached the plugin,
    /// or during which the sandbox stopped it, has no answer. What is said of
    /// the failure reply is said where no record of the request holds two or
    /// more options.
    pub fn handle_dns<E>(&self, dns_packet: &Vec<u8>, outcome: CallOutcome<Vec<u8>, E>) -> (answer:
        Result<Vec<u8>, Error<E>>)
        ensures
            !(outcome matches CallOutcome::Returned(Err(_))) || known_wire(dns_packet@)
                || decoded_wire(dns_packet@) is Err ==> answer_view(answer) == spec_handle_dns(
                dns_packet@,
                outcome,
            ),
            outcome is Returned ==> !(answer matches Err(Error::PluginRun(_))) && !(
            answer matches Err(Error::PluginPool(_))),
    {
        match outcome {
            CallOutcome::PoolFailed(err) => Err(Error::PluginPool(err)),
            CallOutcome::Trapped(err) => Err(Error::PluginRun(err)),
            CallOutcome::Returned(Ok(data)) => {
                let checked = check_decodes(&data);
                plugin_answered(data, checked)
            },
            CallOutcome::Returned(Err(_)) => plugin_failed(servfail_reply(dns_packet)),
        }
    }
}

/// Why a stage of the building of a chain failed.
#[derive(Debug, PartialEq, Eq)]
pub enum StageError<E> {
    /// The plugin's settings could not be put into text.
    Config(E),
    /// The plugin's module could not be read.
    Load(E),
    /// The plugin's pool could not be put to use.
    Invalid(crate::plugins::pool::ValidateError<E>),
}

/// Why no chain was built.
#[derive(Debug, PartialEq, Eq)]
pub enum BuildError<E> {
    /// This stage failed.
    Stage(StageError<E>),
    /// There is no plugin to build a chain of, or not every plugin's stage
    /// has been reported.
    Unfinished,
}

/// What one stage of the building works on: the plugin whose pool is to be
/// made, the pool of the plugin after it, which the new pool is to hand
/// queries on to, and the handle of the chain's store, which the new pool is
/// to hold. The last plugin of the chain has no pool after it.
#[derive(Debug, PartialEq, Eq)]
pub struct Stage<C, P, S> {
    pub plugin: Plugin<C>,
    pub next_plugin: Option<P>,
    pub plugin_store_map: Arc<S>,
}

/// The state of the building of a chain.
pub struct BuilderView<C, P, S, E> {
    /// The plugins of the chain, the head first.
    pub plugins: Seq<Plugin<C>>,
    /// The handle of the one store that the chain's plugins share.
    pub store: Arc<S>,
    /// The pools that the stages have made so far, in the order in which they
    /// were made: the pool of the last plugin first.
    pub pools: Seq<P>,
    /// Whether a stage has been handed out and not yet reported.
    pub staged: bool,
    /// The failure of the stage that failed, if one did.
    pub failure: Option<StageError<E>>,
}

impl<C, P, S, E> BuilderView<C, P, S, E> {
    /// How many stages have succeeded.
    pub open spec fn built(self) -> nat {
        self.pools.len()
    }

    /// What holds of every state that a building goes through: a stage that
    /// is out or has succeeded is the stage of a plugin, and nothing is out
    /// after a failure.
    pub open spec fn valid(self) -> bool {
        &&& self.built() + (if self.staged { 1int } else { 0int }) <= self.plugins.len()
        &&& self.failure is Some ==> !self.staged
    }

    /// The state before the first stage.
    pub open spec fn start(plugins: Seq<Plugin<C>>, store: Arc<S>) -> Self {
        BuilderView { plugins, store, pools: Seq::empty(), staged: false, failure: None }
    }

    /// Whether a stage is there to hand out: none is out, none has failed,
    /// and a plugin is left.
    pub open spec fn can_stage(self) -> bool {
        !self.staged && self.failure is None && self.built() < self.plugins.len()
    }

    /// The place in the chain of the plugin that the next stage is for: the
    /// stages run from the last plugin to the head.
    pub open spec fn next_index(self) -> int {
        self.plugins.len() - 1 - self.built()
    }

    /// The pool that was made for the plugin at place `index` of the chain.
    pub open spec fn pool_of(self, index: int) -> P
        recommends
            self.plugins.len() - self.built() <= index < self.plugins.len(),
    {
        self.pools[self.plugins.len() - 1 - index]
    }

    /// The pool that the plugin at place `index` hands queries on to: the
    /// pool of the plugin after it, and none for the last plugin.
    pub open spec fn next_of(self, index: int) -> Option<P> {
        if index == self.plugins.len() - 1 {
            None
        } else {
            Some(self.pool_of(index + 1))
        }
    }

    /// Whether every plugin's stage has succeeded.
    pub open spec fn complete(self) -> bool {
        &&& self.plugins.len() > 0
        &&& self.built() == self.plugins.len()
        &&& !self.staged
        &&& self.failure is None
    }

    /// The state after a stage has been handed out.
    pub open spec fn after_stage(self) -> Self {
        BuilderView { staged: true, ..self }
    }

    /// The state after the stage that was out has been reported.
    pub open spec fn after_report(self, outcome: Result<P, StageError<E>>) -> Self {
        if !self.staged {
            self
        } else {
            match outcome {
                Ok(pool) => BuilderView { staged: false, pools: self.pools.push(pool), ..self },
                Err(err) => BuilderView { staged: false, failure: Some(err), ..self },
            }
        }
    }

    /// What the building ends in: the pool of the head plugin where every
    /// stage has succeeded, the failure where one has failed.
    pub open spec fn outcome(self) -> Result<P, BuildError<E>> {
        if self.failure is Some {
            Err(BuildError::Stage(self.failure->0))
        } else if self.complete() {
            Ok(self.pool_of(0))
        } else {
            Err(BuildError::Unfinished)
        }
    }
}

/// The building of a chain, stage by stage.
///
/// `next_stage` hands out the plugin to make a pool for, the last plugin
/// first; `stage_done` takes the pool, or the failure; `finish` gives the
/// chain once the head's pool is made. After a failure no further stage is
/// handed out, and `finish` reports the failure.
pub struct ChainBuilder<C, P, S, E> {
    pending: Vec<Plugin<C>>,
    plugin_store_map: Arc<S>,
    downstream: Option<P>,
    failure: Option<StageError<E>>,
    staged: bool,
    plugins: Ghost<Seq<Plugin<C>>>,
    pools: Ghost<Seq<P>>,
}

impl<C, P, S, E> View for ChainBuilder<C, P, S, E> {
    type V = BuilderView<C, P, S, E>;

    closed spec fn view(&self) -> BuilderView<C, P, S, E> {
        BuilderView {
            plugins: self.plugins@,
            store: self.plugin_store_map,
            pools: self.pools@,
            staged: self.staged,
            failure: self.failure,
        }
    }
}

impl<C, P, S, E> ChainBuilder<C, P, S, E> {
    /// What holds of every builder: its state is valid, the plugins that
    /// still wait for their stage are the first of the chain, and the pool
    /// at hand between two stages is the one that the stage before made.
    pub closed spec fn wf(&self) -> bool {
        &&& self@.valid()
        &&& self.failure is None ==> self.pending@ == self.plugins@.subrange(
            0,
            self.plugins@.len() - self.pools@.len() - (if self.staged { 1int } else { 0int }),
        )
        &&& self.downstream == (if !self.staged && self.failure is None && self.pools@.len() > 0 {
            Some(self.pools@.last())
        } else {
            None
        })
    }

    /// The state of a well-formed builder is valid.
    pub proof fn lemma_wf_valid(&self)
        requires
            self.wf(),
        ensures
            self@.valid(),
    {
    }

    /// The building of a chain for the given plugins, before its first stage.
    /// Every stage is to be given `plugin_store_map`.
    pub fn new(configs: Vec<Plugin<C>>, plugin_store_map: Arc<S>) -> (builder: Self)
        ensures
            builder.wf(),
            builder@ == BuilderView::<C, P, S, E>::start(configs@, plugin_store_map),
    {
        let ghost plugins = configs@;
        assert(configs@ =~= plugins.subrange(0, plugins.len() as int));
        ChainBuilder {
            pending: configs,
            plugin_store_map,
            downstream: None,
            failure: None,
            staged: false,
            plugins: Ghost(plugins),
            pools: Ghost(Seq::empty()),
        }
    }

    /// Hands out the next stage, if there is one: the last plugin that has no
    /// pool yet, with the pool that was made for the plugin after it and the
    /// handle of the chain's store, the same for every stage. The first
    /// stage, for the last plugin, gets no pool.
    pub fn next_stage(&mut self) -> (stage: Option<Stage<C, P, S>>)
        requires
            old(self).wf(),
        ensures
            final(self).wf(),
            old(self)@.can_stage() ==> {
                &&& stage is Some
                &&& stage->0.plugin == old(self)@.plugins[old(self)@.next_index()]
                &&& stage->0.next_plugin == old(self)@.next_of(old(self)@.next_index())
                &&& stage->0.plugin_store_map == old(self)@.store
                &&& final(self)@ == old(self)@.after_stage()
            },
            !old(self)@.can_stage() ==> stage is None && final(self)@ == old(self)@,
    {
        if self.staged || self.failure.is_some() || self.pending.len() == 0 {
            return None;
        }
        let plugin = self.pending.pop().unwrap();
        let next_plugin = self.downstream.take();
        self.staged = true;
        assert(self.pending@ =~= self.plugins@.subrange(
            0,
            self.plugins@.len() - self.pools@.len() - 1,
        ));
        let plugin_store_map = share(&self.plugin_store_map);
        Some(Stage { plugin, next_plugin, plugin_store_map })
    }

    /// Takes the outcome of the stage that is out: the pool that was made, or
    /// why none was. Where no stage is out, nothing changes.
    pub fn stage_done(&mut self, outcome: Result<P, StageError<E>>)
        requires
            old(self).wf(),
        ensures
            final(self).wf(),
            final(self)@ == old(self)@.after_report(outcome),
    {
        if self.staged {
            self.staged = false;
            match outcome {
                Ok(pool) => {
                    proof {
                        self.pools@ = self.pools@.push(pool);
                    }
                    self.downstream = Some(pool);
                },
                Err(err) => {
                    self.failure = Some(err);
                },
            }
        }
    }

    /// Ends the building. There is a chain when, and only when, there was a
    /// plugin and every plugin's stage succeeded; its head is the pool that
    /// was made for the first plugin. A failed stage is reported as it was.
    pub fn finish(self) -> (chain: Result<PluginChain<P>, BuildError<E>>)
        requires
            self.wf(),
        ensures
            match chain {
                Ok(c) => self@.outcome() == Ok::<P, BuildError<E>>(c.spec_plugin()),
                Err(err) => self@.outcome() == Err::<P, BuildError<E>>(err),
            },
    {
        let waiting = self.pending.len();
        match self.failure {
            Some(err) => Err(BuildError::Stage(err)),
            None => {
                if self.staged || waiting != 0 {
                    Err(BuildError::Unfinished)
                } else {
                    match self.downstream {
                        Some(pool) => Ok(PluginChain { plugin: pool }),
                        None => Err(BuildError::Unfinished),
                    }
                }
            },
        }
    }
}

/// Every pool of a chain holds one and the same store: whatever stages have
/// been handed out and reported, the handle that the next stage is given is
/// the one that the building was started with.
pub proof fn lemma_one_store<C, P, S, E>(
    state: BuilderView<C, P, S, E>,
    outcome: Result<P, StageError<E>>,
)
    ensures
        state.after_stage().store == state.store,
        state.after_report(outcome).store == state.store,
{
}

/// A chain is built when, and only when, no stage failed: of a building that
/// has handed out and been told of every stage it had, `finish` gives a chain
/// if no stage failed, and the failure if one did.
pub proof fn lemma_build_fails_iff_a_stage_failed<C, P, S, E>(state: BuilderView<C, P, S, E>)
    requires
        state.valid(),
        state.plugins.len() > 0,
        !state.staged,
        !state.can_stage(),
    ensures
        state.outcome() is Ok <==> state.failure is None,
        state.failure is Some ==> state.outcome() == Err::<P, BuildError<E>>(
            BuildError::Stage(state.failure->0),
        ),
{
}

/// The state that a building ends in which goes on from `state`, where the
/// stage that would make the pool number `i`, counted from the last plugin,
/// ends in `outcomes[i]`. Each round hands out a stage and takes its
/// outcome; the building stops at the first failure, or when no plugin is
/// left.
pub open spec fn spec_build<C, P, S, E>(
    state: BuilderView<C, P, S, E>,
    outcomes: Seq<Result<P, StageError<E>>>,
) -> BuilderView<C, P, S, E>
    decreases state.plugins.len() - state.built(),
{
    if state.can_stage() && state.built() < outcomes.len() {
        let outcome = outcomes[state.built() as int];
        let reported = state.after_stage().after_report(outcome);
        if outcome is Ok {
            spec_build(reported, outcomes)
        } else {
            reported
        }
    } else {
        state
    }
}

/// Whether the pools made so far are those of the first outcomes, in their
/// order.
pub open spec fn pools_follow<C, P, S, E>(
    state: BuilderView<C, P, S, E>,
    outcomes: Seq<Result<P, StageError<E>>>,
) -> bool {
    &&& state.built() <= outcomes.len()
    &&& forall|i: int|
        0 <= i < state.built() ==> (#[trigger] outcomes[i]) == Ok::<P, StageError<E>>(
            state.pools[i],
        )
}

/// A building in which every stage from here on succeeds ends with one pool
/// for each plugin, each the one that its stage made.
pub proof fn lemma_build_completes<C, P, S, E>(
    state: BuilderView<C, P, S, E>,
    outcomes: Seq<Result<P, StageError<E>>>,
)
    requires
        state.valid(),
        !state.staged,
        state.failure is None,
        outcomes.len() == state.plugins.len(),
        pools_follow(state, outcomes),
        forall|i: int| state.built() <= i < outcomes.len() ==> (#[trigger] outcomes[i]) is Ok,
    ensures
        spec_build(state, outcomes).plugins == state.plugins,
        spec_build(state, outcomes).store == state.store,
        spec_build(state, outcomes).failure is None,
        !spec_build(state, outcomes).staged,
        spec_build(state, outcomes).built() == state.plugins.len(),
        pools_follow(spec_build(state, outcomes), outcomes),
    decreases state.plugins.len() - state.built(),
{
    if state.built() < outcomes.len() {
        let outcome = outcomes[state.built() as int];
        assert(outcome is Ok);
        let reported = state.after_stage().after_report(outcome);
        assert forall|i: int| 0 <= i < reported.built() implies (#[trigger] outcomes[i]) == Ok::<
            P,
            StageError<E>,
        >(reported.pools[i]) by {
            if i < state.built() {
                assert(reported.pools[i] == state.pools[i]);
            }
        }
        lemma_build_completes(reported, outcomes);
    }
}

/// A building in which the stage number `first` is the first to fail ends
/// with that failure, and makes no pool after it.
pub proof fn lemma_build_stops<C, P, S, E>(
    state: BuilderView<C, P, S, E>,
    outcomes: Seq<Result<P, StageError<E>>>,
    first: int,
)
    requires
        state.valid(),
        !state.staged,
        state.failure is None,
        outcomes.len() == state.plugins.len(),
        state.built() <= first < outcomes.len(),
        outcomes[first] is Err,
        forall|i: int| state.built() <= i < first ==> (#[trigger] outcomes[i]) is Ok,
    ensures
        spec_build(state, outcomes).failure == Some(outcomes[first]->Err_0),
        spec_build(state, outcomes).built() == first,
        spec_build(state, outcomes).outcome() == Err::<P, BuildError<E>>(
            BuildError::Stage(outcomes[first]->Err_0),
        ),
    decreases first - state.built(),
{
    let outcome = outcomes[state.built() as int];
    let reported = state.after_stage().after_report(outcome);
    if state.built() < first {
        assert(outcome is Ok);
        lemma_build_stops(reported, outcomes, first);
    }
}

/// A chain is built when, and only when, every plugin's stage succeeds. It
/// then holds exactly one pool for each plugin, in the order of the plugins,
/// and is entered at the pool of the first. Where a stage fails, the building
/// ends with the failure of the first stage that does, the stages being run
/// from the last plugin to the first.
pub proof fn lemma_build<C, P, S, E>(
    plugins: Seq<Plugin<C>>,
    store: Arc<S>,
    outcomes: Seq<Result<P, StageError<E>>>,
)
    requires
        plugins.len() > 0,
        outcomes.len() == plugins.len(),
    ensures
        spec_build(BuilderView::start(plugins, store), outcomes).outcome() is Ok <==> (forall|
            i: int,
        |
            0 <= i < outcomes.len() ==> (#[trigger] outcomes[i]) is Ok),
        spec_build(BuilderView::start(plugins, store), outcomes).outcome() is Ok ==> {
            let built = spec_build(BuilderView::start(plugins, store), outcomes);
            &&& built.pools.len() == plugins.len()
            &&& built.store == store
            &&& built.outcome() == Ok::<P, BuildError<E>>(built.pool_of(0))
            &&& forall|index: int|
                0 <= index < plugins.len() ==> outcomes[plugins.len() - 1 - index] == Ok::<
                    P,
                    StageError<E>,
                >(#[trigger] built.pool_of(index))
        },
        forall|first: int|
            0 <= first < outcomes.len() && (#[trigger] outcomes[first]) is Err && (forall|i: int|
                0 <= i < first ==> (#[trigger] outcomes[i]) is Ok) ==> spec_build(
                BuilderView::start(plugins, store),
                outcomes,
            ).outcome() == Err::<P, BuildError<E>>(BuildError::Stage(outcomes[first]->Err_0)),
{
    let start = BuilderView::<C, P, S, E>::start(plugins, store);
    assert forall|first: int|
        0 <= first < outcomes.len() && (#[trigger] outcomes[first]) is Err && (forall|i: int|
            0 <= i < first ==> (#[trigger] outcomes[i]) is Ok) implies spec_build(
        start,
        outcomes,
    ).outcome() == Err::<P, BuildError<E>>(BuildError::Stage(outcomes[first]->Err_0)) by {
        lemma_build_stops(start, outcomes, first);
    }
    if forall|i: int| 0 <= i < outcomes.len() ==> (#[trigger] outcomes[i]) is Ok {
        lemma_build_completes(start, outcomes);
        let built = spec_build(start, outcomes);
        assert forall|index: int| 0 <= index < plugins.len() implies outcomes[plugins.len() - 1
            - index] == Ok::<P, StageError<E>>(#[trigger] built.pool_of(index)) by {
            assert(outcomes[plugins.len() - 1 - index] is Ok);
        }
    } else {
        let first = lemma_first_failure(outcomes, outcomes.len() as int);
        lemma_build_stops(start, outcomes, first);
    }
}

/// Where not every one of the first `up_to` stages succeeds, one of them is
/// the first that does not.
pub proof fn lemma_first_failure<P, E>(outcomes: Seq<Result<P, StageError<E>>>, up_to: int) -> (first:
    int)
    requires
        0 <= up_to <= outcomes.len(),
        !(forall|i: int| 0 <= i < up_to ==> (#[trigger] outcomes[i]) is Ok),
    ensures
        0 <= first < up_to,
        outcomes[first] is Err,
        forall|i: int| 0 <= i < first ==> (#[trigger] outcomes[i]) is Ok,
    decreases up_to,
{
    if forall|i: int| 0 <= i < up_to - 1 ==> (#[trigger] outcomes[i]) is Ok {
        assert(outcomes[up_to - 1] is Err);
        up_to - 1
    } else {
        lemma_first_failure(outcomes, up_to - 1)
    }
}

/// The pools of a chain form a line: each stage is given the pool that was
/// made for the plugin after its own, the stage of the last plugin is given
/// none, and the finished chain is entered at the pool of the first plugin.
pub proof fn lemma_chain_is_a_line<C, P, S, E>(state: BuilderView<C, P, S, E>, pool: P)
    requires
        state.valid(),
        state.can_stage(),
    ensures
        state.next_index() == state.plugins.len() - 1 <==> state.next_of(state.next_index())
            is None,
        state.next_index() < state.plugins.len() - 1 ==> state.next_of(state.next_index())
            == Some(state.pools.last()),
        state.after_stage().after_report(Ok(pool)).pool_of(state.next_index()) == pool,
        state.after_stage().after_report(Ok(pool)).complete() ==> state.after_stage().after_report(
            Ok(pool),
        ).outcome() == Ok::<P, BuildError<E>>(pool),
        forall|index: int|
            state.next_index() < index < state.plugins.len() ==> state.after_stage().after_report(
                Ok(pool),
            ).pool_of(index) == #[trigger] state.pool_of(index),
{
}

/// How the run of a plugin ends that hands every request on unchanged and
/// returns what comes back unchanged, from how the run of the plugin after
/// it ended. What that plugin returned, the plugin returns. Where that
/// plugin could not be run to its end, the host fails the plugin's call, and
/// the sandbox stops the plugin.
pub open spec fn through_identity<E>(downstream: CallOutcome<Vec<u8>, E>) -> CallOutcome<
    Vec<u8>,
    E,
> {
    match downstream {
        CallOutcome::PoolFailed(err) => CallOutcome::Trapped(err),
        CallOutcome::Trapped(err) => CallOutcome::Trapped(err),
        CallOutcome::Returned(result) => CallOutcome::Returned(result),
    }
}

/// A plugin that hands every request on and returns what comes back changes
/// no answer: with it at the head, the chain answers as the rest of the chain
/// would by itself, provided that an instance of the next plugin could be
/// had.
pub proof fn lemma_identity_plugin<E>(dns_packet: Seq<u8>, downstream: CallOutcome<Vec<u8>, E>)
    requires
        !(downstream is PoolFailed),
    ensures
        spec_handle_dns(dns_packet, through_identity(downstream)) == spec_handle_dns(
            dns_packet,
            downstream,
        ),
{
}

} // verus!

//! What a pool of plugin instances decides: whether a plugin accepts its
//! configuration, and what becomes of an instance between two requests.

use crate::host_helper::tcp::Tcp;
use crate::host_helper::{HostHelper, FUEL_INJECTIONS, FUEL_PER_INJECTION};
use crate::plugins::PluginError;
use vstd::prelude::*;

verus! {

/// How a call of a plugin's entry point ended.
///
/// `E` is the error of the sandbox and of the pool; `T` is what the entry
/// point returns when it accepts its input.
#[derive(Debug, PartialEq, Eq)]
pub enum CallOutcome<T, E> {
    /// No instance could be had from the pool.
    PoolFailed(E),
    /// The sandbox stopped the plugin.
    Trapped(E),
    /// The plugin ran to its end and returned this.
    Returned(Result<T, PluginError>),
}

/// Why a pool could not be put to use.
#[derive(Debug, PartialEq, Eq)]
pub enum ValidateError<E> {
    /// No instance could be had from the pool.
    Pool(E),
    /// The sandbox stopped the plugin while it checked its configuration.
    Call(E),
    /// The plugin refused its configuration.
    Invalid(PluginError),
}

/// The fuel that an instance is given: how often it is refilled, and how much
/// it burns between two points at which it yields.
#[derive(Clone, Copy, Debug, PartialEq, Eq, Structural)]
pub struct YieldBudget {
    pub injections: u64,
    pub fuel_per_injection: u64,
}

/// The budget that every instance starts each request with.
pub open spec fn spec_yield_budget() -> YieldBudget {
    YieldBudget { injections: FUEL_INJECTIONS, fuel_per_injection: FUEL_PER_INJECTION }
}

/// The budget that every instance starts each request with.
pub fn yield_budget() -> (budget: YieldBudget)
    ensures
        budget == spec_yield_budget(),
{
    YieldBudget { injections: FUEL_INJECTIONS, fuel_per_injection: FUEL_PER_INJECTION }
}

/// Whether a new pool can be put to use, from how the check of the plugin's
/// configuration ended: it can when, and only when, the plugin ran and
/// accepted its configuration.
pub fn validate_config<E>(outcome: CallOutcome<(), E>) -> (checked: Result<(), ValidateError<E>>)
    ensures
        match outcome {
            CallOutcome::PoolFailed(err) => checked == Err::<(), ValidateError<E>>(
                ValidateError::Pool(err),
            ),
            CallOutcome::Trapped(err) => checked == Err::<(), ValidateError<E>>(
                ValidateError::Call(err),
            ),
            CallOutcome::Returned(Err(err)) => checked == Err::<(), ValidateError<E>>(
                ValidateError::Invalid(err),
            ),
            CallOutcome::Returned(Ok(())) => checked == Ok::<(), ValidateError<E>>(()),
        },
{
    match outcome {
        CallOutcome::PoolFailed(err) => Err(ValidateError::Pool(err)),
        CallOutcome::Trapped(err) => Err(ValidateError::Call(err)),
        CallOutcome::Returned(Err(err)) => Err(ValidateError::Invalid(err)),
        CallOutcome::Returned(Ok(())) => Ok(()),
    }
}

/// The host's state for a new instance, and the budget to start it with.
pub fn create<W, P, M, U, St, Li>(
    wasi_ctx: W,
    raw_config: String,
    next_plugin: Option<P>,
    plugin_store_map: M,
) -> (made: (HostHelper<W, P, M, U, St, Li>, YieldBudget))
    ensures
        made.0.spec_wasi_ctx() == wasi_ctx,
        made.0.spec_config() == raw_config@,
        made.0.spec_next_plugin() == next_plugin,
        made.0.spec_store() == plugin_store_map,
        made.0.udp_fds() == Map::<u32, U>::empty(),
        made.0.tcp_fds() == Map::<u32, Tcp<St, Li>>::empty(),
        made.1 == spec_yield_budget(),
{
    (HostHelper::new(wasi_ctx, raw_config, next_plugin, plugin_store_map), yield_budget())
}

/// Readies an instance that comes back to the pool for its next request:
/// every socket that the plugin left open is closed, and the budget to
/// continue with is the one that every instance starts with. What the
/// instance shares with others (its configuration, the downstream pool, the
/// shared store) stays.
pub fn recycle<W, P, M, U, St, Li>(state: &mut HostHelper<W, P, M, U, St, Li>) -> (budget:
    YieldBudget)
    ensures
        budget == spec_yield_budget(),
        final(state).udp_fds() == Map::<u32, U>::empty(),
        final(state).tcp_fds() == Map::<u32, Tcp<St, Li>>::empty(),
        final(state).spec_udp_helper().errnos() == old(state).spec_udp_helper().errnos(),
        final(state).spec_tcp_helper().errnos() == old(state).spec_tcp_helper().errnos(),
        final(state).spec_wasi_ctx() == old(state).spec_wasi_ctx(),
        final(state).spec_config() == old(state).spec_config(),
        final(state).spec_next_plugin() == old(state).spec_next_plugin(),
        final(state).spec_store() == old(state).spec_store(),
{
    state.reset();
    yield_budget()
}

/// An instance that has come back to its pool holds no socket when it is
/// handed out again: after `recycle`, every descriptor is a bad descriptor,
/// for UDP and for TCP, whatever the plugin had open.
pub proof fn lemma_recycled_holds_no_socket<W, P, M, U, St, Li>(
    after: HostHelper<W, P, M, U, St, Li>,
    fd: u32,
)
    requires
        after.udp_fds() == Map::<u32, U>::empty(),
        after.tcp_fds() == Map::<u32, Tcp<St, Li>>::empty(),
    ensures
        after.spec_udp_helper().spec_socket(fd) == Err::<U, u32>(
            after.spec_udp_helper().errnos().bad_descriptor,
        ),
        after.spec_tcp_helper().spec_stream(fd) == Err::<St, u32>(
            after.spec_tcp_helper().errnos().bad_descriptor,
        ),
        after.spec_tcp_helper().spec_listener(fd) == Err::<Li, u32>(
            after.spec_tcp_helper().errnos().bad_descriptor,
        ),
{
}

} // verus!

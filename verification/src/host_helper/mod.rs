//! The state that the host keeps for one plugin instance: the text of the
//! plugin's configuration, its open sockets, the sandbox's own context, the
//! pool of the plugin that comes next in the chain, and the handle of the
//! store that the chain's plugins share.

pub mod tcp;
pub mod udp;

use crate::host_helper::tcp::{Tcp, TcpHelper};
use crate::host_helper::udp::UdpHelper;
use crate::plugins::pool::CallOutcome;
use crate::plugins::PluginError;
use vstd::prelude::*;

verus! {

/// How many times the sandbox refills a plugin's fuel before it gives up.
pub const FUEL_INJECTIONS: u64 = u64::MAX;

/// How much fuel a plugin burns between two points at which it yields to the
/// scheduler.
pub const FUEL_PER_INJECTION: u64 = 10000;

/// The host's state for one plugin instance.
///
/// `W` is the sandbox's context, `P` the handle of a plugin pool, `M` the
/// handle of the shared store, `U` a UDP socket, `St` a connected TCP stream
/// and `Li` a TCP listener. The state holds values of these types and never
/// looks inside them.
pub struct HostHelper<W, P, M, U, St, Li> {
    wasi_ctx: W,
    raw_config: String,
    udp_helper: UdpHelper<U>,
    tcp_helper: TcpHelper<St, Li>,
    next_plugin: Option<P>,
    plugin_store_map: M,
}

impl<W, P, M, U, St, Li> HostHelper<W, P, M, U, St, Li> {
    /// The text of the plugin's configuration.
    pub closed spec fn spec_config(&self) -> Seq<char> {
        self.raw_config@
    }

    /// The pool of the plugin that comes next in the chain, if any.
    pub closed spec fn spec_next_plugin(&self) -> Option<P> {
        self.next_plugin
    }

    /// The sandbox's context.
    pub closed spec fn spec_wasi_ctx(&self) -> W {
        self.wasi_ctx
    }

    /// The handle of the shared store.
    pub closed spec fn spec_store(&self) -> M {
        self.plugin_store_map
    }

    /// The table of UDP sockets.
    pub closed spec fn spec_udp_helper(&self) -> UdpHelper<U> {
        self.udp_helper
    }

    /// The table of TCP sockets.
    pub closed spec fn spec_tcp_helper(&self) -> TcpHelper<St, Li> {
        self.tcp_helper
    }

    /// The open UDP sockets, by descriptor.
    pub open spec fn udp_fds(&self) -> Map<u32, U> {
        self.spec_udp_helper()@
    }

    /// The open TCP sockets, by descriptor.
    pub open spec fn tcp_fds(&self) -> Map<u32, Tcp<St, Li>> {
        self.spec_tcp_helper()@
    }

    /// The state of a fresh instance: the given configuration, context and
    /// downstream pool, and no open socket.
    pub fn new(
        wasi_ctx: W,
        raw_config: String,
        next_plugin: Option<P>,
        plugin_store_map: M,
    ) -> (helper: Self)
        ensures
            helper.spec_wasi_ctx() == wasi_ctx,
            helper.spec_config() == raw_config@,
            helper.spec_next_plugin() == next_plugin,
            helper.spec_store() == plugin_store_map,
            helper.udp_fds() == Map::<u32, U>::empty(),
            helper.tcp_fds() == Map::<u32, Tcp<St, Li>>::empty(),
    {
        HostHelper {
            wasi_ctx,
            raw_config,
            udp_helper: UdpHelper::new(),
            tcp_helper: TcpHelper::new(),
            next_plugin,
            plugin_store_map,
        }
    }

    /// The sandbox's context, for the sandbox to use.
    pub fn wasi_ctx(&mut self) -> (ctx: &mut W)
        ensures
            *ctx == old(self).spec_wasi_ctx(),
            final(self).spec_wasi_ctx() == *final(ctx),
            final(self).spec_config() == old(self).spec_config(),
            final(self).spec_next_plugin() == old(self).spec_next_plugin(),
            final(self).spec_store() == old(self).spec_store(),
            final(self).spec_udp_helper() == old(self).spec_udp_helper(),
            final(self).spec_tcp_helper() == old(self).spec_tcp_helper(),
    {
        &mut self.wasi_ctx
    }

    /// The table of UDP sockets, for the calls of the plugin that change it.
    pub fn udp_helper(&mut self) -> (udp: &mut UdpHelper<U>)
        ensures
            *udp == old(self).spec_udp_helper(),
            final(self).spec_udp_helper() == *final(udp),
            final(self).spec_wasi_ctx() == old(self).spec_wasi_ctx(),
            final(self).spec_config() == old(self).spec_config(),
            final(self).spec_next_plugin() == old(self).spec_next_plugin(),
            final(self).spec_store() == old(self).spec_store(),
            final(self).spec_tcp_helper() == old(self).spec_tcp_helper(),
    {
        &mut self.udp_helper
    }

    /// The table of TCP sockets, for the calls of the plugin that change it.
    pub fn tcp_helper(&mut self) -> (tcp: &mut TcpHelper<St, Li>)
        ensures
            *tcp == old(self).spec_tcp_helper(),
            final(self).spec_tcp_helper() == *final(tcp),
            final(self).spec_wasi_ctx() == old(self).spec_wasi_ctx(),
            final(self).spec_config() == old(self).spec_config(),
            final(self).spec_next_plugin() == old(self).spec_next_plugin(),
            final(self).spec_store() == old(self).spec_store(),
            final(self).spec_udp_helper() == old(self).spec_udp_helper(),
    {
        &mut self.tcp_helper
    }

    /// Readies the state for the next request: every socket that the plugin
    /// left open is closed. The configuration, the context and the downstream
    /// pool stay as they are.
    pub fn reset(&mut self)
        ensures
            final(self).udp_fds() == Map::<u32, U>::empty(),
            final(self).tcp_fds() == Map::<u32, Tcp<St, Li>>::empty(),
            final(self).spec_udp_helper().errnos() == old(self).spec_udp_helper().errnos(),
            final(self).spec_tcp_helper().errnos() == old(self).spec_tcp_helper().errnos(),
            final(self).spec_wasi_ctx() == old(self).spec_wasi_ctx(),
            final(self).spec_config() == old(self).spec_config(),
            final(self).spec_next_plugin() == old(self).spec_next_plugin(),
            final(self).spec_store() == old(self).spec_store(),
    {
        self.udp_helper.reset();
        self.tcp_helper.reset();
    }

    /// What the host does for a plugin that hands `dns_packet` to the plugin
    /// after it: where there is such a plugin, run it, taken from this pool,
    /// on exactly these bytes; where there is none, nothing.
    pub fn call_next_plugin(&self, dns_packet: Vec<u8>) -> (call: Option<(&P, Vec<u8>)>)
        ensures
            match self.spec_next_plugin() {
                None => call is None,
                Some(pool) => call == Some((&pool, dns_packet)),
            },
    {
        match &self.next_plugin {
            None => None,
            Some(pool) => Some((pool, dns_packet)),
        }
    }

    /// The handle of the store that the chain's plugins share, for the calls
    /// of the plugin that read or write it.
    pub fn plugin_store_map(&self) -> (store: &M)
        ensures
            *store == self.spec_store(),
    {
        &self.plugin_store_map
    }

    /// The text of the plugin's configuration, as the plugin asks for it.
    pub fn load_config(&self) -> (config: String)
        ensures
            config@ == self.spec_config(),
    {
        self.raw_config.clone()
    }
}

/// What a plugin gets for handing a packet to the plugin after it. `ran` is
/// how the run of that plugin ended, or `None` where there is no such plugin.
///
/// Without a next plugin the answer is `None`, and it is for the plugin to
/// deal with that. What the next plugin returned, success or failure, is
/// handed back as it is. Where no instance could be had or the sandbox
/// stopped the next plugin, the call itself fails.
pub fn next_plugin_answer<E>(ran: Option<CallOutcome<Vec<u8>, E>>) -> (answer: Result<
    Option<Result<Vec<u8>, PluginError>>,
    E,
>)
    ensures
        match ran {
            None => answer matches Ok(None),
            Some(CallOutcome::PoolFailed(err)) => answer matches Err(e) && e == err,
            Some(CallOutcome::Trapped(err)) => answer matches Err(e) && e == err,
            Some(CallOutcome::Returned(result)) => answer matches Ok(Some(r)) && r == result,
        },
{
    match ran {
        None => Ok(None),
        Some(CallOutcome::PoolFailed(err)) => Err(err),
        Some(CallOutcome::Trapped(err)) => Err(err),
        Some(CallOutcome::Returned(result)) => Ok(Some(result)),
    }
}

} // verus!

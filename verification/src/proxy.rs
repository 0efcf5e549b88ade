//! The forwarding plugin: it sends a query to each of its name servers in
//! turn until one answers.
//!
//! The plugin talks to the host between its steps. `ProxyRunner` says which
//! name server to ask next, and what to reply once one has answered or none
//! is left.

use crate::addr::{IpAddr, SocketAddr};
use crate::cache::{failure, spec_failure, PLUGIN_FAILURE};
use crate::net::IoError;
use crate::plugins::{PluginError, PluginErrorView};
use vstd::prelude::*;
use vstd::string::StringExecFns;

verus! {

/// The most that is read of a name server's answer.
pub const RECV_SIZE: usize = 4096;

/// The settings of the plugin.
#[derive(Debug, PartialEq, Eq)]
pub struct Config {
    pub nameservers: Vec<SocketAddr>,
}

/// The address that the plugin binds its socket to: any local address and
/// any port.
pub open spec fn spec_local_addr() -> SocketAddr {
    SocketAddr { ip: IpAddr::V4(0), port: 0 }
}

/// The address that the plugin binds its socket to.
pub fn local_addr() -> (addr: SocketAddr)
    ensures
        addr == spec_local_addr(),
{
    SocketAddr { ip: IpAddr::V4(0), port: 0 }
}

/// The error number of a failed socket operation: the host's, reinterpreted
/// as unsigned, or that of a failure of the plugin's own where the host gave
/// none.
pub open spec fn spec_error_code(err: IoError) -> u32 {
    match err {
        IoError::Os(code) => code as u32,
        IoError::Unsupported => PLUGIN_FAILURE,
    }
}

/// The plugin's failure for a failed socket operation, with `msg` as its
/// message.
pub fn socket_failure(err: IoError, msg: String) -> (failed: PluginError)
    ensures
        failed@ == (PluginErrorView { code: spec_error_code(err), msg: msg@ }),
{
    let code: u32 = match err {
        IoError::Os(code) => #[verifier::truncate] (code as u32),
        IoError::Unsupported => PLUGIN_FAILURE,
    };
    PluginError { code, msg }
}

/// A failed socket operation: what the host reported, and the text that
/// describes it.
#[derive(Debug, PartialEq, Eq)]
pub struct SocketFailure {
    pub err: IoError,
    pub msg: String,
}

/// What has just been done in the exchange with one name server, and what
/// came of it.
#[derive(Debug, PartialEq, Eq)]
pub enum Done {
    /// Nothing yet.
    Nothing,
    /// A socket was bound.
    Bound(Result<(), SocketFailure>),
    /// The socket was connected to the name server.
    Connected(Result<(), SocketFailure>),
    /// The query was sent; on success, so many bytes of it.
    Sent(Result<usize, SocketFailure>),
    /// An answer was received.
    Received(Result<Vec<u8>, SocketFailure>),
}

/// What to do next in the exchange with one name server.
#[derive(Debug, PartialEq, Eq)]
pub enum ExchangeStep {
    /// Bind a socket to this address.
    Bind(SocketAddr),
    /// Connect the socket to this name server.
    Connect(SocketAddr),
    /// Send the query.
    Send,
    /// Receive at most this many bytes.
    Recv(usize),
    /// The exchange is over, with this answer or this failure.
    Reply(Result<Vec<u8>, PluginError>),
}

/// What to do next in an exchange, with bytes and text as sequences.
pub enum ExchangeStepView {
    Bind(SocketAddr),
    Connect(SocketAddr),
    Send,
    Recv(usize),
    Reply(Result<Seq<u8>, PluginErrorView>),
}

impl View for ExchangeStep {
    type V = ExchangeStepView;

    open spec fn view(&self) -> ExchangeStepView {
        match self {
            ExchangeStep::Bind(addr) => ExchangeStepView::Bind(*addr),
            ExchangeStep::Connect(addr) => ExchangeStepView::Connect(*addr),
            ExchangeStep::Send => ExchangeStepView::Send,
            ExchangeStep::Recv(size) => ExchangeStepView::Recv(*size),
            ExchangeStep::Reply(Ok(answer)) => ExchangeStepView::Reply(Ok(answer@)),
            ExchangeStep::Reply(Err(err)) => ExchangeStepView::Reply(Err(err@)),
        }
    }
}

/// The plugin's failure for a failed socket operation.
pub open spec fn spec_socket_failure(failed: SocketFailure) -> PluginErrorView {
    PluginErrorView { code: spec_error_code(failed.err), msg: failed.msg@ }
}

/// The step that follows what has just been done. The exchange binds a
/// socket to any local address, connects it to the name server, sends the
/// query and receives the answer, in this order; what is received is the
/// answer, and the first operation that fails ends the exchange with its
/// failure.
pub open spec fn spec_handle_dns(nameserver: SocketAddr, done: Done) -> ExchangeStepView {
    match done {
        Done::Nothing => ExchangeStepView::Bind(spec_local_addr()),
        Done::Bound(Ok(())) => ExchangeStepView::Connect(nameserver),
        Done::Connected(Ok(())) => ExchangeStepView::Send,
        Done::Sent(Ok(_)) => ExchangeStepView::Recv(RECV_SIZE),
        Done::Received(Ok(answer)) => ExchangeStepView::Reply(Ok(answer@)),
        Done::Bound(Err(failed)) => ExchangeStepView::Reply(Err(spec_socket_failure(failed))),
        Done::Connected(Err(failed)) => ExchangeStepView::Reply(Err(spec_socket_failure(failed))),
        Done::Sent(Err(failed)) => ExchangeStepView::Reply(Err(spec_socket_failure(failed))),
        Done::Received(Err(failed)) => ExchangeStepView::Reply(Err(spec_socket_failure(failed))),
    }
}

/// The next step of the exchange with `nameserver`, from what has just been
/// done.
pub fn handle_dns(nameserver: SocketAddr, done: Done) -> (step: ExchangeStep)
    ensures
        step@ == spec_handle_dns(nameserver, done),
{
    match done {
        Done::Nothing => ExchangeStep::Bind(local_addr()),
        Done::Bound(Ok(())) => ExchangeStep::Connect(nameserver),
        Done::Connected(Ok(())) => ExchangeStep::Send,
        Done::Sent(Ok(_)) => ExchangeStep::Recv(RECV_SIZE),
        Done::Received(Ok(answer)) => ExchangeStep::Reply(Ok(answer)),
        Done::Bound(Err(failed)) => ExchangeStep::Reply(Err(socket_failure(failed.err, failed.msg))),
        Done::Connected(Err(failed)) => ExchangeStep::Reply(
            Err(socket_failure(failed.err, failed.msg)),
        ),
        Done::Sent(Err(failed)) => ExchangeStep::Reply(Err(socket_failure(failed.err, failed.msg))),
        Done::Received(Err(failed)) => ExchangeStep::Reply(
            Err(socket_failure(failed.err, failed.msg)),
        ),
    }
}

/// Whether the plugin accepts its settings: it does where they could be read,
/// and `settings` then holds them; the error is the reader's complaint.
pub fn valid_config(settings: Result<Config, String>) -> (checked: Result<(), PluginError>)
    ensures
        match settings {
            Ok(_) => checked is Ok,
            Err(text) => checked matches Err(err) && err@ == spec_failure(text@),
        },
{
    match settings {
        Ok(_) => Ok(()),
        Err(text) => Err(failure(text)),
    }
}

/// What the plugin does next.
#[derive(Debug, PartialEq, Eq)]
pub enum ProxyStep {
    /// Send the query to this name server and report what came of it.
    Ask(SocketAddr),
    /// Reply with this.
    Done(Result<Vec<u8>, PluginError>),
}

/// What the plugin does next, with bytes and text as sequences.
pub enum StepView {
    Ask(SocketAddr),
    Done(Result<Seq<u8>, PluginErrorView>),
}

impl View for ProxyStep {
    type V = StepView;

    open spec fn view(&self) -> StepView {
        match self {
            ProxyStep::Ask(nameserver) => StepView::Ask(*nameserver),
            ProxyStep::Done(Ok(answer)) => StepView::Done(Ok(answer@)),
            ProxyStep::Done(Err(err)) => StepView::Done(Err(err@)),
        }
    }
}

/// What came of asking a name server, with bytes and text as sequences.
pub open spec fn attempt_view(last: Option<Result<Vec<u8>, PluginError>>) -> Option<
    Result<Seq<u8>, PluginErrorView>,
> {
    match last {
        None => None,
        Some(Ok(answer)) => Some(Ok(answer@)),
        Some(Err(err)) => Some(Err(err@)),
    }
}

/// The message of the failure that the plugin replies with once every name
/// server has failed.
pub open spec fn all_failed() -> Seq<char> {
    "all nameserver failed"@
}

/// The next step of a run in which `asked` of the name servers have been
/// asked and `last` came of the step before, and how many have been asked
/// after it. An answer is the reply. After a failure, or at the start, the
/// next name server is asked; where none is left, the reply is that all have
/// failed.
pub open spec fn spec_next(
    nameservers: Seq<SocketAddr>,
    asked: nat,
    last: Option<Result<Seq<u8>, PluginErrorView>>,
) -> (StepView, nat) {
    match last {
        Some(Ok(answer)) => (StepView::Done(Ok(answer)), asked),
        _ => if asked < nameservers.len() {
            (StepView::Ask(nameservers[asked as int]), (asked + 1) as nat)
        } else {
            (StepView::Done(Err(spec_failure(all_failed()))), asked)
        },
    }
}

/// How a run ends that goes on from `asked` and `last`, where asking the
/// name server at place `i` gives `attempts[i]`: the reply, and how many name
/// servers have been asked by then. Each step is `spec_next`; what came of
/// asking is handed to the step after.
pub open spec fn spec_run(
    nameservers: Seq<SocketAddr>,
    attempts: Seq<Result<Seq<u8>, PluginErrorView>>,
    asked: nat,
    last: Option<Result<Seq<u8>, PluginErrorView>>,
) -> (Result<Seq<u8>, PluginErrorView>, nat)
    decreases nameservers.len() - asked,
{
    let (step, then) = spec_next(nameservers, asked, last);
    match step {
        StepView::Done(reply) => (reply, then),
        StepView::Ask(_) => if asked < nameservers.len() && then == asked + 1 {
            spec_run(nameservers, attempts, then, Some(attempts[asked as int]))
        } else {
            (Err(spec_failure(all_failed())), then)
        },
    }
}

/// A run that goes on from a place at or before the first name server that
/// answers ends with that answer, when that server has been asked and none
/// after it.
pub proof fn lemma_run_reaches_first_answer(
    nameservers: Seq<SocketAddr>,
    attempts: Seq<Result<Seq<u8>, PluginErrorView>>,
    asked: nat,
    last: Option<Result<Seq<u8>, PluginErrorView>>,
    first: int,
)
    requires
        attempts.len() == nameservers.len(),
        asked <= first < nameservers.len(),
        !(last matches Some(Ok(_))),
        attempts[first] is Ok,
        forall|i: int| asked <= i < first ==> (#[trigger] attempts[i]) is Err,
    ensures
        spec_run(nameservers, attempts, asked, last) == (attempts[first], (first + 1) as nat),
    decreases first - asked,
{
    if asked == first {
        assert(spec_run(nameservers, attempts, (asked + 1) as nat, Some(attempts[first])) == (
            attempts[first],
            (first + 1) as nat,
        ));
    } else {
        assert(attempts[asked as int] is Err);
        lemma_run_reaches_first_answer(
            nameservers,
            attempts,
            (asked + 1) as nat,
            Some(attempts[asked as int]),
            first,
        );
    }
}

/// A run that goes on where no name server from there on answers ends with
/// the reply that all have failed, when every name server has been asked.
pub proof fn lemma_run_exhausts(
    nameservers: Seq<SocketAddr>,
    attempts: Seq<Result<Seq<u8>, PluginErrorView>>,
    asked: nat,
    last: Option<Result<Seq<u8>, PluginErrorView>>,
)
    requires
        attempts.len() == nameservers.len(),
        asked <= nameservers.len(),
        !(last matches Some(Ok(_))),
        forall|i: int| asked <= i < attempts.len() ==> (#[trigger] attempts[i]) is Err,
    ensures
        spec_run(nameservers, attempts, asked, last) == (
            Err::<Seq<u8>, PluginErrorView>(spec_failure(all_failed())),
            nameservers.len(),
        ),
    decreases nameservers.len() - asked,
{
    if asked < nameservers.len() {
        assert(attempts[asked as int] is Err);
        lemma_run_exhausts(nameservers, attempts, (asked + 1) as nat, Some(attempts[asked as int]));
    }
}

/// The plugin replies with the answer of the first name server that answers,
/// byte for byte, having asked the name servers before it in the order of
/// the settings and none after it. It fails when, and only when, every name
/// server fails, and then with the reply that all have failed, whatever the
/// failures were; with no name server it always does.
pub proof fn lemma_run(
    nameservers: Seq<SocketAddr>,
    attempts: Seq<Result<Seq<u8>, PluginErrorView>>,
)
    requires
        attempts.len() == nameservers.len(),
    ensures
        forall|first: int|
            0 <= first < attempts.len() && (#[trigger] attempts[first]) is Ok && (forall|i: int|
                0 <= i < first ==> (#[trigger] attempts[i]) is Err) ==> spec_run(
                nameservers,
                attempts,
                0,
                None,
            ) == (attempts[first], (first + 1) as nat),
        (forall|i: int| 0 <= i < attempts.len() ==> (#[trigger] attempts[i]) is Err) ==> spec_run(
            nameservers,
            attempts,
            0,
            None,
        ) == (Err::<Seq<u8>, PluginErrorView>(spec_failure(all_failed())), nameservers.len()),
        spec_run(nameservers, attempts, 0, None).0 is Err <==> (forall|i: int|
            0 <= i < attempts.len() ==> (#[trigger] attempts[i]) is Err),
{
    assert forall|first: int|
        0 <= first < attempts.len() && (#[trigger] attempts[first]) is Ok && (forall|i: int|
            0 <= i < first ==> (#[trigger] attempts[i]) is Err) implies spec_run(
        nameservers,
        attempts,
        0,
        None,
    ) == (attempts[first], (first + 1) as nat) by {
        lemma_run_reaches_first_answer(nameservers, attempts, 0, None, first);
    }
    if forall|i: int| 0 <= i < attempts.len() ==> (#[trigger] attempts[i]) is Err {
        lemma_run_exhausts(nameservers, attempts, 0, None);
    } else {
        let first = lemma_first_answer(attempts, attempts.len() as int);
        lemma_run_reaches_first_answer(nameservers, attempts, 0, None, first);
    }
}

/// Where not every one of the first `up_to` attempts fails, one of them is
/// the first that does not.
pub proof fn lemma_first_answer(
    attempts: Seq<Result<Seq<u8>, PluginErrorView>>,
    up_to: int,
) -> (first: int)
    requires
        0 <= up_to <= attempts.len(),
        !(forall|i: int| 0 <= i < up_to ==> (#[trigger] attempts[i]) is Err),
    ensures
        0 <= first < up_to,
        attempts[first] is Ok,
        forall|i: int| 0 <= i < first ==> (#[trigger] attempts[i]) is Err,
    decreases up_to,
{
    if forall|i: int| 0 <= i < up_to - 1 ==> (#[trigger] attempts[i]) is Err {
        assert(attempts[up_to - 1] is Ok);
        up_to - 1
    } else {
        lemma_first_answer(attempts, up_to - 1)
    }
}

/// The run of the plugin on one query: its name servers, and how many of
/// them have been asked.
#[derive(Debug)]
pub struct ProxyRunner {
    nameservers: Vec<SocketAddr>,
    asked: usize,
}

impl ProxyRunner {
    /// The name servers, in the order in which they are asked.
    pub closed spec fn nameservers(&self) -> Seq<SocketAddr> {
        self.nameservers@
    }

    /// How many name servers have been asked.
    pub closed spec fn asked(&self) -> nat {
        self.asked as nat
    }

    /// What holds of every run: no more name servers have been asked than
    /// there are.
    pub closed spec fn wf(&self) -> bool {
        self.asked <= self.nameservers@.len()
    }

    /// Starts a run with the settings that were read, or fails with the
    /// reader's complaint.
    pub fn run(settings: Result<Config, String>) -> (runner: Result<ProxyRunner, PluginError>)
        ensures
            match settings {
                Ok(config) => runner matches Ok(r) && r.wf() && r.nameservers()
                    == config.nameservers@ && r.asked() == 0,
                Err(text) => runner matches Err(err) && err@ == spec_failure(text@),
            },
    {
        match settings {
            Ok(config) => Ok(ProxyRunner { nameservers: config.nameservers, asked: 0 }),
            Err(text) => Err(failure(text)),
        }
    }

    /// The next step, given what came of asking the name server of the step
    /// before (`None` at the start). An answer is the plugin's reply. After a
    /// failure, or at the start, the next name server is asked; where none is
    /// left, the plugin replies that all have failed.
    pub fn next(&mut self, last: Option<Result<Vec<u8>, PluginError>>) -> (step: ProxyStep)
        requires
            old(self).wf(),
        ensures
            final(self).wf(),
            final(self).nameservers() == old(self).nameservers(),
            (step@, final(self).asked()) == spec_next(
                old(self).nameservers(),
                old(self).asked(),
                attempt_view(last),
            ),
            match last {
                Some(Ok(answer)) => {
                    &&& step matches ProxyStep::Done(Ok(bytes)) && bytes == answer
                    &&& final(self).asked() == old(self).asked()
                },
                _ => if old(self).asked() < old(self).nameservers().len() {
                    &&& step == ProxyStep::Ask(old(self).nameservers()[old(self).asked() as int])
                    &&& final(self).asked() == old(self).asked() + 1
                } else {
                    &&& step matches ProxyStep::Done(Err(err)) && err@ == spec_failure(
                        all_failed(),
                    )
                    &&& final(self).asked() == old(self).asked()
                },
            },
    {
        match last {
            Some(Ok(answer)) => ProxyStep::Done(Ok(answer)),
            _ => {
                if self.asked < self.nameservers.len() {
                    let nameserver = self.nameservers[self.asked];
                    self.asked = self.asked + 1;
                    ProxyStep::Ask(nameserver)
                } else {
                    let msg = String::from_str("all nameserver failed");
                    ProxyStep::Done(Err(failure(msg)))
                }
            },
        }
    }
}

} // verus!

//! HTTP/3 QUIC server lifecycle: configuration, the start decision and the handle's state.
use vstd::prelude::*;

use rustls::pki_types::{CertificateDer, PrivateKeyDer};

use crate::error::{Error, ErrorKind};
use crate::tls::quic_server_config;
use crate::zero_rtt::{default_zero_rtt_methods, Method};

verus! {

/// A UDP socket address: an IP address and a port.
#[allow(inconsistent_fields)]
#[derive(Clone, Copy, Debug, PartialEq, Eq)]
pub enum SocketAddress {
    /// An IPv4 address and port.
    V4 { ip: [u8; 4], port: u16 },
    /// An IPv6 address and port, with its flow information and scope.
    V6 { ip: [u8; 16], port: u16, flowinfo: u32, scope_id: u32 },
}

/// The port of a socket address.
pub open spec fn address_port(addr: SocketAddress) -> u16 {
    match addr {
        SocketAddress::V4 { port, .. } => port,
        SocketAddress::V6 { port, .. } => port,
    }
}

impl SocketAddress {
    /// The port.
    pub fn port(&self) -> (port: u16)
        ensures
            port == address_port(*self),
    {
        match self {
            SocketAddress::V4 { port, .. } => *port,
            SocketAddress::V6 { port, .. } => *port,
        }
    }
}

/// Configuration for the HTTP/3 listener.
#[derive(Clone, Debug)]
pub struct Http3ServerConfig {
    /// UDP bind address. `None` makes the server fully inert.
    pub bind_h3: Option<SocketAddress>,
    /// Default `Alt-Svc` max-age value, in seconds.
    pub alt_svc_max_age_secs: u64,
    /// Methods allowed by the 0-RTT replay-safety policy.
    pub zero_rtt_idempotent_methods: Vec<Method>,
}

impl Default for Http3ServerConfig {
    /// No listener, an `Alt-Svc` max-age of one day, and the default 0-RTT methods.
    fn default() -> (config: Self)
        ensures
            config.bind_h3 is None,
            config.alt_svc_max_age_secs == 86_400,
            config.zero_rtt_idempotent_methods@ == seq![Method::Get, Method::Head],
    {
        Http3ServerConfig {
            bind_h3: None,
            alt_svc_max_age_secs: 86_400,
            zero_rtt_idempotent_methods: default_zero_rtt_methods(),
        }
    }
}

/// Optional HTTP/3 listener that runs alongside an existing TCP+TLS server.
#[derive(Clone, Debug)]
pub struct Http3Server {
    config: Http3ServerConfig,
}

/// What starting the server amounts to.
pub enum StartPlan {
    /// No listener: no socket is opened and no QUIC endpoint is built.
    Inert,
    /// Bind a QUIC endpoint at `bind_addr` with `server_config`, and serve requests under the
    /// 0-RTT policy `zero_rtt_methods`.
    Listen {
        bind_addr: SocketAddress,
        server_config: quinn::ServerConfig,
        zero_rtt_methods: Vec<Method>,
    },
}

impl Http3Server {
    /// The server's configuration.
    pub closed spec fn spec_config(&self) -> Http3ServerConfig {
        self.config
    }

    /// Build a server value without starting it.
    pub fn new(config: Http3ServerConfig) -> (server: Self)
        ensures
            server.spec_config() == config,
    {
        Http3Server { config }
    }

    /// The server's configuration.
    pub fn config(&self) -> (config: &Http3ServerConfig)
        ensures
            *config == self.spec_config(),
    {
        &self.config
    }

    /// Decides how to start: inert without a bind address, before any TLS material is looked
    /// at; otherwise the QUIC server configuration is built from the certificate chain and key
    /// and the listener is to be bound at the configured address. With a bind address and a
    /// non-empty chain, starting is planned exactly when rustls accepts the chain and key.
    pub fn plan_start(
        self,
        tls_cert_chain: Vec<CertificateDer<'static>>,
        tls_private_key: PrivateKeyDer<'static>,
    ) -> (res: Result<StartPlan, Error>)
        ensures
            self.spec_config().bind_h3 is None ==> res matches Ok(StartPlan::Inert),
            self.spec_config().bind_h3 is Some && tls_cert_chain@.len() == 0 ==> res is Err
                && res->Err_0@ == (ErrorKind::InvalidTls, "empty certificate chain"@),
            self.spec_config().bind_h3 is Some && tls_cert_chain@.len() > 0 ==> (res is Ok
                <==> crate::tls::tls_material_accepted(tls_cert_chain@, tls_private_key)),
            self.spec_config().bind_h3 is Some ==> (res matches Ok(plan) ==> plan matches
                StartPlan::Listen { bind_addr, server_config, zero_rtt_methods } && Some(bind_addr)
                == self.spec_config().bind_h3 && zero_rtt_methods@
                == self.spec_config().zero_rtt_idempotent_methods@ && crate::tls::is_h3_quic_server_config(
                server_config,
                tls_cert_chain@,
                tls_private_key,
            )),
            self.spec_config().bind_h3 is Some && tls_cert_chain@.len() > 0
                && !crate::tls::tls_material_accepted(tls_cert_chain@, tls_private_key) ==> (res matches Err(
                Error::InvalidTls(detail),
            ) && vstd::string::to_string_from_display_ensures::<rustls::Error>(
                &crate::tls::tls_material_error(tls_cert_chain@, tls_private_key),
                detail,
            )),
            res is Err ==> res->Err_0@.0 == ErrorKind::InvalidTls,
    {
        let bind_addr = match self.config.bind_h3 {
            None => return Ok(StartPlan::Inert),
            Some(addr) => addr,
        };
        let server_config = match quic_server_config(tls_cert_chain, tls_private_key) {
            Ok(c) => c,
            Err(e) => return Err(e),
        };
        Ok(
            StartPlan::Listen {
                bind_addr,
                server_config,
                zero_rtt_methods: self.config.zero_rtt_idempotent_methods,
            },
        )
    }
}

/// State of the handle returned by starting the server.
#[derive(Clone, Copy, Debug, PartialEq, Eq)]
pub enum Http3HandleState {
    /// The server was configured without a listener.
    Inert,
    /// The accept loop runs on a listener bound at `local_addr`.
    Running { local_addr: SocketAddress },
    /// The accept loop has finished and its outcome has been reported.
    Done,
}

/// What polling the accept-loop task gave.
pub enum AcceptTaskPoll {
    /// The task is still running.
    Pending,
    /// The task returned this outcome.
    Joined(Result<(), Error>),
    /// The task could not be joined (it panicked or was cancelled); the join error's text.
    Failed(String),
}

/// What polling the handle gives.
pub enum HandlePoll {
    /// The accept loop is still running.
    Pending,
    /// The accept loop's outcome.
    Ready(Result<(), Error>),
}

/// The signals to send when shutting a running listener down: `true` on the shutdown
/// channel, and closing the QUIC endpoint with `close_code` and `reason`.
pub struct ShutdownSignal {
    pub close_code: u32,
    pub reason: Vec<u8>,
}

/// The ASCII bytes of `shutdown`.
pub open spec fn shutdown_reason() -> Seq<u8> {
    seq![115u8, 104u8, 117u8, 116u8, 100u8, 111u8, 119u8, 110u8]
}

/// The handle has no running listener (it is inert, or its accept loop is done).
pub open spec fn handle_is_inert(state: Http3HandleState) -> bool {
    !(state is Running)
}

/// The bound address of a running listener.
pub open spec fn handle_local_addr(state: Http3HandleState) -> Option<SocketAddress> {
    match state {
        Http3HandleState::Running { local_addr } => Some(local_addr),
        _ => None,
    }
}

/// Whether the accept loop has finished, given whether its task has.
pub open spec fn handle_is_finished(state: Http3HandleState, task_finished: bool) -> bool {
    match state {
        Http3HandleState::Running { .. } => task_finished,
        _ => true,
    }
}

impl Http3HandleState {
    /// The handle of an inert server.
    pub fn inert() -> (state: Self)
        ensures
            state == Http3HandleState::Inert,
    {
        Http3HandleState::Inert
    }

    /// The handle of a listener bound at `local_addr`.
    pub fn running(local_addr: SocketAddress) -> (state: Self)
        ensures
            state == (Http3HandleState::Running { local_addr }),
    {
        Http3HandleState::Running { local_addr }
    }

    /// Return whether this handle has no running listener.
    pub fn is_inert(&self) -> (inert: bool)
        ensures
            inert == handle_is_inert(*self),
    {
        match self {
            Http3HandleState::Running { .. } => false,
            _ => true,
        }
    }

    /// Return the bound UDP address for a running HTTP/3 listener.
    pub fn local_addr(&self) -> (addr: Option<SocketAddress>)
        ensures
            addr == handle_local_addr(*self),
    {
        match self {
            Http3HandleState::Running { local_addr } => Some(*local_addr),
            _ => None,
        }
    }

    /// Return whether the accept loop has finished, given whether its task has.
    pub fn is_finished(&self, accept_task_finished: bool) -> (finished: bool)
        ensures
            finished == handle_is_finished(*self, accept_task_finished),
    {
        match self {
            Http3HandleState::Running { .. } => accept_task_finished,
            _ => true,
        }
    }

    /// The signals that shutting down sends: for a running listener, `true` on the shutdown
    /// channel and closing the endpoint with code 0 and reason `shutdown`; nothing otherwise.
    pub fn shutdown(&self) -> (signal: Option<ShutdownSignal>)
        ensures
            signal is Some <==> *self is Running,
            signal matches Some(s) ==> s.close_code == 0 && s.reason@ == shutdown_reason(),
    {
        match self {
            Http3HandleState::Running { .. } => {
                let reason = vec![115u8, 104u8, 117u8, 116u8, 100u8, 111u8, 119u8, 110u8];
                assert(reason@ =~= shutdown_reason());
                Some(ShutdownSignal { close_code: 0, reason })
            },
            _ => None,
        }
    }

    /// Polls the handle: an inert or finished handle is ready with success; a running one
    /// reports what its accept-loop task gave, and is done once the task has finished.
    pub fn poll(&mut self, task: AcceptTaskPoll) -> (res: HandlePoll)
        ensures
            !(*old(self) is Running) ==> *final(self) == *old(self) && res matches HandlePoll::Ready(
                Ok(()),
            ),
            *old(self) is Running && task is Pending ==> *final(self) == *old(self)
                && res is Pending,
            *old(self) is Running && task is Joined ==> *final(self) == Http3HandleState::Done
                && res == HandlePoll::Ready(task->Joined_0),
            *old(self) is Running && task is Failed ==> (*final(self) == Http3HandleState::Done
                && (res matches HandlePoll::Ready(Err(e)) && e@ == (
                ErrorKind::Internal,
                "accept task failed: "@ + task->Failed_0@,
            ))),
    {
        match self {
            Http3HandleState::Running { .. } => match task {
                AcceptTaskPoll::Pending => HandlePoll::Pending,
                AcceptTaskPoll::Joined(outcome) => {
                    *self = Http3HandleState::Done;
                    HandlePoll::Ready(outcome)
                },
                AcceptTaskPoll::Failed(detail) => {
                    *self = Http3HandleState::Done;
                    HandlePoll::Ready(
                        Err(crate::error::internal_error("accept task failed: ", detail.as_str())),
                    )
                },
            },
            _ => HandlePoll::Ready(Ok(())),
        }
    }
}

/// A handle whose listener is gone (inert, or done after its outcome was reported) is inert,
/// has no address, counts as finished, sends nothing on shutdown and polls ready at once;
/// and the handle of a running listener reports its bound address.
pub proof fn lemma_handle_views(state: Http3HandleState, task_finished: bool)
    ensures
        !(state is Running) ==> handle_is_inert(state) && handle_local_addr(state) is None
            && handle_is_finished(state, task_finished),
        state matches Http3HandleState::Running { local_addr } ==> !handle_is_inert(state)
            && handle_local_addr(state) == Some(local_addr) && handle_is_finished(
            state,
            task_finished,
        ) == task_finished,
{
}

} // verus!

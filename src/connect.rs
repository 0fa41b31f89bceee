//! How the outbound connection of a relay is made.
use vstd::prelude::*;

use crate::addr::{Family, SockAddr};
use crate::error::ProxyError;
use crate::relay::{select_strategy, Strategy};

verus! {

/// Per-relay settings, fixed before the relay starts.
#[derive(Clone, Copy, Debug, PartialEq, Eq, Structural)]
pub struct ConnectOpts {
    /// Seconds that resolution and connect may take together; 0 for no limit.
    pub tcp_timeout: usize,
    /// Not used by TCP relays; carried for the UDP side.
    pub udp_timeout: usize,
    /// Whether TCP Fast Open is wanted.
    pub fast_open: bool,
    /// Whether kernel splicing is wanted.
    pub zero_copy: bool,
    /// The local address to bind the outbound socket to, if any.
    pub send_through: Option<SockAddr>,
}

/// What the platform this build runs on can do.
#[derive(Clone, Copy, Debug, PartialEq, Eq, Structural)]
pub struct Capabilities {
    pub fast_open: bool,
    pub splice: bool,
}

/// The steps that make the outbound connection.
#[derive(Clone, Copy, Debug, PartialEq, Eq, Structural)]
pub enum ConnectPlan {
    /// Connect straight to `remote`.
    Direct { remote: SockAddr, fast_open: bool },
    /// Create a socket of `family`, ask for address and port reuse (a
    /// failure there is only a warning), bind it to `local` (a failure there
    /// is a bind error), then connect it to `remote`.
    Bound { family: Family, local: SockAddr, remote: SockAddr, fast_open: bool },
}

/// The plan for `remote` under `opts`.
///
/// Fast Open is used only where it was asked for and the platform has it;
/// otherwise the connect is a standard one. A send-through address of
/// another family than `remote` fails at once with a connect error.
pub open spec fn plan_for(remote: SockAddr, opts: ConnectOpts, caps: Capabilities) -> Result<
    ConnectPlan,
    ProxyError,
> {
    let fast_open = opts.fast_open && caps.fast_open;
    match opts.send_through {
        None => Ok(ConnectPlan::Direct { remote, fast_open }),
        Some(local) => if local.family_of() == remote.family_of() {
            Ok(ConnectPlan::Bound { family: local.family_of(), local, remote, fast_open })
        } else {
            Err(ProxyError::Connect)
        },
    }
}

pub fn plan_connect(remote: SockAddr, opts: &ConnectOpts, caps: Capabilities) -> (r: Result<
    ConnectPlan,
    ProxyError,
>)
    ensures
        r == plan_for(remote, *opts, caps),
{
    let fast_open = opts.fast_open && caps.fast_open;
    match opts.send_through {
        None => Ok(ConnectPlan::Direct { remote, fast_open }),
        Some(local) => {
            let family = local.family();
            if family == remote.family() {
                Ok(ConnectPlan::Bound { family, local, remote, fast_open })
            } else {
                Err(ProxyError::Connect)
            }
        },
    }
}

/// The time limit on resolution and connect, in seconds: none for 0.
pub fn connect_timeout(tcp_timeout: usize) -> (r: Option<u64>)
    ensures
        r == (if tcp_timeout == 0 { None } else { Some(tcp_timeout as u64) }),
{
    if tcp_timeout == 0 {
        None
    } else {
        Some(tcp_timeout as u64)
    }
}

/// The plan and strategy for `remote`, or why there is none.
pub open spec fn prepare_for(remote: SockAddr, opts: ConnectOpts, caps: Capabilities) -> Result<
    (ConnectPlan, Strategy),
    ProxyError,
> {
    match plan_for(remote, opts, caps) {
        Ok(plan) => Ok((plan, if opts.zero_copy && caps.splice { Strategy::ZeroCopy } else { Strategy::Buffered })),
        Err(e) => Err(e),
    }
}

/// Everything decided about one relay once the remote is resolved: how to
/// connect, and which strategy moves the bytes. Both are fixed before any
/// byte is moved.
pub fn prepare(remote: SockAddr, opts: &ConnectOpts, caps: Capabilities) -> (r: Result<
    (ConnectPlan, Strategy),
    ProxyError,
>)
    ensures
        r == prepare_for(remote, *opts, caps),
{
    match plan_connect(remote, opts, caps) {
        Ok(plan) => Ok((plan, select_strategy(opts.zero_copy, caps.splice))),
        Err(e) => Err(e),
    }
}

/// Where one relay attempt stands.
#[derive(Clone, Copy, Debug, PartialEq, Eq)]
pub enum Stage {
    /// The remote descriptor is being resolved.
    Resolving,
    /// The outbound connection is being made; the strategy is already chosen.
    Connecting(Strategy),
    /// Bytes are being relayed with the strategy chosen.
    Relaying(Strategy),
    /// The attempt is over; both streams are to be closed.
    Finished(Result<(u64, u64), ProxyError>),
}

/// What came of the last action of a relay attempt.
#[derive(Clone, Copy, Debug, PartialEq, Eq)]
pub enum Outcome {
    Resolved(SockAddr),
    ResolveFailed,
    /// Resolution and connect together took longer than the timeout.
    TimedOut,
    BindFailed,
    ConnectFailed,
    /// The outbound stream is connected (and both streams were tuned).
    Connected,
    /// The relay engine ended with this result.
    Relayed(Result<(u64, u64), ProxyError>),
}

/// What a relay attempt does next.
#[derive(Clone, Copy, Debug, PartialEq, Eq)]
pub enum Directive {
    /// Make the outbound connection by this plan.
    Connect(ConnectPlan),
    /// Run the relay engine with this strategy.
    Relay(Strategy),
    /// Close both streams and report this result.
    Finish(Result<(u64, u64), ProxyError>),
}

/// The decisions of one relay attempt: resolve, connect, relay, finish.
/// Every failure finishes the attempt with its own error, and nothing is
/// retried.
#[derive(Clone, Copy, Debug, PartialEq, Eq)]
pub struct Session {
    pub opts: ConnectOpts,
    pub caps: Capabilities,
    pub stage: Stage,
}

/// The error that an outcome reports, if it is a failure.
pub open spec fn failure_of(o: Outcome) -> Option<ProxyError> {
    match o {
        Outcome::ResolveFailed => Some(ProxyError::Resolution),
        Outcome::TimedOut => Some(ProxyError::Timeout),
        Outcome::BindFailed => Some(ProxyError::Bind),
        Outcome::ConnectFailed => Some(ProxyError::Connect),
        _ => None,
    }
}

impl Session {
    /// The session after `o`, and the directive it gives.
    ///
    /// An outcome that the stage does not expect leaves the session as it
    /// is and repeats nothing: the directive is `None`.
    pub open spec fn next(self, o: Outcome) -> (Session, Option<Directive>) {
        let finish = |res: Result<(u64, u64), ProxyError>|
            (Session { stage: Stage::Finished(res), ..self }, Some(Directive::Finish(res)));
        match (self.stage, o) {
            (Stage::Resolving, Outcome::Resolved(remote)) => match prepare_for(remote, self.opts, self.caps) {
                Ok((plan, strategy)) => (
                    Session { stage: Stage::Connecting(strategy), ..self },
                    Some(Directive::Connect(plan)),
                ),
                Err(e) => finish(Err(e)),
            },
            (Stage::Resolving, Outcome::ResolveFailed) => finish(Err(ProxyError::Resolution)),
            (Stage::Resolving, Outcome::TimedOut) => finish(Err(ProxyError::Timeout)),
            (Stage::Connecting(strategy), Outcome::Connected) => (
                Session { stage: Stage::Relaying(strategy), ..self },
                Some(Directive::Relay(strategy)),
            ),
            (Stage::Connecting(_), Outcome::BindFailed) => finish(Err(ProxyError::Bind)),
            (Stage::Connecting(_), Outcome::ConnectFailed) => finish(Err(ProxyError::Connect)),
            (Stage::Connecting(_), Outcome::TimedOut) => finish(Err(ProxyError::Timeout)),
            (Stage::Relaying(_), Outcome::Relayed(res)) => finish(res),
            _ => (self, None),
        }
    }

    /// A new attempt, about to resolve the remote.
    pub fn new(opts: ConnectOpts, caps: Capabilities) -> (s: Session)
        ensures
            s == (Session { opts, caps, stage: Stage::Resolving }),
    {
        Session { opts, caps, stage: Stage::Resolving }
    }

    /// Takes the outcome of the last directive and gives the next one.
    pub fn advance(&mut self, o: Outcome) -> (d: Option<Directive>)
        ensures
            (*final(self), d) == old(self).next(o),
    {
        let finish = match (self.stage, o) {
            (Stage::Resolving, Outcome::Resolved(remote)) => match prepare(remote, &self.opts, self.caps) {
                Ok((plan, strategy)) => {
                    self.stage = Stage::Connecting(strategy);
                    return Some(Directive::Connect(plan));
                },
                Err(e) => Err(e),
            },
            (Stage::Resolving, Outcome::ResolveFailed) => Err(ProxyError::Resolution),
            (Stage::Resolving, Outcome::TimedOut) => Err(ProxyError::Timeout),
            (Stage::Connecting(strategy), Outcome::Connected) => {
                self.stage = Stage::Relaying(strategy);
                return Some(Directive::Relay(strategy));
            },
            (Stage::Connecting(_), Outcome::BindFailed) => Err(ProxyError::Bind),
            (Stage::Connecting(_), Outcome::ConnectFailed) => Err(ProxyError::Connect),
            (Stage::Connecting(_), Outcome::TimedOut) => Err(ProxyError::Timeout),
            (Stage::Relaying(_), Outcome::Relayed(res)) => res,
            _ => {
                return None;
            },
        };
        self.stage = Stage::Finished(finish);
        Some(Directive::Finish(finish))
    }
}

/// Fault containment: a failed resolve, bind or connect, or a timeout,
/// finishes the attempt with that error and never reaches the relay.
pub proof fn lemma_failure_finishes(s: Session, o: Outcome)
    requires
        (s.stage is Resolving && (o is ResolveFailed || o is TimedOut)) || (s.stage is Connecting
            && (o is BindFailed || o is ConnectFailed || o is TimedOut)),
    ensures
        failure_of(o) is Some,
        s.next(o).0.stage == Stage::Finished(Err(failure_of(o)->0)),
        s.next(o).1 == Some(Directive::Finish(Err(failure_of(o)->0))),
{
}

/// Bytes are relayed only once the outbound connection is made: the relay
/// stage is entered from the connecting stage on `Connected` alone, with the
/// strategy chosen before the connect.
pub proof fn lemma_relay_only_after_connect(s: Session, o: Outcome)
    requires
        !(s.stage is Relaying),
        s.next(o).0.stage is Relaying,
    ensures
        s.stage is Connecting,
        o is Connected,
        s.next(o).0.stage == Stage::Relaying(s.stage->Connecting_0),
        s.next(o).1 == Some(Directive::Relay(s.stage->Connecting_0)),
{
}

} // verus!

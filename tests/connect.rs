use realm::addr::{Family, SockAddr};
use realm::connect::{
    connect_timeout, plan_connect, prepare, Capabilities, ConnectOpts, ConnectPlan, Directive,
    Outcome, Session, Stage,
};
use realm::error::ProxyError;
use realm::relay::Strategy;

const LOOPBACK: u32 = 0x7f00_0001;

fn opts(send_through: Option<SockAddr>, fast_open: bool, zero_copy: bool) -> ConnectOpts {
    ConnectOpts { tcp_timeout: 5, udp_timeout: 30, fast_open, zero_copy, send_through }
}

fn remote() -> SockAddr {
    SockAddr::V4 { v4: LOOPBACK, port: 8080 }
}

const ALL: Capabilities = Capabilities { fast_open: true, splice: true };
const NONE: Capabilities = Capabilities { fast_open: false, splice: false };

#[test]
fn direct_without_send_through() {
    let r = plan_connect(remote(), &opts(None, true, false), ALL);
    assert_eq!(r, Ok(ConnectPlan::Direct { remote: remote(), fast_open: true }));
}

#[test]
fn bound_with_loopback_send_through() {
    let local = SockAddr::V4 { v4: LOOPBACK, port: 0 };
    let r = plan_connect(remote(), &opts(Some(local), false, false), ALL);
    assert_eq!(
        r,
        Ok(ConnectPlan::Bound { family: Family::V4, local, remote: remote(), fast_open: false })
    );
}

#[test]
fn fast_open_falls_back_without_support() {
    let local = SockAddr::V4 { v4: LOOPBACK, port: 0 };
    let r = plan_connect(remote(), &opts(Some(local), true, false), NONE);
    assert_eq!(
        r,
        Ok(ConnectPlan::Bound { family: Family::V4, local, remote: remote(), fast_open: false })
    );
}

#[test]
fn mixed_families_fail_fast() {
    let local = SockAddr::V6 { v6: 1, port: 0 };
    assert_eq!(plan_connect(remote(), &opts(Some(local), false, false), ALL), Err(ProxyError::Connect));
    assert_eq!(local.family(), Family::V6);
    assert_eq!(local.port(), 0);
}

#[test]
fn timeout_zero_disables() {
    assert_eq!(connect_timeout(0), None);
    assert_eq!(connect_timeout(300), Some(300));
}

#[test]
fn prepare_picks_plan_and_strategy() {
    let r = prepare(remote(), &opts(None, false, true), ALL);
    assert_eq!(r, Ok((ConnectPlan::Direct { remote: remote(), fast_open: false }, Strategy::ZeroCopy)));
    let r = prepare(remote(), &opts(None, false, true), NONE);
    assert_eq!(r, Ok((ConnectPlan::Direct { remote: remote(), fast_open: false }, Strategy::Buffered)));
}

#[test]
fn refused_connect_then_reachable_remote() {
    let mut s = Session::new(opts(None, false, false), NONE);
    assert_eq!(
        s.advance(Outcome::Resolved(remote())),
        Some(Directive::Connect(ConnectPlan::Direct { remote: remote(), fast_open: false }))
    );
    assert_eq!(s.advance(Outcome::ConnectFailed), Some(Directive::Finish(Err(ProxyError::Connect))));
    assert_eq!(s.stage, Stage::Finished(Err(ProxyError::Connect)));
    // Nothing happens after the attempt is over.
    assert_eq!(s.advance(Outcome::Connected), None);

    let other = SockAddr::V4 { v4: LOOPBACK, port: 9090 };
    let mut t = Session::new(opts(None, false, false), NONE);
    assert_eq!(
        t.advance(Outcome::Resolved(other)),
        Some(Directive::Connect(ConnectPlan::Direct { remote: other, fast_open: false }))
    );
    assert_eq!(t.advance(Outcome::Connected), Some(Directive::Relay(Strategy::Buffered)));
    assert_eq!(t.advance(Outcome::Relayed(Ok((4, 4)))), Some(Directive::Finish(Ok((4, 4)))));
    assert_eq!(t.stage, Stage::Finished(Ok((4, 4))));
}

#[test]
fn each_failure_has_its_error() {
    let mut s = Session::new(opts(None, false, false), NONE);
    assert_eq!(s.advance(Outcome::ResolveFailed), Some(Directive::Finish(Err(ProxyError::Resolution))));
    let mut s = Session::new(opts(None, false, false), NONE);
    assert_eq!(s.advance(Outcome::TimedOut), Some(Directive::Finish(Err(ProxyError::Timeout))));
    let local = SockAddr::V4 { v4: LOOPBACK, port: 0 };
    let mut s = Session::new(opts(Some(local), false, false), NONE);
    assert!(matches!(s.advance(Outcome::Resolved(remote())), Some(Directive::Connect(_))));
    assert_eq!(s.advance(Outcome::BindFailed), Some(Directive::Finish(Err(ProxyError::Bind))));
    let mut s = Session::new(opts(Some(local), false, false), NONE);
    let v6 = SockAddr::V6 { v6: 1, port: 80 };
    assert_eq!(s.advance(Outcome::Resolved(v6)), Some(Directive::Finish(Err(ProxyError::Connect))));
    let mut s = Session::new(opts(None, false, true), ALL);
    s.advance(Outcome::Resolved(remote()));
    assert_eq!(s.advance(Outcome::Connected), Some(Directive::Relay(Strategy::ZeroCopy)));
    assert_eq!(
        s.advance(Outcome::Relayed(Err(ProxyError::Transfer))),
        Some(Directive::Finish(Err(ProxyError::Transfer)))
    );
}

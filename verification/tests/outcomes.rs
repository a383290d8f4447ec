use tcp_options::{apply_outcomes, ApplyTcpOptionsError, CallOutcomes, Stage, TcpOptions};

fn io_err() -> std::io::Error {
    std::io::Error::new(std::io::ErrorKind::Other, "synthetic failure")
}

fn options(
    nodelay: bool,
    recv: Option<usize>,
    send: Option<usize>,
    fwmark: Option<u32>,
) -> TcpOptions {
    TcpOptions { nodelay, recv_buffer_size: recv, send_buffer_size: send, fwmark }
}

fn all_ok() -> CallOutcomes {
    CallOutcomes {
        set_nodelay: Ok(()),
        get_nodelay: Ok(true),
        set_recv_buffer: Ok(()),
        get_recv_buffer: Ok(16384),
        set_send_buffer: Ok(()),
        get_send_buffer: Ok(16384),
        set_mark: Ok(()),
        get_mark: Ok(0),
    }
}

#[test]
fn all_success_resolves_ok() {
    let o = options(true, Some(8192), Some(8192), Some(601));
    assert!(apply_outcomes(&o, all_ok()).is_ok());
}

#[test]
fn first_call_failure_is_a_nodelay_failure() {
    // A dead socket handle fails every call; the reported failure is the
    // first stage's, and no later stage is consulted.
    let o = options(true, Some(8192), Some(8192), Some(601));
    let c = CallOutcomes {
        set_nodelay: Err(io_err()),
        get_nodelay: Err(io_err()),
        set_recv_buffer: Err(io_err()),
        get_recv_buffer: Err(io_err()),
        set_send_buffer: Err(io_err()),
        get_send_buffer: Err(io_err()),
        set_mark: Err(nix::errno::Errno::EBADF),
        get_mark: Err(nix::errno::Errno::EBADF),
    };
    let r = apply_outcomes(&o, c);
    assert!(matches!(r, Err(ApplyTcpOptionsError::NoDelay(_))));
}

#[test]
fn requested_recv_set_failure_is_a_recv_buffer_failure() {
    let o = options(false, Some(8192), None, None);
    let c = CallOutcomes { set_recv_buffer: Err(io_err()), ..all_ok() };
    let r = apply_outcomes(&o, c);
    assert!(matches!(r, Err(ApplyTcpOptionsError::RecvBuffer(_))));
}

#[test]
fn unrequested_recv_set_outcome_is_ignored() {
    // No receive-buffer size was requested, so the set call is never made
    // and its outcome cannot matter.
    let o = options(false, None, None, None);
    let c = CallOutcomes { set_recv_buffer: Err(io_err()), ..all_ok() };
    assert!(apply_outcomes(&o, c).is_ok());
}

#[test]
fn unrequested_send_set_outcome_is_ignored() {
    let o = options(false, None, None, None);
    let c = CallOutcomes { set_send_buffer: Err(io_err()), ..all_ok() };
    assert!(apply_outcomes(&o, c).is_ok());
}

#[test]
fn unrequested_mark_set_outcome_is_ignored() {
    let o = options(false, None, None, None);
    let c = CallOutcomes { set_mark: Err(nix::errno::Errno::EPERM), ..all_ok() };
    assert!(apply_outcomes(&o, c).is_ok());
}

#[test]
fn send_readback_failure_aborts_without_a_request() {
    // Read-backs run unconditionally; their failure is classified like the
    // stage's set failure even when nothing was requested.
    let o = options(false, None, None, None);
    let c = CallOutcomes { get_send_buffer: Err(io_err()), ..all_ok() };
    let r = apply_outcomes(&o, c);
    assert!(matches!(r, Err(ApplyTcpOptionsError::SendBuffer(_))));
}

#[test]
fn mark_readback_failure_aborts_without_a_request() {
    let o = options(false, None, None, None);
    let c = CallOutcomes { get_mark: Err(nix::errno::Errno::EPERM), ..all_ok() };
    let r = apply_outcomes(&o, c);
    assert!(matches!(r, Err(ApplyTcpOptionsError::Mark(_))));
}

#[test]
fn first_failing_stage_in_order_wins() {
    let o = options(false, Some(8192), Some(8192), None);
    let c = CallOutcomes {
        set_recv_buffer: Err(io_err()),
        set_send_buffer: Err(io_err()),
        ..all_ok()
    };
    let r = apply_outcomes(&o, c);
    assert!(matches!(r, Err(ApplyTcpOptionsError::RecvBuffer(_))));
}

#[test]
fn mark_failure_comes_after_every_other_stage() {
    let o = options(true, Some(8192), Some(8192), Some(601));
    let c = CallOutcomes { set_mark: Err(nix::errno::Errno::EPERM), ..all_ok() };
    let r = apply_outcomes(&o, c);
    assert!(matches!(r, Err(ApplyTcpOptionsError::Mark(nix::errno::Errno::EPERM))));
}

#[test]
fn error_stages_and_labels() {
    let nodelay = ApplyTcpOptionsError::NoDelay(io_err());
    let recv = ApplyTcpOptionsError::RecvBuffer(io_err());
    let send = ApplyTcpOptionsError::SendBuffer(io_err());
    let mark = ApplyTcpOptionsError::Mark(nix::errno::Errno::EPERM);
    assert_eq!(nodelay.stage(), Stage::NoDelay);
    assert_eq!(recv.stage(), Stage::RecvBuffer);
    assert_eq!(send.stage(), Stage::SendBuffer);
    assert_eq!(mark.stage(), Stage::Mark);
    assert_eq!(nodelay.label(), "Failed to get/set TCP_NODELAY");
    assert_eq!(recv.label(), "Failed to get/set TCP_RCVBUF");
    assert_eq!(send.label(), "Failed to get/set TCP_SNDBUF");
    assert_eq!(mark.label(), "Failed to get/set SO_MARK");
}

//! Socket tuning for an established TCP connection.
//!
//! An immutable [`TcpOptions`] record says which options a connection should
//! get; [`apply`] enacts them against the operating-system socket in a fixed
//! order and reports the first stage that failed as an
//! [`ApplyTcpOptionsError`]. The mapping from the outcomes of the individual
//! socket calls to the final result is pure logic, written down in
//! [`apply_result`] and proved of [`apply_outcomes`].

use vstd::prelude::*;

mod sys;

verus! {

/// Options to apply to the TCP socket involved in the tunneling.
#[derive(Clone, Copy, Debug)]
pub struct TcpOptions {
    /// Sets the TCP_NODELAY option on the TCP socket.
    /// If set to true, this option disables the Nagle algorithm.
    /// This means that segments are always sent as soon as possible.
    pub nodelay: bool,

    /// If given, sets the SO_RCVBUF option on the TCP socket to the given number of bytes.
    /// Changes the size of the operating system's receive buffer associated with the socket.
    pub recv_buffer_size: Option<usize>,

    /// If given, sets the SO_SNDBUF option on the TCP socket to the given number of bytes.
    /// Changes the size of the operating system's send buffer associated with the socket.
    pub send_buffer_size: Option<usize>,

    /// If given, sets the SO_MARK option on the TCP socket.
    pub fwmark: Option<u32>,
}

/// The first stage of the application sequence that failed.
///
/// Each stage covers both the set call of its option, where one was
/// requested, and the unconditional read-back of the option's current value.
#[derive(Clone, Copy, Debug, PartialEq, Eq, Structural)]
pub enum Stage {
    NoDelay,
    RecvBuffer,
    SendBuffer,
    Mark,
}

/// A failure of [`apply`], wrapping the operating-system error that
/// the failing stage produced.
#[derive(Debug)]
pub enum ApplyTcpOptionsError {
    /// Failed to get/set TCP_NODELAY
    NoDelay(std::io::Error),

    /// Failed to get/set TCP_RCVBUF
    RecvBuffer(std::io::Error),

    /// Failed to get/set TCP_SNDBUF
    SendBuffer(std::io::Error),

    /// Failed to get/set SO_MARK
    Mark(nix::errno::Errno),
}

impl ApplyTcpOptionsError {
    /// Which stage of the application sequence this error comes from.
    pub open spec fn stage_spec(&self) -> Stage {
        match self {
            ApplyTcpOptionsError::NoDelay(_) => Stage::NoDelay,
            ApplyTcpOptionsError::RecvBuffer(_) => Stage::RecvBuffer,
            ApplyTcpOptionsError::SendBuffer(_) => Stage::SendBuffer,
            ApplyTcpOptionsError::Mark(_) => Stage::Mark,
        }
    }

    /// Returns the stage of the application sequence that this error comes from.
    pub fn stage(&self) -> (r: Stage)
        ensures
            r == self.stage_spec(),
    {
        match self {
            ApplyTcpOptionsError::NoDelay(_) => Stage::NoDelay,
            ApplyTcpOptionsError::RecvBuffer(_) => Stage::RecvBuffer,
            ApplyTcpOptionsError::SendBuffer(_) => Stage::SendBuffer,
            ApplyTcpOptionsError::Mark(_) => Stage::Mark,
        }
    }

    /// The fixed human-readable label of this error's stage.
    pub fn label(&self) -> (r: &'static str)
        ensures
            self.stage_spec() == Stage::NoDelay ==> r@ == "Failed to get/set TCP_NODELAY"@,
            self.stage_spec() == Stage::RecvBuffer ==> r@ == "Failed to get/set TCP_RCVBUF"@,
            self.stage_spec() == Stage::SendBuffer ==> r@ == "Failed to get/set TCP_SNDBUF"@,
            self.stage_spec() == Stage::Mark ==> r@ == "Failed to get/set SO_MARK"@,
    {
        match self {
            ApplyTcpOptionsError::NoDelay(_) => "Failed to get/set TCP_NODELAY",
            ApplyTcpOptionsError::RecvBuffer(_) => "Failed to get/set TCP_RCVBUF",
            ApplyTcpOptionsError::SendBuffer(_) => "Failed to get/set TCP_SNDBUF",
            ApplyTcpOptionsError::Mark(_) => "Failed to get/set SO_MARK",
        }
    }
}

/// The outcomes of the eight operating-system calls that one run of the
/// application sequence can make, in the order they would be attempted.
///
/// A `set_*` field whose option was not requested is never consulted:
/// [`apply_result`] ignores it, and [`apply`] never makes the call.
pub struct CallOutcomes {
    /// Setting TCP_NODELAY (always attempted).
    pub set_nodelay: Result<(), std::io::Error>,
    /// Reading TCP_NODELAY back (always attempted).
    pub get_nodelay: Result<bool, std::io::Error>,
    /// Setting SO_RCVBUF (attempted only if a size was requested).
    pub set_recv_buffer: Result<(), std::io::Error>,
    /// Reading SO_RCVBUF back (always attempted).
    pub get_recv_buffer: Result<usize, std::io::Error>,
    /// Setting SO_SNDBUF (attempted only if a size was requested).
    pub set_send_buffer: Result<(), std::io::Error>,
    /// Reading SO_SNDBUF back (always attempted).
    pub get_send_buffer: Result<usize, std::io::Error>,
    /// Setting SO_MARK (attempted only if a mark was requested).
    pub set_mark: Result<(), nix::errno::Errno>,
    /// Reading SO_MARK back (always attempted).
    pub get_mark: Result<u32, nix::errno::Errno>,
}

/// What the application sequence returns for the given options when the
/// operating-system calls it makes come out as `c` says.
///
/// The stages run in the fixed order no-delay, receive buffer, send buffer,
/// mark; each stage sets its option only if the options request it, reads the
/// option back unconditionally, and the sequence stops at the first failure,
/// classified by the stage it happened in.
pub open spec fn apply_result(o: TcpOptions, c: CallOutcomes) -> Result<(), ApplyTcpOptionsError> {
    if c.set_nodelay is Err {
        Err(ApplyTcpOptionsError::NoDelay(c.set_nodelay->Err_0))
    } else if c.get_nodelay is Err {
        Err(ApplyTcpOptionsError::NoDelay(c.get_nodelay->Err_0))
    } else if o.recv_buffer_size is Some && c.set_recv_buffer is Err {
        Err(ApplyTcpOptionsError::RecvBuffer(c.set_recv_buffer->Err_0))
    } else if c.get_recv_buffer is Err {
        Err(ApplyTcpOptionsError::RecvBuffer(c.get_recv_buffer->Err_0))
    } else if o.send_buffer_size is Some && c.set_send_buffer is Err {
        Err(ApplyTcpOptionsError::SendBuffer(c.set_send_buffer->Err_0))
    } else if c.get_send_buffer is Err {
        Err(ApplyTcpOptionsError::SendBuffer(c.get_send_buffer->Err_0))
    } else if o.fwmark is Some && c.set_mark is Err {
        Err(ApplyTcpOptionsError::Mark(c.set_mark->Err_0))
    } else if c.get_mark is Err {
        Err(ApplyTcpOptionsError::Mark(c.get_mark->Err_0))
    } else {
        Ok(())
    }
}

/// Resolves a full record of call outcomes to the result the application
/// sequence returns for it: the first failure in stage order, classified by
/// its stage, or success if every consulted call succeeded.
pub fn apply_outcomes(options: &TcpOptions, c: CallOutcomes) -> (r: Result<
    (),
    ApplyTcpOptionsError,
>)
    ensures
        r == apply_result(*options, c),
{
    let CallOutcomes {
        set_nodelay,
        get_nodelay,
        set_recv_buffer,
        get_recv_buffer,
        set_send_buffer,
        get_send_buffer,
        set_mark,
        get_mark,
    } = c;
    if let Err(e) = set_nodelay {
        return Err(ApplyTcpOptionsError::NoDelay(e));
    }
    if let Err(e) = get_nodelay {
        return Err(ApplyTcpOptionsError::NoDelay(e));
    }
    if options.recv_buffer_size.is_some() {
        if let Err(e) = set_recv_buffer {
            return Err(ApplyTcpOptionsError::RecvBuffer(e));
        }
    }
    if let Err(e) = get_recv_buffer {
        return Err(ApplyTcpOptionsError::RecvBuffer(e));
    }
    if options.send_buffer_size.is_some() {
        if let Err(e) = set_send_buffer {
            return Err(ApplyTcpOptionsError::SendBuffer(e));
        }
    }
    if let Err(e) = get_send_buffer {
        return Err(ApplyTcpOptionsError::SendBuffer(e));
    }
    if options.fwmark.is_some() {
        if let Err(e) = set_mark {
            return Err(ApplyTcpOptionsError::Mark(e));
        }
    }
    if let Err(e) = get_mark {
        return Err(ApplyTcpOptionsError::Mark(e));
    }
    Ok(())
}

/// Every call that the application sequence would consult for the given
/// options came out successful: the two no-delay calls, the set call of each
/// requested option, and every read-back.
pub open spec fn consulted_calls_ok(o: TcpOptions, c: CallOutcomes) -> bool {
    &&& c.set_nodelay is Ok
    &&& c.get_nodelay is Ok
    &&& o.recv_buffer_size is Some ==> c.set_recv_buffer is Ok
    &&& c.get_recv_buffer is Ok
    &&& o.send_buffer_size is Some ==> c.set_send_buffer is Ok
    &&& c.get_send_buffer is Ok
    &&& o.fwmark is Some ==> c.set_mark is Ok
    &&& c.get_mark is Ok
}

/// The application sequence succeeds exactly when every call it consults
/// succeeds: every requested set call and every read-back. In particular,
/// an option set that requests nothing still succeeds only if the four
/// read-backs do, and the outcome of a set call that was not requested
/// never decides the result.
pub proof fn lemma_success_iff_consulted_calls_ok(o: TcpOptions, c: CallOutcomes)
    ensures
        apply_result(o, c) is Ok <==> consulted_calls_ok(o, c),
{
}

/// If the very first call of the sequence fails — as it does on an invalid
/// or closed socket handle — the result is that failure, classified as a
/// no-delay failure, whatever the outcomes of all later calls: no later
/// stage is consulted.
pub proof fn lemma_first_call_failure_decides(o: TcpOptions, c: CallOutcomes)
    requires
        c.set_nodelay is Err,
    ensures
        apply_result(o, c) == Err::<(), ApplyTcpOptionsError>(
            ApplyTcpOptionsError::NoDelay(c.set_nodelay->Err_0),
        ),
{
}

/// A failure classified as a mark failure is only ever returned after every
/// earlier stage went through: both no-delay calls succeeded, each requested
/// buffer size was set successfully, and both buffer read-backs succeeded.
/// The earlier options therefore stand applied on the socket when the mark
/// failure is reported; nothing is rolled back.
pub proof fn lemma_mark_failure_implies_earlier_stages_ok(o: TcpOptions, c: CallOutcomes)
    requires
        apply_result(o, c) matches Err(e) && e is Mark,
    ensures
        c.set_nodelay is Ok,
        c.get_nodelay is Ok,
        o.recv_buffer_size is Some ==> c.set_recv_buffer is Ok,
        c.get_recv_buffer is Ok,
        o.send_buffer_size is Some ==> c.set_send_buffer is Ok,
        c.get_send_buffer is Ok,
{
}

/// When no receive-buffer size is requested, the receive-buffer set call is
/// never attempted, so its outcome cannot influence the result: two outcome
/// records that agree everywhere else resolve to the same result.
pub proof fn lemma_unrequested_recv_set_ignored(o: TcpOptions, c1: CallOutcomes, c2: CallOutcomes)
    requires
        o.recv_buffer_size is None,
        c2.set_nodelay == c1.set_nodelay,
        c2.get_nodelay == c1.get_nodelay,
        c2.get_recv_buffer == c1.get_recv_buffer,
        c2.set_send_buffer == c1.set_send_buffer,
        c2.get_send_buffer == c1.get_send_buffer,
        c2.set_mark == c1.set_mark,
        c2.get_mark == c1.get_mark,
    ensures
        apply_result(o, c1) == apply_result(o, c2),
{
}

/// When no send-buffer size is requested, the send-buffer set call is never
/// attempted, so its outcome cannot influence the result: two outcome
/// records that agree everywhere else resolve to the same result.
pub proof fn lemma_unrequested_send_set_ignored(o: TcpOptions, c1: CallOutcomes, c2: CallOutcomes)
    requires
        o.send_buffer_size is None,
        c2.set_nodelay == c1.set_nodelay,
        c2.get_nodelay == c1.get_nodelay,
        c2.set_recv_buffer == c1.set_recv_buffer,
        c2.get_recv_buffer == c1.get_recv_buffer,
        c2.get_send_buffer == c1.get_send_buffer,
        c2.set_mark == c1.set_mark,
        c2.get_mark == c1.get_mark,
    ensures
        apply_result(o, c1) == apply_result(o, c2),
{
}

/// When no mark is requested, the mark set call is never attempted, so its
/// outcome cannot influence the result: two outcome records that agree
/// everywhere else resolve to the same result. The mark read-back, though,
/// is still consulted, like every read-back.
pub proof fn lemma_unrequested_mark_set_ignored(o: TcpOptions, c1: CallOutcomes, c2: CallOutcomes)
    requires
        o.fwmark is None,
        c2.set_nodelay == c1.set_nodelay,
        c2.get_nodelay == c1.get_nodelay,
        c2.set_recv_buffer == c1.set_recv_buffer,
        c2.get_recv_buffer == c1.get_recv_buffer,
        c2.set_send_buffer == c1.set_send_buffer,
        c2.get_send_buffer == c1.get_send_buffer,
        c2.get_mark == c1.get_mark,
    ensures
        apply_result(o, c1) == apply_result(o, c2),
{
}

/// An error returned by the sequence always names the stage whose call
/// produced it: the wrapped cause is the outcome of one of the calls of that
/// very stage.
pub proof fn lemma_error_names_failing_stage(o: TcpOptions, c: CallOutcomes)
    requires
        apply_result(o, c) is Err,
    ensures
        apply_result(o, c) matches Err(e) ==> match e {
            ApplyTcpOptionsError::NoDelay(cause) => {
                ||| c.set_nodelay == Err::<(), std::io::Error>(cause)
                ||| c.get_nodelay == Err::<bool, std::io::Error>(cause)
            },
            ApplyTcpOptionsError::RecvBuffer(cause) => {
                ||| o.recv_buffer_size is Some && c.set_recv_buffer == Err::<
                    (),
                    std::io::Error,
                >(cause)
                ||| c.get_recv_buffer == Err::<usize, std::io::Error>(cause)
            },
            ApplyTcpOptionsError::SendBuffer(cause) => {
                ||| o.send_buffer_size is Some && c.set_send_buffer == Err::<
                    (),
                    std::io::Error,
                >(cause)
                ||| c.get_send_buffer == Err::<usize, std::io::Error>(cause)
            },
            ApplyTcpOptionsError::Mark(cause) => {
                ||| o.fwmark is Some && c.set_mark == Err::<(), nix::errno::Errno>(cause)
                ||| c.get_mark == Err::<u32, nix::errno::Errno>(cause)
            },
        },
{
}

/// A record in which every call succeeded; the read-back values are left
/// unspecified. Overriding one field with a failure gives a witness record
/// for any single-stage failure.
spec fn all_ok_outcomes() -> CallOutcomes {
    CallOutcomes {
        set_nodelay: Ok(()),
        get_nodelay: Ok(arbitrary()),
        set_recv_buffer: Ok(()),
        get_recv_buffer: Ok(arbitrary()),
        set_send_buffer: Ok(()),
        get_send_buffer: Ok(arbitrary()),
        set_mark: Ok(()),
        get_mark: Ok(arbitrary()),
    }
}

/// Applies the given options to the given TCP socket.
///
/// The stages run in the fixed order no-delay, receive buffer, send buffer,
/// mark. Each stage sets its option only if `options` requests it, reads the
/// option's current value back unconditionally, and the sequence stops at the
/// first failure, classified by the stage it happened in; stages already
/// applied are not rolled back. Whether each operating-system call succeeds
/// is the socket's and the system's affair, so the contract states what holds
/// of every return: the result is what [`apply_result`] gives for these
/// options under some record of call outcomes.
pub fn apply(tcp_stream: &tokio::net::TcpStream, options: &TcpOptions) -> (r: Result<
    (),
    ApplyTcpOptionsError,
>)
    ensures
        exists|c: CallOutcomes| r == apply_result(*options, c),
{
    if let Err(e) = sys::set_nodelay(tcp_stream, options.nodelay) {
        proof {
            let c = CallOutcomes { set_nodelay: Err(e), ..all_ok_outcomes() };
            assert(Err::<(), ApplyTcpOptionsError>(ApplyTcpOptionsError::NoDelay(e))
                == apply_result(*options, c));
        }
        return Err(ApplyTcpOptionsError::NoDelay(e));
    }
    if let Err(e) = sys::nodelay(tcp_stream) {
        proof {
            let c = CallOutcomes { get_nodelay: Err(e), ..all_ok_outcomes() };
            assert(Err::<(), ApplyTcpOptionsError>(ApplyTcpOptionsError::NoDelay(e))
                == apply_result(*options, c));
        }
        return Err(ApplyTcpOptionsError::NoDelay(e));
    }
    if let Some(size) = options.recv_buffer_size {
        if let Err(e) = sys::set_recv_buffer_size(tcp_stream, size) {
            proof {
                let c = CallOutcomes { set_recv_buffer: Err(e), ..all_ok_outcomes() };
                assert(Err::<(), ApplyTcpOptionsError>(ApplyTcpOptionsError::RecvBuffer(e))
                    == apply_result(*options, c));
            }
            return Err(ApplyTcpOptionsError::RecvBuffer(e));
        }
    }
    if let Err(e) = sys::recv_buffer_size(tcp_stream) {
        proof {
            let c = CallOutcomes { get_recv_buffer: Err(e), ..all_ok_outcomes() };
            assert(Err::<(), ApplyTcpOptionsError>(ApplyTcpOptionsError::RecvBuffer(e))
                == apply_result(*options, c));
        }
        return Err(ApplyTcpOptionsError::RecvBuffer(e));
    }
    if let Some(size) = options.send_buffer_size {
        if let Err(e) = sys::set_send_buffer_size(tcp_stream, size) {
            proof {
                let c = CallOutcomes { set_send_buffer: Err(e), ..all_ok_outcomes() };
                assert(Err::<(), ApplyTcpOptionsError>(ApplyTcpOptionsError::SendBuffer(e))
                    == apply_result(*options, c));
            }
            return Err(ApplyTcpOptionsError::SendBuffer(e));
        }
    }
    if let Err(e) = sys::send_buffer_size(tcp_stream) {
        proof {
            let c = CallOutcomes { get_send_buffer: Err(e), ..all_ok_outcomes() };
            assert(Err::<(), ApplyTcpOptionsError>(ApplyTcpOptionsError::SendBuffer(e))
                == apply_result(*options, c));
        }
        return Err(ApplyTcpOptionsError::SendBuffer(e));
    }
    if let Some(mark) = options.fwmark {
        if let Err(e) = sys::set_mark(tcp_stream, mark) {
            proof {
                let c = CallOutcomes { set_mark: Err(e), ..all_ok_outcomes() };
                assert(Err::<(), ApplyTcpOptionsError>(ApplyTcpOptionsError::Mark(e))
                    == apply_result(*options, c));
            }
            return Err(ApplyTcpOptionsError::Mark(e));
        }
    }
    if let Err(e) = sys::get_mark(tcp_stream) {
        proof {
            let c = CallOutcomes { get_mark: Err(e), ..all_ok_outcomes() };
            assert(Err::<(), ApplyTcpOptionsError>(ApplyTcpOptionsError::Mark(e))
                == apply_result(*options, c));
        }
        return Err(ApplyTcpOptionsError::Mark(e));
    }
    proof {
        let c = all_ok_outcomes();
        assert(Ok::<(), ApplyTcpOptionsError>(()) == apply_result(*options, c));
    }
    Ok(())
}

} // verus!


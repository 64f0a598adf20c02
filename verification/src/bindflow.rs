//! Socket creation and the bind candidate loop.
//!
//! Creating a bound UDP-Lite socket takes three OS calls: resolve the user's
//! address specification to candidates, create a datagram socket of the
//! matching family, and bind it to the encoded address.  The calls themselves
//! are performed outside this crate; this module decides everything around
//! them.  It builds the exact argument triple of the creation call (with
//! close-on-exec requested atomically, never as a separate step), interprets
//! each call's outcome, directs the retry of a bind interrupted by a signal,
//! and fixes the rule by which one outcome is selected from the per-candidate
//! attempts: the first success, else the last error, else the distinguished
//! empty-resolution error.

use vstd::prelude::*;

use crate::addr::Address;
use crate::addr::AF_INET;
use crate::addr::AF_INET6;
use crate::errors::SocketError;

verus! {

/// Socket type of a datagram socket (Linux family).
pub const SOCK_DGRAM: i32 = 2;

/// Creation flag that sets close-on-exec atomically with the creation itself,
/// so no concurrently spawned program can inherit the descriptor before the
/// flag is set (Linux family).
pub const SOCK_CLOEXEC: i32 = 0o2000000;

/// Protocol number of UDP-Lite.
pub const IPPROTO_UDPLITE: i32 = 136;

/// Error number of a call interrupted by a signal (Linux family).
pub const EINTR: i32 = 4;

/// The argument triple of the socket-creation call.
#[derive(Clone, Copy, Debug, PartialEq, Eq, Structural)]
pub struct SocketRequest {
    pub domain: i32,
    pub socket_type: i32,
    pub protocol: i32,
}

/// Build the creation call for a candidate address: the domain matches the
/// address family, the type is a datagram socket with close-on-exec requested
/// atomically, and the protocol is UDP-Lite.
pub fn socket_request(addr: &Address) -> (req: SocketRequest)
    ensures
        req.domain == addr.spec_family() as i32,
        req.socket_type == SOCK_DGRAM | SOCK_CLOEXEC,
        req.protocol == IPPROTO_UDPLITE,
{
    let domain: i32 = match addr {
        Address::V4 { .. } => AF_INET as i32,
        Address::V6 { .. } => AF_INET6 as i32,
    };
    SocketRequest { domain, socket_type: SOCK_DGRAM | SOCK_CLOEXEC, protocol: IPPROTO_UDPLITE }
}

/// Interpret the outcome of the socket-creation call: failure propagates the
/// OS error verbatim and is terminal for the candidate; anything else is the
/// new descriptor.
pub fn interpret_socket_result(ret: i32, errno: i32) -> (r: Result<i32, SocketError>)
    ensures
        ret == -1 ==> r == Err::<i32, SocketError>(SocketError::Os(errno)),
        ret != -1 ==> r == Ok::<i32, SocketError>(ret),
{
    if ret == -1 {
        Err(SocketError::Os(errno))
    } else {
        Ok(ret)
    }
}

/// What to do after one bind call.
#[derive(Clone, Copy, Debug, PartialEq, Eq, Structural)]
pub enum BindStep {
    /// The socket is bound; the candidate succeeded.
    Bound,
    /// The call was interrupted by a signal before it could complete and must
    /// be reissued; interruption is never surfaced to the caller.
    Retry,
    /// The call failed for a reason other than interruption; the error number
    /// is terminal for this candidate.
    Failed(i32),
}

/// Decide the next step after a bind call returned `ret` with `errno` in
/// effect: success binds, a signal interruption retries, any other failure is
/// terminal.
pub fn interpret_bind_result(ret: i32, errno: i32) -> (step: BindStep)
    ensures
        ret != -1 ==> step == BindStep::Bound,
        ret == -1 && errno == EINTR ==> step == BindStep::Retry,
        ret == -1 && errno != EINTR ==> step == BindStep::Failed(errno),
{
    if ret != -1 {
        BindStep::Bound
    } else if errno == EINTR {
        BindStep::Retry
    } else {
        BindStep::Failed(errno)
    }
}

/// Law: the creation call and the encoded bind address agree on the address
/// family.  The domain of the socket-creation request for an address is the
/// same 16-bit family tag that stands in the first two bytes of the encoded
/// socket address handed to bind, and the encoded buffer is exactly as long
/// as the length argument the bind call receives.
pub proof fn lemma_family_consistency(addr: Address)
    ensures
        crate::addr::sockaddr_bytes(addr).len() == crate::addr::sockaddr_len(addr),
        crate::addr::sockaddr_bytes(addr).subrange(0, 2) == crate::addr::native16_bytes(
            addr.spec_family(),
        ),
{
    assert(crate::addr::sockaddr_bytes(addr).subrange(0, 2) =~= crate::addr::native16_bytes(
        addr.spec_family(),
    ));
}

/// The outcome of binding over a sequence of per-candidate attempts: the
/// first success if any candidate succeeded, otherwise the last error, and
/// the distinguished empty-resolution error when there was no candidate at
/// all.
pub open spec fn first_success_or_last_error(attempts: Seq<Result<i32, SocketError>>) -> Result<
    i32,
    SocketError,
>
    decreases attempts.len(),
{
    if attempts.len() == 0 {
        Err(SocketError::NoAddresses)
    } else if attempts[0] is Ok {
        attempts[0]
    } else if attempts.len() == 1 {
        attempts[0]
    } else {
        first_success_or_last_error(attempts.drop_first())
    }
}

/// Law: a specification that resolves to zero candidate addresses fails with
/// the distinguished empty-resolution error, never with an OS error.
pub proof fn lemma_empty_resolution_fails(attempts: Seq<Result<i32, SocketError>>)
    requires
        attempts.len() == 0,
    ensures
        first_success_or_last_error(attempts) == Err::<i32, SocketError>(SocketError::NoAddresses),
{
}

/// Law: the selected outcome is the first successful attempt; the failures
/// before it are forgotten.
pub proof fn lemma_outcome_is_first_success(attempts: Seq<Result<i32, SocketError>>, k: int)
    requires
        0 <= k < attempts.len(),
        attempts[k] is Ok,
        forall|j: int| 0 <= j < k ==> attempts[j] is Err,
    ensures
        first_success_or_last_error(attempts) == attempts[k],
    decreases attempts.len(),
{
    if k > 0 {
        let rest = attempts.drop_first();
        assert forall|j: int| 0 <= j < k - 1 implies rest[j] is Err by {
            assert(rest[j] == attempts[j + 1]);
        }
        assert(rest[k - 1] == attempts[k]);
        lemma_outcome_is_first_success(rest, k - 1);
    }
}

/// Law: when every candidate fails, the selected outcome is the error of the
/// last attempt.
pub proof fn lemma_outcome_is_last_error(attempts: Seq<Result<i32, SocketError>>)
    requires
        attempts.len() > 0,
        forall|j: int| 0 <= j < attempts.len() ==> attempts[j] is Err,
    ensures
        first_success_or_last_error(attempts) == attempts[attempts.len() - 1],
    decreases attempts.len(),
{
    if attempts.len() > 1 {
        let rest = attempts.drop_first();
        assert forall|j: int| 0 <= j < rest.len() implies rest[j] is Err by {
            assert(rest[j] == attempts[j + 1]);
        }
        lemma_outcome_is_last_error(rest);
        assert(rest[rest.len() - 1] == attempts[attempts.len() - 1]);
    }
}

/// Select the outcome of a completed sequence of per-candidate attempts.
/// This is the executable form of [`first_success_or_last_error`]; the
/// unverified shell runs the same rule incrementally so that it can stop
/// attempting candidates at the first success.
pub fn select_bind_outcome(attempts: &Vec<Result<i32, SocketError>>) -> (outcome: Result<
    i32,
    SocketError,
>)
    ensures
        outcome == first_success_or_last_error(attempts@),
{
    let n = attempts.len();
    let mut i: usize = 0;
    while i < n
        invariant
            n == attempts@.len(),
            i <= n,
            forall|j: int| 0 <= j < i ==> attempts@[j] is Err,
        decreases n - i,
    {
        if attempts[i].is_ok() {
            proof {
                lemma_outcome_is_first_success(attempts@, i as int);
            }
            return attempts[i];
        }
        i = i + 1;
    }
    if n == 0 {
        Err(SocketError::NoAddresses)
    } else {
        proof {
            lemma_outcome_is_last_error(attempts@);
        }
        attempts[n - 1]
    }
}

} // verus!

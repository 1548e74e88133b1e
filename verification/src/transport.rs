//! Transport state, as the engines observe it.
//!
//! The engines never touch the socket; they only consult the two upgrade
//! flags and request upgrades through [`crate::Action`]s.  The flags move
//! one way only: plain, then TLS, then TLS with DEFLATE compression.

use vstd::prelude::*;

use crate::wire::bytes_of;
use crate::{log_out, wire_out, Action};

verus! {

/// Where the TLS identity comes from: a PKCS#12 file and its password.
/// The driver loads it from disk at each TLS upgrade.
#[derive(Debug, Clone)]
pub struct PKCS12 {
    pub file: String,
    pub password: String,
}

/// The engines' view of the duplex stream: which wrappers are active.
pub struct ConsolidatedStream {
    pub is_tls: bool,
    pub is_compression: bool,
}

impl ConsolidatedStream {
    /// A fresh plain transport.
    pub fn new() -> (r: ConsolidatedStream)
        ensures
            !r.is_tls,
            !r.is_compression,
    {
        ConsolidatedStream { is_tls: false, is_compression: false }
    }

    /// Whether the TLS wrapper is active.
    pub fn is_tls(&self) -> (r: bool)
        ensures
            r == self.is_tls,
    {
        self.is_tls
    }

    /// Record a completed TLS server handshake.  The flag never falls back.
    pub fn accept_tls(&mut self)
        ensures
            final(self).is_tls,
            final(self).is_compression == old(self).is_compression,
    {
        self.is_tls = true;
    }

    /// Record an activated DEFLATE layer.  The flag never falls back.
    pub fn accept_compression(&mut self)
        ensures
            final(self).is_compression,
            final(self).is_tls == old(self).is_tls,
    {
        self.is_compression = true;
    }
}

/// Transport monotonicity: neither upgrade flag ever returns to `false`.
pub open spec fn transport_monotone(pre: ConsolidatedStream, post: ConsolidatedStream) -> bool {
    (pre.is_tls ==> post.is_tls) && (pre.is_compression ==> post.is_compression)
}

/// The log lines of a TLS upgrade: a non-empty read buffer at upgrade
/// time is a protocol violation and is logged — an intentionally kept
/// command-injection observability point.
pub open spec fn tls_upgrade_logs(buffer_nonempty: bool) -> Seq<Seq<u8>> {
    if buffer_nonempty {
        seq![bytes_of("Protocol violation. There is remaining data in the buffer.")]
    } else {
        Seq::<Seq<u8>>::empty()
    }
}

/// Upgrade the transport to TLS.  Left-over buffered bytes are logged
/// but never abort the upgrade: the handshake is requested either way.
pub fn upgrade_tls_with_check(
    stream: &mut ConsolidatedStream,
    acts: &mut Vec<Action>,
    buffer_nonempty: bool,
)
    ensures
        final(stream).is_tls,
        final(stream).is_compression == old(stream).is_compression,
        wire_out(final(acts)@) == wire_out(old(acts)@),
        log_out(final(acts)@) == log_out(old(acts)@) + tls_upgrade_logs(buffer_nonempty),
        final(acts)@.contains(Action::UpgradeTls),
        final(acts)@.contains(Action::Close) == old(acts)@.contains(Action::Close),
{
    if buffer_nonempty {
        crate::push_log(
            &mut *acts,
            crate::wire::lit("Protocol violation. There is remaining data in the buffer."),
        );
        proof {
            assert(log_out(acts@) =~= log_out(old(acts)@) + tls_upgrade_logs(buffer_nonempty));
            assert(forall|i: int|
                0 <= i < acts@.len() - 1 ==> acts@[i] == old(acts)@[i]);
            assert(acts@.contains(Action::Close) == old(acts)@.contains(Action::Close)) by {
                if acts@.contains(Action::Close) {
                    let i = choose|i: int| 0 <= i < acts@.len() && acts@[i] == Action::Close;
                    assert(i < acts@.len() - 1);
                }
                if old(acts)@.contains(Action::Close) {
                    let i = choose|i: int|
                        0 <= i < old(acts)@.len() && old(acts)@[i] == Action::Close;
                    assert(acts@[i] == Action::Close);
                }
            }
        }
    } else {
        proof {
            assert(log_out(acts@) =~= log_out(old(acts)@) + tls_upgrade_logs(buffer_nonempty));
        }
    }
    stream.accept_tls();
    let ghost pre = acts@;
    crate::push_effect(&mut *acts, Action::UpgradeTls);
    proof {
        assert(acts@[acts@.len() - 1] == Action::UpgradeTls);
        assert(acts@.contains(Action::UpgradeTls));
        assert(acts@.contains(Action::Close) == pre.contains(Action::Close)) by {
            if acts@.contains(Action::Close) {
                let i = choose|i: int| 0 <= i < acts@.len() && acts@[i] == Action::Close;
                assert(i < acts@.len() - 1);
                assert(pre[i] == Action::Close);
            }
            if pre.contains(Action::Close) {
                let i = choose|i: int| 0 <= i < pre.len() && pre[i] == Action::Close;
                assert(acts@[i] == Action::Close);
            }
        }
    }
}

} // verus!

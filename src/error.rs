use vstd::prelude::*;

verus! {

/// Everything that can go wrong on a secure channel.
#[derive(Debug, Clone, Copy, PartialEq, Eq, Structural)]
pub enum ChannelError {
    /// The encryption counter has reached its largest value: the key is spent.
    NonceExhausted,
    /// A wire nonce is missing or has the wrong length.
    InvalidNonce,
    /// The vault could not authenticate a ciphertext.
    AuthenticationFailure,
    /// The peer's identity was refused by the trust policy.
    TrustPolicyRejected,
    /// The handshake did not finish before its deadline.
    HandshakeTimeout,
    /// A message arrived that the current phase does not accept.
    UnexpectedMessage,
}

} // verus!

use vstd::prelude::*;

verus! {

/// Errors surfaced by the boot-stage flows.
///
/// Malformed input, authentication failures and collaborator failures each
/// have their own variants; a failure reported by a hardware collaborator
/// carries the collaborator's code unchanged.
#[derive(Clone, Copy, Debug, PartialEq, Eq, Structural)]
pub enum RomError {
    /// Manufacturing unlock: the pending mailbox command is not a token request.
    DbgUnlockManufInvalidMboxCmd,
    /// Manufacturing unlock: the token does not match the fuse token.
    DbgUnlockManufInvalidToken,
    /// Production unlock: the pending mailbox command is not an unlock request.
    DbgUnlockProdInvalidReqMboxCmd,
    /// Production unlock: the request is malformed.
    DbgUnlockProdInvalidReq,
    /// Production unlock: the pending mailbox command is not an unlock token.
    DbgUnlockProdInvalidTokenMboxCmd,
    /// Production unlock: the token is malformed, echoes the wrong values, or
    /// carries public keys whose digest is not the authorized one.
    DbgUnlockProdInvalidToken,
    /// Production unlock: the classical signature did not verify.
    DbgUnlockProdEccSignatureInvalid,
    /// Production unlock: the post-quantum signature did not verify.
    DbgUnlockProdMldsaSignatureInvalid,
    /// A mailbox payload does not have the size of the expected record.
    MailboxPayloadSize,
    /// The configured subject key identifier algorithm is unknown.
    X509KeyIdAlgoUnsupported,
    /// A freshly made signature did not verify under the signer's public key.
    SignatureSelfVerifyFailed,
    /// A collaborator answered an action with an event of another kind.
    UnexpectedEvent,
    /// A collaborator returned a value of an unexpected size.
    UnexpectedLength,
    /// A redundant security check disagreed with the branch taken.
    FaultDetected,
    /// A hardware collaborator failed with the given code.
    Driver(u32),
}

} // verus!

//! Interfaces that users of the server implement.

use vstd::prelude::*;

verus! {

/// Identifier of a subscription.
#[derive(Debug, Clone, PartialEq, Eq)]
pub enum SubscriptionId {
    /// Numerical identifier.
    Num(u64),
    /// Identifier in the form of a string.
    Str(String),
}

/// The parameters of a call, given the outcome of serializing them: a type that is serialized is
/// never left out, and a failure is passed on.
pub fn rpc_params<J, E>(json: Result<J, E>) -> (r: Result<Option<J>, E>)
    ensures
        r == match json {
            Ok(json) => Ok(Some(json)),
            Err(err) => Err(err),
        },
{
    match json {
        Ok(json) => Ok(Some(json)),
        Err(err) => Err(err),
    }
}

/// Trait to generate subscription IDs.
pub trait IdProvider: Send + Sync {
    /// Returns the next ID for the subscription.
    fn next_id(&self) -> SubscriptionId;
}

// It is not implemented for `&'_ T` because of the required `'static` lifetime.
impl<T: IdProvider + ?Sized> IdProvider for Box<T> {
    fn next_id(&self) -> (r: SubscriptionId)
        ensures
            call_ensures(T::next_id, (&**self,), r),
    {
        (**self).next_id()
    }
}

/// Why a message could not be encrypted or decrypted.
#[derive(Debug, Clone, PartialEq, Eq)]
pub struct MessageCryptoError {
    /// Description of the failure.
    pub reason: String,
}

/// Trait for message encryption and decryption.
///
/// Users can implement this trait to provide custom encryption algorithms
/// for WebSocket message encryption.
pub trait MessageEncryption: Send + Sync + 'static {
    /// Encrypt a JSON-RPC message string.
    fn encrypt(&self, data: &str) -> Result<String, MessageCryptoError>;

    /// Decrypt a JSON-RPC message string.
    fn decrypt(&self, data: &str) -> Result<String, MessageCryptoError>;
}

/// Policy for handling message encryption/decryption failures on the server side.
#[derive(Debug, Clone, Copy, PartialEq, Eq, Structural)]
pub enum MessageCryptoErrorPolicy {
    /// Send an error response and continue processing (default).
    SendError,
    /// Close the connection immediately.
    CloseConnection,
    /// Skip the message and continue processing (only for decryption failures).
    SkipMessage,
}

impl Default for MessageCryptoErrorPolicy {
    fn default() -> (r: Self)
        ensures
            r == MessageCryptoErrorPolicy::SendError,
    {
        MessageCryptoErrorPolicy::SendError
    }
}

} // verus!

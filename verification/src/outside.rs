//! Types and functions of other crates that several parts of the server share.

use crate::admission::Attempt;
use crate::text::json_string;
use vstd::prelude::*;

verus! {

/// Handle of a tokio runtime.
#[verifier::external_type_specification]
#[verifier::external_body]
pub struct ExHandle(tokio::runtime::Handle);

/// Names what [`std::time::Duration::from_secs`] returns.
pub uninterp spec fn duration_of_secs(secs: u64) -> std::time::Duration;

/// `std::time::Duration::from_secs` returns the same duration for the same number of seconds.
pub assume_specification[ std::time::Duration::from_secs ](secs: u64) -> (r: std::time::Duration)
    ensures
        r == duration_of_secs(secs),
;

/// Error of the JSON serializer.
#[verifier::external_type_specification]
#[verifier::external_body]
pub struct ExJsonError(serde_json::Error);

/// The text that `Display` of `serde_json::Error` writes. Nothing is claimed of it: the error is
/// not looked into.
#[verifier::external_body]
pub(crate) fn serializer_message(err: &serde_json::Error) -> (r: String) {
    err.to_string()
}

/// `serde_json::to_string`, on a `str`, writes the text between quotes, with the characters escaped
/// that a JSON string cannot hold as they are. It does not fail: it writes to memory, and the only
/// errors of writing a string are those of the writer.
#[verifier::external_body]
pub(crate) fn json_string_text(text: &str) -> (r: String)
    ensures
        r@ == json_string(text@),
{
    serde_json::to_string(text).unwrap()
}

/// `String::from`, on a `str`, keeps the text.
pub assume_specification<'a>[ <String as From<&str>>::from ](text: &str) -> (r: String)
    ensures
        r@ == text@,
;

/// Semaphore of tokio.
#[verifier::external_type_specification]
#[verifier::external_body]
pub struct ExSemaphore(tokio::sync::Semaphore);

/// Permit of a semaphore, given back when it is dropped.
#[verifier::external_type_specification]
#[verifier::external_body]
pub struct ExOwnedSemaphorePermit(tokio::sync::OwnedSemaphorePermit);

/// `tokio::sync::Semaphore::new` makes a semaphore; more than an eighth of the largest `usize`
/// permits it refuses. How many permits it holds is not claimed, since other owners change that.
pub assume_specification[ tokio::sync::Semaphore::new ](permits: usize) -> (r:
    tokio::sync::Semaphore)
    requires
        permits <= usize::MAX / 8,
;

/// `tokio::sync::Semaphore::available_permits` depends on what other owners of the semaphore do, so
/// nothing is claimed of the number. The number of permits that the semaphore was made with is no
/// bound: every holder of a permit can reach the semaphore and add permits to it.
pub assume_specification[ tokio::sync::Semaphore::available_permits ](
    semaphore: &tokio::sync::Semaphore,
) -> (r: usize)
;

/// `tokio::sync::Semaphore::try_acquire_owned` takes a permit where one is left. Whether one is
/// depends on what other owners of the semaphore do, so nothing is claimed of it, whatever number of
/// permits the semaphore was made with. It uses up the attempt that was allowed.
#[verifier::external_body]
pub(crate) fn try_acquire_owned(
    semaphore: &std::sync::Arc<tokio::sync::Semaphore>,
    _attempt: Attempt,
) -> (r: Option<tokio::sync::OwnedSemaphorePermit>) {
    semaphore.clone().try_acquire_owned().ok()
}

/// Lock of tokio that one writer or several readers hold at a time.
#[verifier::external_type_specification]
#[verifier::external_body]
#[verifier::reject_recursive_types(T)]
pub struct ExRwLock<T: ?Sized>(tokio::sync::RwLock<T>);

/// `tokio::sync::RwLock::new` makes a lock around the value. What it guards later depends on those
/// that lock it, so nothing is claimed of it.
#[verifier::external_body]
pub(crate) fn new_lock<T>(value: T) -> (r: tokio::sync::RwLock<T>) {
    tokio::sync::RwLock::new(value)
}

/// Stack of layers of a tower service.
#[verifier::external_type_specification]
#[verifier::external_body]
#[verifier::reject_recursive_types(L)]
pub struct ExServiceBuilder<L>(tower::ServiceBuilder<L>);

/// Layer of tower that does nothing.
#[verifier::external_type_specification]
#[verifier::external_body]
pub struct ExIdentity(tower::layer::util::Identity);

/// `tower::ServiceBuilder::new` makes a stack without layers. The stack is not looked into, so
/// nothing is claimed of it.
pub assume_specification[ tower::ServiceBuilder::<tower::layer::util::Identity>::new ]() -> (r:
    tower::ServiceBuilder<tower::layer::util::Identity>)
;

} // verus!

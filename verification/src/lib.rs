//! Blocking queues, counting semaphores and the decisions of an I/O
//! runtime, each stated as the state its lock guards and proved against a
//! mathematical model.
use vstd::prelude::*;

pub mod array_bq;
pub mod bq;
pub mod condvar_semaphore;
pub mod counting_semaphore;
pub mod error;
pub mod executor;
pub mod ffi;
pub mod futex;
pub mod futex_semaphore;
pub mod inbox;
pub mod linked_bq;
pub mod netpoll;
pub mod semaphore;
pub mod transport;
pub mod udpoll;

pub use array_bq::ArrayBQ;
pub use bq::{create_bq, BQType, BoundedQueue, BQ};
pub use error::HioLastError;
pub use executor::{Executor, ExecutorType};
pub use futex::FutexWord;
pub use linked_bq::LinkedBQ;
pub use semaphore::{create_semaphore, Semaphore, SemaphoreType};

verus! {

} // verus!

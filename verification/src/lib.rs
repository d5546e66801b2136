//! Library for concurrent I/O resource management using reactor pattern.
//!
//! The library gives concurrent access to I/O resources (file, network, devices etc) and uses
//! pluggable `poll` syscall engines. This allows to handle situations like multiple network
//! connections within the scope of a single thread.
//!
//! The reactor design pattern is an event handling pattern for handling service requests delivered
//! concurrently to a service handler by one or more inputs. The service handler then demultiplexes
//! the incoming requests and dispatches them synchronously to the associated request handlers.
//!
//! Core concepts:
//! - **[`Resource`]**: any resource that can provide input to or consume output from the system.
//! - **[`runtimes::net::Runtime`]** and **[`runtimes::file::Runtime`]**: block on all resources in
//!   an [`runtimes::EventLoop`] and call the service when it is possible to start a synchronous
//!   operation on a resource without blocking.
//! - **Service**: custom business logic provided by the application for a given set of resources.
//!   Service exposes a **[`runtimes::net::Handler`]** or **[`runtimes::file::Handler`]** API for
//!   the reactor runtime. It is also responsible for the creation and destruction of the resources.
//!
//! Once a resource generates an event with its [`Resource::handle_io`], the runtime calls the
//! service to process each of the events. All resources must be representable as file descriptors.

use vstd::prelude::*;

pub mod duration;
pub mod error;
pub mod laws;
pub mod nonblock;
pub mod poller;
pub mod resource;
pub mod runtimes;
pub mod text;
pub mod timeouts;

pub use duration::Duration;
pub use error::{ErrorKind, IoError};
pub use nonblock::{IoStatus, ReadNonblocking, WriteNonblocking};
pub use resource::{Io, Resource, ResourceId, ResourceType, WriteAtomic, WriteError};
pub use runtimes::{Controller, ReactorHandler, ReactorRuntime};
pub use timeouts::{Timer, Timestamp};

verus! {

} // verus!

//! A cloneable client handle for a publish/subscribe messaging protocol.
//!
//! Many callers share one outbound command channel toward a single worker
//! task that owns the network connection.  The handle lets them publish
//! messages, open uniquely identified subscriptions, run correlated
//! request/reply exchanges over fresh inbox subjects, and synchronize on a
//! flush barrier.  The worker itself is an external collaborator: the
//! library only states and checks what crosses the channel.

mod ext;

pub mod client;
pub mod command;
pub mod error;
pub mod header;
pub mod message;
pub mod status;
pub mod subscriber;

pub use client::flush_outcome;
pub use client::inbox_subject;
pub use client::reply_outcome;
pub use client::Client;
pub use client::MAX_SUBSCRIPTION_CAPACITY;
pub use command::Command;
pub use command::FlushResult;
pub use error::ClientError;
pub use error::ErrorKind;
pub use header::HeaderMap;
pub use message::Message;
pub use status::StatusCode;
pub use subscriber::Subscriber;

//! A representation-negotiation layer for structured message data.
//!
//! A source of message data (a request, a response, a connection) may hold
//! each datum as raw bytes, as text, or as a parsed value. A caller may
//! prefer any one of these. This crate defines the capability-advertisement
//! and preference-resolution protocol between the two: a source declares,
//! per data channel, which representation kinds it can produce
//! ([`DataKinds`]), a caller declares an ordered preference
//! ([`DataKindPreference`]), and a deterministic resolution rule picks the
//! best mutually available kind.

pub mod data;
pub mod data_kinds;
pub mod generics;
pub mod providers;
pub mod static_source;

pub use data::DataItem;
pub use data::DataModel;
pub use data::HeaderData;
pub use data::HeaderModel;
pub use data::HttpVersion;
pub use data::MethodData;
pub use data::SocketAddress;
pub use data::SocketData;
pub use data::SocketModel;
pub use data::SocketPairData;
pub use data::Status;
pub use data::TlsVersion;
pub use data::UriData;
pub use data_kinds::DataKind;
pub use data_kinds::DataKindPreference;
pub use data_kinds::DataKinds;
pub use generics::Connection;
pub use generics::Headers;
pub use generics::MethodAccessor;
pub use generics::UriAccessor;
pub use providers::ConnectionDataProvider;
pub use providers::RequestDataProvider;
pub use providers::ResponseDataProvider;
pub use static_source::StaticConnection;
pub use static_source::StaticRequest;
pub use static_source::StaticResponse;

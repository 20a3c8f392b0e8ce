use vstd::prelude::*;

use crate::data_kinds::DataKind;

verus! {

// The parsed-value types of the `http` crate that data items can carry.
// Their values are opaque at this layer: nothing here reads into them,
// they are only passed through from the source to the caller.

/// Relies on `http::Uri` as an opaque parsed value to carry through.
#[verifier::external_type_specification]
#[verifier::external_body]
pub struct ExUri(http::Uri);

/// Relies on `http::Method` as an opaque parsed value to carry through.
#[verifier::external_type_specification]
#[verifier::external_body]
pub struct ExMethod(http::Method);

/// Relies on `http::HeaderName` as an opaque parsed value to carry through.
#[verifier::external_type_specification]
#[verifier::external_body]
pub struct ExHeaderName(http::HeaderName);

/// Relies on `http::HeaderValue` as an opaque parsed value to carry through.
#[verifier::external_type_specification]
#[verifier::external_body]
pub struct ExHeaderValue(http::HeaderValue);

/// One concrete representation of one logical datum, holding exactly one
/// populated variant: text, raw bytes, or a parsed value of type `P`.
///
/// The variant tag always matches the representation kind that was
/// requested from, and advertised by, the source that produced the item.
pub enum DataItem<P> {
    Str(String),
    Bytes(Vec<u8>),
    Parsed(P),
}

/// The content of one data item: its tag together with the mathematical
/// value of its payload — the characters of a text item, the bytes of a
/// raw item, or the parsed payload's model `PV`.
///
/// Two items with equal content are interchangeable to a caller even
/// when they are distinct allocations, so provider contracts speak of
/// content rather than of item identity.
pub enum DataModel<PV> {
    Str(Seq<char>),
    Bytes(Seq<u8>),
    Parsed(PV),
}

impl<P> DataItem<P> {
    /// The representation kind this item actually holds.
    pub open spec fn kind(self) -> DataKind {
        match self {
            DataItem::Str(_) => DataKind::Str,
            DataItem::Bytes(_) => DataKind::Bytes,
            DataItem::Parsed(_) => DataKind::Parsed,
        }
    }

    /// The content of this item, with the parsed payload taken as a
    /// value.
    pub open spec fn model(self) -> DataModel<P> {
        match self {
            DataItem::Str(s) => DataModel::Str(s@),
            DataItem::Bytes(b) => DataModel::Bytes(b@),
            DataItem::Parsed(p) => DataModel::Parsed(p),
        }
    }
}

/// The content of an optional data item.
pub open spec fn opt_item_model<P>(r: Option<DataItem<P>>) -> Option<DataModel<P>> {
    match r {
        Some(item) => Some(item.model()),
        None => None,
    }
}

/// A socket endpoint as plain values: the IP address octets (four for
/// IPv4, sixteen for IPv6) and the port.
///
/// Viewed as the pair of its octet sequence and its port.
#[derive(Clone, Debug, PartialEq, Eq)]
pub struct SocketAddress {
    pub octets: Vec<u8>,
    pub port: u16,
}

impl View for SocketAddress {
    type V = (Seq<u8>, u16);

    open spec fn view(&self) -> (Seq<u8>, u16) {
        (self.octets@, self.port)
    }
}

/// A socket endpoint in one concrete representation.
pub type SocketData = DataItem<SocketAddress>;

/// A request target in one concrete representation.
pub type UriData = DataItem<http::Uri>;

/// A request method token in one concrete representation.
pub type MethodData = DataItem<http::Method>;

/// The content of one socket endpoint item: for the parsed
/// representation, the address's octets and port.
pub type SocketModel = DataModel<(Seq<u8>, u16)>;

/// The content of a socket endpoint item, with the parsed payload taken
/// as the address's octets and port.
pub open spec fn socket_item_model(item: SocketData) -> SocketModel {
    match item {
        DataItem::Str(s) => DataModel::Str(s@),
        DataItem::Bytes(b) => DataModel::Bytes(b@),
        DataItem::Parsed(a) => DataModel::Parsed(a@),
    }
}

/// The two endpoints of a connection, each one a socket-address data item.
pub struct SocketPairData {
    pub client: SocketData,
    pub server: SocketData,
}

impl SocketPairData {
    /// The content of the pair: the client endpoint's content and the
    /// server endpoint's content.
    pub open spec fn model(self) -> (SocketModel, SocketModel) {
        (socket_item_model(self.client), socket_item_model(self.server))
    }
}

/// The content of an optional endpoint pair.
pub open spec fn opt_pair_model(r: Option<SocketPairData>) -> Option<(SocketModel, SocketModel)> {
    match r {
        Some(p) => Some(p.model()),
        None => None,
    }
}

/// A finite sequence of header (name, value) pairs, all in exactly one
/// representation. Header collections are multi-valued, so a whole
/// sequence is tagged rather than each pair.
pub enum HeaderData {
    Str(Vec<(String, String)>),
    Bytes(Vec<(Vec<u8>, Vec<u8>)>),
    Parsed(Vec<(http::HeaderName, http::HeaderValue)>),
}

/// The content of a header stream: its tag together with the sequence
/// of (name, value) pairs, each pair as the mathematical value of its
/// payloads.
pub enum HeaderModel {
    Str(Seq<(Seq<char>, Seq<char>)>),
    Bytes(Seq<(Seq<u8>, Seq<u8>)>),
    Parsed(Seq<(http::HeaderName, http::HeaderValue)>),
}

impl HeaderData {
    /// The representation kind the pairs are in.
    pub open spec fn kind(self) -> DataKind {
        match self {
            HeaderData::Str(_) => DataKind::Str,
            HeaderData::Bytes(_) => DataKind::Bytes,
            HeaderData::Parsed(_) => DataKind::Parsed,
        }
    }

    /// The content of this header stream.
    pub open spec fn model(self) -> HeaderModel {
        match self {
            HeaderData::Str(hs) => HeaderModel::Str(hs.deep_view()),
            HeaderData::Bytes(hs) => HeaderModel::Bytes(hs.deep_view()),
            HeaderData::Parsed(hs) => HeaderModel::Parsed(hs@),
        }
    }
}

/// The content of an optional header stream.
pub open spec fn opt_header_model(r: Option<HeaderData>) -> Option<HeaderModel> {
    match r {
        Some(h) => Some(h.model()),
        None => None,
    }
}

/// The TLS protocol version negotiated on a connection.
#[non_exhaustive]
#[derive(Debug, Clone, Copy, PartialEq, Eq, Hash)]
pub enum TlsVersion {
    SSLv2,
    SSLv3,
    TLSv1_0,
    TLSv1_1,
    TLSv1_2,
    TLSv1_3,
    DTLSv1_0,
    DTLSv1_2,
    DTLSv1_3,
    Unknown(u16),
}

/// The numeric status code reported by a response source.
pub struct Status(u16);

impl Status {
    /// The code this status carries.
    pub closed spec fn spec_code(self) -> u16 {
        self.0
    }

    pub fn new(code: u16) -> (r: Self)
        ensures
            r.spec_code() == code,
    {
        Status(code)
    }

    pub fn code(&self) -> (r: u16)
        ensures
            r == self.spec_code(),
    {
        self.0
    }
}

/// The HTTP protocol version a message was carried over.
#[non_exhaustive]
#[derive(Debug, Clone, Copy, PartialEq, Eq, Hash)]
pub enum HttpVersion {
    Http1_0,
    Http1_1,
    Http2_0,
    Http3_0,
    Unknown(u16),
}

} // verus!

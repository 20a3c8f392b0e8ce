use vstd::prelude::*;

use crate::data::DataItem;
use crate::data::DataModel;
use crate::data::HeaderData;
use crate::data::HeaderModel;
use crate::data::HttpVersion;
use crate::data::MethodData;
use crate::data::SocketAddress;
use crate::data::SocketModel;
use crate::data::SocketPairData;
use crate::data::Status;
use crate::data::TlsVersion;
use crate::data::UriData;
use crate::data_kinds::DataKind;
use crate::data_kinds::DataKinds;
use crate::providers::ConnectionDataProvider;
use crate::providers::RequestDataProvider;
use crate::providers::ResponseDataProvider;

verus! {

/// A request source backed by values held in memory.
///
/// Each negotiated channel may be present as text, as raw bytes, as
/// both, or not at all; the source advertises the text and raw-bytes
/// kinds and serves exactly the representation it holds, without
/// converting between them.
pub struct StaticRequest {
    pub method_text: Option<String>,
    pub method_bytes: Option<Vec<u8>>,
    pub uri_text: Option<String>,
    pub uri_bytes: Option<Vec<u8>>,
    pub headers_text: Option<Vec<(String, String)>>,
    pub headers_bytes: Option<Vec<(Vec<u8>, Vec<u8>)>>,
    pub version: Option<HttpVersion>,
    pub body: Option<Vec<u8>>,
}

/// The capability set holding the text and raw-bytes kinds, which every
/// channel of the in-memory request and response sources advertises.
pub fn text_and_bytes_kinds() -> (r: DataKinds)
    ensures
        r@ == set![DataKind::Str, DataKind::Bytes],
{
    let r = DataKinds::from_kind(DataKind::Str).union(DataKinds::from_kind(DataKind::Bytes));
    proof {
        assert(r@ =~= set![DataKind::Str, DataKind::Bytes]);
    }
    r
}

/// A copy of a byte buffer that provably holds the same bytes.
fn clone_bytes(b: &Vec<u8>) -> (r: Vec<u8>)
    ensures
        r@ == b@,
{
    let mut r: Vec<u8> = Vec::new();
    let mut i: usize = 0;
    while i < b.len()
        invariant
            i <= b@.len(),
            r@ == b@.take(i as int),
        decreases b@.len() - i,
    {
        r.push(b[i]);
        i = i + 1;
    }
    proof {
        assert(b@.take(b@.len() as int) =~= b@);
    }
    r
}

/// A copy of text header pairs that provably holds the same pairs.
fn clone_text_pairs(pairs: &Vec<(String, String)>) -> (r: Vec<(String, String)>)
    ensures
        r@ == pairs@,
{
    let mut r: Vec<(String, String)> = Vec::new();
    let mut i: usize = 0;
    while i < pairs.len()
        invariant
            i <= pairs@.len(),
            r@ == pairs@.take(i as int),
        decreases pairs@.len() - i,
    {
        let pair = &pairs[i];
        r.push((pair.0.clone(), pair.1.clone()));
        i = i + 1;
    }
    proof {
        assert(pairs@.take(pairs@.len() as int) =~= pairs@);
    }
    r
}

/// A copy of raw-bytes header pairs whose names and values provably hold
/// the same bytes.
fn clone_byte_pairs(pairs: &Vec<(Vec<u8>, Vec<u8>)>) -> (r: Vec<(Vec<u8>, Vec<u8>)>)
    ensures
        r.deep_view() == pairs.deep_view(),
{
    let mut r: Vec<(Vec<u8>, Vec<u8>)> = Vec::new();
    let mut i: usize = 0;
    while i < pairs.len()
        invariant
            i <= pairs@.len(),
            r@.len() == i,
            r.deep_view() == pairs.deep_view().take(i as int),
        decreases pairs@.len() - i,
    {
        let pair = &pairs[i];
        let name = clone_bytes(&pair.0);
        let value = clone_bytes(&pair.1);
        r.push((name, value));
        i = i + 1;
        proof {
            let prev: int = i as int - 1;
            assert(name.deep_view() =~= pairs@[prev].0.deep_view());
            assert(value.deep_view() =~= pairs@[prev].1.deep_view());
            assert(r@[prev] == (name, value));
            assert(r.deep_view() =~= pairs.deep_view().take(i as int));
        }
    }
    proof {
        assert(pairs.deep_view().take(pairs.deep_view().len() as int) =~= pairs.deep_view());
    }
    r
}

impl RequestDataProvider for StaticRequest {
    type Body = Vec<u8>;

    open spec fn method_kinds_spec() -> Set<DataKind> {
        set![DataKind::Str, DataKind::Bytes]
    }

    open spec fn uri_kinds_spec() -> Set<DataKind> {
        set![DataKind::Str, DataKind::Bytes]
    }

    open spec fn header_kinds_spec() -> Set<DataKind> {
        set![DataKind::Str, DataKind::Bytes]
    }

    open spec fn method_data_spec(&self, dk: DataKind) -> Option<DataModel<http::Method>> {
        match dk {
            DataKind::Str => match self.method_text {
                Some(s) => Some(DataModel::Str(s@)),
                None => None,
            },
            DataKind::Bytes => match self.method_bytes {
                Some(b) => Some(DataModel::Bytes(b@)),
                None => None,
            },
            DataKind::Parsed => None,
        }
    }

    open spec fn uri_data_spec(&self, dk: DataKind) -> Option<DataModel<http::Uri>> {
        match dk {
            DataKind::Str => match self.uri_text {
                Some(s) => Some(DataModel::Str(s@)),
                None => None,
            },
            DataKind::Bytes => match self.uri_bytes {
                Some(b) => Some(DataModel::Bytes(b@)),
                None => None,
            },
            DataKind::Parsed => None,
        }
    }

    open spec fn header_data_spec(&self, dk: DataKind) -> Option<HeaderModel> {
        match dk {
            DataKind::Str => match self.headers_text {
                Some(hs) => Some(HeaderModel::Str(hs.deep_view())),
                None => None,
            },
            DataKind::Bytes => match self.headers_bytes {
                Some(hs) => Some(HeaderModel::Bytes(hs.deep_view())),
                None => None,
            },
            DataKind::Parsed => None,
        }
    }

    /// This source records no arrival time.
    open spec fn time_received_spec(&self) -> Option<std::time::SystemTime> {
        None
    }

    open spec fn http_version_spec(&self) -> Option<HttpVersion> {
        self.version
    }

    fn method_kinds() -> (r: DataKinds) {
        text_and_bytes_kinds()
    }

    fn uri_kinds() -> (r: DataKinds) {
        text_and_bytes_kinds()
    }

    fn header_kinds() -> (r: DataKinds) {
        text_and_bytes_kinds()
    }

    fn time_received(&self) -> (r: Option<std::time::SystemTime>) {
        None
    }

    fn http_version(&self) -> (r: Option<HttpVersion>) {
        self.version
    }

    fn body(&self) -> (r: Option<Vec<u8>>)
        ensures
            r is Some <==> self.body is Some,
            r matches Some(b) ==> b@ == self.body->0@,
    {
        match &self.body {
            Some(b) => Some(clone_bytes(b)),
            None => None,
        }
    }

    fn provide_method(&self, dk: DataKind) -> (r: Option<MethodData>) {
        match dk {
            DataKind::Str => match &self.method_text {
                Some(s) => Some(DataItem::Str(s.clone())),
                None => None,
            },
            DataKind::Bytes => match &self.method_bytes {
                Some(b) => Some(DataItem::Bytes(clone_bytes(b))),
                None => None,
            },
            DataKind::Parsed => None,
        }
    }

    fn provide_uri(&self, dk: DataKind) -> (r: Option<UriData>) {
        match dk {
            DataKind::Str => match &self.uri_text {
                Some(s) => Some(DataItem::Str(s.clone())),
                None => None,
            },
            DataKind::Bytes => match &self.uri_bytes {
                Some(b) => Some(DataItem::Bytes(clone_bytes(b))),
                None => None,
            },
            DataKind::Parsed => None,
        }
    }

    fn provide_headers(&self, dk: DataKind) -> (r: Option<HeaderData>) {
        match dk {
            DataKind::Str => match &self.headers_text {
                Some(hs) => {
                    let copy = clone_text_pairs(hs);
                    proof {
                        assert(copy.deep_view() =~= hs.deep_view());
                    }
                    Some(HeaderData::Str(copy))
                },
                None => None,
            },
            DataKind::Bytes => match &self.headers_bytes {
                Some(hs) => Some(HeaderData::Bytes(clone_byte_pairs(hs))),
                None => None,
            },
            DataKind::Parsed => None,
        }
    }
}

/// A response source backed by values held in memory, advertising the
/// text and raw-bytes kinds for its header channel.
pub struct StaticResponse {
    pub status: Option<u16>,
    pub headers_text: Option<Vec<(String, String)>>,
    pub headers_bytes: Option<Vec<(Vec<u8>, Vec<u8>)>>,
    pub body: Option<Vec<u8>>,
}

impl ResponseDataProvider for StaticResponse {
    type Body = Vec<u8>;

    open spec fn header_kinds_spec() -> Set<DataKind> {
        set![DataKind::Str, DataKind::Bytes]
    }

    open spec fn header_data_spec(&self, dk: DataKind) -> Option<HeaderModel> {
        match dk {
            DataKind::Str => match self.headers_text {
                Some(hs) => Some(HeaderModel::Str(hs.deep_view())),
                None => None,
            },
            DataKind::Bytes => match self.headers_bytes {
                Some(hs) => Some(HeaderModel::Bytes(hs.deep_view())),
                None => None,
            },
            DataKind::Parsed => None,
        }
    }

    open spec fn status_spec(&self) -> Option<u16> {
        self.status
    }

    /// This source records no send time.
    open spec fn time_sent_spec(&self) -> Option<std::time::SystemTime> {
        None
    }

    fn header_kinds() -> (r: DataKinds) {
        text_and_bytes_kinds()
    }

    fn status(&self) -> (r: Option<Status>) {
        match self.status {
            Some(code) => Some(Status::new(code)),
            None => None,
        }
    }

    fn time_sent(&self) -> (r: Option<std::time::SystemTime>) {
        None
    }

    fn body(&self) -> (r: Option<Vec<u8>>)
        ensures
            r is Some <==> self.body is Some,
            r matches Some(b) ==> b@ == self.body->0@,
    {
        match &self.body {
            Some(b) => Some(clone_bytes(b)),
            None => None,
        }
    }

    fn provide_headers(&self, dk: DataKind) -> (r: Option<HeaderData>) {
        match dk {
            DataKind::Str => match &self.headers_text {
                Some(hs) => {
                    let copy = clone_text_pairs(hs);
                    proof {
                        assert(copy.deep_view() =~= hs.deep_view());
                    }
                    Some(HeaderData::Str(copy))
                },
                None => None,
            },
            DataKind::Bytes => match &self.headers_bytes {
                Some(hs) => Some(HeaderData::Bytes(clone_byte_pairs(hs))),
                None => None,
            },
            DataKind::Parsed => None,
        }
    }
}

/// A connection source that knows its two endpoints as plain socket
/// addresses, so it advertises and serves only the parsed kind.
pub struct StaticConnection {
    pub client: SocketAddress,
    pub server: SocketAddress,
    pub tls: Option<TlsVersion>,
}

impl ConnectionDataProvider for StaticConnection {
    open spec fn socket_kinds_spec() -> Set<DataKind> {
        set![DataKind::Parsed]
    }

    open spec fn socket_data_spec(&self, dk: DataKind) -> Option<(SocketModel, SocketModel)> {
        match dk {
            DataKind::Parsed => Some(
                (DataModel::Parsed(self.client@), DataModel::Parsed(self.server@)),
            ),
            _ => None,
        }
    }

    open spec fn tls_version_spec(&self) -> Option<TlsVersion> {
        self.tls
    }

    fn socket_kinds() -> (r: DataKinds) {
        let r = DataKinds::from_kind(DataKind::Parsed);
        proof {
            assert(r@ =~= set![DataKind::Parsed]);
        }
        r
    }

    fn tls_version(&self) -> (r: Option<TlsVersion>) {
        self.tls
    }

    fn provide_sockets(&self, dk: DataKind) -> (r: Option<SocketPairData>) {
        match dk {
            DataKind::Parsed => {
                let client = SocketAddress {
                    octets: clone_bytes(&self.client.octets),
                    port: self.client.port,
                };
                let server = SocketAddress {
                    octets: clone_bytes(&self.server.octets),
                    port: self.server.port,
                };
                Some(
                    SocketPairData {
                        client: DataItem::Parsed(client),
                        server: DataItem::Parsed(server),
                    },
                )
            },
            _ => None,
        }
    }
}

} // verus!

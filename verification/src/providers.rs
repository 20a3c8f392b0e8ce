use vstd::prelude::*;

use crate::data::opt_header_model;
use crate::data::opt_item_model;
use crate::data::opt_pair_model;
use crate::data::DataModel;
use crate::data::HeaderData;
use crate::data::HeaderModel;
use crate::data::HttpVersion;
use crate::data::MethodData;
use crate::data::SocketModel;
use crate::data::SocketPairData;
use crate::data::Status;
use crate::data::TlsVersion;
use crate::data::UriData;
use crate::data_kinds::resolve;
use crate::data_kinds::DataKind;
use crate::data_kinds::DataKindPreference;
use crate::data_kinds::DataKinds;

verus! {

/// Relies on `std::time::SystemTime` as an opaque timestamp that a
/// source hands out; nothing here reads into it.
#[verifier::external_type_specification]
#[verifier::external_body]
pub struct ExSystemTime(std::time::SystemTime);

/// A source of response-message data.
///
/// A source is a pure query against an immutable snapshot, so each
/// channel has a spec-level model: what the source holds in each
/// representation kind. The explicit `provide_headers` serves exactly
/// that, and the convenience `provide_preferred_headers` equals
/// resolving the caller preference first and then asking for the
/// resolved kind explicitly.
pub trait ResponseDataProvider {
    /// The opaque body capability this source hands out; its contract is
    /// external to this layer, so the `body` channel carries no model.
    type Body;

    /// The capability set advertised for the header channel, fixed at
    /// the implementer's definition site.
    spec fn header_kinds_spec() -> Set<DataKind>;

    /// The content this source holds for the header channel in
    /// representation `dk`, or `None` when that kind is not advertised
    /// or the datum is absent for this message.
    spec fn header_data_spec(&self, dk: DataKind) -> Option<HeaderModel>;

    /// The status code this source reports, if any.
    spec fn status_spec(&self) -> Option<u16>;

    /// The send timestamp this source reports, if any.
    spec fn time_sent_spec(&self) -> Option<std::time::SystemTime>;

    /// The advertised capability set of the header channel.
    fn header_kinds() -> (r: DataKinds)
        ensures
            r@ == Self::header_kinds_spec(),
    ;

    fn status(&self) -> (r: Option<Status>)
        ensures
            (match r {
                Some(s) => Some(s.spec_code()),
                None => None,
            }) == self.status_spec(),
    ;

    fn time_sent(&self) -> (r: Option<std::time::SystemTime>)
        ensures
            r == self.time_sent_spec(),
    ;

    fn body(&self) -> Option<Self::Body>;

    /// Serves the header channel in exactly the requested kind: the
    /// content this source holds for that kind, or `None` when the kind
    /// is not advertised or the datum is absent; never a substituted
    /// representation.
    fn provide_headers(&self, dk: DataKind) -> (r: Option<HeaderData>)
        ensures
            opt_header_model(r) == self.header_data_spec(dk),
            r matches Some(h) ==> h.kind() == dk && Self::header_kinds_spec().contains(dk),
    ;

    /// Serves the header channel in the kind that the caller preference
    /// and the advertised capability set resolve to: the result equals,
    /// in content, resolving first and then asking for the resolved kind
    /// explicitly, so it is `None` exactly when nothing resolves or the
    /// resolved kind turns out absent for this message.
    fn provide_preferred_headers(&self, prefs: &DataKindPreference) -> (r: Option<HeaderData>)
        ensures
            opt_header_model(r) == (match resolve(prefs.listed(), Self::header_kinds_spec()) {
                Some(k) => self.header_data_spec(k),
                None => None,
            }),
            r matches Some(h) ==> resolve(prefs.listed(), Self::header_kinds_spec()) == Some(
                h.kind(),
            ),
    {
        match prefs.top(Self::header_kinds()) {
            Some(dk) => self.provide_headers(dk),
            None => None,
        }
    }
}

/// A source of connection-level data.
///
/// The one negotiated channel is the pair of socket endpoints; the TLS
/// version is a non-negotiated fact. A source is a pure query against an
/// immutable snapshot, so the channel has a spec-level model of its
/// content per representation kind.
pub trait ConnectionDataProvider {
    /// The capability set advertised for the endpoint-pair channel,
    /// fixed at the implementer's definition site.
    spec fn socket_kinds_spec() -> Set<DataKind>;

    /// The endpoint-pair content this source holds in representation
    /// `dk`, or `None` when that kind is not advertised or the endpoints
    /// are absent.
    spec fn socket_data_spec(&self, dk: DataKind) -> Option<(SocketModel, SocketModel)>;

    /// The negotiated TLS version; `None` means the connection is not
    /// TLS.
    spec fn tls_version_spec(&self) -> Option<TlsVersion>;

    /// The advertised capability set of the endpoint-pair channel.
    fn socket_kinds() -> (r: DataKinds)
        ensures
            r@ == Self::socket_kinds_spec(),
    ;

    fn tls_version(&self) -> (r: Option<TlsVersion>)
        ensures
            r == self.tls_version_spec(),
    ;

    /// Whether the connection is TLS, derived from the TLS version being
    /// present.
    fn is_tls(&self) -> (r: bool)
        ensures
            r == (self.tls_version_spec() is Some),
    {
        self.tls_version().is_some()
    }

    /// Serves the endpoint pair with both endpoints in exactly the
    /// requested kind: the content this source holds for that kind, or
    /// `None` when the kind is not advertised or the endpoints are
    /// absent; never a substituted representation.
    fn provide_sockets(&self, dk: DataKind) -> (r: Option<SocketPairData>)
        ensures
            opt_pair_model(r) == self.socket_data_spec(dk),
            r matches Some(p) ==> p.client.kind() == dk && p.server.kind() == dk
                && Self::socket_kinds_spec().contains(dk),
    ;

    /// Serves the endpoint pair in the kind that the caller preference
    /// and the advertised capability set resolve to: the result equals,
    /// in content, resolving first and then asking for the resolved kind
    /// explicitly, so it is `None` exactly when nothing resolves or the
    /// resolved kind turns out absent.
    fn provide_preferred_socket(&self, prefs: &DataKindPreference) -> (r: Option<SocketPairData>)
        ensures
            opt_pair_model(r) == (match resolve(prefs.listed(), Self::socket_kinds_spec()) {
                Some(k) => self.socket_data_spec(k),
                None => None,
            }),
            r matches Some(p) ==> resolve(prefs.listed(), Self::socket_kinds_spec()) == Some(
                p.client.kind(),
            ) && p.server.kind() == p.client.kind(),
    {
        match prefs.top(Self::socket_kinds()) {
            Some(dk) => self.provide_sockets(dk),
            None => None,
        }
    }
}

/// A source of request-message data.
///
/// Method, URI and headers are negotiated channels, each with its own
/// advertised capability set and content model fixed per implementer;
/// arrival time, protocol version and body are non-negotiated facts. A
/// source is a pure query against an immutable snapshot.
pub trait RequestDataProvider {
    /// The opaque body capability this source hands out; its contract is
    /// external to this layer, so the `body` channel carries no model.
    type Body;

    /// The capability set advertised for the method channel, fixed at
    /// the implementer's definition site.
    spec fn method_kinds_spec() -> Set<DataKind>;

    /// The capability set advertised for the URI channel.
    spec fn uri_kinds_spec() -> Set<DataKind>;

    /// The capability set advertised for the header channel.
    spec fn header_kinds_spec() -> Set<DataKind>;

    /// The content this source holds for the method channel in
    /// representation `dk`, or `None` when that kind is not advertised
    /// or the datum is absent.
    spec fn method_data_spec(&self, dk: DataKind) -> Option<DataModel<http::Method>>;

    /// The content this source holds for the URI channel in
    /// representation `dk`.
    spec fn uri_data_spec(&self, dk: DataKind) -> Option<DataModel<http::Uri>>;

    /// The content this source holds for the header channel in
    /// representation `dk`.
    spec fn header_data_spec(&self, dk: DataKind) -> Option<HeaderModel>;

    /// The arrival timestamp this source reports, if any.
    spec fn time_received_spec(&self) -> Option<std::time::SystemTime>;

    /// The protocol version this source reports, if any.
    spec fn http_version_spec(&self) -> Option<HttpVersion>;

    /// The advertised capability set of the method channel.
    fn method_kinds() -> (r: DataKinds)
        ensures
            r@ == Self::method_kinds_spec(),
    ;

    /// The advertised capability set of the URI channel.
    fn uri_kinds() -> (r: DataKinds)
        ensures
            r@ == Self::uri_kinds_spec(),
    ;

    /// The advertised capability set of the header channel.
    fn header_kinds() -> (r: DataKinds)
        ensures
            r@ == Self::header_kinds_spec(),
    ;

    fn time_received(&self) -> (r: Option<std::time::SystemTime>)
        ensures
            r == self.time_received_spec(),
    ;

    fn http_version(&self) -> (r: Option<HttpVersion>)
        ensures
            r == self.http_version_spec(),
    ;

    fn body(&self) -> Option<Self::Body>;

    /// Serves the method channel in exactly the requested kind: the
    /// content this source holds for that kind, or `None` when the kind
    /// is not advertised or the datum is absent; never a substituted
    /// representation.
    fn provide_method(&self, dk: DataKind) -> (r: Option<MethodData>)
        ensures
            opt_item_model(r) == self.method_data_spec(dk),
            r matches Some(item) ==> item.kind() == dk && Self::method_kinds_spec().contains(dk),
    ;

    /// Serves the URI channel in exactly the requested kind: the content
    /// this source holds for that kind, or `None` when the kind is not
    /// advertised or the datum is absent; never a substituted
    /// representation.
    fn provide_uri(&self, dk: DataKind) -> (r: Option<UriData>)
        ensures
            opt_item_model(r) == self.uri_data_spec(dk),
            r matches Some(item) ==> item.kind() == dk && Self::uri_kinds_spec().contains(dk),
    ;

    /// Serves the header channel in exactly the requested kind: the
    /// content this source holds for that kind, or `None` when the kind
    /// is not advertised or the datum is absent; never a substituted
    /// representation.
    fn provide_headers(&self, dk: DataKind) -> (r: Option<HeaderData>)
        ensures
            opt_header_model(r) == self.header_data_spec(dk),
            r matches Some(h) ==> h.kind() == dk && Self::header_kinds_spec().contains(dk),
    ;

    /// Serves the method channel in the kind that the caller preference
    /// and the advertised capability set resolve to: the result equals,
    /// in content, resolving first and then asking for the resolved kind
    /// explicitly, so it is `None` exactly when nothing resolves or the
    /// resolved kind turns out absent.
    fn provide_preferred_method(&self, prefs: &DataKindPreference) -> (r: Option<MethodData>)
        ensures
            opt_item_model(r) == (match resolve(prefs.listed(), Self::method_kinds_spec()) {
                Some(k) => self.method_data_spec(k),
                None => None,
            }),
            r matches Some(item) ==> resolve(prefs.listed(), Self::method_kinds_spec()) == Some(
                item.kind(),
            ),
    {
        match prefs.top(Self::method_kinds()) {
            Some(dk) => self.provide_method(dk),
            None => None,
        }
    }

    /// Serves the URI channel in the kind that the caller preference and
    /// the advertised capability set resolve to: the result equals, in
    /// content, resolving first and then asking for the resolved kind
    /// explicitly, so it is `None` exactly when nothing resolves or the
    /// resolved kind turns out absent.
    fn provide_preferred_uri(&self, prefs: &DataKindPreference) -> (r: Option<UriData>)
        ensures
            opt_item_model(r) == (match resolve(prefs.listed(), Self::uri_kinds_spec()) {
                Some(k) => self.uri_data_spec(k),
                None => None,
            }),
            r matches Some(item) ==> resolve(prefs.listed(), Self::uri_kinds_spec()) == Some(
                item.kind(),
            ),
    {
        match prefs.top(Self::uri_kinds()) {
            Some(dk) => self.provide_uri(dk),
            None => None,
        }
    }

    /// Serves the header channel in the kind that the caller preference
    /// and the advertised capability set resolve to: the result equals,
    /// in content, resolving first and then asking for the resolved kind
    /// explicitly, so it is `None` exactly when nothing resolves or the
    /// resolved kind turns out absent.
    fn provide_preferred_headers(&self, prefs: &DataKindPreference) -> (r: Option<HeaderData>)
        ensures
            opt_header_model(r) == (match resolve(prefs.listed(), Self::header_kinds_spec()) {
                Some(k) => self.header_data_spec(k),
                None => None,
            }),
            r matches Some(h) ==> resolve(prefs.listed(), Self::header_kinds_spec()) == Some(
                h.kind(),
            ),
    {
        match prefs.top(Self::header_kinds()) {
            Some(dk) => self.provide_headers(dk),
            None => None,
        }
    }
}

} // verus!

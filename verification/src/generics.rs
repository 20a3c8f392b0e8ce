use vstd::prelude::*;

use crate::data::TlsVersion;

verus! {

/// A source that exposes the request method in one fixed representation
/// `T`, chosen at the implementer's definition site instead of being
/// negotiated at call time.
pub trait MethodAccessor<T> {
    fn method(&self) -> T;
}

/// A source that exposes the request target in one fixed representation
/// `T`.
pub trait UriAccessor<T> {
    fn uri(&self) -> T;
}

/// A source that exposes its header pairs with one fixed representation
/// for names and one for values.
pub trait Headers<Name, Value> {
    /// The finite sequence of (name, value) pairs of the source.
    fn headers(&self) -> Vec<(Name, Value)>;
}

/// A source that exposes its two socket endpoints in one fixed
/// representation `T`, together with the negotiated TLS version.
pub trait Connection<T> {
    /// The negotiated TLS version; `None` means the connection is not
    /// TLS.
    spec fn tls_version_spec(&self) -> Option<TlsVersion>;

    fn client_socket(&self) -> T;

    fn server_socket(&self) -> T;

    fn tls_version(&self) -> (r: Option<TlsVersion>)
        ensures
            r == self.tls_version_spec(),
    ;

    /// Whether the connection is TLS, derived from the TLS version being
    /// present.
    fn is_tls(&self) -> (r: bool)
        ensures
            r == (self.tls_version_spec() is Some),
    {
        self.tls_version().is_some()
    }
}

} // verus!

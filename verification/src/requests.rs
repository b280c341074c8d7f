use vstd::prelude::*;
use crate::json::value_rep;
use crate::wire::WireValue;

pub mod torrent_set;

verus! {

/// A request kind that the daemon understands: a constant method name paired
/// with the response type the transport layer deserializes into on success.
pub trait Request {
    type Response;

    /// The method name of this request kind. It takes no request value: the
    /// name belongs to the kind, never to an instance's contents.
    spec fn spec_method_name() -> Seq<char>;

    /// Returns the constant method name identifying this request kind.
    fn method_name(&self) -> (r: &'static str)
        ensures
            r@ == Self::spec_method_name(),
    ;
}

/// A request whose state can be serialized into a wire argument object.
pub trait RequestArguments {
    /// The wire object that serializing this request yields.
    spec fn spec_arguments(&self) -> WireValue;

    /// Serializes the request's state into a wire argument object. Reads the
    /// request and builds a fresh value; the request stays usable.
    fn arguments(&self) -> (r: serde_json::Value)
        ensures
            value_rep(r) == self.spec_arguments(),
    ;
}

} // verus!

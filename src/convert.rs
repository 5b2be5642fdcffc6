//! Conversions between the wire message's types and the library's own.
use vstd::prelude::*;

verus! {

/// A type that can be built from its counterpart on the wire.
pub trait FromApi: Sized {
    type ApiType;

    /// The value built from `api_type`.
    spec fn from_api_spec(api_type: Self::ApiType) -> Self;

    fn from_api(api_type: Self::ApiType) -> (r: Self)
        ensures
            r == Self::from_api_spec(api_type),
    ;
}

/// A type that converts into its counterpart on the wire.
pub trait IntoApi: Sized {
    type ApiType;

    /// Whether `api` is what `self` converts to.
    spec fn converts_to(self, api: Self::ApiType) -> bool;

    fn into_api(self) -> (r: Self::ApiType)
        ensures
            self.converts_to(r),
    ;
}

} // verus!

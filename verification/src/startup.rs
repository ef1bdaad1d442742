use vstd::prelude::*;

verus! {

/// The public base URL confirmation links are built against.
pub struct ApplicationBaseUrl(pub String);

/// The secret the one-shot message store is keyed with.
pub struct HmacSecret(pub String);

} // verus!

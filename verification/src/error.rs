use vstd::prelude::*;

verus! {

/// The errors of this library.
#[derive(Debug)]
pub enum Error {
    /// The PKCS#12 data could not be read, or holds no private key.
    InvalidCertificate,
    /// A value could not be turned into JSON; the text describes why.
    SerializeError(String),
}

} // verus!

//! What the key provider fixes about encryption: the algorithms a request
//! may name and the key of the sample provider. The cipher itself is the
//! driver's.

use vstd::prelude::*;

verus! {

/// The key of the sample key provider. It is public knowledge and protects
/// nothing: for tests and demos only.
pub const HARDCODED_KEY: [u8; 32] = [
    217, 155, 119, 5, 176, 186, 122, 22, 130, 149, 179, 163, 54, 114, 112, 176, 221, 155, 55, 27,
    245, 20, 202, 139, 155, 167, 240, 163, 55, 17, 218, 234,
];

/// Encryption algorithm and mode, named in the `wrap_type` of an annotation.
#[derive(Clone, Copy, Debug, PartialEq, Eq, Structural)]
pub enum Algorithm {
    /// AES-256 in Galois/counter mode. The default.
    A256GCM,
    /// AES-256 in counter mode.
    A256CTR,
}

impl Algorithm {
    /// The identifier of the algorithm.
    pub open spec fn name(self) -> Seq<char> {
        match self {
            Algorithm::A256GCM => "A256GCM"@,
            Algorithm::A256CTR => "A256CTR"@,
        }
    }

    /// The algorithm that `name` identifies, if any. Identifiers are matched
    /// exactly.
    pub open spec fn named(name: Seq<char>) -> Option<Algorithm> {
        if name == "A256GCM"@ {
            Some(Algorithm::A256GCM)
        } else if name == "A256CTR"@ {
            Some(Algorithm::A256CTR)
        } else {
            None
        }
    }

    /// The identifier of the algorithm, as text.
    pub fn as_str(&self) -> (name: &'static str)
        ensures
            name@ == self.name(),
    {
        match self {
            Algorithm::A256GCM => "A256GCM",
            Algorithm::A256CTR => "A256CTR",
        }
    }
}

impl Default for Algorithm {
    fn default() -> (algorithm: Algorithm)
        ensures
            algorithm == Algorithm::A256GCM,
    {
        Algorithm::A256GCM
    }
}

} // verus!

//! SSH key algorithms and the results of remote commands.
use vstd::prelude::*;

use crate::text::{owned, str_equal};

verus! {

/// The algorithms of SSH keys.
#[derive(Debug, Clone, Copy, PartialEq, Eq, Structural)]
pub enum SSHKeyAlgorithm {
    Rsa,
    Ed25519,
    Ecdsa,
}

/// The name of an algorithm (kebab case).
pub open spec fn algorithm_name(a: SSHKeyAlgorithm) -> Seq<char> {
    match a {
        SSHKeyAlgorithm::Rsa => "rsa"@,
        SSHKeyAlgorithm::Ed25519 => "ed25519"@,
        SSHKeyAlgorithm::Ecdsa => "ecdsa"@,
    }
}

/// A text that names no algorithm.
#[derive(Debug)]
pub struct AlgorithmParseError;

impl Default for SSHKeyAlgorithm {
    /// Ed25519 is the default.
    fn default() -> (a: SSHKeyAlgorithm)
        ensures
            a == SSHKeyAlgorithm::Ed25519,
    {
        SSHKeyAlgorithm::Ed25519
    }
}

impl SSHKeyAlgorithm {
    /// The algorithm named `s`.
    pub fn from_str(s: &str) -> (r: Result<SSHKeyAlgorithm, AlgorithmParseError>)
        ensures
            match r {
                Ok(a) => algorithm_name(a) == s@,
                Err(_) => forall|a: SSHKeyAlgorithm| algorithm_name(a) != s@,
            },
    {
        if str_equal(s, "rsa") {
            Ok(SSHKeyAlgorithm::Rsa)
        } else if str_equal(s, "ed25519") {
            Ok(SSHKeyAlgorithm::Ed25519)
        } else if str_equal(s, "ecdsa") {
            Ok(SSHKeyAlgorithm::Ecdsa)
        } else {
            Err(AlgorithmParseError)
        }
    }

    /// The name of the algorithm.
    pub fn to_string(&self) -> (r: String)
        ensures
            r@ == algorithm_name(*self),
    {
        match self {
            SSHKeyAlgorithm::Rsa => owned("rsa"),
            SSHKeyAlgorithm::Ed25519 => owned("ed25519"),
            SSHKeyAlgorithm::Ecdsa => owned("ecdsa"),
        }
    }
}

/// `String::from_utf8_lossy`: valid UTF-8 decoded as it is; invalid sequences become
/// U+FFFD (what those become is not stated here).
#[verifier::external_body]
fn utf8_lossy(bytes: &Vec<u8>) -> (r: String)
    ensures
        vstd::utf8::valid_utf8(bytes@) ==> r@ == vstd::utf8::decode_utf8(bytes@),
{
    String::from_utf8_lossy(bytes).into()
}

/// What a command run over SSH printed, and its exit status.
pub struct SshCommandResult {
    output: Vec<u8>,
    code: Option<u32>,
}

impl SshCommandResult {
    pub closed spec fn output_bytes(&self) -> Seq<u8> {
        self.output@
    }

    pub closed spec fn exit_code(&self) -> Option<u32> {
        self.code
    }

    pub fn new(output: Vec<u8>, code: Option<u32>) -> (r: SshCommandResult)
        ensures
            r.output_bytes() == output@,
            r.exit_code() == code,
    {
        SshCommandResult { output, code }
    }

    /// The output as text.
    pub fn output(&self) -> (r: String)
        ensures
            vstd::utf8::valid_utf8(self.output_bytes()) ==> r@ == vstd::utf8::decode_utf8(self.output_bytes()),
    {
        utf8_lossy(&self.output)
    }

    /// The command exited with status 0.
    pub fn success(&self) -> (r: bool)
        ensures
            r == (self.exit_code() == Some(0u32)),
    {
        match self.code {
            Some(c) => c == 0,
            None => false,
        }
    }
}

} // verus!

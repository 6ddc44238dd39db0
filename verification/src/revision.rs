//! Turning the output of the revision-control command into a revision
//! identifier: the command's standard output, decoded and trimmed.

use vstd::prelude::*;
use vstd::utf8::{decode_utf8, valid_utf8};

use crate::errors::ConfigError;
use crate::text::{spec_trim, trim_ascii};

verus! {

/// What the decoding of `bytes` by a replacing UTF-8 decoder yields: the
/// decoding depends on the bytes alone.
pub uninterp spec fn utf8_lossy(bytes: Seq<u8>) -> Seq<char>;

/// Relies on String::from_utf8_lossy: decodes the bytes, replacing invalid
/// sequences; on valid UTF-8 input it decodes exactly.
#[verifier::external_body]
fn decode_lossy(bytes: &[u8]) -> (r: String)
    ensures
        r@ == utf8_lossy(bytes@),
        valid_utf8(bytes@) ==> r@ == decode_utf8(bytes@),
{
    String::from_utf8_lossy(bytes).into_owned()
}

/// What a run of the revision-control command produced: its exit status and
/// its captured standard output.
#[derive(Debug)]
pub struct CommandOutput {
    pub success: bool,
    pub stdout: Vec<u8>,
}

impl Clone for CommandOutput {
    fn clone(&self) -> (r: Self)
        ensures
            r.success == self.success,
            r.stdout@ == self.stdout@,
    {
        CommandOutput { success: self.success, stdout: self.stdout.clone() }
    }
}

/// The revision identifier carried by a command run, when there is one:
/// the standard output of a successful run, trimmed and decoded.
pub open spec fn spec_revision(output: Option<CommandOutput>) -> Option<Seq<char>> {
    match output {
        Some(o) => if o.success {
            Some(utf8_lossy(spec_trim(o.stdout@)))
        } else {
            None
        },
        None => None,
    }
}

/// Extract the revision identifier from a command run: the trimmed standard
/// output of a successful run; `RevisionLookupError` when the command could
/// not be run (`None`) or exited unsuccessfully.
pub fn revision_from_output(output: Option<CommandOutput>) -> (r: Result<String, ConfigError>)
    ensures
        r matches Ok(sha) ==> spec_revision(output) == Some(sha@),
        r matches Err(e) ==> spec_revision(output) is None && e
            == ConfigError::RevisionLookupError,
        r is Ok <==> spec_revision(output) is Some,
{
    match output {
        Some(o) => {
            if o.success {
                let trimmed = trim_ascii(o.stdout.as_slice());
                Ok(decode_lossy(trimmed.as_slice()))
            } else {
                Err(ConfigError::RevisionLookupError)
            }
        },
        None => Err(ConfigError::RevisionLookupError),
    }
}

} // verus!

//! Run output items and the shape of one poll response.
//!
//! A task's byte streams arrive as [`RunnerOutput`] chunks tagged with their
//! source. A polling client receives them decoded to text, batched, together
//! with the run's current completion flags.

use vstd::prelude::*;

verus! {

/// The most output items one poll call returns.
pub const BATCH_CAP: usize = 25;

/// One chunk of multiplexed run output: a byte payload tagged with the
/// stream it came from. Order within one stream is preserved; interleaving
/// between the two streams follows arrival order into the shared channel.
#[derive(Debug, Clone)]
pub enum RunnerOutput {
    Stdout(Vec<u8>),
    Stderr(Vec<u8>),
}

/// The text form of one output chunk, as delivered to a polling client.
#[derive(Debug, Clone)]
pub enum RunnerOutputExt {
    Stdout(String),
    Stderr(String),
}

/// The characters `String::from_utf8_lossy` decodes from a byte sequence.
pub uninterp spec fn lossy_text(bytes: Seq<u8>) -> Seq<char>;

/// Relies on `String::from_utf8_lossy`: decodes the bytes as UTF-8 with
/// replacement characters for invalid sequences; the result depends on the
/// bytes alone, and no bytes decode to no characters.
#[verifier::external_body]
fn utf8_lossy(bytes: &Vec<u8>) -> (r: String)
    ensures
        r@ == lossy_text(bytes@),
        bytes@.len() == 0 ==> r@.len() == 0,
{
    String::from_utf8_lossy(bytes).into_owned()
}

/// `t` is the text form of the byte chunk `o`: the same source tag, with the
/// payload decoded as UTF-8.
pub open spec fn is_text_of(t: RunnerOutputExt, o: RunnerOutput) -> bool {
    match (t, o) {
        (RunnerOutputExt::Stdout(s), RunnerOutput::Stdout(b)) => s@ == lossy_text(b@),
        (RunnerOutputExt::Stderr(s), RunnerOutput::Stderr(b)) => s@ == lossy_text(b@),
        _ => false,
    }
}

impl RunnerOutputExt {
    /// Decode a byte chunk to its text form, keeping the source tag.
    pub fn from_output(o: RunnerOutput) -> (r: RunnerOutputExt)
        ensures
            is_text_of(r, o),
    {
        match o {
            RunnerOutput::Stdout(b) => RunnerOutputExt::Stdout(utf8_lossy(&b)),
            RunnerOutput::Stderr(b) => RunnerOutputExt::Stderr(utf8_lossy(&b)),
        }
    }
}

/// One poll response: the drained batch, whether the run is done, and its
/// success flag once known.
#[derive(Debug)]
pub struct PollOutput {
    pub end: bool,
    pub success: Option<bool>,
    pub data: Vec<RunnerOutputExt>,
}

/// How a process exited: the overall success flag and the exit code when the
/// operating system reported one.
#[derive(Debug, Clone, Copy)]
pub struct CommandStatus {
    pub success: bool,
    pub exit_code: Option<i32>,
}

} // verus!

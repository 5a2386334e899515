//! What one run is asked to do, as the command line states it.

use vstd::prelude::*;
use crate::percent::{parse_percent, percent_of};

verus! {

/// Arguments that a command line must hold: the program's name, the URI, the
/// output's name and the percentage.
pub const ARGUMENT_COUNT: usize = 4;

/// One run: the video to open, where the image goes, and how far into the
/// video the frame lies.
#[derive(Debug, Clone, PartialEq, Eq)]
pub struct Request {
    pub uri: String,
    pub output: String,
    pub percent: u64,
}

/// [`Request`] with its texts as sequences of characters.
pub struct RequestView {
    pub uri: Seq<char>,
    pub output: Seq<char>,
    pub percent: u64,
}

impl View for Request {
    type V = RequestView;

    open spec fn view(&self) -> RequestView {
        RequestView { uri: self.uri@, output: self.output@, percent: self.percent }
    }
}

impl Request {
    /// Reads a command line: the program's name, then URI, output and
    /// percentage. Further arguments are passed over. A percentage that is no
    /// number is the default one; a command line that is too short is no
    /// request.
    pub fn from_args(args: &Vec<String>) -> (request: Option<Request>)
        ensures
            match request {
                Some(read) => args.len() >= ARGUMENT_COUNT && read@ == (RequestView {
                    uri: args[1]@,
                    output: args[2]@,
                    percent: percent_of(args[3]@),
                }),
                None => args.len() < ARGUMENT_COUNT,
            },
    {
        if args.len() < ARGUMENT_COUNT {
            return None;
        }
        Some(
            Request {
                uri: args[1].clone(),
                output: args[2].clone(),
                percent: parse_percent(args[3].as_str()),
            },
        )
    }
}

} // verus!

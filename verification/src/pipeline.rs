//! The description of the processing graph that the media backend is asked
//! to build: a source that decodes whatever the URI names, colour
//! conversion, scaling, an overlay that shows the stream time, and a sink
//! from which frames are pulled.

use vstd::prelude::*;
use vstd::string::*;

verus! {

/// The name under which the sink is found in the graph.
pub const SINK_NAME: &'static str = "sink";

/// The only format that the sink accepts: 24-bit RGB with square pixels.
pub const FRAME_CAPS: &'static str = "video/x-raw,format=RGB,pixel-aspect-ratio=1/1";

/// What stands before the URI in a description.
pub const SOURCE_STAGE: &'static str = "uridecodebin uri=";

/// What stands between the URI and the sink's name in a description.
pub const PROCESSING_STAGES: &'static str =
    " ! videoconvert ! videoscale ! timeoverlay ! appsink name=";

/// What stands between the sink's name and its format in a description.
pub const CAPS_SETTING: &'static str = " caps=";

/// The description of the graph that extracts frames from `uri`.
pub open spec fn description_of(uri: Seq<char>) -> Seq<char> {
    SOURCE_STAGE@ + uri + PROCESSING_STAGES@ + SINK_NAME@ + CAPS_SETTING@ + FRAME_CAPS@
}

/// Writes the description of the graph that extracts frames from `uri`. The
/// URI is taken as it is: whether it names anything is for the backend to say.
pub fn pipeline_description(uri: &str) -> (description: String)
    ensures
        description@ == description_of(uri@),
{
    let mut description = String::from_str(SOURCE_STAGE);
    description.append(uri);
    description.append(PROCESSING_STAGES);
    description.append(SINK_NAME);
    description.append(CAPS_SETTING);
    description.append(FRAME_CAPS);
    description
}

/// Two URIs with one description are one URI.
pub proof fn lemma_description_tells_uri(first: Seq<char>, second: Seq<char>)
    requires
        description_of(first) == description_of(second),
    ensures
        first == second,
{
    let head = SOURCE_STAGE@;
    let tail = PROCESSING_STAGES@ + SINK_NAME@ + CAPS_SETTING@ + FRAME_CAPS@;
    assert(description_of(first) =~= head + first + tail);
    assert(description_of(second) =~= head + second + tail);
    assert(first.len() == second.len());
    assert forall|i: int| 0 <= i < first.len() implies first[i] == second[i] by {
        assert((head + first + tail)[head.len() + i] == first[i]);
        assert((head + second + tail)[head.len() + i] == second[i]);
    }
    assert(first =~= second);
}

} // verus!

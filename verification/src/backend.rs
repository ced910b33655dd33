//! Plain-value models of the backend HTTP contract.
//!
//! The transport layer outside the library fetches and decodes the JSON
//! responses of the stream, playlist and metadata APIs and hands the
//! bit-relevant fields over as these types; everything the engine decides
//! from them is verified here and in the resolver.

use vstd::prelude::*;

use crate::strutil::contains_seq;

verus! {

/// One audio stream candidate of a stream lookup response.
#[derive(Debug, Clone)]
pub struct AudioStream {
    pub url: String,
    pub bitrate: u64,
}

/// One entry of a related-stream list. A duration that the backend omitted
/// or that could not be read as a number is `None`, which fails the
/// duration filter (fails closed).
#[derive(Debug, Clone)]
pub struct RelatedStream {
    pub url: String,
    pub duration: Option<u64>,
}

/// The bit-relevant fields of a stream lookup response.
#[derive(Debug, Clone)]
pub struct StreamsPage {
    pub audio_streams: Vec<AudioStream>,
    pub related_streams: Vec<RelatedStream>,
    pub title: String,
    pub duration: u64,
}

/// One page of a playlist lookup response: the entry URLs in the order the
/// backend returned them, and the opaque cursor of the next page, if any.
#[derive(Debug, Clone)]
pub struct PlaylistPage {
    pub stream_urls: Vec<String>,
    pub nextpage: Option<String>,
}

/// The outcome of probing a backend URL, as the transport layer saw it.
#[derive(Debug, Clone, PartialEq, Eq, Structural)]
pub enum ProbeOutcome {
    /// The request completed with this HTTP status code.
    Status(u16),
    /// The backend reported the video as unavailable in every region.
    BlockedInAllRegions,
    /// The request failed without a status: timeout, connection failure.
    TransportFailure,
}

/// Position `i` holds the selected audio stream: no stream has a higher
/// bitrate, and later streams have strictly lower ones. This is the stream
/// that a stable sort by ascending bitrate puts last.
pub open spec fn is_selected_stream(streams: Seq<AudioStream>, i: int) -> bool {
    &&& 0 <= i < streams.len()
    &&& forall|j: int| 0 <= j < streams.len() ==> streams[j].bitrate <= streams[i].bitrate
    &&& forall|j: int| i < j < streams.len() ==> streams[j].bitrate < streams[i].bitrate
}

/// The position of the selected audio stream. Meaningful only for a
/// non-empty list.
pub open spec fn selected_stream_index(streams: Seq<AudioStream>) -> int {
    choose|i: int| is_selected_stream(streams, i)
}

/// At most one position can hold the selected stream.
pub proof fn lemma_selected_stream_unique(streams: Seq<AudioStream>, i: int)
    requires
        is_selected_stream(streams, i),
    ensures
        selected_stream_index(streams) == i,
{
    let c = selected_stream_index(streams);
    assert(is_selected_stream(streams, c));
    if c < i {
        assert(streams[i].bitrate < streams[c].bitrate);
        assert(false);
    }
    if c > i {
        assert(streams[c].bitrate < streams[i].bitrate);
        assert(false);
    }
}

/// Picks the position of the highest-bitrate audio stream; among equal
/// maxima the last one in list order wins. `None` only for an empty list.
pub fn select_audio_stream(streams: &Vec<AudioStream>) -> (r: Option<usize>)
    ensures
        r is Some <==> streams@.len() > 0,
        r matches Some(i) ==> is_selected_stream(streams@, i as int) && i as int
            == selected_stream_index(streams@),
{
    if streams.len() == 0 {
        return None;
    }
    let mut best: usize = 0;
    let mut k: usize = 1;
    while k < streams.len()
        invariant
            best < k <= streams@.len(),
            forall|j: int| 0 <= j < k ==> streams@[j].bitrate <= streams@[best as int].bitrate,
            forall|j: int| best < j < k ==> streams@[j].bitrate < streams@[best as int].bitrate,
        decreases streams@.len() - k,
    {
        if streams[k].bitrate >= streams[best].bitrate {
            best = k;
        }
        k += 1;
    }
    proof {
        lemma_selected_stream_unique(streams@, best as int);
    }
    Some(best)
}

/// A related entry is a playlist or mix link, which the scan skips outright.
pub open spec fn is_playlist_link(entry: RelatedStream) -> bool {
    contains_seq(entry.url@, "/playlist"@)
}

} // verus!

//! The source resolver: eligibility filtering, audio stream selection,
//! playlist assembly, request-URL construction and mirror failover for the
//! two backend families.
//!
//! The transport layer performs the HTTP requests and hands the decoded
//! pages in; every decision taken on them is verified here. The retry
//! policy is driven one step at a time: a failed call advances the family's
//! mirror, a successful one marks the mirror as the new cycle start.

use vstd::prelude::*;
use vstd::pervasive::unreached;
use vstd::string::StrSliceExecFns;
use vstd::string::StringExecFns;

use crate::backend::{
    is_playlist_link, is_selected_stream, selected_stream_index, select_audio_stream,
    PlaylistPage, ProbeOutcome, RelatedStream, StreamsPage,
};
use crate::failover::{advance_exhausted, next_index_spec, DomainFailover};
use crate::outside::{url_encode, url_encoded};
use crate::source::{
    has_playlist_marker, has_video_marker, playlist_marker, video_id_of, Remote, Source,
};
use crate::strutil::{contains_seq, str_contains};
use crate::Error;

verus! {

/// The id is one of the already-played ids.
pub open spec fn id_in(played: Seq<String>, id: Seq<char>) -> bool {
    exists|k: int| 0 <= k < played.len() && played[k]@ == id
}

/// The filters on a related candidate that need no metadata lookup:
/// its URL carries a video id, the id has not been played, the id is not a
/// mix or playlist id, and the reported duration is within the limit
/// (a missing duration fails, closed).
pub open spec fn passes_id_filters(
    url: Seq<char>,
    duration: Option<u64>,
    played: Seq<String>,
    limit: u64,
) -> bool {
    &&& has_video_marker(url)
    &&& !id_in(played, video_id_of(url))
    &&& !contains_seq(video_id_of(url), playlist_marker())
    &&& duration matches Some(d) && d <= limit
}

/// The reported genre names music.
pub open spec fn genre_is_music_spec(genre: Seq<char>) -> bool {
    contains_seq(genre, "Music"@)
}

/// All filters a related candidate must pass, in scan terms: it is not a
/// playlist link, it passes the id filters, and its genre names music.
pub open spec fn eligible_related(
    entry: RelatedStream,
    played: Seq<String>,
    limit: u64,
    genre: Seq<char>,
) -> bool {
    &&& !is_playlist_link(entry)
    &&& passes_id_filters(entry.url@, entry.duration, played, limit)
    &&& genre_is_music_spec(genre)
}

/// An entry that stops the scan with an error: it is not skipped as a
/// playlist link, yet no video id can be read from its URL.
pub open spec fn blocks_scan(entry: RelatedStream) -> bool {
    !is_playlist_link(entry) && !has_video_marker(entry.url@)
}

/// The scan has passed positions `0 .. i` without finding an eligible
/// entry and without being stopped.
pub open spec fn scan_clean_before(
    related: Seq<RelatedStream>,
    genres: Seq<String>,
    played: Seq<String>,
    limit: u64,
    i: int,
) -> bool {
    forall|j: int|
        0 <= j < i ==> !eligible_related(#[trigger] related[j], played, limit, genres[j]@)
            && !blocks_scan(related[j])
}

/// Somewhere in the list stands an eligible entry that the scan reaches.
pub open spec fn scan_finds(
    related: Seq<RelatedStream>,
    genres: Seq<String>,
    played: Seq<String>,
    limit: u64,
) -> bool {
    exists|i: int|
        0 <= i < related.len() && eligible_related(
            #[trigger] related[i],
            played,
            limit,
            genres[i]@,
        ) && scan_clean_before(related, genres, played, limit, i)
}

/// The scan runs into a blocking entry before any eligible one.
pub open spec fn scan_blocked(
    related: Seq<RelatedStream>,
    genres: Seq<String>,
    played: Seq<String>,
    limit: u64,
) -> bool {
    exists|i: int|
        0 <= i < related.len() && blocks_scan(#[trigger] related[i]) && scan_clean_before(
            related,
            genres,
            played,
            limit,
            i,
        )
}

/// The URLs of all playlist pages, flattened in page order.
pub open spec fn flat_urls(pages: Seq<PlaylistPage>) -> Seq<String>
    decreases pages.len(),
{
    if pages.len() == 0 {
        Seq::empty()
    } else {
        pages[0].stream_urls@ + flat_urls(pages.drop_first())
    }
}

/// Every entry URL of every page carries a video id.
pub open spec fn all_entries_have_ids(pages: Seq<PlaylistPage>) -> bool {
    forall|p: int, k: int|
        0 <= p < pages.len() && 0 <= k < pages[p].stream_urls.len() ==> has_video_marker(
            #[trigger] pages[p].stream_urls[k]@,
        )
}

/// Flattening one more page appends that page's URLs.
pub proof fn lemma_flat_urls_take(pages: Seq<PlaylistPage>, i: int)
    requires
        0 <= i < pages.len(),
    ensures
        flat_urls(pages.take(i + 1)) =~= flat_urls(pages.take(i)) + pages[i].stream_urls@,
    decreases i,
{
    let t1 = pages.take(i + 1);
    let t0 = pages.take(i);
    if i == 0 {
        assert(t1.drop_first() =~= Seq::<PlaylistPage>::empty());
        assert(t1[0] == pages[0]);
        assert(flat_urls(t1.drop_first()) =~= Seq::<String>::empty());
        assert(flat_urls(t1) =~= pages[0].stream_urls@);
        assert(flat_urls(t0) =~= Seq::<String>::empty());
    } else {
        lemma_flat_urls_take(pages.drop_first(), i - 1);
        assert(t1.drop_first() =~= pages.drop_first().take(i));
        assert(t0.drop_first() =~= pages.drop_first().take(i - 1));
        assert(pages.drop_first()[i - 1] == pages[i]);
        assert(flat_urls(t1) =~= flat_urls(t0) + pages[i].stream_urls@);
    }
}

/// The played-id set prevents replay: an id that was ever offered to the
/// driver cannot be the id of any entry a lookahead scan accepts, because
/// eligibility excludes every played id.
pub proof fn lemma_no_replay(
    related: Seq<RelatedStream>,
    genres: Seq<String>,
    played: Seq<String>,
    limit: u64,
    i: int,
    id: Seq<char>,
)
    requires
        0 <= i < related.len(),
        eligible_related(related[i], played, limit, genres[i]@),
        id_in(played, id),
    ensures
        video_id_of(related[i].url@) != id,
{
    if video_id_of(related[i].url@) == id {
        assert(!id_in(played, video_id_of(related[i].url@)));
        assert(false);
    }
}

/// Only one position can be the first eligible entry of a scan: being
/// eligible with a clean prefix pins the position.
pub proof fn lemma_first_qualifying_unique(
    related: Seq<RelatedStream>,
    genres: Seq<String>,
    played: Seq<String>,
    limit: u64,
    i: int,
    j: int,
)
    requires
        0 <= i < related.len(),
        0 <= j < related.len(),
        eligible_related(related[i], played, limit, genres[i]@),
        scan_clean_before(related, genres, played, limit, i),
        eligible_related(related[j], played, limit, genres[j]@),
        scan_clean_before(related, genres, played, limit, j),
    ensures
        i == j,
{
    if i < j {
        assert(!eligible_related(related[i], played, limit, genres[i]@));
    }
    if j < i {
        assert(!eligible_related(related[j], played, limit, genres[j]@));
    }
}

/// A probe outcome that marks the probed id as invalid data rather than a
/// transport problem: a bad-request or server-error status, or a video
/// blocked in every region.
pub open spec fn probe_invalid_data(p: ProbeOutcome) -> bool {
    p == ProbeOutcome::Status(400u16) || p == ProbeOutcome::Status(500u16)
        || p == ProbeOutcome::BlockedInAllRegions
}

/// Does the reported genre name music?
pub fn genre_is_music(genre: &str) -> (r: bool)
    ensures
        r == genre_is_music_spec(genre@),
{
    str_contains(genre, "Music")
}

/// Is the id one of the already-played ids?
pub fn contains_id(ids: &Vec<String>, id: &String) -> (r: bool)
    ensures
        r == id_in(ids@, id@),
{
    let mut k: usize = 0;
    while k < ids.len()
        invariant
            k <= ids@.len(),
            forall|j: int| 0 <= j < k ==> ids@[j]@ != id@,
        decreases ids@.len() - k,
    {
        if ids[k].eq(id) {
            return true;
        }
        k += 1;
    }
    false
}

/// Resolves stream, playlist and related-track lookups against the piped
/// mirror family and genre lookups against the invidious mirror family,
/// with independent failover state for each.
pub struct RemoteSourceProcessor {
    pub piped: DomainFailover,
    pub invidious: DomainFailover,
    pub duration_limit: u64,
}

impl RemoteSourceProcessor {
    /// Both mirror indices point into their lists.
    pub open spec fn wf(self) -> bool {
        self.piped.wf() && self.invidious.wf()
    }

    pub fn new(
        piped_api_domains: Vec<String>,
        piped_api_domain_index: usize,
        invidious_api_domains: Vec<String>,
        invidious_api_domain_index: usize,
        duration_limit: u64,
    ) -> (r: Result<Self, Error>)
        requires
            piped_api_domain_index < piped_api_domains.len(),
            invidious_api_domain_index < invidious_api_domains.len(),
        ensures
            r matches Ok(p) ==> {
                &&& p.wf()
                &&& p.piped == DomainFailover {
                    domains: piped_api_domains,
                    index: piped_api_domain_index,
                    cycle_start: piped_api_domain_index,
                }
                &&& p.invidious == DomainFailover {
                    domains: invidious_api_domains,
                    index: invidious_api_domain_index,
                    cycle_start: invidious_api_domain_index,
                }
                &&& p.duration_limit == duration_limit
            },
            r is Ok,
    {
        Ok(Self {
            piped: DomainFailover::new(piped_api_domains, piped_api_domain_index),
            invidious: DomainFailover::new(invidious_api_domains, invidious_api_domain_index),
            duration_limit,
        })
    }

    /// Moves the stream-API family to its next mirror; reports the whole
    /// family as down when every mirror has been tried since the last
    /// success.
    pub fn next_piped_api_domains_index(&mut self) -> (r: Result<(), Error>)
        requires
            old(self).wf(),
        ensures
            final(self).wf(),
            final(self).piped.domains == old(self).piped.domains,
            final(self).piped.cycle_start == old(self).piped.cycle_start,
            final(self).invidious == old(self).invidious,
            final(self).duration_limit == old(self).duration_limit,
            r is Ok <==> !advance_exhausted(
                old(self).piped.index as int,
                old(self).piped.domains.len() as int,
                old(self).piped.cycle_start as int,
            ),
            r is Ok ==> final(self).piped.index == next_index_spec(
                old(self).piped.index as int,
                old(self).piped.domains.len() as int,
            ),
            r is Err ==> *final(self) == *old(self),
            r matches Err(e) ==> e is AllPipedApiDomainsDown,
    {
        match self.piped.advance() {
            Ok(()) => Ok(()),
            Err(()) => Err(
                Error::AllPipedApiDomainsDown(
                    String::from_str("All piped api domains are unrechable"),
                ),
            ),
        }
    }

    /// Moves the metadata-API family to its next mirror; reports the whole
    /// family as down when every mirror has been tried since the last
    /// success.
    pub fn next_invidious_api_domains_index(&mut self) -> (r: Result<(), Error>)
        requires
            old(self).wf(),
        ensures
            final(self).wf(),
            final(self).invidious.domains == old(self).invidious.domains,
            final(self).invidious.cycle_start == old(self).invidious.cycle_start,
            final(self).piped == old(self).piped,
            final(self).duration_limit == old(self).duration_limit,
            r is Ok <==> !advance_exhausted(
                old(self).invidious.index as int,
                old(self).invidious.domains.len() as int,
                old(self).invidious.cycle_start as int,
            ),
            r is Ok ==> final(self).invidious.index == next_index_spec(
                old(self).invidious.index as int,
                old(self).invidious.domains.len() as int,
            ),
            r is Err ==> *final(self) == *old(self),
            r matches Err(e) ==> e is AllInvidiousApiDomainsDown,
    {
        match self.invidious.advance() {
            Ok(()) => Ok(()),
            Err(()) => Err(
                Error::AllInvidiousApiDomainsDown(
                    String::from_str("All invidious api domains are unrechable"),
                ),
            ),
        }
    }

    /// The stream-API mirror currently in use.
    pub fn get_piped_api_domain(&self) -> (r: &str)
        requires
            self.wf(),
        ensures
            r@ == self.piped.domains@[self.piped.index as int]@,
    {
        self.piped.current()
    }

    /// The metadata-API mirror currently in use.
    pub fn get_invidious_api_domain(&self) -> (r: &str)
        requires
            self.wf(),
        ensures
            r@ == self.invidious.domains@[self.invidious.index as int]@,
    {
        self.invidious.current()
    }

    /// The stream lookup URL for a video id on the current mirror.
    pub fn stream_request_url(&self, video_id: &str) -> (r: String)
        requires
            self.wf(),
        ensures
            r@ == self.piped.domains@[self.piped.index as int]@ + "/streams/"@ + video_id@,
    {
        let mut url = self.get_piped_api_domain().to_owned();
        url.append("/streams/");
        url.append(video_id);
        url
    }

    /// The playlist lookup URL for a playlist id on the current mirror.
    pub fn playlist_request_url(&self, playlist_id: &str) -> (r: String)
        requires
            self.wf(),
        ensures
            r@ == self.piped.domains@[self.piped.index as int]@ + "/playlists/"@ + playlist_id@,
    {
        let mut url = self.get_piped_api_domain().to_owned();
        url.append("/playlists/");
        url.append(playlist_id);
        url
    }

    /// The URL of the next playlist page, with the opaque cursor
    /// percent-encoded.
    pub fn nextpage_request_url(&self, playlist_id: &str, nextpage: &str) -> (r: String)
        requires
            self.wf(),
        ensures
            r@ == self.piped.domains@[self.piped.index as int]@ + "/nextpage/playlists/"@
                + playlist_id@ + "?nextpage="@ + url_encoded(nextpage@),
    {
        let mut url = self.get_piped_api_domain().to_owned();
        url.append("/nextpage/playlists/");
        url.append(playlist_id);
        url.append("?nextpage=");
        let encoded = url_encode(nextpage);
        url.append(encoded.as_str());
        url
    }

    /// The metadata lookup URL for a video id on the current mirror.
    pub fn genre_request_url(&self, video_id: &str) -> (r: String)
        requires
            self.wf(),
        ensures
            r@ == self.invidious.domains@[self.invidious.index as int]@ + "/api/v1/videos/"@
                + video_id@,
    {
        let mut url = self.get_invidious_api_domain().to_owned();
        url.append("/api/v1/videos/");
        url.append(video_id);
        url
    }

    /// Fills a track's audio URL, title and length from a fetched stream
    /// page, selecting the highest-bitrate audio stream, and marks the
    /// current stream-API mirror as good. Fails, changing nothing, when
    /// the page offers no audio stream at all.
    pub fn set_audio_url_title(&mut self, source: &mut Remote, page: &StreamsPage) -> (r: Result<
        (),
        Error,
    >)
        requires
            old(self).wf(),
        ensures
            final(self).wf(),
            r is Ok <==> page.audio_streams@.len() > 0,
            r matches Err(e) ==> e is OtherError && *final(self) == *old(self) && *final(source)
                == *old(source),
            r is Ok ==> {
                &&& final(source).url == old(source).url
                &&& final(source).video_id == old(source).video_id
                &&& final(source).audio_stream_url@ == page.audio_streams@[selected_stream_index(
                    page.audio_streams@,
                )].url@
                &&& is_selected_stream(page.audio_streams@, selected_stream_index(
                    page.audio_streams@,
                ))
                &&& final(source).title@ == page.title@
                &&& final(source).length == page.duration
                &&& final(self).piped.domains == old(self).piped.domains
                &&& final(self).piped.index == old(self).piped.index
                &&& final(self).piped.cycle_start == old(self).piped.index
                &&& final(self).invidious == old(self).invidious
                &&& final(self).duration_limit == old(self).duration_limit
            },
    {
        match select_audio_stream(&page.audio_streams) {
            Some(best) => {
                source.audio_stream_url = page.audio_streams[best].url.clone();
                source.title = page.title.clone();
                source.length = page.duration;
                self.piped.mark_success();
                Ok(())
            },
            None => Err(
                Error::OtherError(String::from_str("stream response held no audio streams")),
            ),
        }
    }

    /// Applies the outcome of one genre lookup: a fetched genre marks the
    /// current metadata mirror as good and is handed back; a failed lookup
    /// advances to the next mirror, telling the caller to retry (`Ok(None)`)
    /// until the family is exhausted.
    pub fn get_video_genre(&mut self, fetched: Option<String>) -> (r: Result<Option<String>, Error>)
        requires
            old(self).wf(),
        ensures
            final(self).wf(),
            final(self).piped == old(self).piped,
            final(self).duration_limit == old(self).duration_limit,
            fetched matches Some(g) ==> {
                &&& r matches Ok(rg) && rg == Some(g)
                &&& final(self).invidious.domains == old(self).invidious.domains
                &&& final(self).invidious.index == old(self).invidious.index
                &&& final(self).invidious.cycle_start == old(self).invidious.index
            },
            fetched is None ==> {
                &&& (r matches Ok(rg) ==> rg is None)
                &&& (r is Ok <==> !advance_exhausted(
                    old(self).invidious.index as int,
                    old(self).invidious.domains.len() as int,
                    old(self).invidious.cycle_start as int,
                ))
                &&& (r is Ok ==> final(self).invidious.index == next_index_spec(
                    old(self).invidious.index as int,
                    old(self).invidious.domains.len() as int,
                ) && final(self).invidious.domains == old(self).invidious.domains
                    && final(self).invidious.cycle_start == old(self).invidious.cycle_start)
                &&& (r is Err ==> *final(self) == *old(self))
                &&& (r matches Err(e) ==> e is AllInvidiousApiDomainsDown)
            },
    {
        match fetched {
            Some(genre) => {
                self.invidious.mark_success();
                Ok(Some(genre))
            },
            None => {
                self.next_invidious_api_domains_index()?;
                Ok(None)
            },
        }
    }

    /// Do all four eligibility filters accept this candidate? The caller
    /// supplies the already-fetched genre; a URL without a video id is an
    /// error, as the scan cannot name the candidate.
    pub fn check_filters_for_related_video_url(
        &self,
        video_url: &str,
        duration: Option<u64>,
        genre: &str,
        played_video_ids: &Vec<String>,
    ) -> (r: Result<bool, Error>)
        ensures
            r is Ok <==> has_video_marker(video_url@),
            r matches Ok(b) ==> b == (passes_id_filters(
                video_url@,
                duration,
                played_video_ids@,
                self.duration_limit,
            ) && genre_is_music_spec(genre@)),
            r matches Err(e) ==> e is InvalidVideoUrl,
    {
        let video_id = Remote::url_into_video_id(video_url)?;
        if contains_id(played_video_ids, &video_id) {
            return Ok(false);
        }
        if str_contains(video_id.as_str(), "list=") {
            return Ok(false);
        }
        match duration {
            Some(d) => {
                if d > self.duration_limit {
                    return Ok(false);
                }
            },
            None => {
                return Ok(false);
            },
        }
        Ok(genre_is_music(genre))
    }

    /// The first position at or after `start` whose entry passes the
    /// filters that need no metadata lookup; an entry whose URL carries no
    /// video id (and is not a skipped playlist link) stops the search with
    /// an error, as the scan would.
    pub fn next_local_candidate(
        &self,
        related_streams: &Vec<RelatedStream>,
        played_video_ids: &Vec<String>,
        start: usize,
    ) -> (r: Result<Option<usize>, Error>)
        ensures
            r matches Ok(Some(i)) ==> {
                &&& start <= i < related_streams@.len()
                &&& !is_playlist_link(related_streams@[i as int])
                &&& passes_id_filters(
                    related_streams@[i as int].url@,
                    related_streams@[i as int].duration,
                    played_video_ids@,
                    self.duration_limit,
                )
                &&& forall|j: int|
                    start <= j < i ==> !(!is_playlist_link(#[trigger] related_streams@[j])
                        && passes_id_filters(
                        related_streams@[j].url@,
                        related_streams@[j].duration,
                        played_video_ids@,
                        self.duration_limit,
                    )) && !blocks_scan(related_streams@[j])
            },
            r matches Ok(rr) && rr is None ==> forall|j: int|
                start <= j < related_streams@.len() ==> !(!is_playlist_link(
                    #[trigger] related_streams@[j],
                ) && passes_id_filters(
                    related_streams@[j].url@,
                    related_streams@[j].duration,
                    played_video_ids@,
                    self.duration_limit,
                )) && !blocks_scan(related_streams@[j]),
            r matches Err(e) ==> e is InvalidVideoUrl,
    {
        let mut i: usize = start;
        while i < related_streams.len()
            invariant
                start <= i,
                i <= related_streams@.len() || start >= related_streams@.len(),
                forall|j: int|
                    start <= j < i && j < related_streams@.len() ==> !(!is_playlist_link(
                        #[trigger] related_streams@[j],
                    ) && passes_id_filters(
                        related_streams@[j].url@,
                        related_streams@[j].duration,
                        played_video_ids@,
                        self.duration_limit,
                    )) && !blocks_scan(related_streams@[j]),
            decreases related_streams@.len() - i,
        {
            let entry = &related_streams[i];
            if !str_contains(entry.url.as_str(), "/playlist") {
                match Remote::url_into_video_id(entry.url.as_str()) {
                    Err(e) => {
                        return Err(e);
                    },
                    Ok(video_id) => {
                        let mut passes = true;
                        if contains_id(played_video_ids, &video_id) {
                            passes = false;
                        } else if str_contains(video_id.as_str(), "list=") {
                            passes = false;
                        } else {
                            match entry.duration {
                                Some(d) => {
                                    if d > self.duration_limit {
                                        passes = false;
                                    }
                                },
                                None => {
                                    passes = false;
                                },
                            }
                        }
                        if passes {
                            return Ok(Some(i));
                        }
                    },
                }
            }
            i += 1;
        }
        Ok(None)
    }

    /// Scans a related-stream list in backend order and returns a fresh
    /// source for the first entry that passes all four eligibility
    /// filters; the genre of each entry, as the metadata family reported
    /// it, is supplied alongside. Finding one marks the current stream-API
    /// mirror as good. An entry whose URL carries no video id stops the
    /// scan with an error; a scan that passes every entry finds no related
    /// video.
    pub fn get_related_video_source(
        &mut self,
        related_streams: &Vec<RelatedStream>,
        genres: &Vec<String>,
        played_video_ids: &Vec<String>,
    ) -> (r: Result<Source, Error>)
        requires
            old(self).wf(),
            genres@.len() == related_streams@.len(),
        ensures
            final(self).wf(),
            final(self).piped.domains == old(self).piped.domains,
            final(self).piped.index == old(self).piped.index,
            final(self).invidious == old(self).invidious,
            final(self).duration_limit == old(self).duration_limit,
            r is Ok <==> scan_finds(
                related_streams@,
                genres@,
                played_video_ids@,
                old(self).duration_limit,
            ),
            r matches Ok(src) ==> exists|i: int|
                {
                    &&& 0 <= i < related_streams@.len()
                    &&& eligible_related(
                        #[trigger] related_streams@[i],
                        played_video_ids@,
                        old(self).duration_limit,
                        genres@[i]@,
                    )
                    &&& scan_clean_before(
                        related_streams@,
                        genres@,
                        played_video_ids@,
                        old(self).duration_limit,
                        i,
                    )
                    &&& src is Remote
                    &&& src.spec_remote().fresh_from(related_streams@[i].url@)
                },
            r is Ok ==> final(self).piped.cycle_start == old(self).piped.index,
            r is Err ==> *final(self) == *old(self),
            r matches Err(e) ==> (e is InvalidVideoUrl <==> scan_blocked(
                related_streams@,
                genres@,
                played_video_ids@,
                old(self).duration_limit,
            )),
            r matches Err(e) ==> e is InvalidVideoUrl || e is NoRelatedVideoFound,
    {
        let ghost limit = self.duration_limit;
        let mut i: usize = 0;
        while i < related_streams.len()
            invariant
                self == old(self),
                self.wf(),
                genres@.len() == related_streams@.len(),
                limit == self.duration_limit,
                i <= related_streams@.len(),
                scan_clean_before(
                    related_streams@,
                    genres@,
                    played_video_ids@,
                    limit,
                    i as int,
                ),
            decreases related_streams@.len() - i,
        {
            let entry = &related_streams[i];
            if !str_contains(entry.url.as_str(), "/playlist") {
                match Remote::url_into_video_id(entry.url.as_str()) {
                    Err(e) => {
                        return Err(e);
                    },
                    Ok(video_id) => {
                        let mut passes = true;
                        if contains_id(played_video_ids, &video_id) {
                            passes = false;
                        } else if str_contains(video_id.as_str(), "list=") {
                            passes = false;
                        } else {
                            match entry.duration {
                                Some(d) => {
                                    if d > self.duration_limit {
                                        passes = false;
                                    }
                                },
                                None => {
                                    passes = false;
                                },
                            }
                        }
                        if passes && genre_is_music(genres[i].as_str()) {
                            self.piped.mark_success();
                            return Source::new_remote(entry.url.as_str());
                        }
                    },
                }
            }
            i += 1;
        }
        Err(
            Error::NoRelatedVideoFound(
                String::from_str("No related videos found for the requested seed"),
            ),
        )
    }

    /// Turns fetched playlist pages into unresolved sources, keeping the
    /// order the backend returned, and marks the current stream-API mirror
    /// as good. Every entry URL must carry a video id.
    pub fn playlist_to_remote_vec(&mut self, pages: &Vec<PlaylistPage>) -> (r: Result<
        Vec<Source>,
        Error,
    >)
        requires
            old(self).wf(),
            all_entries_have_ids(pages@),
        ensures
            final(self).wf(),
            r is Ok,
            r matches Ok(sources) ==> {
                &&& sources@.len() == flat_urls(pages@).len()
                &&& forall|k: int|
                    0 <= k < sources@.len() ==> (#[trigger] sources@[k]) is Remote
                        && sources@[k].spec_remote().fresh_from(flat_urls(pages@)[k]@)
            },
            final(self).piped.domains == old(self).piped.domains,
            final(self).piped.index == old(self).piped.index,
            final(self).piped.cycle_start == old(self).piped.index,
            final(self).invidious == old(self).invidious,
            final(self).duration_limit == old(self).duration_limit,
    {
        let mut playlist: Vec<Source> = Vec::new();
        let mut p: usize = 0;
        while p < pages.len()
            invariant
                self == old(self),
                all_entries_have_ids(pages@),
                p <= pages@.len(),
                playlist@.len() == flat_urls(pages@.take(p as int)).len(),
                forall|k: int|
                    0 <= k < playlist@.len() ==> (#[trigger] playlist@[k]) is Remote
                        && playlist@[k].spec_remote().fresh_from(
                        flat_urls(pages@.take(p as int))[k]@,
                    ),
            decreases pages@.len() - p,
        {
            let page = &pages[p];
            let mut k: usize = 0;
            while k < page.stream_urls.len()
                invariant
                    self == old(self),
                    all_entries_have_ids(pages@),
                    p < pages@.len(),
                    page == &pages[p as int],
                    k <= page.stream_urls@.len(),
                    playlist@.len() == flat_urls(pages@.take(p as int)).len() + k,
                    forall|j: int|
                        0 <= j < flat_urls(pages@.take(p as int)).len() ==> (
                        #[trigger] playlist@[j]) is Remote && playlist@[j].spec_remote().fresh_from(
                            flat_urls(pages@.take(p as int))[j]@,
                        ),
                    forall|j: int|
                        0 <= j < k ==> (#[trigger] playlist@[flat_urls(
                            pages@.take(p as int),
                        ).len() + j]) is Remote && playlist@[flat_urls(pages@.take(p as int)).len()
                            + j].spec_remote().fresh_from(page.stream_urls@[j]@),
                decreases page.stream_urls@.len() - k,
            {
                let url = &page.stream_urls[k];
                match Remote::new(url.as_str()) {
                    Ok(remote) => {
                        playlist.push(Source::Remote(remote));
                    },
                    Err(_) => {
                        return unreached();
                    },
                }
                k += 1;
            }
            proof {
                lemma_flat_urls_take(pages@, p as int);
                let off = flat_urls(pages@.take(p as int)).len() as int;
                let f1 = flat_urls(pages@.take(p as int + 1));
                assert forall|k: int|
                    0 <= k < playlist@.len() implies (#[trigger] playlist@[k]) is Remote
                    && playlist@[k].spec_remote().fresh_from(f1[k]@) by {
                    if k < off {
                        assert(f1[k] == flat_urls(pages@.take(p as int))[k]);
                    } else {
                        assert(f1[k] == pages@[p as int].stream_urls@[k - off]);
                        assert((#[trigger] playlist@[flat_urls(pages@.take(p as int)).len() + (k
                            - off)]) is Remote);
                    }
                }
            }
            p += 1;
        }
        proof {
            assert(pages@.take(pages@.len() as int) =~= pages@);
        }
        self.piped.mark_success();
        Ok(playlist)
    }

    /// Installs a freshly fetched stream-API mirror directory, restarting
    /// failover from its front; a failed directory fetch leaves the family
    /// without mirrors and is fatal for the caller.
    pub fn fetch_piped_api_domains(&mut self, fetched: Option<Vec<String>>) -> (r: Result<
        (),
        Error,
    >)
        requires
            fetched matches Some(d) ==> d.len() > 0,
        ensures
            final(self).invidious == old(self).invidious,
            final(self).duration_limit == old(self).duration_limit,
            final(self).piped.index == 0,
            final(self).piped.cycle_start == 0,
            r is Ok <==> fetched is Some,
            fetched matches Some(d) ==> final(self).piped.domains == d && final(self).piped.wf(),
            r matches Err(e) ==> e is OtherError && final(self).piped.domains@.len() == 0,
    {
        match fetched {
            Some(domains) => {
                self.piped.replace_domains(domains);
                Ok(())
            },
            None => {
                self.piped.replace_domains(Vec::new());
                Err(Error::OtherError(String::from_str("piped api domain refresh failed")))
            },
        }
    }

    /// Installs a freshly fetched metadata-API mirror directory, restarting
    /// failover from its front; a failed directory fetch leaves the family
    /// without mirrors and is fatal for the caller.
    pub fn fetch_invidious_api_domains(&mut self, fetched: Option<Vec<String>>) -> (r: Result<
        (),
        Error,
    >)
        requires
            fetched matches Some(d) ==> d.len() > 0,
        ensures
            final(self).piped == old(self).piped,
            final(self).duration_limit == old(self).duration_limit,
            final(self).invidious.index == 0,
            final(self).invidious.cycle_start == 0,
            r is Ok <==> fetched is Some,
            fetched matches Some(d) ==> final(self).invidious.domains == d
                && final(self).invidious.wf(),
            r matches Err(e) ==> e is OtherError && final(self).invidious.domains@.len() == 0,
    {
        match fetched {
            Some(domains) => {
                self.invidious.replace_domains(domains);
                Ok(())
            },
            None => {
                self.invidious.replace_domains(Vec::new());
                Err(Error::OtherError(String::from_str("invidious api domain refresh failed")))
            },
        }
    }

    /// Judges a video URL from the probe the transport layer made of it:
    /// a URL without a video id is rejected outright; a bad-request or
    /// server-error status or a region-blocked video makes it invalid; any
    /// other completed status is valid exactly when it is 200; a transport
    /// failure decides nothing and is an error the caller retries.
    pub fn is_valid_video_url(&mut self, url: &str, probe: &ProbeOutcome) -> (r: Result<
        bool,
        Error,
    >)
        ensures
            *final(self) == *old(self),
            !has_video_marker(url@) ==> (r matches Err(e) && e is InvalidVideoUrl),
            has_video_marker(url@) ==> {
                &&& (*probe matches ProbeOutcome::Status(s) ==> (r matches Ok(b) && b == (s
                    == 200 && !probe_invalid_data(*probe))))
                &&& (*probe == ProbeOutcome::BlockedInAllRegions ==> (r matches Ok(b) && !b))
                &&& (*probe == ProbeOutcome::TransportFailure ==> (r matches Err(e)
                    && e is OtherError))
            },
    {
        let _video_id = Remote::url_into_video_id(url)?;
        match probe {
            ProbeOutcome::Status(s) => {
                if *s == 400 || *s == 500 {
                    Ok(false)
                } else {
                    Ok(*s == 200)
                }
            },
            ProbeOutcome::BlockedInAllRegions => Ok(false),
            ProbeOutcome::TransportFailure => Err(
                Error::OtherError(String::from_str("request failed without a status")),
            ),
        }
    }

    /// Judges a playlist URL from the probe the transport layer made of
    /// it, in the same way as `is_valid_video_url`.
    pub fn is_valid_playlist_url(&mut self, url: &str, probe: &ProbeOutcome) -> (r: Result<
        bool,
        Error,
    >)
        ensures
            *final(self) == *old(self),
            !has_playlist_marker(url@) ==> (r matches Err(e) && e is InvalidPlaylistUrl),
            has_playlist_marker(url@) ==> {
                &&& (*probe matches ProbeOutcome::Status(s) ==> (r matches Ok(b) && b == (s
                    == 200 && !probe_invalid_data(*probe))))
                &&& (*probe == ProbeOutcome::BlockedInAllRegions ==> (r matches Ok(b) && !b))
                &&& (*probe == ProbeOutcome::TransportFailure ==> (r matches Err(e)
                    && e is OtherError))
            },
    {
        let _playlist_id = Remote::url_into_playlist_id(url)?;
        match probe {
            ProbeOutcome::Status(s) => {
                if *s == 400 || *s == 500 {
                    Ok(false)
                } else {
                    Ok(*s == 200)
                }
            },
            ProbeOutcome::BlockedInAllRegions => Ok(false),
            ProbeOutcome::TransportFailure => Err(
                Error::OtherError(String::from_str("request failed without a status")),
            ),
        }
    }
}

} // verus!

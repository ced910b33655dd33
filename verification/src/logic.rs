//! The playback orchestrator: play queue, cursor, played-ids set and
//! related-seed ring.
//!
//! The shell's event loop receives driver signals and calls these
//! functions one decision at a time, handing in whatever the transport
//! layer fetched; every state change of the queue, the played set and the
//! seed ring is verified here.

use vstd::prelude::*;
use vstd::pervasive::unreached;
use vstd::string::StrSliceExecFns;
use vstd::string::StringExecFns;

use std::collections::VecDeque;

use crate::backend::{PlaylistPage, StreamsPage};
use crate::config::MusicPlayerConfig;
use crate::outside::shuffle_sources;
use crate::resolver::{all_entries_have_ids, flat_urls, id_in, RemoteSourceProcessor};
use crate::signals::{LibMpvSignals, OSInterfaceSignals, TuiInputHandlerSignals, TuiSignals};
use crate::source::{
    has_playlist_marker, has_video_marker, playlist_id_of, video_id_of, Remote, Source,
};
use crate::strutil::str_contains;
use crate::Error;

verus! {

/// Every queue entry is a remote track whose id was derived from its URL.
pub open spec fn entries_remote(q: Seq<Source>) -> bool {
    forall|i: int|
        0 <= i < q.len() ==> (#[trigger] q[i]) is Remote && q[i].spec_remote().id_consistent()
}

/// The source is a fresh track built from one of the playlist's URLs.
pub open spec fn from_some_playlist_url(v: Source, pages: Seq<PlaylistPage>) -> bool {
    exists|j: int|
        0 <= j < flat_urls(pages).len() && v is Remote && v.spec_remote().fresh_from(
            (#[trigger] flat_urls(pages)[j])@,
        )
}

/// `new_ids` is `old_ids` with one id whose text is `id` appended.
pub open spec fn pushed_id(old_ids: Seq<String>, new_ids: Seq<String>, id: Seq<char>) -> bool {
    &&& new_ids.len() == old_ids.len() + 1
    &&& new_ids.subrange(0, old_ids.len() as int) == old_ids
    &&& new_ids.last()@ == id
}

/// What the shell must do next after a piece of user input was accepted.
#[derive(Debug, PartialEq, Eq, Structural)]
pub enum UserInputOutcome {
    /// A playlist id was stored; fetch its pages and prepare the playlist.
    PlaylistPending,
    /// The input became a lookahead seed; run a lookahead cycle.
    LookaheadPending,
    /// The track was queued; playback can start.
    Queued,
}

/// The orchestrator's state: the append-only play queue with its cursor,
/// the monotonically growing set of played ids, the related-seed ring, and
/// the resolver with its failover bookkeeping.
pub struct MusicPlayerLogic {
    pub to_play: Vec<Source>,
    pub to_play_index: usize,
    pub playlist_to_play: String,
    pub shuffle_playlist: bool,
    pub played_video_ids: Vec<String>,
    pub related_queue: VecDeque<String>,
    pub remote_src_proc: RemoteSourceProcessor,
    pub play_only_recommendations: bool,
}

impl MusicPlayerLogic {
    /// The cursor stays within the queue, every entry is a consistent
    /// remote track, and the resolver's mirror indices are in range.
    pub open spec fn wf(self) -> bool {
        &&& self.to_play_index <= self.to_play.len()
        &&& entries_remote(self.to_play@)
        &&& self.remote_src_proc.wf()
    }

    pub fn new(config: MusicPlayerConfig) -> (r: Result<Self, Error>)
        requires
            config.piped_api_domain_index < config.piped_api_domains.len(),
            config.invidious_api_domain_index < config.invidious_api_domains.len(),
        ensures
            r is Ok,
            r matches Ok(mp) ==> {
                &&& mp.wf()
                &&& mp.to_play@.len() == 0
                &&& mp.to_play_index == 0
                &&& mp.playlist_to_play@ == Seq::<char>::empty()
                &&& mp.shuffle_playlist == config.shuffle_playlist
                &&& mp.played_video_ids@.len() == 0
                &&& mp.related_queue@.len() == 0
                &&& mp.play_only_recommendations == config.play_only_recommendations
                &&& mp.remote_src_proc.piped.domains == config.piped_api_domains
                &&& mp.remote_src_proc.piped.index == config.piped_api_domain_index
                &&& mp.remote_src_proc.piped.cycle_start == config.piped_api_domain_index
                &&& mp.remote_src_proc.invidious.domains == config.invidious_api_domains
                &&& mp.remote_src_proc.invidious.index == config.invidious_api_domain_index
                &&& mp.remote_src_proc.invidious.cycle_start == config.invidious_api_domain_index
                &&& mp.remote_src_proc.duration_limit == config.video_duration_limit_s
            },
    {
        let remote_src_proc = RemoteSourceProcessor::new(
            config.piped_api_domains,
            config.piped_api_domain_index,
            config.invidious_api_domains,
            config.invidious_api_domain_index,
            config.video_duration_limit_s,
        )?;
        Ok(MusicPlayerLogic {
            to_play: Vec::new(),
            to_play_index: 0,
            playlist_to_play: String::new(),
            shuffle_playlist: config.shuffle_playlist,
            played_video_ids: Vec::new(),
            related_queue: VecDeque::new(),
            remote_src_proc,
            play_only_recommendations: config.play_only_recommendations,
        })
    }

    /// Judges a piece of user input from the completed validity check the
    /// shell ran against the backend: input the backend rejected is an
    /// input error, playlist or video according to its shape.
    pub fn validate_user_input(&self, user_input: &str, is_valid: bool) -> (r: Result<(), Error>)
        ensures
            r is Ok <==> is_valid,
            r matches Err(e) ==> if has_playlist_marker(user_input@) {
                e is InvalidPlaylistUrl
            } else {
                e is InvalidVideoUrl
            },
    {
        if str_contains(user_input, "list=") {
            if !is_valid {
                return Err(
                    Error::InvalidPlaylistUrl(
                        String::from_str("The provided playlist URL is invalid: ").concat(
                            user_input,
                        ),
                    ),
                );
            }
        } else {
            if !is_valid {
                return Err(
                    Error::InvalidVideoUrl(
                        String::from_str("The provided video URL is invalid: ").concat(user_input),
                    ),
                );
            }
        }
        Ok(())
    }

    /// Accepts a validated piece of user input: a playlist URL stores the
    /// playlist id for fetching; a video URL becomes a lookahead seed when
    /// only recommendations are played, and a queued track otherwise.
    pub fn process_user_input(&mut self, user_input: &str) -> (r: Result<UserInputOutcome, Error>)
        requires
            old(self).wf(),
            has_playlist_marker(user_input@) || has_video_marker(user_input@),
        ensures
            final(self).wf(),
            r is Ok,
            final(self).shuffle_playlist == old(self).shuffle_playlist,
            final(self).play_only_recommendations == old(self).play_only_recommendations,
            final(self).remote_src_proc == old(self).remote_src_proc,
            final(self).to_play_index == old(self).to_play_index,
            has_playlist_marker(user_input@) ==> {
                &&& (r matches Ok(o) && o is PlaylistPending)
                &&& final(self).playlist_to_play@ == playlist_id_of(user_input@)
                &&& final(self).to_play == old(self).to_play
                &&& final(self).played_video_ids == old(self).played_video_ids
                &&& final(self).related_queue == old(self).related_queue
            },
            !has_playlist_marker(user_input@) ==> final(self).playlist_to_play == old(
                self,
            ).playlist_to_play,
            !has_playlist_marker(user_input@) && old(self).play_only_recommendations ==> {
                &&& (r matches Ok(o) && o is LookaheadPending)
                &&& final(self).to_play == old(self).to_play
                &&& pushed_id(
                    old(self).played_video_ids@,
                    final(self).played_video_ids@,
                    video_id_of(user_input@),
                )
                &&& pushed_id(
                    old(self).related_queue@,
                    final(self).related_queue@,
                    video_id_of(user_input@),
                )
            },
            !has_playlist_marker(user_input@) && !old(self).play_only_recommendations ==> {
                &&& (r matches Ok(o) && o is Queued)
                &&& final(self).to_play@.len() == old(self).to_play@.len() + 1
                &&& final(self).to_play@.subrange(0, old(self).to_play@.len() as int) == old(
                    self,
                ).to_play@
                &&& final(self).to_play@.last() is Remote
                &&& final(self).to_play@.last().spec_remote().fresh_from(user_input@)
                &&& final(self).played_video_ids == old(self).played_video_ids
                &&& final(self).related_queue == old(self).related_queue
            },
    {
        if str_contains(user_input, "list=") {
            match Remote::url_into_playlist_id(user_input) {
                Ok(playlist_id) => {
                    self.playlist_to_play = playlist_id;
                },
                Err(_) => {
                    return unreached();
                },
            }
            Ok(UserInputOutcome::PlaylistPending)
        } else {
            let music_source = match Source::new_remote(user_input) {
                Ok(src) => src,
                Err(_) => {
                    return unreached();
                },
            };
            if self.play_only_recommendations {
                let remote_src = match music_source.get_remote_source() {
                    Ok(remote) => remote,
                    Err(_) => {
                        return unreached();
                    },
                };
                self.played_video_ids.push(remote_src.video_id.clone());
                self.related_queue.push_back(remote_src.video_id.clone());
                proof {
                    assert(self.played_video_ids@.subrange(
                        0,
                        old(self).played_video_ids@.len() as int,
                    ) =~= old(self).played_video_ids@);
                    assert(self.related_queue@.subrange(
                        0,
                        old(self).related_queue@.len() as int,
                    ) =~= old(self).related_queue@);
                }
                Ok(UserInputOutcome::LookaheadPending)
            } else {
                self.to_play.push(music_source);
                proof {
                    assert(self.to_play@.subrange(0, old(self).to_play@.len() as int)
                        =~= old(self).to_play@);
                }
                Ok(UserInputOutcome::Queued)
            }
        }
    }

    /// Builds the play queue from the fetched pages of the stored
    /// playlist, in backend order; with shuffling enabled the queue holds
    /// the same tracks in an order the random generator chose.
    pub fn prepare_playlist(&mut self, pages: &Vec<PlaylistPage>) -> (r: Result<(), Error>)
        requires
            old(self).wf(),
            old(self).to_play_index == 0,
            all_entries_have_ids(pages@),
        ensures
            final(self).wf(),
            r is Ok,
            final(self).to_play@.len() == flat_urls(pages@).len(),
            !old(self).shuffle_playlist ==> forall|k: int|
                0 <= k < final(self).to_play@.len() ==> (#[trigger] final(self).to_play@[k])
                    is Remote && final(self).to_play@[k].spec_remote().fresh_from(
                    flat_urls(pages@)[k]@,
                ),
            old(self).shuffle_playlist ==> forall|k: int|
                0 <= k < final(self).to_play@.len() ==> from_some_playlist_url(
                    #[trigger] final(self).to_play@[k],
                    pages@,
                ),
            final(self).to_play_index == old(self).to_play_index,
            final(self).played_video_ids == old(self).played_video_ids,
            final(self).related_queue == old(self).related_queue,
            final(self).shuffle_playlist == old(self).shuffle_playlist,
            final(self).play_only_recommendations == old(self).play_only_recommendations,
            final(self).playlist_to_play == old(self).playlist_to_play,
    {
        let to_play = self.remote_src_proc.playlist_to_remote_vec(pages)?;
        self.to_play = to_play;
        if self.shuffle_playlist {
            let ghost unshuffled = self.to_play@;
            shuffle_sources(&mut self.to_play);
            proof {
                broadcast use vstd::seq_lib::group_to_multiset_ensures;

                assert forall|k: int|
                    0 <= k < self.to_play@.len() implies from_some_playlist_url(
                    #[trigger] self.to_play@[k],
                    pages@,
                ) by {
                    let v = self.to_play@[k];
                    assert(self.to_play@.to_multiset().contains(v));
                    assert(unshuffled.to_multiset().contains(v));
                    assert(unshuffled.contains(v));
                    let j = choose|j: int| 0 <= j < unshuffled.len() && unshuffled[j] == v;
                    assert(unshuffled[j] is Remote && unshuffled[j].spec_remote().fresh_from(
                        (flat_urls(pages@)[j])@,
                    ));
                }
            }
        }
        Ok(())
    }

    /// Moves every queued track's id into the played set and the seed
    /// ring, in queue order, and empties the queue: the playlist becomes
    /// pure lookahead seed material.
    pub fn seed_recommendations(&mut self) -> (r: Result<(), Error>)
        requires
            old(self).wf(),
            old(self).to_play_index == 0,
        ensures
            final(self).wf(),
            r is Ok,
            final(self).to_play@.len() == 0,
            final(self).to_play_index == old(self).to_play_index,
            final(self).played_video_ids@.len() == old(self).played_video_ids@.len() + old(
                self,
            ).to_play@.len(),
            forall|j: int|
                0 <= j < old(self).played_video_ids@.len() ==> final(self).played_video_ids@[j]
                    == old(self).played_video_ids@[j],
            forall|j: int|
                0 <= j < old(self).to_play@.len() ==> (#[trigger] final(self).played_video_ids@[old(
                    self,
                ).played_video_ids@.len() + j])@ == old(self).to_play@[j].spec_remote().video_id@,
            final(self).related_queue@.len() == old(self).related_queue@.len() + old(
                self,
            ).to_play@.len(),
            forall|j: int|
                0 <= j < old(self).related_queue@.len() ==> final(self).related_queue@[j] == old(
                    self,
                ).related_queue@[j],
            forall|j: int|
                0 <= j < old(self).to_play@.len() ==> (#[trigger] final(self).related_queue@[old(
                    self,
                ).related_queue@.len() + j])@ == old(self).to_play@[j].spec_remote().video_id@,
            final(self).remote_src_proc == old(self).remote_src_proc,
            final(self).shuffle_playlist == old(self).shuffle_playlist,
            final(self).play_only_recommendations == old(self).play_only_recommendations,
            final(self).playlist_to_play == old(self).playlist_to_play,
    {
        let mut k: usize = 0;
        while k < self.to_play.len()
            invariant
                old(self).wf(),
                k <= self.to_play@.len(),
                self.to_play == old(self).to_play,
                self.to_play_index == old(self).to_play_index,
                self.remote_src_proc == old(self).remote_src_proc,
                self.shuffle_playlist == old(self).shuffle_playlist,
                self.play_only_recommendations == old(self).play_only_recommendations,
                self.playlist_to_play == old(self).playlist_to_play,
                self.played_video_ids@.len() == old(self).played_video_ids@.len() + k,
                forall|j: int|
                    0 <= j < old(self).played_video_ids@.len() ==> self.played_video_ids@[j] == old(
                        self,
                    ).played_video_ids@[j],
                forall|j: int|
                    0 <= j < k ==> (#[trigger] self.played_video_ids@[old(
                        self,
                    ).played_video_ids@.len() + j])@ == old(
                        self,
                    ).to_play@[j].spec_remote().video_id@,
                self.related_queue@.len() == old(self).related_queue@.len() + k,
                forall|j: int|
                    0 <= j < old(self).related_queue@.len() ==> self.related_queue@[j] == old(
                        self,
                    ).related_queue@[j],
                forall|j: int|
                    0 <= j < k ==> (#[trigger] self.related_queue@[old(self).related_queue@.len()
                        + j])@ == old(self).to_play@[j].spec_remote().video_id@,
            decreases self.to_play@.len() - k,
        {
            let remote_src = match self.to_play[k].get_remote_source() {
                Ok(remote) => remote,
                Err(_) => {
                    return unreached();
                },
            };
            let id = remote_src.video_id.clone();
            self.played_video_ids.push(id.clone());
            self.related_queue.push_back(id);
            k += 1;
        }
        self.to_play.clear();
        Ok(())
    }

    /// The cursor has reached the end of the queue: the next track must
    /// come from the related-track lookahead.
    pub fn needs_lookahead(&self) -> (r: bool)
        ensures
            r == (self.to_play_index == self.to_play@.len()),
    {
        self.to_play_index == self.to_play.len()
    }

    /// Takes the next seed from the ring and re-appends it at the tail:
    /// the ring rotates and never shrinks, so seeds are reused forever.
    pub fn next_related_seed(&mut self) -> (r: String)
        requires
            old(self).related_queue@.len() > 0,
        ensures
            r == old(self).related_queue@[0],
            final(self).related_queue@ == ring_rotated(old(self).related_queue@),
            final(self).related_queue@.len() == old(self).related_queue@.len(),
            final(self).related_queue@.to_multiset() == old(self).related_queue@.to_multiset(),
            final(self).to_play == old(self).to_play,
            final(self).to_play_index == old(self).to_play_index,
            final(self).played_video_ids == old(self).played_video_ids,
            final(self).remote_src_proc == old(self).remote_src_proc,
            final(self).shuffle_playlist == old(self).shuffle_playlist,
            final(self).play_only_recommendations == old(self).play_only_recommendations,
            final(self).playlist_to_play == old(self).playlist_to_play,
    {
        let seed = match self.related_queue.pop_front() {
            Some(s) => s,
            None => {
                return unreached();
            },
        };
        self.related_queue.push_back(seed.clone());
        proof {
            broadcast use vstd::seq_lib::group_to_multiset_ensures;

            assert(self.related_queue@ =~= old(self).related_queue@.drop_first().push(
                old(self).related_queue@[0],
            ));
            assert(old(self).related_queue@ =~= seq![old(self).related_queue@[0]] + old(
                self,
            ).related_queue@.drop_first());
            vstd::seq_lib::lemma_seq_union_to_multiset_commutative(
                seq![old(self).related_queue@[0]],
                old(self).related_queue@.drop_first(),
            );
            assert(old(self).related_queue@.drop_first() + seq![old(self).related_queue@[0]]
                =~= old(self).related_queue@.drop_first().push(old(self).related_queue@[0]));
        }
        seed
    }

    /// Appends the freshly found related track at the end of the queue.
    pub fn enqueue_related(&mut self, source: Source)
        requires
            old(self).wf(),
            source is Remote,
            source.spec_remote().id_consistent(),
        ensures
            final(self).wf(),
            final(self).to_play@ == old(self).to_play@.push(source),
            final(self).to_play_index == old(self).to_play_index,
            final(self).played_video_ids == old(self).played_video_ids,
            final(self).related_queue == old(self).related_queue,
            final(self).remote_src_proc == old(self).remote_src_proc,
            final(self).shuffle_playlist == old(self).shuffle_playlist,
            final(self).play_only_recommendations == old(self).play_only_recommendations,
            final(self).playlist_to_play == old(self).playlist_to_play,
    {
        self.to_play.push(source);
    }

    /// Records the track under the cursor as offered to the driver: its id
    /// joins the played set and the seed ring, each only if not already
    /// present.
    pub fn note_current_track(&mut self)
        requires
            old(self).wf(),
            old(self).to_play_index < old(self).to_play@.len(),
        ensures
            final(self).wf(),
            final(self).to_play == old(self).to_play,
            final(self).to_play_index == old(self).to_play_index,
            final(self).remote_src_proc == old(self).remote_src_proc,
            final(self).shuffle_playlist == old(self).shuffle_playlist,
            final(self).play_only_recommendations == old(self).play_only_recommendations,
            final(self).playlist_to_play == old(self).playlist_to_play,
            ({
                let id = old(self).to_play@[old(self).to_play_index as int].spec_remote().video_id;
                &&& (id_in(old(self).played_video_ids@, id@) ==> final(self).played_video_ids
                    == old(self).played_video_ids)
                &&& (!id_in(old(self).played_video_ids@, id@) ==> pushed_id(
                    old(self).played_video_ids@,
                    final(self).played_video_ids@,
                    id@,
                ))
                &&& id_in(final(self).played_video_ids@, id@)
                &&& (id_in(old(self).related_queue@, id@) ==> final(self).related_queue == old(
                    self,
                ).related_queue)
                &&& (!id_in(old(self).related_queue@, id@) ==> pushed_id(
                    old(self).related_queue@,
                    final(self).related_queue@,
                    id@,
                ))
                &&& id_in(final(self).related_queue@, id@)
            }),
    {
        let id = match self.to_play[self.to_play_index].get_remote_source() {
            Ok(remote) => remote.video_id.clone(),
            Err(_) => {
                return unreached();
            },
        };
        if !played_contains(&self.played_video_ids, &id) {
            self.played_video_ids.push(id.clone());
            proof {
                assert(self.played_video_ids@.subrange(
                    0,
                    old(self).played_video_ids@.len() as int,
                ) =~= old(self).played_video_ids@);
                assert(self.played_video_ids@.last() == id);
                assert(id_in(self.played_video_ids@, id@));
            }
        }
        if !ring_contains(&self.related_queue, &id) {
            self.related_queue.push_back(id.clone());
            proof {
                assert(self.related_queue@.subrange(
                    0,
                    old(self).related_queue@.len() as int,
                ) =~= old(self).related_queue@);
                assert(self.related_queue@.last() == id);
                assert(id_in(self.related_queue@, id@));
            }
        }
    }

    /// The track under the cursor has no audio URL yet and must be
    /// resolved before it can be handed to the driver.
    pub fn current_needs_resolution(&self) -> (r: bool)
        requires
            self.wf(),
            self.to_play_index < self.to_play@.len(),
        ensures
            r == (self.to_play@[self.to_play_index as int].spec_remote().audio_stream_url@
                == Seq::<char>::empty()),
    {
        match self.to_play[self.to_play_index].get_remote_source() {
            Ok(remote) => {
                let n = remote.audio_stream_url.as_str().unicode_len();
                proof {
                    if n == 0 {
                        assert(self.to_play@[self.to_play_index as int].spec_remote(
                        ).audio_stream_url@ =~= Seq::<char>::empty());
                    }
                }
                n == 0
            },
            Err(_) => unreached(),
        }
    }

    /// Fills the track under the cursor from its fetched stream page and
    /// hands back the audio URL to enqueue at the driver.
    pub fn resolve_current(&mut self, page: &StreamsPage) -> (r: Result<String, Error>)
        requires
            old(self).wf(),
            old(self).to_play_index < old(self).to_play@.len(),
            page.audio_streams@.len() > 0,
        ensures
            final(self).wf(),
            r is Ok,
            final(self).to_play@.len() == old(self).to_play@.len(),
            forall|j: int|
                0 <= j < old(self).to_play@.len() && j != old(self).to_play_index ==> final(self).to_play@[j] == old(self).to_play@[j],
            ({
                let entry = final(self).to_play@[old(self).to_play_index as int].spec_remote();
                let old_entry = old(self).to_play@[old(self).to_play_index as int].spec_remote();
                &&& entry.url == old_entry.url
                &&& entry.video_id == old_entry.video_id
                &&& entry.audio_stream_url@ == page.audio_streams@[
                    crate::backend::selected_stream_index(page.audio_streams@)].url@
                &&& entry.title@ == page.title@
                &&& entry.length == page.duration
                &&& (r matches Ok(url) ==> url@ == entry.audio_stream_url@)
            }),
            final(self).to_play_index == old(self).to_play_index,
            final(self).played_video_ids == old(self).played_video_ids,
            final(self).related_queue == old(self).related_queue,
            final(self).remote_src_proc.piped.domains == old(self).remote_src_proc.piped.domains,
            final(self).remote_src_proc.piped.index == old(self).remote_src_proc.piped.index,
            final(self).remote_src_proc.piped.cycle_start == old(self).remote_src_proc.piped.index,
            final(self).remote_src_proc.invidious == old(self).remote_src_proc.invidious,
            final(self).remote_src_proc.duration_limit == old(self).remote_src_proc.duration_limit,
            final(self).shuffle_playlist == old(self).shuffle_playlist,
            final(self).play_only_recommendations == old(self).play_only_recommendations,
            final(self).playlist_to_play == old(self).playlist_to_play,
    {
        let idx = self.to_play_index;
        let entry = &mut self.to_play[idx];
        match entry {
            Source::Remote(remote) => {
                self.remote_src_proc.set_audio_url_title(remote, page)?;
                Ok(remote.audio_stream_url.clone())
            },
            _ => unreached(),
        }
    }

    /// One full lookahead-and-resolution step at the cursor: appends the
    /// fetched related track when the queue is exhausted, records the
    /// track under the cursor as played and as a future seed, and resolves
    /// its audio from the fetched page when it has none yet, handing back
    /// the URL to enqueue at the driver.
    pub fn prepare_next_to_play(
        &mut self,
        related: Option<Source>,
        page: Option<&StreamsPage>,
    ) -> (r: Result<Option<String>, Error>)
        requires
            old(self).wf(),
            old(self).to_play_index == old(self).to_play@.len() ==> (related matches Some(src)
                && src is Remote && src.spec_remote().id_consistent()),
            ({
                let entry = if old(self).to_play_index == old(self).to_play@.len() {
                    related->0
                } else {
                    old(self).to_play@[old(self).to_play_index as int]
                };
                entry.spec_remote().audio_stream_url@ == Seq::<char>::empty() ==> (page
                    matches Some(pg) && pg.audio_streams@.len() > 0)
            }),
        ensures
            final(self).wf(),
            r is Ok,
            final(self).to_play_index == old(self).to_play_index,
            final(self).to_play_index < final(self).to_play@.len(),
            old(self).to_play_index == old(self).to_play@.len() ==> final(self).to_play@.len()
                == old(self).to_play@.len() + 1,
            old(self).to_play_index < old(self).to_play@.len() ==> final(self).to_play@.len()
                == old(self).to_play@.len(),
            forall|j: int|
                0 <= j < old(self).to_play@.len() && j != old(self).to_play_index ==> final(self).to_play@[j] == old(self).to_play@[j],
            ({
                let pending = if old(self).to_play_index == old(self).to_play@.len() {
                    related->0.spec_remote()
                } else {
                    old(self).to_play@[old(self).to_play_index as int].spec_remote()
                };
                let entry = final(self).to_play@[old(self).to_play_index as int].spec_remote();
                &&& id_in(final(self).played_video_ids@, entry.video_id@)
                &&& id_in(final(self).related_queue@, entry.video_id@)
                &&& entry.url@ == pending.url@
                &&& entry.video_id@ == pending.video_id@
                &&& pending.audio_stream_url@ == Seq::<char>::empty() ==> {
                    &&& entry.audio_stream_url@ == page->0.audio_streams@[
                        crate::backend::selected_stream_index(page->0.audio_streams@)].url@
                    &&& entry.title@ == page->0.title@
                    &&& entry.length == page->0.duration
                    &&& (r matches Ok(u) && u matches Some(url) && url@
                        == entry.audio_stream_url@)
                }
                &&& pending.audio_stream_url@ != Seq::<char>::empty() ==> entry == pending && (r
                    matches Ok(u) && u is None)
            }),
            forall|j: int|
                0 <= j < old(self).played_video_ids@.len() ==> final(self).played_video_ids@[j]
                    == old(self).played_video_ids@[j],
            final(self).played_video_ids@.len() <= old(self).played_video_ids@.len() + 1,
            final(self).shuffle_playlist == old(self).shuffle_playlist,
            final(self).play_only_recommendations == old(self).play_only_recommendations,
            final(self).playlist_to_play == old(self).playlist_to_play,
    {
        if self.needs_lookahead() {
            match related {
                Some(src) => {
                    self.enqueue_related(src);
                },
                None => {
                    return unreached();
                },
            }
        }
        self.note_current_track();
        if self.current_needs_resolution() {
            match page {
                Some(pg) => {
                    let url = self.resolve_current(pg)?;
                    Ok(Some(url))
                },
                None => unreached(),
            }
        } else {
            Ok(None)
        }
    }

    /// The text and duration the presentation layer shows for the track
    /// under the cursor, after which the cursor advances past it.
    pub fn update_tui(&mut self) -> (r: Result<(String, u64), Error>)
        requires
            old(self).wf(),
            old(self).to_play_index < old(self).to_play@.len(),
        ensures
            final(self).wf(),
            r is Ok,
            ({
                let entry = old(self).to_play@[old(self).to_play_index as int].spec_remote();
                let domain =
                    old(self).remote_src_proc.piped.domains@[old(
                    self,
                ).remote_src_proc.piped.index as int];
                r matches Ok(out) ==> out.0@ == entry.title@ + "\n"@ + domain@ + "/"@
                    + entry.video_id@ && out.1 == entry.length
            }),
            final(self).to_play_index == old(self).to_play_index + 1,
            final(self).to_play == old(self).to_play,
            final(self).played_video_ids == old(self).played_video_ids,
            final(self).related_queue == old(self).related_queue,
            final(self).remote_src_proc == old(self).remote_src_proc,
            final(self).shuffle_playlist == old(self).shuffle_playlist,
            final(self).play_only_recommendations == old(self).play_only_recommendations,
            final(self).playlist_to_play == old(self).playlist_to_play,
    {
        let (mut text, length) = match self.to_play[self.to_play_index].get_remote_source() {
            Ok(remote) => (remote.title.clone(), remote.length),
            Err(_) => {
                return unreached();
            },
        };
        text.append("\n");
        text.append(self.remote_src_proc.get_piped_api_domain());
        text.append("/");
        match self.to_play[self.to_play_index].get_remote_source() {
            Ok(remote) => {
                text.append(remote.video_id.as_str());
            },
            Err(_) => {
                return unreached();
            },
        }
        self.to_play_index += 1;
        Ok((text, length))
    }

    /// Repairs the entry the driver could not open, in place: a fresh
    /// track is built from the same URL and resolved from the fetched
    /// page, so stale fields cannot be mistaken for resolved ones.
    pub fn fix_broken_url(&mut self, broken_index: usize, page: &StreamsPage) -> (r: Result<
        (),
        Error,
    >)
        requires
            old(self).wf(),
            broken_index < old(self).to_play@.len(),
            page.audio_streams@.len() > 0,
        ensures
            final(self).wf(),
            r is Ok,
            final(self).to_play@.len() == old(self).to_play@.len(),
            forall|j: int|
                0 <= j < old(self).to_play@.len() && j != broken_index ==> final(self).to_play@[j]
                    == old(self).to_play@[j],
            ({
                let entry = final(self).to_play@[broken_index as int].spec_remote();
                let old_entry = old(self).to_play@[broken_index as int].spec_remote();
                &&& entry.url@ == old_entry.url@
                &&& entry.video_id@ == video_id_of(old_entry.url@)
                &&& entry.audio_stream_url@ == page.audio_streams@[
                    crate::backend::selected_stream_index(page.audio_streams@)].url@
                &&& entry.title@ == page.title@
                &&& entry.length == page.duration
            }),
            final(self).to_play_index == old(self).to_play_index,
            final(self).played_video_ids == old(self).played_video_ids,
            final(self).related_queue == old(self).related_queue,
            final(self).shuffle_playlist == old(self).shuffle_playlist,
            final(self).play_only_recommendations == old(self).play_only_recommendations,
            final(self).playlist_to_play == old(self).playlist_to_play,
    {
        let url = match self.to_play[broken_index].get_remote_source() {
            Ok(remote) => remote.url.clone(),
            Err(_) => {
                return unreached();
            },
        };
        let mut fresh = match Remote::new(url.as_str()) {
            Ok(remote) => remote,
            Err(_) => {
                return unreached();
            },
        };
        self.remote_src_proc.set_audio_url_title(&mut fresh, page)?;
        let slot = &mut self.to_play[broken_index];
        *slot = Source::Remote(fresh);
        Ok(())
    }

    /// Recovers from a driver-reported broken URL: the track just before
    /// the cursor is repaired in place and handed back, together with the
    /// queue position whose stale driver-side copy must be dropped. The
    /// queue keeps its length; only the repaired entry changes.
    pub fn broken_url(&mut self, page: &StreamsPage) -> (r: Result<(String, usize), Error>)
        requires
            old(self).wf(),
            1 <= old(self).to_play_index,
            old(self).to_play_index <= old(self).to_play@.len(),
            page.audio_streams@.len() > 0,
        ensures
            final(self).wf(),
            r is Ok,
            final(self).to_play@.len() == old(self).to_play@.len(),
            final(self).to_play_index == old(self).to_play_index,
            forall|j: int|
                0 <= j < old(self).to_play@.len() && j != old(self).to_play_index - 1 ==> final(self).to_play@[j] == old(self).to_play@[j],
            ({
                let entry = final(self).to_play@[old(self).to_play_index - 1].spec_remote();
                let old_entry = old(self).to_play@[old(self).to_play_index - 1].spec_remote();
                &&& entry.url@ == old_entry.url@
                &&& entry.audio_stream_url@ == page.audio_streams@[
                    crate::backend::selected_stream_index(page.audio_streams@)].url@
                &&& (r matches Ok(out) ==> out.0@ == entry.audio_stream_url@ && out.1 == old(
                    self,
                ).to_play_index - 1)
            }),
            final(self).played_video_ids == old(self).played_video_ids,
            final(self).related_queue == old(self).related_queue,
            final(self).shuffle_playlist == old(self).shuffle_playlist,
            final(self).play_only_recommendations == old(self).play_only_recommendations,
            final(self).playlist_to_play == old(self).playlist_to_play,
    {
        self.to_play_index -= 1;
        let repair = self.fix_broken_url(self.to_play_index, page);
        match repair {
            Ok(()) => {},
            Err(_) => {
                return unreached();
            },
        }
        let url = match self.to_play[self.to_play_index].get_remote_source() {
            Ok(remote) => remote.audio_stream_url.clone(),
            Err(_) => {
                return unreached();
            },
        };
        let broken = self.to_play_index;
        self.to_play_index += 1;
        Ok((url, broken))
    }

    /// Rewinds the cursor to re-target the previous track, once at least
    /// two tracks have started.
    pub fn play_prev(&mut self)
        ensures
            old(self).to_play_index > 1 ==> final(self).to_play_index == old(self).to_play_index
                - 2,
            old(self).to_play_index <= 1 ==> final(self).to_play_index == old(self).to_play_index,
            final(self).to_play == old(self).to_play,
            final(self).played_video_ids == old(self).played_video_ids,
            final(self).related_queue == old(self).related_queue,
            final(self).remote_src_proc == old(self).remote_src_proc,
            final(self).shuffle_playlist == old(self).shuffle_playlist,
            final(self).play_only_recommendations == old(self).play_only_recommendations,
            final(self).playlist_to_play == old(self).playlist_to_play,
    {
        if self.to_play_index > 1 {
            self.to_play_index -= 2;
        }
    }

    /// Advances the stream-API family to its next mirror after a failed
    /// call; exhaustion tells the shell to refresh the mirror directory.
    pub fn handle_piped_api_domain_update(&mut self) -> (r: Result<(), Error>)
        requires
            old(self).wf(),
        ensures
            final(self).wf(),
            final(self).to_play == old(self).to_play,
            final(self).to_play_index == old(self).to_play_index,
            final(self).played_video_ids == old(self).played_video_ids,
            final(self).related_queue == old(self).related_queue,
            r is Ok <==> !crate::failover::advance_exhausted(
                old(self).remote_src_proc.piped.index as int,
                old(self).remote_src_proc.piped.domains.len() as int,
                old(self).remote_src_proc.piped.cycle_start as int,
            ),
            r matches Err(e) ==> e is AllPipedApiDomainsDown && final(self).remote_src_proc == old(
                self,
            ).remote_src_proc,
            r is Ok ==> final(self).remote_src_proc.piped.index
                == crate::failover::next_index_spec(
                old(self).remote_src_proc.piped.index as int,
                old(self).remote_src_proc.piped.domains.len() as int,
            ),
    {
        self.remote_src_proc.next_piped_api_domains_index()
    }

    /// The end-of-life commands broadcast to every collaborator on `Quit`.
    pub fn send_quit_signals(&self) -> (r: (
        LibMpvSignals,
        TuiSignals,
        TuiInputHandlerSignals,
        OSInterfaceSignals,
    ))
        ensures
            r.0 is End,
            r.1 is Quit,
            r.2 is Quit,
            r.3 is End,
    {
        (
            LibMpvSignals::End,
            TuiSignals::Quit,
            TuiInputHandlerSignals::Quit,
            OSInterfaceSignals::End,
        )
    }
}

/// One ring rotation: the front seed moves to the tail.
pub open spec fn ring_rotated(s: Seq<String>) -> Seq<String> {
    s.drop_first().push(s[0])
}

/// The ring after `k` seeds were consumed, each re-appended at the tail.
pub open spec fn ring_after(s: Seq<String>, k: nat) -> Seq<String>
    decreases k,
{
    if k == 0 {
        s
    } else {
        ring_rotated(ring_after(s, (k - 1) as nat))
    }
}

/// The seed ring never empties: however many seeds are consumed, the ring
/// keeps its size, because every consumed seed is re-appended at the tail.
pub proof fn lemma_seed_ring_never_empties(s: Seq<String>, k: nat)
    requires
        s.len() > 0,
    ensures
        ring_after(s, k).len() == s.len(),
    decreases k,
{
    if k > 0 {
        lemma_seed_ring_never_empties(s, (k - 1) as nat);
    }
}

/// Is the id already in the played list?
fn played_contains(ids: &Vec<String>, id: &String) -> (r: bool)
    ensures
        r == id_in(ids@, id@),
{
    crate::resolver::contains_id(ids, id)
}

/// Is the id already in the seed ring?
fn ring_contains(ring: &VecDeque<String>, id: &String) -> (r: bool)
    ensures
        r == id_in(ring@, id@),
{
    let mut k: usize = 0;
    while k < ring.len()
        invariant
            k <= ring@.len(),
            forall|j: int| 0 <= j < k ==> ring@[j]@ != id@,
        decreases ring@.len() - k,
    {
        if ring[k].eq(id) {
            return true;
        }
        k += 1;
    }
    false
}

} // verus!

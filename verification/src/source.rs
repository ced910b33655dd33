//! Music sources: a remote track identified by a canonical id extracted
//! from its URL.
//!
//! A `Remote` track is created from a URL containing a video marker; its
//! `video_id` is derived deterministically from the URL at creation time
//! and never recomputed. The audio stream URL, title and length stay empty
//! until the resolver fills them in.

use vstd::prelude::*;
use vstd::string::StringExecFns;

use crate::strutil::{contains_seq, str_contains, tail_after_last, tail_after_last_exec};
use crate::Error;

verus! {

/// The video marker that a track URL must contain.
pub open spec fn video_marker() -> Seq<char> {
    "v="@
}

/// The playlist marker that a playlist URL must contain.
pub open spec fn playlist_marker() -> Seq<char> {
    "list="@
}

/// A URL carries a video id.
pub open spec fn has_video_marker(url: Seq<char>) -> bool {
    contains_seq(url, video_marker())
}

/// A URL carries a playlist id.
pub open spec fn has_playlist_marker(url: Seq<char>) -> bool {
    contains_seq(url, playlist_marker())
}

/// The canonical video id of a URL: the text after the last video marker.
pub open spec fn video_id_of(url: Seq<char>) -> Seq<char> {
    tail_after_last(url, video_marker())
}

/// The canonical playlist id of a URL: the text after the last playlist marker.
pub open spec fn playlist_id_of(url: Seq<char>) -> Seq<char> {
    tail_after_last(url, playlist_marker())
}

/// A remote track. `audio_stream_url`, `title` and `length` are empty / zero
/// until the resolver fills them in; `url` and `video_id` never change.
#[derive(Debug, Clone)]
pub struct Remote {
    pub url: String,
    pub video_id: String,
    pub audio_stream_url: String,
    pub title: String,
    pub length: u64,
}

impl Remote {
    /// The id was derived from the URL and the track is not yet resolved.
    pub open spec fn fresh_from(self, path: Seq<char>) -> bool {
        &&& self.url@ == path
        &&& has_video_marker(path)
        &&& self.video_id@ == video_id_of(path)
        &&& self.audio_stream_url@ == Seq::<char>::empty()
        &&& self.title@ == Seq::<char>::empty()
        &&& self.length == 0
    }

    /// The id is the one derived from the URL.
    pub open spec fn id_consistent(self) -> bool {
        has_video_marker(self.url@) && self.video_id@ == video_id_of(self.url@)
    }

    /// Builds an unresolved track from a URL; rejects URLs without a video
    /// marker.
    pub fn new(path: &str) -> (r: Result<Self, Error>)
        ensures
            r matches Ok(remote) ==> remote.fresh_from(path@),
            r is Ok <==> has_video_marker(path@),
            r matches Err(e) ==> e is InvalidVideoUrl,
    {
        let video_id = Remote::url_into_video_id(path)?;
        Ok(Remote {
            url: path.to_owned(),
            video_id,
            audio_stream_url: String::new(),
            title: String::new(),
            length: 0,
        })
    }

    /// The text after the last video marker of `url`, or an error when the
    /// marker is absent.
    pub fn url_into_video_id(url: &str) -> (r: Result<String, Error>)
        ensures
            r is Ok <==> has_video_marker(url@),
            r matches Ok(id) ==> id@ == video_id_of(url@),
            r matches Err(e) ==> e is InvalidVideoUrl,
    {
        match tail_after_last_exec(url, "v=") {
            Some(id) => Ok(id),
            None => Err(Error::InvalidVideoUrl(
                String::from_str("Not a valid youtube/piped video url: ").concat(url).concat(
                    ", url must contain 'v='",
                ),
            )),
        }
    }

    /// The text after the last playlist marker of `url`, or an error when
    /// the marker is absent.
    pub fn url_into_playlist_id(url: &str) -> (r: Result<String, Error>)
        ensures
            r is Ok <==> has_playlist_marker(url@),
            r matches Ok(id) ==> id@ == playlist_id_of(url@),
            r matches Err(e) ==> e is InvalidPlaylistUrl,
    {
        match tail_after_last_exec(url, "list=") {
            Some(id) => Ok(id),
            None => Err(Error::InvalidPlaylistUrl(
                String::from_str("Not a valid youtube/piped playlist url: ").concat(url).concat(
                    ", url must contain 'list='",
                ),
            )),
        }
    }
}

/// Reserved for future local-file support.
#[derive(Debug, Clone)]
pub struct Local {}

/// A track source: remote today, local reserved.
#[derive(Debug, Clone)]
pub enum Source {
    Remote(Remote),
    _Local(Local),
}

impl Source {
    /// The remote track inside, when the source is remote.
    pub open spec fn spec_remote(self) -> Remote
        recommends
            self is Remote,
    {
        self->Remote_0
    }

    /// Builds an unresolved remote source from a URL.
    pub fn new_remote(path: &str) -> (r: Result<Self, Error>)
        ensures
            r matches Ok(src) ==> src is Remote && src.spec_remote().fresh_from(path@),
            r is Ok <==> has_video_marker(path@),
            r matches Err(e) ==> e is InvalidVideoUrl,
    {
        Ok(Source::Remote(Remote::new(path)?))
    }

    /// The remote track inside, or an error for a non-remote source.
    pub fn get_remote_source(&self) -> (r: Result<&Remote, Error>)
        ensures
            r matches Ok(remote) ==> self is Remote && *remote == self.spec_remote(),
            r is Ok <==> self is Remote,
            r matches Err(e) ==> e is OtherError,
    {
        match self {
            Source::Remote(remote_src) => Ok(remote_src),
            _ => Err(Error::OtherError(String::from_str("Not remote source"))),
        }
    }

    /// The remote track inside, mutably, or an error for a non-remote source.
    pub fn get_remote_source_mut(&mut self) -> (r: Result<&mut Remote, Error>)
        ensures
            r matches Ok(remote) ==> *old(self) is Remote && *remote == old(self).spec_remote()
                && *final(self) == Source::Remote(*final(remote)),
            r is Ok <==> *old(self) is Remote,
            r is Err ==> *final(self) == *old(self),
            r matches Err(e) ==> e is OtherError,
    {
        match self {
            Source::Remote(remote_src) => Ok(remote_src),
            _ => Err(Error::OtherError(String::from_str("Not remote source"))),
        }
    }

    /// A path is a valid source path when it carries a video or playlist
    /// marker.
    pub fn is_valid_source_path(path: &str) -> (r: bool)
        ensures
            r == (has_video_marker(path@) || has_playlist_marker(path@)),
    {
        let mut valid_path = false;
        if str_contains(path, "v=") {
            valid_path = true;
        }
        if str_contains(path, "list=") {
            valid_path = true;
        }

        valid_path
    }
}

} // verus!

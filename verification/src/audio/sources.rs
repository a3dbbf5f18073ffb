//! A remote video as a lazily opened audio source with display metadata known up front.
//!
//! Resolving a query takes two round trips to a video-info service: a lookup, which
//! returns the video's details and the audio format the service prefers, and a decipher
//! step, which turns that format into a URL that can be fetched. The functions here
//! decide what each answer means; their caller performs the round trips.

use crate::text::{parse_u64, parsed_u64};
use vstd::prelude::*;
use vstd::string::StringExecFns;

verus! {

/// The address under which a video with a given identifier is watched.
pub const WATCH_URL_BASE: &'static str = "https://www.youtube.com/watch?v=";

/// What the info service reports about a video itself.
pub struct VideoDetails {
    pub video_id: String,
    pub title: String,
    pub author: String,
    /// The length in whole seconds, written in decimal.
    pub length_seconds: String,
    /// Thumbnail addresses, in the order the service listed them.
    pub thumbnails: Vec<String>,
}

pub struct VideoDetailsView {
    pub video_id: Seq<char>,
    pub title: Seq<char>,
    pub author: Seq<char>,
    pub length_seconds: Seq<char>,
    pub thumbnails: Seq<Seq<char>>,
}

impl View for VideoDetails {
    type V = VideoDetailsView;

    open spec fn view(&self) -> VideoDetailsView {
        VideoDetailsView {
            video_id: self.video_id@,
            title: self.title@,
            author: self.author@,
            length_seconds: self.length_seconds@,
            thumbnails: self.thumbnails.deep_view(),
        }
    }
}

impl VideoDetailsView {
    /// Details from which metadata can be built: the length is a decimal number of
    /// seconds and at least one thumbnail is listed.
    pub open spec fn well_formed(self) -> bool {
        parsed_u64(self.length_seconds) is Some && self.thumbnails.len() > 0
    }
}

/// What a playback queue shows about a track. A source fills in what it knows.
pub struct AuxMetadata {
    pub track: Option<String>,
    pub artist: Option<String>,
    pub album: Option<String>,
    pub date: Option<String>,
    /// Number of audio channels.
    pub channels: Option<u8>,
    /// The channel or author that published the track.
    pub channel: Option<String>,
    /// Length in whole seconds.
    pub duration: Option<u64>,
    pub source_url: Option<String>,
    pub title: Option<String>,
    pub thumbnail: Option<String>,
}

pub struct AuxMetadataView {
    pub track: Option<Seq<char>>,
    pub artist: Option<Seq<char>>,
    pub album: Option<Seq<char>>,
    pub date: Option<Seq<char>>,
    pub channels: Option<u8>,
    pub channel: Option<Seq<char>>,
    pub duration: Option<u64>,
    pub source_url: Option<Seq<char>>,
    pub title: Option<Seq<char>>,
    pub thumbnail: Option<Seq<char>>,
}

impl View for AuxMetadata {
    type V = AuxMetadataView;

    open spec fn view(&self) -> AuxMetadataView {
        AuxMetadataView {
            track: self.track.deep_view(),
            artist: self.artist.deep_view(),
            album: self.album.deep_view(),
            date: self.date.deep_view(),
            channels: self.channels,
            channel: self.channel.deep_view(),
            duration: self.duration,
            source_url: self.source_url.deep_view(),
            title: self.title.deep_view(),
            thumbnail: self.thumbnail.deep_view(),
        }
    }
}

/// The metadata that describes a video with the given details: stereo, published by the
/// video's author, as long as the details say, watched at the base address followed by
/// the identifier, shown with the first listed thumbnail.
pub open spec fn metadata_of(details: VideoDetailsView) -> AuxMetadataView {
    AuxMetadataView {
        track: None,
        artist: None,
        album: None,
        date: None,
        channels: Some(2u8),
        channel: Some(details.author),
        duration: Some(parsed_u64(details.length_seconds)->0),
        source_url: Some(WATCH_URL_BASE@ + details.video_id),
        title: Some(details.title),
        thumbnail: Some(details.thumbnails[0]),
    }
}

impl VideoDetails {
    /// Whether metadata can be built from these details.
    pub fn is_well_formed(&self) -> (b: bool)
        ensures
            b == self@.well_formed(),
    {
        parse_u64(self.length_seconds.as_str()).is_some() && self.thumbnails.len() > 0
    }
}

/// Builds the display metadata of a video from its details.
pub fn details_to_metadata(details: VideoDetails) -> (metadata: AuxMetadata)
    requires
        details@.well_formed(),
    ensures
        metadata@ == metadata_of(details@),
{
    let length = parse_u64(details.length_seconds.as_str()).unwrap();
    let thumbnail = details.thumbnails[0].clone();
    let url = String::from_str(WATCH_URL_BASE).concat(details.video_id.as_str());
    AuxMetadata {
        track: None,
        artist: None,
        album: None,
        date: None,
        channels: Some(2),
        channel: Some(details.author),
        duration: Some(length),
        source_url: Some(url),
        title: Some(details.title),
        thumbnail: Some(thumbnail),
    }
}

/// Why a source could not be resolved or opened. None of these is retried.
pub enum SourceError {
    /// The lookup request failed; holds what the info service said.
    LookupFailed(String),
    /// The video exists but may not be played.
    Unplayable,
    /// The video offers no audio-only format.
    NoAudioFormat,
    /// No fetchable URL could be derived for the chosen format; holds what the service said.
    DecipherFailed(String),
    /// The request for the stream could not be started; holds the reason.
    StreamOpenFailed(String),
    /// The operation is not offered by this kind of source.
    Unsupported,
    /// Metadata was asked of a source that holds none.
    MetadataUnavailable,
}

pub enum SourceErrorView {
    LookupFailed(Seq<char>),
    Unplayable,
    NoAudioFormat,
    DecipherFailed(Seq<char>),
    StreamOpenFailed(Seq<char>),
    Unsupported,
    MetadataUnavailable,
}

impl View for SourceError {
    type V = SourceErrorView;

    open spec fn view(&self) -> SourceErrorView {
        match self {
            SourceError::LookupFailed(why) => SourceErrorView::LookupFailed(why@),
            SourceError::Unplayable => SourceErrorView::Unplayable,
            SourceError::NoAudioFormat => SourceErrorView::NoAudioFormat,
            SourceError::DecipherFailed(why) => SourceErrorView::DecipherFailed(why@),
            SourceError::StreamOpenFailed(why) => SourceErrorView::StreamOpenFailed(why@),
            SourceError::Unsupported => SourceErrorView::Unsupported,
            SourceError::MetadataUnavailable => SourceErrorView::MetadataUnavailable,
        }
    }
}

/// The audio format that the info service ranks best for a video.
pub struct AudioFormat {
    /// The size of the stream in bytes, written in decimal, where the service gives one.
    pub content_length: Option<String>,
}

/// The answer to a lookup.
pub struct VideoInfo {
    /// The service's verdict on whether the video may be played, where it gives one.
    pub playability_status: Option<String>,
    pub video_details: VideoDetails,
    /// The service's choice among the audio-only formats; `None` where there is none.
    pub best_audio: Option<AudioFormat>,
}

pub struct VideoInfoView {
    pub playability_status: Option<Seq<char>>,
    pub video_details: VideoDetailsView,
    pub best_audio_length: Option<Option<Seq<char>>>,
}

impl View for VideoInfo {
    type V = VideoInfoView;

    open spec fn view(&self) -> VideoInfoView {
        VideoInfoView {
            playability_status: self.playability_status.deep_view(),
            video_details: self.video_details@,
            best_audio_length: match self.best_audio {
                Some(format) => Some(format.content_length.deep_view()),
                None => None,
            },
        }
    }
}

impl VideoInfoView {
    /// The service did not object to playing the video.
    pub open spec fn playable(self) -> bool {
        self.playability_status matches Some(status) ==> status == PLAYABLE@
    }
}

/// The playability status of a video that may be played.
pub const PLAYABLE: &'static str = "OK";

/// A lookup that was accepted: the video is playable and has an audio format, whose
/// URL is still to be deciphered.
pub struct Pending {
    file_size: Option<String>,
    details: VideoDetails,
}

pub struct PendingView {
    pub file_size: Option<Seq<char>>,
    pub details: VideoDetailsView,
}

impl View for Pending {
    type V = PendingView;

    closed spec fn view(&self) -> PendingView {
        PendingView { file_size: self.file_size.deep_view(), details: self.details@ }
    }
}

/// Everything a source remembers once it is resolved.
pub struct Resolved {
    stream_url: String,
    file_size: Option<String>,
    metadata: AuxMetadata,
}

pub struct ResolvedView {
    pub stream_url: Seq<char>,
    pub file_size: Option<Seq<char>>,
    pub metadata: AuxMetadataView,
}

impl View for Resolved {
    type V = ResolvedView;

    closed spec fn view(&self) -> ResolvedView {
        ResolvedView {
            stream_url: self.stream_url@,
            file_size: self.file_size.deep_view(),
            metadata: self.metadata@,
        }
    }
}

/// A lookup answer as the contracts see it.
pub open spec fn lookup_view(answer: Result<VideoInfo, String>) -> Result<VideoInfoView, Seq<char>> {
    match answer {
        Ok(info) => Ok(info@),
        Err(why) => Err(why@),
    }
}

/// A decipher answer as the contracts see it.
pub open spec fn decipher_view(answer: Result<String, String>) -> Result<Seq<char>, Seq<char>> {
    match answer {
        Ok(url) => Ok(url@),
        Err(why) => Err(why@),
    }
}

/// What a lookup answer means: a failed request is `LookupFailed`, a video that the
/// service will not play is `Unplayable`, one without an audio format is `NoAudioFormat`,
/// and any other goes on to the decipher step with its details and the format's length.
pub open spec fn lookup_outcome(answer: Result<VideoInfoView, Seq<char>>) -> Result<
    PendingView,
    SourceErrorView,
> {
    match answer {
        Err(why) => Err(SourceErrorView::LookupFailed(why)),
        Ok(info) => if !info.playable() {
            Err(SourceErrorView::Unplayable)
        } else {
            match info.best_audio_length {
                None => Err(SourceErrorView::NoAudioFormat),
                Some(length) => Ok(
                    PendingView { file_size: length, details: info.video_details },
                ),
            }
        },
    }
}

/// What a decipher answer means for an accepted lookup: a failure is `DecipherFailed`,
/// a URL completes the resolution.
pub open spec fn decipher_outcome(pending: PendingView, answer: Result<Seq<char>, Seq<char>>) -> Result<
    ResolvedView,
    SourceErrorView,
> {
    match answer {
        Err(why) => Err(SourceErrorView::DecipherFailed(why)),
        Ok(url) => Ok(
            ResolvedView {
                stream_url: url,
                file_size: pending.file_size,
                metadata: metadata_of(pending.details),
            },
        ),
    }
}

/// The whole pipeline: the lookup answer decides first, and the decipher answer counts
/// only where the lookup was accepted.
pub open spec fn resolution_outcome(
    lookup: Result<VideoInfoView, Seq<char>>,
    decipher: Result<Seq<char>, Seq<char>>,
) -> Result<ResolvedView, SourceErrorView> {
    match lookup_outcome(lookup) {
        Err(e) => Err(e),
        Ok(pending) => decipher_outcome(pending, decipher),
    }
}

/// Judges the answer to a lookup. On `Ok` the caller deciphers the format it looked up
/// and hands the answer to [`Pending::accept_decipher`].
pub fn accept_lookup(answer: Result<VideoInfo, String>) -> (r: Result<Pending, SourceError>)
    ensures
        match r {
            Ok(pending) => lookup_outcome(lookup_view(answer)) == Ok::<PendingView, SourceErrorView>(pending@),
            Err(e) => lookup_outcome(lookup_view(answer)) == Err::<PendingView, SourceErrorView>(e@),
        },
{
    match answer {
        Err(why) => Err(SourceError::LookupFailed(why)),
        Ok(info) => {
            let playable = match &info.playability_status {
                Some(status) => *status == String::from_str(PLAYABLE),
                None => true,
            };
            if !playable {
                return Err(SourceError::Unplayable);
            }
            match info.best_audio {
                None => Err(SourceError::NoAudioFormat),
                Some(format) => Ok(
                    Pending { file_size: format.content_length, details: info.video_details },
                ),
            }
        },
    }
}

impl Pending {
    /// Whether metadata can be built once the URL arrives.
    pub fn is_well_formed(&self) -> (b: bool)
        ensures
            b == self@.details.well_formed(),
    {
        self.details.is_well_formed()
    }

    /// Judges the answer to the decipher step.
    pub fn accept_decipher(self, answer: Result<String, String>) -> (r: Result<Resolved, SourceError>)
        requires
            answer is Ok ==> self@.details.well_formed(),
        ensures
            match r {
                Ok(resolved) => decipher_outcome(self@, decipher_view(answer)) == Ok::<ResolvedView, SourceErrorView>(resolved@),
                Err(e) => decipher_outcome(self@, decipher_view(answer)) == Err::<ResolvedView, SourceErrorView>(e@),
            },
    {
        match answer {
            Err(why) => Err(SourceError::DecipherFailed(why)),
            Ok(url) => Ok(
                Resolved {
                    stream_url: url,
                    file_size: self.file_size,
                    metadata: details_to_metadata(self.details),
                },
            ),
        }
    }
}

/// A request for the bytes of a resolved stream.
pub struct StreamRequest {
    pub url: String,
    /// The length of the stream in bytes, where it is known.
    pub content_length: Option<u64>,
}

pub struct StreamRequestView {
    pub url: Seq<char>,
    pub content_length: Option<u64>,
}

impl View for StreamRequest {
    type V = StreamRequestView;

    open spec fn view(&self) -> StreamRequestView {
        StreamRequestView { url: self.url@, content_length: self.content_length }
    }
}

impl ResolvedView {
    /// The recorded stream length, if there is one, is a decimal number.
    pub open spec fn openable(self) -> bool {
        self.file_size matches Some(size) ==> parsed_u64(size) is Some
    }

    /// The request that opens the stream: the resolved URL, with the recorded length.
    pub open spec fn stream_request(self) -> StreamRequestView {
        StreamRequestView {
            url: self.stream_url,
            content_length: match self.file_size {
                Some(size) => Some(parsed_u64(size)->0),
                None => None,
            },
        }
    }
}

impl Resolved {
    pub fn stream_url(&self) -> (url: &str)
        ensures
            url@ == self@.stream_url,
    {
        self.stream_url.as_str()
    }

    pub fn file_size(&self) -> (size: &Option<String>)
        ensures
            size.deep_view() == self@.file_size,
    {
        &self.file_size
    }

    pub fn metadata(&self) -> (metadata: &AuxMetadata)
        ensures
            metadata@ == self@.metadata,
    {
        &self.metadata
    }
}

fn clone_text(text: &Option<String>) -> (copy: Option<String>)
    ensures
        copy.deep_view() == text.deep_view(),
{
    match text {
        Some(t) => Some(t.clone()),
        None => None,
    }
}

impl Clone for AuxMetadata {
    fn clone(&self) -> (copy: Self)
        ensures
            copy@ == self@,
    {
        AuxMetadata {
            track: clone_text(&self.track),
            artist: clone_text(&self.artist),
            album: clone_text(&self.album),
            date: clone_text(&self.date),
            channels: self.channels,
            channel: clone_text(&self.channel),
            duration: self.duration,
            source_url: clone_text(&self.source_url),
            title: clone_text(&self.title),
            thumbnail: clone_text(&self.thumbnail),
        }
    }
}

/// A video as an audio source for a playback queue.
///
/// A source is either resolved, and then holds its stream URL, stream length and
/// metadata for good, or not yet resolved, and then holds only the query. It never
/// goes back, and what it holds once resolved never changes.
pub struct YouTube {
    query: String,
    resolved: Option<Resolved>,
}

pub struct YouTubeView {
    pub query: Seq<char>,
    pub resolved: Option<ResolvedView>,
}

impl View for YouTube {
    type V = YouTubeView;

    closed spec fn view(&self) -> YouTubeView {
        YouTubeView {
            query: self.query@,
            resolved: match self.resolved {
                Some(resolved) => Some(resolved@),
                None => None,
            },
        }
    }
}

impl YouTubeView {
    /// The answer to a request for metadata: what was memoized, or `MetadataUnavailable`
    /// where nothing was.
    pub open spec fn metadata(self) -> Result<AuxMetadataView, SourceErrorView> {
        match self.resolved {
            Some(resolved) => Ok(resolved.metadata),
            None => Err(SourceErrorView::MetadataUnavailable),
        }
    }

    /// The source after a resolution attempt ended in `outcome`: a success is memoized
    /// by a source that holds nothing yet; in every other case nothing changes.
    pub open spec fn settled(self, outcome: Result<ResolvedView, SourceErrorView>) -> YouTubeView {
        match (self.resolved, outcome) {
            (None, Ok(resolved)) => YouTubeView { query: self.query, resolved: Some(resolved) },
            _ => self,
        }
    }
}

/// A resolution outcome as the contracts see it.
pub open spec fn outcome_view(outcome: Result<Resolved, SourceError>) -> Result<
    ResolvedView,
    SourceErrorView,
> {
    match outcome {
        Ok(resolved) => Ok(resolved@),
        Err(e) => Err(e@),
    }
}

impl YouTube {
    /// A source under the eager policy: `outcome` is how the resolution of `url` ended,
    /// and a failed resolution makes no source.
    pub fn new(url: &str, outcome: Result<Resolved, SourceError>) -> (r: Result<YouTube, SourceError>)
        ensures
            match r {
                Ok(source) => outcome_view(outcome) == Ok::<ResolvedView, SourceErrorView>(
                    source@.resolved->0,
                ) && source@.resolved is Some && source@.query == url@,
                Err(e) => outcome_view(outcome) == Err::<ResolvedView, SourceErrorView>(e@),
            },
    {
        match outcome {
            Ok(resolved) => Ok(YouTube { query: String::from_str(url), resolved: Some(resolved) }),
            Err(e) => Err(e),
        }
    }

    /// A source under the deferred policy: it holds the query and nothing else until a
    /// resolution is settled on it.
    pub fn deferred(query: &str) -> (source: YouTube)
        ensures
            source@ == (YouTubeView { query: query@, resolved: None }),
    {
        YouTube { query: String::from_str(query), resolved: None }
    }

    /// The query this source was made for.
    pub fn query(&self) -> (query: &str)
        ensures
            query@ == self@.query,
    {
        self.query.as_str()
    }

    /// Whether the source holds its stream URL and metadata.
    pub fn is_resolved(&self) -> (b: bool)
        ensures
            b == (self@.resolved is Some),
    {
        self.resolved.is_some()
    }

    /// What the source holds, once resolved.
    pub fn resolved(&self) -> (r: Option<&Resolved>)
        ensures
            match r {
                Some(resolved) => self@.resolved == Some(resolved@),
                None => self@.resolved is None,
            },
    {
        self.resolved.as_ref()
    }

    /// Ends a resolution attempt. A success is memoized unless the source is resolved
    /// already; a failure leaves the source as it was and is handed back.
    pub fn settle(&mut self, outcome: Result<Resolved, SourceError>) -> (r: Result<(), SourceError>)
        ensures
            final(self)@ == old(self)@.settled(outcome_view(outcome)),
            match r {
                Ok(_) => outcome is Ok,
                Err(e) => outcome_view(outcome) == Err::<ResolvedView, SourceErrorView>(e@),
            },
    {
        match outcome {
            Ok(resolved) => {
                if self.resolved.is_none() {
                    self.resolved = Some(resolved);
                }
                Ok(())
            },
            Err(e) => Err(e),
        }
    }

    /// Opening the stream without waiting is not offered: it takes network round trips.
    pub fn create(&mut self) -> (r: Result<StreamRequest, SourceError>)
        ensures
            r matches Err(e) && e@ == SourceErrorView::Unsupported,
            final(self)@ == old(self)@,
    {
        Err(SourceError::Unsupported)
    }

    /// Streams of this source are opened on the asynchronous path only.
    pub fn should_create_async(&self) -> (b: bool)
        ensures
            b,
    {
        true
    }

    /// Whether [`YouTube::create_async`] may be called.
    pub fn can_open(&self) -> (b: bool)
        ensures
            b == (self@.resolved matches Some(resolved) && resolved.openable()),
    {
        match &self.resolved {
            Some(resolved) => match &resolved.file_size {
                Some(size) => parse_u64(size.as_str()).is_some(),
                None => true,
            },
            None => false,
        }
    }

    /// The request that opens the byte stream of a resolved source.
    pub fn create_async(&mut self) -> (r: Result<StreamRequest, SourceError>)
        requires
            old(self)@.resolved matches Some(resolved) && resolved.openable(),
        ensures
            r matches Ok(request) && request@ == old(self)@.resolved->0.stream_request(),
            final(self)@ == old(self)@,
    {
        let resolved = self.resolved.as_ref().unwrap();
        let content_length = match &resolved.file_size {
            Some(size) => parse_u64(size.as_str()),
            None => None,
        };
        Ok(StreamRequest { url: resolved.stream_url.clone(), content_length })
    }

    /// The memoized metadata.
    pub fn aux_metadata(&mut self) -> (r: Result<AuxMetadata, SourceError>)
        ensures
            match r {
                Ok(metadata) => old(self)@.metadata() == Ok::<AuxMetadataView, SourceErrorView>(metadata@),
                Err(e) => old(self)@.metadata() == Err::<AuxMetadataView, SourceErrorView>(e@),
            },
            final(self)@ == old(self)@,
    {
        match &self.resolved {
            Some(resolved) => Ok(resolved.metadata.clone()),
            None => Err(SourceError::MetadataUnavailable),
        }
    }
}

/// Judges the attempt to start the request for the stream: what was opened is handed
/// on, and a failure is `StreamOpenFailed` with the reason given.
pub fn accept_open<S>(attempt: Result<S, String>) -> (r: Result<S, SourceError>)
    ensures
        match attempt {
            Ok(stream) => r matches Ok(opened) && opened == stream,
            Err(why) => r matches Err(e) && e@ == SourceErrorView::StreamOpenFailed(why@),
        },
{
    match attempt {
        Ok(stream) => Ok(stream),
        Err(why) => Err(SourceError::StreamOpenFailed(why)),
    }
}

/// A playable video with an audio format resolves as soon as its URL is deciphered:
/// the source then streams from that URL, and its metadata gives the length that the
/// details wrote in decimal.
pub proof fn lemma_playable_video_resolves(info: VideoInfoView, url: Seq<char>)
    requires
        info.playable(),
        info.best_audio_length is Some,
        info.video_details.well_formed(),
    ensures
        resolution_outcome(Ok(info), Ok(url)) matches Ok(resolved) && resolved.stream_url == url
            && resolved.metadata.duration == parsed_u64(info.video_details.length_seconds)
            && resolved.metadata == metadata_of(info.video_details),
{
}

/// A video whose playability status is given and is not `"OK"` is refused as
/// `Unplayable` whatever the decipher step would say, and a source on which that
/// outcome is settled holds what it held before: no stream URL is memoized.
pub proof fn lemma_unplayable_is_refused(
    source: YouTubeView,
    info: VideoInfoView,
    decipher: Result<Seq<char>, Seq<char>>,
)
    requires
        info.playability_status matches Some(status) && status != PLAYABLE@,
    ensures
        resolution_outcome(Ok(info), decipher) == Err::<ResolvedView, SourceErrorView>(
            SourceErrorView::Unplayable,
        ),
        source.settled(resolution_outcome(Ok(info), decipher)) == source,
{
}

/// A playable video for which the service finds no audio-only format is refused as
/// `NoAudioFormat`, whatever the decipher step would say.
pub proof fn lemma_no_audio_format_is_refused(
    info: VideoInfoView,
    decipher: Result<Seq<char>, Seq<char>>,
)
    requires
        info.playable(),
        info.best_audio_length is None,
    ensures
        resolution_outcome(Ok(info), decipher) == Err::<ResolvedView, SourceErrorView>(
            SourceErrorView::NoAudioFormat,
        ),
{
}

/// Resolution is all or nothing: it fails exactly when the lookup is refused or the
/// decipher step fails, with the error of whichever came first, and a failure settled
/// on a source changes nothing.
pub proof fn lemma_failure_memoizes_nothing(
    source: YouTubeView,
    lookup: Result<VideoInfoView, Seq<char>>,
    decipher: Result<Seq<char>, Seq<char>>,
)
    ensures
        resolution_outcome(lookup, decipher) is Err <==> lookup_outcome(lookup) is Err
            || decipher is Err,
        lookup_outcome(lookup) matches Err(e) ==> resolution_outcome(lookup, decipher) == Err::<
            ResolvedView,
            SourceErrorView,
        >(e),
        resolution_outcome(lookup, decipher) is Err ==> source.settled(
            resolution_outcome(lookup, decipher),
        ) == source,
        forall|e: SourceErrorView| #[trigger] source.settled(Err(e)) == source,
{
}

/// Once resolved, a source answers every request for metadata with the same record,
/// and no later resolution outcome replaces what it holds.
pub proof fn lemma_metadata_is_memoized(
    source: YouTubeView,
    later: Result<ResolvedView, SourceErrorView>,
)
    requires
        source.resolved is Some,
    ensures
        source.metadata() == Ok::<AuxMetadataView, SourceErrorView>(source.resolved->0.metadata),
        source.settled(later) == source,
        source.settled(later).metadata() == source.metadata(),
{
}

/// The metadata of a resolved video fills in the channel count, the channel, the
/// duration, the source URL, the title and the thumbnail, and nothing else.
pub proof fn lemma_metadata_fields(details: VideoDetailsView)
    ensures
        metadata_of(details).channels == Some(2u8),
        metadata_of(details).channel is Some,
        metadata_of(details).duration is Some,
        metadata_of(details).source_url is Some,
        metadata_of(details).title is Some,
        metadata_of(details).thumbnail is Some,
        metadata_of(details).track is None,
        metadata_of(details).artist is None,
        metadata_of(details).album is None,
        metadata_of(details).date is None,
{
}

} // verus!

//! The cache of one publish session.

use crate::channel::{unit_view, ChannelData, ChannelDataView};
use crate::errors::CacheError;
use crate::gop::{lemma_audio_unit_keeps_audio_only, snapshot_view, Gop, Gops, GopsView};
use crate::metadata::{MetaData, MetaDataView};
use crate::payload::bytes_of;
use crate::tag::{
    audio_tag_of, parse_audio_tag, parse_video_tag, video_tag_of, AudioTag, VideoTag, AAC_SEQHDR,
    AVC_SEQHDR, KEY_FRAME, SOUND_FORMAT_AAC,
};
use bytes::BytesMut;
use std::collections::VecDeque;
use vstd::prelude::*;

verus! {

/// What a [`Cache`] holds. An empty payload in one of the three slots stands
/// for "none received yet".
pub struct CacheView {
    pub metadata: MetaDataView,
    pub video_seq: Seq<u8>,
    pub video_timestamp: u32,
    pub audio_seq: Seq<u8>,
    pub audio_timestamp: u32,
    pub gops: GopsView,
}

impl CacheView {
    /// A cache that has received nothing and keeps up to `gop_num` closed groups.
    pub open spec fn fresh(gop_num: nat) -> CacheView {
        CacheView {
            metadata: MetaDataView::fresh(),
            video_seq: Seq::empty(),
            video_timestamp: 0,
            audio_seq: Seq::empty(),
            audio_timestamp: 0,
            gops: GopsView::fresh(gop_num),
        }
    }

    /// The window of groups is well formed.
    pub open spec fn wf(self) -> bool {
        self.gops.wf()
    }

    /// The cache after a metadata unit: payload and timestamp are replaced.
    pub open spec fn save_metadata(self, body: Seq<u8>, timestamp: u32) -> CacheView {
        CacheView { metadata: MetaDataView { chunk_body: body, timestamp }, ..self }
    }

    /// The cache after an audio unit with the given tag header. The unit joins
    /// the open group; where it is the AAC sequence header it also replaces the
    /// audio sequence header.
    pub open spec fn save_audio(self, body: Seq<u8>, timestamp: u32, tag: AudioTag) -> CacheView {
        let gops = self.gops.save_frame(ChannelDataView::Audio { timestamp, data: body }, false);
        if tag.is_seq_header() {
            CacheView { audio_seq: body, audio_timestamp: timestamp, gops, ..self }
        } else {
            CacheView { gops, ..self }
        }
    }

    /// The cache after a video unit with the given tag header. The unit goes to
    /// the groups, as a key frame where the tag says so; where it is a
    /// sequence header it also replaces the video sequence header.
    pub open spec fn save_video(self, body: Seq<u8>, timestamp: u32, tag: VideoTag) -> CacheView {
        let gops = self.gops.save_frame(
            ChannelDataView::Video { timestamp, data: body },
            tag.is_key_frame(),
        );
        if tag.is_seq_header() {
            CacheView { video_seq: body, video_timestamp: timestamp, gops, ..self }
        } else {
            CacheView { gops, ..self }
        }
    }

    /// The metadata unit, if any metadata was received.
    pub open spec fn get_metadata(self) -> Option<ChannelDataView> {
        self.metadata.get()
    }

    /// The audio sequence header, if one was received.
    pub open spec fn get_audio_seq(self) -> Option<ChannelDataView> {
        if self.audio_seq.len() > 0 {
            Some(ChannelDataView::Audio { timestamp: self.audio_timestamp, data: self.audio_seq })
        } else {
            None
        }
    }

    /// The video sequence header, if one was received.
    pub open spec fn get_video_seq(self) -> Option<ChannelDataView> {
        if self.video_seq.len() > 0 {
            Some(ChannelDataView::Video { timestamp: self.video_timestamp, data: self.video_seq })
        } else {
            None
        }
    }

    /// The closed groups, oldest first, once any unit was recorded.
    pub open spec fn get_gops_data(self) -> Option<Seq<Seq<ChannelDataView>>> {
        if self.gops.setted() {
            Some(self.gops.committed)
        } else {
            None
        }
    }
}

/// A fresh cache has nothing to hand out: no metadata, no audio or video
/// sequence header, and no snapshot of groups, not even an empty one.
pub proof fn lemma_fresh_cache_is_absent(gop_num: nat)
    ensures
        CacheView::fresh(gop_num).wf(),
        CacheView::fresh(gop_num).get_metadata() is None,
        CacheView::fresh(gop_num).get_audio_seq() is None,
        CacheView::fresh(gop_num).get_video_seq() is None,
        CacheView::fresh(gop_num).get_gops_data() is None,
{
}

/// Once an audio or video unit was taken in there is a snapshot of groups, if
/// only an empty one; metadata does not count as a unit.
pub proof fn lemma_snapshot_after_first_unit(
    cache: CacheView,
    body: Seq<u8>,
    timestamp: u32,
    audio: AudioTag,
    video: VideoTag,
)
    ensures
        cache.save_audio(body, timestamp, audio).get_gops_data() is Some,
        cache.save_video(body, timestamp, video).get_gops_data() is Some,
        cache.save_metadata(body, timestamp).get_gops_data() == cache.get_gops_data(),
{
}

/// Metadata is overwritten whole: after two saves the cache holds the second
/// payload at the second timestamp, as if the first had never been saved. It
/// hands that payload out unless it is empty, which stands for "none".
pub proof fn lemma_metadata_overwrite(
    cache: CacheView,
    first: Seq<u8>,
    first_timestamp: u32,
    second: Seq<u8>,
    second_timestamp: u32,
)
    ensures
        cache.save_metadata(first, first_timestamp).save_metadata(second, second_timestamp)
            == cache.save_metadata(second, second_timestamp),
        second.len() > 0 ==> cache.save_metadata(first, first_timestamp).save_metadata(
            second,
            second_timestamp,
        ).get_metadata() == Some(
            ChannelDataView::MetaData { timestamp: second_timestamp, data: second },
        ),
        second.len() == 0 ==> cache.save_metadata(first, first_timestamp).save_metadata(
            second,
            second_timestamp,
        ).get_metadata() is None,
{
}

/// Only a sequence header touches the audio sequence header slot. An audio
/// unit that is not the AAC sequence header leaves the slot as it was; one
/// that is makes the slot hold exactly that unit.
pub proof fn lemma_audio_seq_gating(cache: CacheView, body: Seq<u8>, timestamp: u32)
    requires
        audio_tag_of(body) is Some,
    ensures
        !audio_tag_of(body)->Some_0.is_seq_header() ==> cache.save_audio(
            body,
            timestamp,
            audio_tag_of(body)->Some_0,
        ).get_audio_seq() == cache.get_audio_seq(),
        audio_tag_of(body)->Some_0.is_seq_header() ==> cache.save_audio(
            body,
            timestamp,
            audio_tag_of(body)->Some_0,
        ).get_audio_seq() == Some(ChannelDataView::Audio { timestamp, data: body }),
        cache.save_audio(body, timestamp, audio_tag_of(body)->Some_0).get_video_seq()
            == cache.get_video_seq(),
        cache.save_audio(body, timestamp, audio_tag_of(body)->Some_0).get_metadata()
            == cache.get_metadata(),
{
}

/// Only a key frame with the packet type of a sequence header touches the
/// video sequence header slot; such a unit makes the slot hold exactly that
/// unit, any other video unit leaves it as it was.
pub proof fn lemma_video_seq_gating(cache: CacheView, body: Seq<u8>, timestamp: u32)
    requires
        video_tag_of(body) is Some,
    ensures
        !video_tag_of(body)->Some_0.is_seq_header() ==> cache.save_video(
            body,
            timestamp,
            video_tag_of(body)->Some_0,
        ).get_video_seq() == cache.get_video_seq(),
        video_tag_of(body)->Some_0.is_seq_header() ==> cache.save_video(
            body,
            timestamp,
            video_tag_of(body)->Some_0,
        ).get_video_seq() == Some(ChannelDataView::Video { timestamp, data: body }),
        cache.save_video(body, timestamp, video_tag_of(body)->Some_0).get_audio_seq()
            == cache.get_audio_seq(),
        cache.save_video(body, timestamp, video_tag_of(body)->Some_0).get_metadata()
            == cache.get_metadata(),
{
}

/// In a stream without video no group is ever closed and every group holds
/// audio units only: an audio unit joins the open group, closes none, and
/// from then on the cache has a snapshot to hand out.
pub proof fn lemma_audio_only_stream(cache: CacheView, body: Seq<u8>, timestamp: u32, tag: AudioTag)
    requires
        cache.gops.audio_only(),
    ensures
        cache.save_audio(body, timestamp, tag).gops.audio_only(),
        cache.save_audio(body, timestamp, tag).gops.committed == cache.gops.committed,
        cache.save_audio(body, timestamp, tag).gops.setted(),
        cache.save_audio(body, timestamp, tag).get_gops_data() == Some(cache.gops.committed),
{
    lemma_audio_unit_keeps_audio_only(
        cache.gops,
        ChannelDataView::Audio { timestamp, data: body },
    );
}

/// Taking a snapshot is repeatable: whatever two snapshots of one cache are
/// taken with no write in between, they hold equal groups of equal units.
pub proof fn lemma_snapshot_is_repeatable(
    cache: Cache,
    first: Option<VecDeque<Gop>>,
    second: Option<VecDeque<Gop>>,
)
    requires
        snapshot_view(first) == cache@.get_gops_data(),
        snapshot_view(second) == cache@.get_gops_data(),
    ensures
        snapshot_view(first) == snapshot_view(second),
        first is Some <==> second is Some,
{
}

/// The state a late subscriber needs: the latest metadata, the latest audio
/// and video sequence headers, and a bounded window of closed groups.
#[derive(Debug)]
pub struct Cache {
    metadata: MetaData,
    video_seq: BytesMut,
    video_timestamp: u32,
    audio_seq: BytesMut,
    audio_timestamp: u32,
    gops: Gops,
}

impl View for Cache {
    type V = CacheView;

    closed spec fn view(&self) -> CacheView {
        CacheView {
            metadata: self.metadata@,
            video_seq: bytes_of(self.video_seq),
            video_timestamp: self.video_timestamp,
            audio_seq: bytes_of(self.audio_seq),
            audio_timestamp: self.audio_timestamp,
            gops: self.gops@,
        }
    }
}

impl Default for Cache {
    /// A cache that keeps one closed group.
    fn default() -> (cache: Self)
        ensures
            cache@ == CacheView::fresh(1),
            cache@.wf(),
    {
        Self::new(1)
    }
}

impl Cache {
    /// An empty cache that keeps up to `gop_num` closed groups.
    pub fn new(gop_num: usize) -> (cache: Self)
        ensures
            cache@ == CacheView::fresh(gop_num as nat),
            cache@.wf(),
    {
        Self {
            metadata: MetaData::new(),
            video_seq: BytesMut::new(),
            video_timestamp: 0,
            audio_seq: BytesMut::new(),
            audio_timestamp: 0,
            gops: Gops::new(gop_num),
        }
    }

    /// Replaces the metadata and its timestamp.
    pub fn save_metadata(&mut self, chunk_body: BytesMut, timestamp: u32)
        ensures
            final(self)@ == old(self)@.save_metadata(bytes_of(chunk_body), timestamp),
            old(self)@.wf() ==> final(self)@.wf(),
    {
        self.metadata.save(chunk_body, timestamp);
    }

    /// The latest metadata as a unit, or `None` before any was saved.
    pub fn get_metadata(&self) -> (unit: Option<ChannelData>)
        ensures
            unit_view(unit) == self@.get_metadata(),
    {
        self.metadata.get()
    }

    /// Takes in one audio unit. A payload whose tag header cannot be decoded
    /// is refused and leaves the cache as it was.
    pub fn save_audio_seq(&mut self, chunk_body: BytesMut, timestamp: u32) -> (res: Result<
        (),
        CacheError,
    >)
        ensures
            match audio_tag_of(bytes_of(chunk_body)) {
                Some(tag) => res is Ok && final(self)@ == old(self)@.save_audio(
                    bytes_of(chunk_body),
                    timestamp,
                    tag,
                ),
                None => res is Err && final(self)@ == old(self)@,
            },
            old(self)@.wf() ==> final(self)@.wf(),
    {
        match parse_audio_tag(chunk_body.clone()) {
            Ok(tag) => {
                self.save_audio_unit(chunk_body, timestamp, tag);
                Ok(())
            },
            Err(err) => Err(CacheError::ParseError(err)),
        }
    }

    /// Takes in one audio unit whose tag header is already decoded.
    pub fn save_audio_unit(&mut self, chunk_body: BytesMut, timestamp: u32, tag: AudioTag)
        ensures
            final(self)@ == old(self)@.save_audio(bytes_of(chunk_body), timestamp, tag),
            old(self)@.wf() ==> final(self)@.wf(),
    {
        let channel_data = ChannelData::Audio { timestamp, data: chunk_body.clone() };
        self.gops.save_frame_data(channel_data, false);

        if tag.sound_format == SOUND_FORMAT_AAC && tag.aac_packet_type == AAC_SEQHDR {
            self.audio_seq = chunk_body;
            self.audio_timestamp = timestamp;
        }
    }

    /// The latest audio sequence header as a unit, or `None` before any came.
    pub fn get_audio_seq(&self) -> (unit: Option<ChannelData>)
        ensures
            unit_view(unit) == self@.get_audio_seq(),
    {
        if !self.audio_seq.is_empty() {
            return Some(
                ChannelData::Audio { timestamp: self.audio_timestamp, data: self.audio_seq.clone() },
            );
        }
        None
    }

    /// The latest video sequence header as a unit, or `None` before any came.
    pub fn get_video_seq(&self) -> (unit: Option<ChannelData>)
        ensures
            unit_view(unit) == self@.get_video_seq(),
    {
        if !self.video_seq.is_empty() {
            return Some(
                ChannelData::Video { timestamp: self.video_timestamp, data: self.video_seq.clone() },
            );
        }
        None
    }

    /// Takes in one video unit. A payload whose tag header cannot be decoded
    /// is refused and leaves the cache as it was.
    pub fn save_video_seq(&mut self, chunk_body: BytesMut, timestamp: u32) -> (res: Result<
        (),
        CacheError,
    >)
        ensures
            match video_tag_of(bytes_of(chunk_body)) {
                Some(tag) => res is Ok && final(self)@ == old(self)@.save_video(
                    bytes_of(chunk_body),
                    timestamp,
                    tag,
                ),
                None => res is Err && final(self)@ == old(self)@,
            },
            old(self)@.wf() ==> final(self)@.wf(),
    {
        match parse_video_tag(chunk_body.clone()) {
            Ok(tag) => {
                self.save_video_unit(chunk_body, timestamp, tag);
                Ok(())
            },
            Err(err) => Err(CacheError::ParseError(err)),
        }
    }

    /// Takes in one video unit whose tag header is already decoded.
    pub fn save_video_unit(&mut self, chunk_body: BytesMut, timestamp: u32, tag: VideoTag)
        ensures
            final(self)@ == old(self)@.save_video(bytes_of(chunk_body), timestamp, tag),
            old(self)@.wf() ==> final(self)@.wf(),
    {
        let channel_data = ChannelData::Video { timestamp, data: chunk_body.clone() };
        let is_key_frame = tag.frame_type == KEY_FRAME;
        self.gops.save_frame_data(channel_data, is_key_frame);

        if is_key_frame && tag.avc_packet_type == AVC_SEQHDR {
            self.video_seq = chunk_body;
            self.video_timestamp = timestamp;
        }
    }

    /// The closed groups, oldest first, or `None` while no unit was recorded.
    /// The cache is given up with the call; [`Cache::gops_snapshot`] gives the
    /// same and keeps it.
    pub fn get_gops_data(self) -> (snapshot: Option<VecDeque<Gop>>)
        ensures
            snapshot_view(snapshot) == self@.get_gops_data(),
    {
        self.gops_snapshot()
    }

    /// A copy of the closed groups, oldest first, or `None` while no unit was
    /// recorded. The group that is still open is never part of it.
    pub fn gops_snapshot(&self) -> (snapshot: Option<VecDeque<Gop>>)
        ensures
            snapshot_view(snapshot) == self@.get_gops_data(),
    {
        if self.gops.setted() {
            Some(self.gops.get_gops())
        } else {
            None
        }
    }
}

impl Clone for Cache {
    /// The copy holds copies of everything the cache holds.
    fn clone(&self) -> (copy: Self)
        ensures
            copy@ == self@,
    {
        Cache {
            metadata: self.metadata.clone(),
            video_seq: self.video_seq.clone(),
            video_timestamp: self.video_timestamp,
            audio_seq: self.audio_seq.clone(),
            audio_timestamp: self.audio_timestamp,
            gops: self.gops.clone(),
        }
    }
}

} // verus!

//! Classification of audio and video payloads by their FLV tag header.
//!
//! The header is decoded by the `xflv` crate. What the cache needs of the
//! decoded header is held in [`AudioTag`] and [`VideoTag`]; [`audio_tag_of`]
//! and [`video_tag_of`] say, over the payload's bytes, what the decoder gives.

use crate::payload::bytes_of;
use bytes::BytesMut;
use vstd::prelude::*;
use xflv::demuxer_tag::AudioTagHeaderDemuxer;
use xflv::demuxer_tag::VideoTagHeaderDemuxer;
use xflv::errors::FlvDemuxerError;

verus! {

/// Sound format of AAC audio.
pub const SOUND_FORMAT_AAC: u8 = 10;

/// AAC packet type of a sequence header.
pub const AAC_SEQHDR: u8 = 0;

/// Frame type of a key frame.
pub const KEY_FRAME: u8 = 1;

/// AVC packet type of a sequence header.
pub const AVC_SEQHDR: u8 = 0;

/// Codec id of H.264 video.
pub const CODEC_H264: u8 = 7;

/// Codec id of HEVC video.
pub const CODEC_HEVC: u8 = 12;

/// The fields of an audio tag header that the cache reads.
#[derive(Clone, Copy, Debug, PartialEq, Eq)]
pub struct AudioTag {
    pub sound_format: u8,
    pub aac_packet_type: u8,
}

/// The fields of a video tag header that the cache reads.
#[derive(Clone, Copy, Debug, PartialEq, Eq)]
pub struct VideoTag {
    pub frame_type: u8,
    pub codec_id: u8,
    pub avc_packet_type: u8,
}

impl AudioTag {
    /// The unit is the AAC sequence header.
    pub open spec fn is_seq_header(self) -> bool {
        self.sound_format == SOUND_FORMAT_AAC && self.aac_packet_type == AAC_SEQHDR
    }
}

impl VideoTag {
    pub open spec fn is_key_frame(self) -> bool {
        self.frame_type == KEY_FRAME
    }

    /// The unit is a key frame whose packet type is that of a sequence header.
    pub open spec fn is_seq_header(self) -> bool {
        self.is_key_frame() && self.avc_packet_type == AVC_SEQHDR
    }
}

/// The audio tag header of a payload, or `None` where the payload is too short
/// to hold one. The high four bits of the first byte are the sound format; an
/// AAC payload carries its packet type in the second byte, any other format
/// leaves the packet type 0.
pub open spec fn audio_tag_of(payload: Seq<u8>) -> Option<AudioTag> {
    if payload.len() == 0 {
        None
    } else if payload[0] >> 4 != SOUND_FORMAT_AAC {
        Some(AudioTag { sound_format: payload[0] >> 4, aac_packet_type: 0 })
    } else if payload.len() < 2 {
        None
    } else {
        Some(AudioTag { sound_format: SOUND_FORMAT_AAC, aac_packet_type: payload[1] })
    }
}

/// The video tag header of a payload, or `None` where the payload is too short
/// to hold one. The first byte holds the frame type in its high four bits and
/// the codec id in its low four. An H.264 or HEVC payload carries its packet
/// type in the second byte and a composition time in the next three; any other
/// codec leaves the packet type 0.
pub open spec fn video_tag_of(payload: Seq<u8>) -> Option<VideoTag> {
    if payload.len() == 0 {
        None
    } else if payload[0] & 0x0f != CODEC_H264 && payload[0] & 0x0f != CODEC_HEVC {
        Some(
            VideoTag {
                frame_type: payload[0] >> 4,
                codec_id: payload[0] & 0x0f,
                avc_packet_type: 0,
            },
        )
    } else if payload.len() < 5 {
        None
    } else {
        Some(
            VideoTag {
                frame_type: payload[0] >> 4,
                codec_id: payload[0] & 0x0f,
                avc_packet_type: payload[1],
            },
        )
    }
}

/// `xflv::errors::FlvDemuxerError`, the decoder's error, taken as it is.
#[verifier::external_type_specification]
#[verifier::external_body]
pub struct ExFlvDemuxerError(xflv::errors::FlvDemuxerError);

/// Runs `xflv`'s `AudioTagHeaderDemuxer::parse_tag_header` on the payload.
/// Trusted: the demuxer succeeds exactly where [`audio_tag_of`] is `Some`, and
/// the sound format and AAC packet type it then reports are those of
/// [`audio_tag_of`].
#[verifier::external_body]
pub(crate) fn parse_audio_tag(payload: BytesMut) -> (parsed: Result<AudioTag, FlvDemuxerError>)
    ensures
        parsed is Ok <==> audio_tag_of(bytes_of(payload)) is Some,
        parsed is Ok ==> Some(parsed->Ok_0) == audio_tag_of(bytes_of(payload)),
{
    let mut demuxer = AudioTagHeaderDemuxer::new(payload);
    match demuxer.parse_tag_header() {
        Ok(tag) => Ok(
            AudioTag { sound_format: tag.sound_format, aac_packet_type: tag.aac_packet_type },
        ),
        Err(err) => Err(err),
    }
}

/// Runs `xflv`'s `VideoTagHeaderDemuxer::parse_tag_header` on the payload.
/// Trusted: the demuxer succeeds exactly where [`video_tag_of`] is `Some`, and
/// the frame type, codec id and AVC packet type it then reports are those of
/// [`video_tag_of`].
#[verifier::external_body]
pub(crate) fn parse_video_tag(payload: BytesMut) -> (parsed: Result<VideoTag, FlvDemuxerError>)
    ensures
        parsed is Ok <==> video_tag_of(bytes_of(payload)) is Some,
        parsed is Ok ==> Some(parsed->Ok_0) == video_tag_of(bytes_of(payload)),
{
    let mut demuxer = VideoTagHeaderDemuxer::new(payload);
    match demuxer.parse_tag_header() {
        Ok(tag) => Ok(
            VideoTag {
                frame_type: tag.frame_type,
                codec_id: tag.codec_id,
                avc_packet_type: tag.avc_packet_type,
            },
        ),
        Err(err) => Err(err),
    }
}

} // verus!

//! The units that travel through the cache: a payload with its presentation
//! timestamp, tagged as video, audio or metadata.

use crate::payload::bytes_of;
use bytes::BytesMut;
use vstd::prelude::*;

verus! {

/// One unit of a stream, as it is handed to subscribers.
#[derive(Debug)]
pub enum ChannelData {
    Video { timestamp: u32, data: BytesMut },
    Audio { timestamp: u32, data: BytesMut },
    MetaData { timestamp: u32, data: BytesMut },
}

/// What a [`ChannelData`] is, with its payload as a sequence of bytes.
pub enum ChannelDataView {
    Video { timestamp: u32, data: Seq<u8> },
    Audio { timestamp: u32, data: Seq<u8> },
    MetaData { timestamp: u32, data: Seq<u8> },
}

impl ChannelDataView {
    pub open spec fn is_audio(self) -> bool {
        self is Audio
    }
}

impl View for ChannelData {
    type V = ChannelDataView;

    open spec fn view(&self) -> ChannelDataView {
        match *self {
            ChannelData::Video { timestamp, data } => ChannelDataView::Video {
                timestamp,
                data: bytes_of(data),
            },
            ChannelData::Audio { timestamp, data } => ChannelDataView::Audio {
                timestamp,
                data: bytes_of(data),
            },
            ChannelData::MetaData { timestamp, data } => ChannelDataView::MetaData {
                timestamp,
                data: bytes_of(data),
            },
        }
    }
}

impl Clone for ChannelData {
    /// The copy has the same tag, timestamp and payload bytes.
    fn clone(&self) -> (copy: Self)
        ensures
            copy@ == self@,
    {
        match self {
            ChannelData::Video { timestamp, data } => ChannelData::Video {
                timestamp: *timestamp,
                data: data.clone(),
            },
            ChannelData::Audio { timestamp, data } => ChannelData::Audio {
                timestamp: *timestamp,
                data: data.clone(),
            },
            ChannelData::MetaData { timestamp, data } => ChannelData::MetaData {
                timestamp: *timestamp,
                data: data.clone(),
            },
        }
    }
}

/// The views of a run of units, in order.
pub open spec fn units_view(units: Seq<ChannelData>) -> Seq<ChannelDataView> {
    Seq::new(units.len(), |i: int| units[i]@)
}

/// The view of a unit that may be absent.
pub open spec fn unit_view(unit: Option<ChannelData>) -> Option<ChannelDataView> {
    match unit {
        Some(u) => Some(u@),
        None => None,
    }
}

} // verus!

//! The latest container metadata of a stream.

use crate::channel::{unit_view, ChannelData, ChannelDataView};
use crate::payload::bytes_of;
use bytes::BytesMut;
use vstd::prelude::*;

verus! {

/// What a [`MetaData`] holds. An empty payload stands for "none received yet".
pub struct MetaDataView {
    pub chunk_body: Seq<u8>,
    pub timestamp: u32,
}

impl MetaDataView {
    /// A store that has received nothing.
    pub open spec fn fresh() -> MetaDataView {
        MetaDataView { chunk_body: Seq::empty(), timestamp: 0 }
    }

    /// The stored payload as a metadata unit, if there is one.
    pub open spec fn get(self) -> Option<ChannelDataView> {
        if self.chunk_body.len() > 0 {
            Some(ChannelDataView::MetaData { timestamp: self.timestamp, data: self.chunk_body })
        } else {
            None
        }
    }
}

/// The metadata payload that was saved last, with its timestamp. No history is
/// kept, and the payload is not looked into.
#[derive(Debug)]
pub struct MetaData {
    chunk_body: BytesMut,
    timestamp: u32,
}

impl View for MetaData {
    type V = MetaDataView;

    closed spec fn view(&self) -> MetaDataView {
        MetaDataView { chunk_body: bytes_of(self.chunk_body), timestamp: self.timestamp }
    }
}

impl MetaData {
    /// A store that holds no metadata.
    pub fn new() -> (metadata: MetaData)
        ensures
            metadata@ == MetaDataView::fresh(),
    {
        MetaData { chunk_body: BytesMut::new(), timestamp: 0 }
    }

    /// Replaces the stored payload and timestamp, whatever the payload holds.
    pub fn save(&mut self, body: BytesMut, timestamp: u32)
        ensures
            final(self)@ == (MetaDataView { chunk_body: bytes_of(body), timestamp }),
    {
        self.chunk_body = body;
        self.timestamp = timestamp;
    }

    /// The stored payload as a metadata unit, or `None` before any was saved.
    pub fn get(&self) -> (unit: Option<ChannelData>)
        ensures
            unit_view(unit) == self@.get(),
    {
        let data = self.get_chunk_body();
        if !data.is_empty() {
            Some(ChannelData::MetaData { timestamp: self.timestamp, data })
        } else {
            None
        }
    }

    /// A copy of the stored payload.
    pub fn get_chunk_body(&self) -> (body: BytesMut)
        ensures
            bytes_of(body) == self@.chunk_body,
    {
        self.chunk_body.clone()
    }
}

impl Clone for MetaData {
    /// The copy holds the same payload bytes and timestamp.
    fn clone(&self) -> (copy: Self)
        ensures
            copy@ == self@,
    {
        MetaData { chunk_body: self.chunk_body.clone(), timestamp: self.timestamp }
    }
}

} // verus!

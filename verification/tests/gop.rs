use bytes::BytesMut;
use rtmp_cache::channel::ChannelData;
use rtmp_cache::gop::{Gop, Gops};
use rtmp_cache::metadata::MetaData;
use rtmp_cache::tag::{
    AAC_SEQHDR, AVC_SEQHDR, CODEC_H264, CODEC_HEVC, KEY_FRAME, SOUND_FORMAT_AAC,
};

fn video(timestamp: u32, bytes: &[u8]) -> ChannelData {
    ChannelData::Video { timestamp, data: BytesMut::from(bytes) }
}

fn audio(timestamp: u32, bytes: &[u8]) -> ChannelData {
    ChannelData::Audio { timestamp, data: BytesMut::from(bytes) }
}

fn stamps(gop: Gop) -> Vec<u32> {
    gop.get_frame_data()
        .iter()
        .map(|unit| match unit {
            ChannelData::Video { timestamp, .. } => *timestamp,
            ChannelData::Audio { timestamp, .. } => *timestamp,
            ChannelData::MetaData { timestamp, .. } => *timestamp,
        })
        .collect()
}

fn window(gops: &Gops) -> Vec<Vec<u32>> {
    gops.get_gops().into_iter().map(stamps).collect()
}

#[test]
fn gop_keeps_units_in_order() {
    let mut gop = Gop::new();
    assert_eq!(gop.len(), 0);
    gop.save_frame_data(video(3, b"k"));
    gop.save_frame_data(audio(1, b"a"));
    gop.save_frame_data(video(2, b"f"));
    assert_eq!(gop.len(), 3);
    let copy = gop.clone();
    let units = gop.get_frame_data();
    assert!(matches!(&units[0], ChannelData::Video { timestamp: 3, data } if &data[..] == b"k"));
    assert!(matches!(&units[1], ChannelData::Audio { timestamp: 1, data } if &data[..] == b"a"));
    assert!(matches!(&units[2], ChannelData::Video { timestamp: 2, data } if &data[..] == b"f"));
    assert_eq!(stamps(copy), vec![3, 1, 2]);
}

#[test]
fn unit_clone_keeps_tag_timestamp_and_payload() {
    let unit = ChannelData::MetaData { timestamp: 4, data: BytesMut::from(&b"meta"[..]) };
    let copy = unit.clone();
    assert!(matches!(copy, ChannelData::MetaData { timestamp: 4, data } if &data[..] == b"meta"));
    assert!(matches!(audio(5, b"x").clone(), ChannelData::Audio { timestamp: 5, .. }));
    assert!(matches!(video(6, b"y").clone(), ChannelData::Video { timestamp: 6, .. }));
}

#[test]
fn fresh_window_is_not_setted() {
    let gops = Gops::new(3);
    assert!(!gops.setted());
    assert!(gops.get_gops().is_empty());
}

#[test]
fn window_is_setted_by_the_first_unit() {
    let mut gops = Gops::new(3);
    gops.save_frame_data(audio(1, b"a"), false);
    assert!(gops.setted());
    assert!(gops.get_gops().is_empty());

    let mut gops = Gops::new(3);
    gops.save_frame_data(video(1, b"k"), true);
    assert!(gops.setted());
    assert!(gops.get_gops().is_empty());
}

#[test]
fn window_keeps_the_newest_closed_groups() {
    let mut gops = Gops::new(2);
    let mut t = 0;
    for group in 0..5 {
        for i in 0..=group {
            t += 1;
            gops.save_frame_data(video(t, b"u"), i == 0);
        }
    }
    // groups: [1] [2,3] [4,5,6] [7,8,9,10] and, still open, [11..=15]
    assert_eq!(window(&gops), vec![vec![4, 5, 6], vec![7, 8, 9, 10]]);
    assert!(gops.setted());
}

#[test]
fn window_never_exceeds_its_capacity() {
    for capacity in 0..4usize {
        let mut gops = Gops::new(capacity);
        for t in 0..10u32 {
            gops.save_frame_data(video(t, b"k"), true);
            let closed = window(&gops);
            assert_eq!(closed.len(), (t as usize).min(capacity));
            let first = t as usize - closed.len();
            for (i, group) in closed.iter().enumerate() {
                assert_eq!(group, &vec![(first + i) as u32]);
            }
        }
    }
}

#[test]
fn window_clone_keeps_the_open_group() {
    let mut gops = Gops::new(2);
    gops.save_frame_data(video(1, b"k"), true);
    gops.save_frame_data(video(2, b"f"), false);
    let mut copy = gops.clone();
    gops.save_frame_data(video(3, b"f"), false);
    copy.save_frame_data(video(4, b"k"), true);
    gops.save_frame_data(video(5, b"k"), true);
    assert_eq!(window(&copy), vec![vec![1, 2]]);
    assert_eq!(window(&gops), vec![vec![1, 2, 3]]);
}

#[test]
fn metadata_store_replaces_its_payload() {
    let mut store = MetaData::new();
    assert!(store.get_chunk_body().is_empty());
    assert!(store.get().is_none());
    store.save(BytesMut::from(&b"one"[..]), 1);
    assert_eq!(&store.get_chunk_body()[..], b"one");
    assert!(matches!(store.get(), Some(ChannelData::MetaData { timestamp: 1, data }) if &data[..] == b"one"));
    let copy = store.clone();
    store.save(BytesMut::from(&b"two"[..]), 2);
    assert!(matches!(store.get(), Some(ChannelData::MetaData { timestamp: 2, data }) if &data[..] == b"two"));
    assert!(matches!(copy.get(), Some(ChannelData::MetaData { timestamp: 1, data }) if &data[..] == b"one"));
    store.save(BytesMut::new(), 3);
    assert!(store.get().is_none());
}

#[test]
fn tag_constants_are_those_of_the_decoder() {
    assert_eq!(SOUND_FORMAT_AAC, xflv::define::SoundFormat::AAC as u8);
    assert_eq!(AAC_SEQHDR, xflv::define::aac_packet_type::AAC_SEQHDR);
    assert_eq!(AVC_SEQHDR, xflv::define::avc_packet_type::AVC_SEQHDR);
    assert_eq!(KEY_FRAME, xflv::define::frame_type::KEY_FRAME);
    assert_eq!(CODEC_H264, xflv::define::AvcCodecId::H264 as u8);
    assert_eq!(CODEC_HEVC, xflv::define::AvcCodecId::HEVC as u8);
}

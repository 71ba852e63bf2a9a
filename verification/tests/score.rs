use libearthquake::cast::{read_member_id, read_member_num_id, MemberId, MemberNum};
use libearthquake::player::score::frame::Frame;
use libearthquake::player::score::palette::{read_palette, Palette, SignedPaletteIndex, SYSTEM_LIB, SYSTEM_WIN_DIR_4};
use libearthquake::player::score::score::{frame_size_in_cells, sprite_size, Score, ScoreError};
use libearthquake::player::score::sprite::{fix_v0_v6_sprite_kind, kind_from_u8, read_sprite, Kind};
use libearthquake::player::score::tempo::{ChannelNum, Fps, InvalidTempo, Seconds, Tempo};
use libearthquake::player::score::transition::{read_transition, QuarterSeconds, Transition};
use libearthquake::player::score::{ParseError, Version};
use libearthquake::quickdraw::{read_point, Point};

#[test]
fn tempo_values() {
    assert_eq!(Tempo::new(0), Ok(Tempo::Inherit));
    assert_eq!(Tempo::new(30), Ok(Tempo::Fps(Fps(30))));
    assert_eq!(Tempo::new(-0x78), Ok(Tempo::WaitForVideo(ChannelNum(6))));
    assert_eq!(Tempo::new(-10), Ok(Tempo::WaitForSeconds(Seconds(10))));
    assert_eq!(Tempo::new(-0x80), Ok(Tempo::WaitForClick));
    assert_eq!(Tempo::new(-0x79), Ok(Tempo::WaitForSound1));
    assert_eq!(Tempo::new(-0x7a), Ok(Tempo::WaitForSound2));
    assert_eq!(Tempo::new(121), Err(InvalidTempo(121)));
    assert_eq!(Tempo::new(-61), Err(InvalidTempo(-61)));
    assert_eq!(Tempo::default(), Tempo::Inherit);
}

#[test]
fn tempo_round_trip() {
    for raw in i16::MIN..=i16::MAX {
        if let Ok(tempo) = Tempo::new(raw) {
            assert_eq!(tempo.to_primitive(), raw);
        }
    }
    assert_eq!(Tempo::WaitForVideo(ChannelNum(10)).to_primitive(), 10 - 0x7e);
}

#[test]
fn transitions() {
    assert_eq!(read_transition(&[0, 0, 0, 0], 0, Version::V4), Ok(Transition::Empty));
    assert_eq!(read_transition(&[0, 0, 5, 0], 0, Version::V4), Ok(Transition::LegacyTempo(Tempo::Fps(Fps(5)))));
    let legacy = read_transition(&[0x83, 4, 0xf6, 7], 0, Version::V5).unwrap();
    assert_eq!(
        legacy,
        Transition::Legacy {
            chunk_size: 4,
            which_transition: 7,
            time: QuarterSeconds(3),
            change_area: true,
            tempo: Tempo::WaitForSeconds(Seconds(10)),
        },
    );
    assert_eq!(legacy.tempo(), Tempo::WaitForSeconds(Seconds(10)));
    assert_eq!(read_transition(&[0, 0, 0x7f, 0], 0, Version::V4), Err(ParseError::InvalidTempo(127)));
    assert_eq!(read_transition(&[0, 2, 0, 9], 0, Version::V6), Ok(Transition::Cast(MemberId { lib: 2, num: 9 })));
    assert_eq!(Transition::Cast(MemberId { lib: 2, num: 9 }).tempo(), Tempo::Inherit);
}

#[test]
fn palettes() {
    let mut v4 = vec![0u8; 19];
    v4[0] = 0;
    v4[1] = 7;
    v4[2] = 0xff;
    v4[4] = 0x80;
    v4[5] = 10;
    v4[18] = 0x42;
    let p = read_palette(&v4, 0, Version::V4).unwrap();
    assert_eq!(p.id, MemberId { lib: 0, num: 7 });
    assert_eq!(p.cycle_start_color, SignedPaletteIndex(-1));
    assert_eq!(p.cycle_start_color.to_palette_index(), 127);
    assert_eq!(p.flags, 0x80);
    assert_eq!(p.rate, Fps(10));
    assert_eq!(p.field_f, 0x42);
    v4[4] = 1;
    assert_eq!(read_palette(&v4, 0, Version::V4), Err(ParseError::InvalidPaletteFlags(1)));
    let mut v5 = vec![0u8; 19];
    v5[1] = 3;
    v5[3] = 4;
    v5[4] = 30;
    let p = read_palette(&v5, 0, Version::V5).unwrap();
    assert_eq!(p.id, MemberId { lib: 3, num: 4 });
    assert_eq!(p.rate, Fps(30));
    assert_eq!(Palette::default().id, MemberId { lib: 0, num: 0 });
    assert_eq!(Palette::system_default(), MemberId { lib: SYSTEM_LIB, num: SYSTEM_WIN_DIR_4 });
}

#[test]
fn sprites() {
    let mut b = vec![0u8; 20];
    b[1] = 1;
    b[2] = 5;
    b[7] = 9;
    b[8] = 0;
    b[9] = 10;
    b[10] = 0;
    b[11] = 20;
    b[13] = 30;
    b[15] = 40;
    b[17] = 3;
    let s = read_sprite(&b, 0, Version::V4).unwrap();
    assert_eq!(s.kind(), Kind::Cast);
    assert_eq!(s.fore_color_index(), 5);
    assert_eq!(s.id(), MemberId { lib: 0, num: 9 });
    assert_eq!(s.origin(), Point { y: 10, x: 20 });
    assert_eq!(s.height(), 30);
    assert_eq!(s.width(), 40);
    assert_eq!(s.script(), MemberId { lib: 0, num: 3 });
    b[1] = 99;
    assert_eq!(read_sprite(&b, 0, Version::V4).err(), Some(ParseError::InvalidSpriteKind(99)));
    assert_eq!(kind_from_u8(17), Some(Kind::Text));
    assert_eq!(kind_from_u8(19), None);
    assert_eq!(fix_v0_v6_sprite_kind(Kind::Bitmap), Kind::Cast);
    assert_eq!(fix_v0_v6_sprite_kind(Kind::Oval), Kind::Oval);
}

#[test]
fn member_ids_and_points() {
    assert_eq!(read_member_id(&[0, 1, 0xff, 0xfe], 0), MemberId { lib: 1, num: -2 });
    assert_eq!(read_member_num_id(&[0, 7], 0), MemberId { lib: 0, num: 7 });
    assert_eq!(MemberId::from_member_num(MemberNum(4)), MemberId { lib: 0, num: 4 });
    assert_eq!(read_point(&[0, 1, 0, 2], 0), Point { y: 1, x: 2 });
}

#[test]
fn frame_sizes() {
    assert_eq!(frame_size_in_cells(Version::V4), 50);
    assert_eq!(frame_size_in_cells(Version::V5), 50);
    assert_eq!(sprite_size(Version::V4), 20);
    assert_eq!(sprite_size(Version::V5), 24);
}

#[test]
fn empty_frame() {
    let frame = Frame::read(&vec![0u8; 1200], Version::V4).unwrap();
    assert_eq!(frame.transition, Transition::Empty);
    assert_eq!(frame.tempo, Tempo::Inherit);
    assert_eq!(frame.sprites.len(), 150);
    assert_eq!(frame.sprites[0].kind(), Kind::Empty);
    assert_eq!(Frame::read(&vec![0u8; 1200], Version::Unknown).err(), Some(ParseError::UnknownVersion));
}

fn v4_score(frames: &[u8]) -> Vec<u8> {
    let mut v = Vec::new();
    v.extend_from_slice(&((20 + frames.len()) as u32).to_be_bytes());
    v.extend_from_slice(&20u32.to_be_bytes());
    v.extend_from_slice(&[0, 0, 0, 0]);
    v.extend_from_slice(&4i16.to_be_bytes());
    v.extend_from_slice(&20u16.to_be_bytes());
    v.extend_from_slice(&50u16.to_be_bytes());
    v.extend_from_slice(&[1, 0]);
    v.extend_from_slice(frames);
    v
}

#[test]
fn score_reads_frames() {
    let frames = [0, 10, 0, 4, 0, 2, 0, 0, 5, 0];
    let mut score = Score::read(v4_score(&frames), 1200).unwrap();
    let frame = score.next().unwrap().unwrap();
    assert_eq!(frame.transition, Transition::LegacyTempo(Tempo::Fps(Fps(5))));
    assert_eq!(frame.tempo, Tempo::Fps(Fps(5)));
    assert!(score.next().is_none());
}

#[test]
fn score_header_errors() {
    assert_eq!(Score::read(vec![0, 0], 1200).err(), Some(ScoreError::UnexpectedEnd));
    let mut v = v4_score(&[]);
    v[3] = 200;
    assert_eq!(Score::read(v, 1200).err(), Some(ScoreError::OwnSizeTooLarge { own_size: 200, size: 20 }));
    let mut v = v4_score(&[]);
    v[7] = 24;
    assert_eq!(Score::read(v, 1200).err(), Some(ScoreError::BadHeaderSize(24)));
    let mut v = v4_score(&[]);
    v[13] = 9;
    assert_eq!(Score::read(v, 1200).err(), Some(ScoreError::UnknownVersion(9)));
    let mut v = v4_score(&[]);
    v[13] = 3;
    assert_eq!(Score::read(v, 1200).err(), Some(ScoreError::BadVersion(3)));
    let mut v = v4_score(&[]);
    v[15] = 24;
    assert_eq!(Score::read(v, 1200).err(), Some(ScoreError::BadFrameCellSize(24)));
    let mut v = v4_score(&[]);
    v[17] = 48;
    assert_eq!(Score::read(v, 1200).err(), Some(ScoreError::BadFrameCellCount(48)));
    let mut v = v4_score(&[]);
    v[18] = 2;
    assert_eq!(Score::read(v, 1200).err(), Some(ScoreError::BadField12(2)));
    let mut v = v4_score(&[]);
    v[19] = 1;
    assert_eq!(Score::read(v, 1200).err(), Some(ScoreError::BadField13(1)));
    assert!(Score::read(vec![0, 0, 0, 4], 1000).is_ok());
}

use libearthquake::player::score::sprite_bitmask::SpriteBitmask;
use libearthquake::player::score::stream::{Stream, StreamError};

fn first_frame(data: Vec<u8>, version: Version) -> Result<Option<Frame>, StreamError> {
    let end = data.len() as u32;
    let mut stream = Stream::new(data, 0, end, version);
    stream.next(SpriteBitmask::empty())
}

#[test]
fn stream_errors() {
    assert_eq!(first_frame(vec![0], Version::V4).err(), Some(StreamError::ReadFrameSize));
    assert_eq!(first_frame(vec![0, 1], Version::V4).err(), Some(StreamError::InvalidFrameSize(1)));
    assert_eq!(first_frame(vec![0, 4], Version::V4).err(), Some(StreamError::ReadChunkSize));
    assert_eq!(first_frame(vec![0, 6, 0, 1, 0, 0], Version::V4).err(), Some(StreamError::OddChunkSize(1)));
    assert_eq!(first_frame(vec![0, 6, 0, 2], Version::V4).err(), Some(StreamError::ReadChunkOffset));
    assert_eq!(first_frame(vec![0, 10, 0, 4, 0, 0, 1], Version::V4).err(), Some(StreamError::ReadChunkData));
    assert_eq!(
        first_frame(vec![0, 8, 0, 2, 0, 4, 0x7f, 0], Version::V4).err(),
        Some(StreamError::Frame(ParseError::InvalidTempo(127))),
    );
}

#[test]
fn stream_reads_legacy_frames_and_resets() {
    let data = vec![0, 6, 1, 2, 5, 0, 0, 2];
    let mut stream = Stream::new(data, 0, 8, Version::V3);
    let frame = stream.next(SpriteBitmask::empty()).unwrap().unwrap();
    assert_eq!(frame.tempo, Tempo::Fps(Fps(5)));
    let second = stream.next(SpriteBitmask::empty()).unwrap().unwrap();
    assert_eq!(second.tempo, Tempo::Fps(Fps(5)));
    assert!(stream.next(SpriteBitmask::empty()).unwrap().is_none());
    stream.reset();
    let again = stream.next(SpriteBitmask::empty()).unwrap().unwrap();
    assert_eq!(again.tempo, Tempo::Fps(Fps(5)));
}

#[test]
fn stream_keeps_channels() {
    let data = vec![0, 10, 0, 4, 0, 2, 0, 0, 5, 0];
    let mut stream = Stream::new(data, 0, 10, Version::V4);
    let mut keep = SpriteBitmask::empty();
    keep.set(libearthquake::player::score::sprite_bitmask::TEMPO);
    let frame = stream.next(keep).unwrap().unwrap();
    assert_eq!(frame.tempo, Tempo::Inherit);
    assert_eq!(frame.transition, Transition::LegacyTempo(Tempo::Fps(Fps(5))));
}

#[test]
fn unknown_transition_kinds_are_refused() {
    assert_eq!(read_transition(&[0, 0, 0x0a, 0xff], 0, Version::V5), Err(ParseError::UnknownTransitionKind(0xff)));
    assert_eq!(read_transition(&[0, 0, 0x7f, 53], 0, Version::V4), Err(ParseError::UnknownTransitionKind(53)));
    assert!(read_transition(&[0, 0, 0x0a, 52], 0, Version::V5).is_ok());
    assert!(read_transition(&[0, 0, 0x0a, 1], 0, Version::V5).is_ok());
}

#[test]
fn stream_end_and_errors_with_script_channel_kept() {
    let mut keep = SpriteBitmask::empty();
    keep.set(libearthquake::player::score::sprite_bitmask::SCRIPT);
    keep.set(libearthquake::player::score::sprite_bitmask::TRANSITION);
    let mut stream = Stream::new(vec![0, 1], 2, 2, Version::V4);
    assert!(stream.next_is_defined());
    assert!(stream.next(keep).unwrap().is_none());
    let mut bad = Stream::new(vec![0, 1], 0, 2, Version::V4);
    assert_eq!(bad.next(keep).err(), Some(StreamError::InvalidFrameSize(1)));
}

#[test]
fn score_preconditions_are_tested() {
    let mut score = Score::read(vec![0, 0, 0, 4], 1000).unwrap();
    assert!(score.next_is_defined());
    assert!(score.can_advance());
    assert!(score.next().is_none());
}

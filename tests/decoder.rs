use remu_playback::decoder::Decoder;
use rodio::Source;
use std::io::Cursor;
use std::time::Duration;

fn wav_bytes(sample_rate: u32, samples: u32) -> Vec<u8> {
    let data_len = samples * 2;
    let mut v = Vec::new();
    v.extend_from_slice(b"RIFF");
    v.extend_from_slice(&(36 + data_len).to_le_bytes());
    v.extend_from_slice(b"WAVEfmt ");
    v.extend_from_slice(&16u32.to_le_bytes());
    v.extend_from_slice(&1u16.to_le_bytes());
    v.extend_from_slice(&1u16.to_le_bytes());
    v.extend_from_slice(&sample_rate.to_le_bytes());
    v.extend_from_slice(&(sample_rate * 2).to_le_bytes());
    v.extend_from_slice(&2u16.to_le_bytes());
    v.extend_from_slice(&16u16.to_le_bytes());
    v.extend_from_slice(b"data");
    v.extend_from_slice(&data_len.to_le_bytes());
    v.extend(std::iter::repeat(0u8).take(data_len as usize));
    v
}

#[test]
fn hints_are_recorded() {
    let d = Decoder::new_mp3(Cursor::new(vec![0u8; 4]));
    assert_eq!(d.settings().hint.as_deref(), Some("mp3"));
    assert_eq!(d.settings().mime_type, None);
    assert!(d.settings().gapless);
    assert!(!d.settings().is_seekable);
    assert_eq!(Decoder::new_wav(Cursor::new(vec![0u8])).settings().hint.as_deref(), Some("wav"));
    assert_eq!(Decoder::new_flac(Cursor::new(vec![0u8])).settings().hint.as_deref(), Some("flac"));
    assert_eq!(Decoder::new_vorbis(Cursor::new(vec![0u8])).settings().hint.as_deref(), Some("ogg"));
    assert_eq!(Decoder::new_aac(Cursor::new(vec![0u8])).settings().hint.as_deref(), Some("aac"));
    let m = Decoder::new_mp4(Cursor::new(vec![0u8]));
    assert_eq!(m.settings().mime_type.as_deref(), Some("audio/mp4"));
    assert_eq!(m.settings().hint, None);
}

#[test]
fn sized_data_is_seekable() {
    let d = Decoder::new_with_len(Cursor::new(vec![0u8; 8]), 8);
    assert_eq!(d.settings().byte_len, Some(8));
    assert!(d.settings().is_seekable);
    let b = Decoder::<Cursor<Vec<u8>>>::builder().with_byte_len(3).with_seekable(false);
    assert_eq!(b.settings().byte_len, Some(3));
    assert!(!b.settings().is_seekable);
    let b = b.with_gapless(false).with_coarse_seek(true).with_hint("wav");
    assert!(!b.settings().gapless);
    assert!(b.settings().coarse_seek);
    assert_eq!(b.settings().hint.as_deref(), Some("wav"));
}

#[test]
fn configured_builder_decodes_wav() {
    let data = wav_bytes(8000, 16000);
    let d = Decoder::new_wav(Cursor::new(data));
    let built = d.into_builder().into_inner().build().expect("valid wav");
    assert_eq!(built.sample_rate(), 8000);
    assert_eq!(built.channels(), 1);
    assert_eq!(built.total_duration(), Some(Duration::from_secs(2)));
    let looped = Decoder::new_looped(Cursor::new(wav_bytes(8000, 800)));
    assert!(looped.into_builder().into_inner().build_looped().is_ok());
}

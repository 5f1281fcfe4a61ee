use drop_typing::audio::listener::{WakeListener, WakeNext};
use drop_typing::audio::{
    encode_wav, first_channel, list_input_devices, make_silence_wav, pcm_bytes, pcm_samples,
    resolve_input_device, AudioRecorder, DeviceChoice, RingBuffer, TailReader,
};
use drop_typing::wakeword::WakeWord;

#[test]
fn first_channel_is_taken() {
    assert_eq!(first_channel(&[1, 2, 3, 4, 5], 2), vec![1, 3, 5]);
    assert_eq!(first_channel(&[1, 2, 3], 0), vec![1, 2, 3]);
    assert_eq!(first_channel::<i32>(&[], 2), Vec::<i32>::new());
}

#[test]
fn samples_survive_bytes() {
    let v = vec![0i16, 1, -1, i16::MAX, i16::MIN, 258];
    let bytes = pcm_bytes(&v);
    assert_eq!(bytes, vec![0, 0, 1, 0, 0xff, 0xff, 0xff, 0x7f, 0, 0x80, 2, 1]);
    assert_eq!(pcm_samples(&bytes), v);
    assert_eq!(pcm_samples(&[1, 0, 9]), vec![1]);
}

#[test]
fn a_recording_becomes_a_wave_file() {
    let wav = encode_wav(2, &[1, -2]).unwrap();
    let mut expected: Vec<u8> = Vec::new();
    expected.extend_from_slice(b"RIFF");
    expected.extend_from_slice(&40u32.to_le_bytes());
    expected.extend_from_slice(b"WAVEfmt ");
    expected.extend_from_slice(&16u32.to_le_bytes());
    expected.extend_from_slice(&1u16.to_le_bytes());
    expected.extend_from_slice(&1u16.to_le_bytes());
    expected.extend_from_slice(&16_000u32.to_le_bytes());
    expected.extend_from_slice(&32_000u32.to_le_bytes());
    expected.extend_from_slice(&2u16.to_le_bytes());
    expected.extend_from_slice(&16u16.to_le_bytes());
    expected.extend_from_slice(b"data");
    expected.extend_from_slice(&4u32.to_le_bytes());
    expected.extend_from_slice(&[1, 0, 0xfe, 0xff]);
    assert_eq!(wav, expected);
    assert_eq!(pcm_samples(&wav[44..]), vec![1, -2]);
}

#[test]
fn an_empty_recording_is_no_file() {
    assert_eq!(
        encode_wav(0, &[]),
        Err("没有录到音频（麦克风权限未授予？）".to_string())
    );
}

#[test]
fn silence_has_its_length() {
    let wav = make_silence_wav(1).unwrap();
    assert_eq!(wav.len(), 44 + 32_000);
    assert!(wav[44..].iter().all(|b| *b == 0));
}

#[test]
fn devices_are_listed_by_name() {
    let names = vec![" A ".to_string(), " ".to_string(), "B".to_string()];
    assert_eq!(
        list_input_devices(&names, &Some("B".to_string())),
        vec![("A".to_string(), false), ("B".to_string(), true)]
    );
}

#[test]
fn a_missing_device_falls_back() {
    let names = vec!["A".to_string(), "Drop Mic ".to_string()];
    assert_eq!(
        resolve_input_device(Some(" Drop Mic"), &names, true),
        Ok(DeviceChoice::Listed(1))
    );
    assert_eq!(resolve_input_device(Some("C"), &names, true), Ok(DeviceChoice::Default));
    assert_eq!(resolve_input_device(None, &names, true), Ok(DeviceChoice::Default));
    assert_eq!(
        resolve_input_device(Some("C"), &names, false),
        Err("未找到可用的麦克风设备".to_string())
    );
}

#[test]
fn a_recorder_keeps_what_it_is_fed() {
    let names: Vec<String> = Vec::new();
    let mut r: AudioRecorder<i32> = AudioRecorder::new(&names, true).unwrap();
    assert!(r.start(true));
    r.opened(true);
    assert_eq!(r.feed(&[1, 2, 3, 4], 2), Some(vec![1, 3]));
    assert!(!r.start(false));
    assert_eq!(r.feed(&[5, 6], 2), None);
    assert_eq!(r.stop(), vec![5, 6]);
    assert!(r.start(false));
    let _ = r.feed(&[7], 1);
    r.discard();
    assert_eq!(r.stop(), Vec::<i32>::new());
    assert!(AudioRecorder::<i32>::new(&names, false).is_err());
}

#[test]
fn what_was_written_is_read_until_it_is_overwritten() {
    let mut b: RingBuffer<i32> = RingBuffer::new(1, 0);
    let v: Vec<i32> = (0..16).collect();
    assert_eq!(b.write(&v), 16);
    assert_eq!(b.read(3, 6), Some(vec![3, 4, 5]));
    assert_eq!(b.read(3, 17), None);
    assert_eq!(b.write(&[100]), 17);
    assert_eq!(b.read(0, 2), None);
    assert_eq!(b.read(15, 17), Some(vec![15, 100]));
    assert_eq!(b.position(), 17);
}

#[test]
fn a_tail_reader_follows_the_writer() {
    let mut b: RingBuffer<i32> = RingBuffer::new(1, 0);
    let _ = b.write(&[1, 2, 3]);
    let mut t = TailReader::new(1);
    assert_eq!(t.read_available(&b), vec![2, 3]);
    assert_eq!(t.read_available(&b), Vec::<i32>::new());
    let v: Vec<i32> = (10..30).collect();
    let _ = b.write(&v);
    assert_eq!(t.read_available(&b), (14..30).collect::<Vec<i32>>());
    assert_eq!(t.read_available(&b), Vec::<i32>::new());
    let _ = b.write(&[40]);
    assert_eq!(t.read_available(&b), vec![40]);
}

fn word(text: &str) -> WakeWord {
    WakeWord {
        text: text.into(),
        action: "input".into(),
    }
}

#[test]
fn frames_are_fed_in_turn() {
    let mut l = WakeListener::new();
    assert!(matches!(l.next(1279, 0), WakeNext::Sleep));
    assert!(matches!(l.next(1280, 0), WakeNext::Feed { start: 0, end: 1280 }));
    l.frame_fed(1280, None, 1280, 0);
    assert!(matches!(l.next(1280, 0), WakeNext::Sleep));
    l.frame_fed(2560, None, 2560 + 2561, 0);
    assert!(matches!(
        l.next(5121, 0),
        WakeNext::Feed { start: 3841, end: 5121 }
    ));
    l.frame_lost(100);
    assert!(matches!(l.next(1280, 0), WakeNext::Feed { start: 0, end: 1280 }));
}

#[test]
fn the_longest_word_within_a_fixed_time_counts() {
    let ms = 1_000_000;
    let mut l = WakeListener::new();
    l.frame_fed(1280, Some(word("小易")), 1280, 0);
    l.frame_fed(2560, Some(word("小易确认")), 2560, 700 * ms);
    l.frame_fed(3840, Some(word("小易记")), 3840, 750 * ms);
    assert!(matches!(l.next(0, 799 * ms), WakeNext::Sleep));
    match l.next(0, 800 * ms) {
        WakeNext::Report { word, position } => {
            assert_eq!(word.text, "小易确认");
            assert_eq!(position, 2560);
        }
        other => panic!("{other:?}"),
    }
    assert!(matches!(l.next(2560 + 16_000 + 1279, 900 * ms), WakeNext::Sleep));
    assert!(matches!(
        l.next(2560 + 16_000 + 1280, 900 * ms),
        WakeNext::Feed { .. }
    ));
}

use rp2040_dshot::driver::{host_frame, throttle_frame};
use rp2040_dshot::encoder::{Command, DShotVariant};
use rp2040_dshot::relay::DoubleBuffer;
use rp2040_dshot::transport::{decode_host_window, Exchange, HostCommand, SyncAction, SyncState};
use rp2040_dshot::Error;

/// Runs the seeking side over a byte stream; returns the bytes consumed when
/// synced and the outcome of every window.
fn run_sync(stream: &[u8], threshold: u8) -> (Option<usize>, Vec<bool>) {
    let mut state = SyncState::new();
    let mut pos = 0;
    let mut outcomes = Vec::new();
    while pos + 2 <= stream.len() {
        let (next, action) = state.step([stream[pos], stream[pos + 1]], threshold);
        pos += 2;
        state = next;
        match action {
            SyncAction::Start => {
                outcomes.push(true);
                return (Some(pos), outcomes);
            }
            SyncAction::ReadNext => outcomes.push(true),
            SyncAction::DiscardByte => {
                outcomes.push(false);
                pos += 1;
            }
        }
    }
    (None, outcomes)
}

#[test]
fn sync_after_misaligned_prefix() {
    // A valid host word is 0x830B, sent little-endian as [0x0B, 0x83].
    let mut stream = vec![0x00u8];
    for _ in 0..3 {
        stream.extend_from_slice(&[0x0B, 0x83]);
    }
    // Seven bytes misaligned by one, then aligned words.
    assert_eq!(stream.len(), 7);
    for _ in 0..4 {
        stream.extend_from_slice(&[0x0B, 0x83]);
    }
    let (synced, outcomes) = run_sync(&stream, 3);
    // The first window straddles the frames and fails; dropping one byte aligns
    // the reader, and three valid windows later it is synced.
    assert_eq!(outcomes, vec![false, true, true, true]);
    assert_eq!(synced, Some(9));
}

#[test]
fn sync_never_on_fewer_matches() {
    let stream = [0x0Bu8, 0x83, 0x0B, 0x83, 0x0C, 0x83, 0x00, 0x0B, 0x83];
    let (synced, outcomes) = run_sync(&stream, 3);
    assert_eq!(synced, None);
    assert_eq!(outcomes, vec![true, true, false, true]);
}

#[test]
fn sync_state_counts() {
    let (s, a) = SyncState::new().step([0x0B, 0x83], 3);
    assert_eq!(s, SyncState::Seeking { matches: 1 });
    assert_eq!(a, SyncAction::ReadNext);
    let (s, a) = s.step([0x0C, 0x83], 3);
    assert_eq!(s, SyncState::Seeking { matches: 0 });
    assert_eq!(a, SyncAction::DiscardByte);
    let (s, a) = SyncState::Seeking { matches: 2 }.step([0x0B, 0x83], 3);
    assert_eq!(s, SyncState::Synced);
    assert_eq!(a, SyncAction::Start);
}

#[test]
fn host_windows_classified() {
    assert_eq!(decode_host_window([0x0C, 0x83]), None);
    // 0x0033 little-endian: first byte 0x33 = 51 is no command code.
    assert_eq!(decode_host_window([0x33, 0x00]), Some(HostCommand::Throttle(0x33)));
    // 0x0606: first byte 6 is the code of ESCInfo.
    assert_eq!(decode_host_window([0x06, 0x06]), Some(HostCommand::Command(Command::ESCInfo)));
    // The first byte decides: 0x0B = 11 is the code of SettingsRequest.
    assert_eq!(decode_host_window([0x0B, 0x83]), Some(HostCommand::Command(Command::SettingsRequest)));
    // 0x0F4B: checksum 0xB = 4 ^ 0xF ^ 0; first byte 0x4B = 75 is no command code.
    assert_eq!(decode_host_window([0x4B, 0x0F]), Some(HostCommand::Throttle(0x0F4B)));
}

#[test]
fn host_frames_and_throttle_bounds() {
    let f = host_frame(HostCommand::Throttle(1000), DShotVariant::Standard).unwrap();
    assert_eq!(f.inner(), 0x831A);
    assert_eq!(
        host_frame(HostCommand::Throttle(0x830B), DShotVariant::Standard),
        Err(Error::ThrottleBoundsError { throttle: 0x830B })
    );
    let c = host_frame(HostCommand::Command(Command::Beep1), DShotVariant::Standard).unwrap();
    assert_eq!(c.inner(), 0x33);
    assert_eq!(throttle_frame(2000, false, DShotVariant::Standard), Err(Error::ThrottleBoundsError { throttle: 2000 }));
    assert_eq!(throttle_frame(1000, false, DShotVariant::Standard).unwrap().inner(), 0x830B);
}

#[test]
fn exchange_sends_snapshot_then_refreshes() {
    let mut relay = DoubleBuffer::new();
    relay.write(&[10, 11, 12, 13, 14, 15, 16, 17, 18, 19]);
    let mut ex = Exchange::new([0, 1, 2, 3, 4, 5, 6, 7, 8, 9]);
    let mut words = Vec::new();
    for _ in 0..6 {
        words.push(ex.next_word(&relay));
    }
    assert_eq!(words, vec![[0, 1], [2, 3], [4, 5], [6, 7], [8, 9], [10, 11]]);
}

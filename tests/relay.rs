use rp2040_dshot::relay::DoubleBuffer;

#[test]
fn write_then_reads_see_new_sample() {
    let mut relay = DoubleBuffer::new();
    let mut out = [9u8; 10];
    relay.read(&mut out);
    assert_eq!(out, [0u8; 10]);
    let sample = [1u8, 2, 3, 4, 5, 6, 7, 8, 9, 10];
    relay.write(&sample);
    for _ in 0..3 {
        let mut o = [0u8; 10];
        relay.read(&mut o);
        assert_eq!(o, sample);
    }
}

#[test]
fn read_during_write_sees_old_sample_whole() {
    let mut relay = DoubleBuffer::new();
    let first = [1u8; 10];
    let second = [2u8; 10];
    relay.write(&first);
    relay.fill(&second);
    let mut o = [0u8; 10];
    relay.read(&mut o);
    assert_eq!(o, first);
    relay.publish();
    relay.read(&mut o);
    assert_eq!(o, second);
}

#[test]
fn second_write_before_read_wins() {
    let mut relay = DoubleBuffer::new();
    relay.write(&[3u8; 10]);
    relay.write(&[4u8; 10]);
    let mut o = [0u8; 10];
    relay.read(&mut o);
    assert_eq!(o, [4u8; 10]);
}

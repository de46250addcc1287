use xds110_config::errors::Error;
use xds110_config::transfer::{
    bulk_read_step, required_transfers, InterfaceExt, ScriptedTransport,
};

#[test]
fn pipeline_depth_covers_buffer_plus_terminator() {
    assert_eq!(required_transfers(13), 0);
    assert_eq!(required_transfers(63), 1);
    assert_eq!(required_transfers(127), 2);
    assert_eq!(required_transfers(16384), 256);
}

#[test]
fn short_packet_ends_read_with_exact_count() {
    let mut buffer = vec![0u8; 256];
    let packet: Vec<u8> = (0u8..32).collect();
    let (offset, done) = bulk_read_step(&mut buffer, 64, &packet);
    assert_eq!(offset, 96);
    assert!(done);
    assert_eq!(&buffer[64..96], &packet[..]);
    assert!(buffer[..64].iter().all(|&b| b == 0));
    assert!(buffer[96..].iter().all(|&b| b == 0));
}

#[test]
fn zero_length_packet_ends_read() {
    let mut buffer = vec![0u8; 256];
    let packet: Vec<u8> = vec![];
    let (offset, done) = bulk_read_step(&mut buffer, 128, &packet);
    assert_eq!(offset, 128);
    assert!(done);
}

#[test]
fn full_packet_keeps_the_pipeline_going() {
    let mut buffer = vec![0u8; 256];
    let packet: Vec<u8> = vec![0xab; 64];
    let (offset, done) = bulk_read_step(&mut buffer, 0, &packet);
    assert_eq!(offset, 64);
    assert!(!done);
    assert!(buffer[..64].iter().all(|&b| b == 0xab));
}

#[test]
fn filling_the_buffer_ends_read() {
    let mut buffer = vec![0u8; 128];
    let packet: Vec<u8> = vec![0x11; 64];
    let (offset, done) = bulk_read_step(&mut buffer, 64, &packet);
    assert_eq!(offset, 128);
    assert!(done);
}

#[test]
fn packet_never_overruns_the_buffer() {
    let mut buffer = vec![0u8; 100];
    let packet: Vec<u8> = vec![0x22; 64];
    let (offset, done) = bulk_read_step(&mut buffer, 64, &packet);
    assert_eq!(offset, 100);
    assert!(done);
    assert_eq!(buffer.len(), 100);
    assert!(buffer[64..100].iter().all(|&b| b == 0x22));
}

#[test]
fn scripted_transport_answers_in_order_and_truncates() {
    let mut t = ScriptedTransport::new(vec![vec![1, 2, 3, 4, 5], vec![9; 80]]);
    let first = t.read_bulk(0x81, 13, 100).unwrap();
    assert_eq!(first, vec![1, 2, 3, 4, 5]);
    let second = t.read_bulk(0x81, 13, 100).unwrap();
    assert_eq!(second.len(), 13);
    assert_eq!(t.read_bulk(0x81, 13, 100), Err(Error::TimedOut));
    assert_eq!(t.write_bulk(0x02, &vec![1, 2, 3], 100), Ok(3));
}

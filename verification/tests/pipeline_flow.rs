use pipeprogress::channel::pipeline_channels;
use pipeprogress::read::{make_chunk, read_step};
use pipeprogress::CHUNK_SIZE;

#[test]
fn round_trip_single_chunk() {
    let ((stats_tx, stats_rx), (write_tx, write_rx)) = pipeline_channels();
    let buffer: Vec<u8> = b"Pipe Progress...".to_vec();
    assert!(read_step(&stats_tx, &write_tx, &buffer, buffer.len()));
    assert!(!read_step(&stats_tx, &write_tx, &buffer, 0));

    let mut received: Vec<u8> = Vec::new();
    loop {
        let chunk = write_rx.recv().unwrap();
        if chunk.is_empty() {
            break;
        }
        received.extend(chunk);
    }
    assert_eq!(received, buffer);
    assert_eq!(stats_rx.recv().unwrap(), buffer.len());
    assert_eq!(stats_rx.recv().unwrap(), 0);
}

#[test]
fn round_trip_multi_chunk() {
    let ((stats_tx, _stats_rx), (write_tx, write_rx)) = pipeline_channels();
    let mut buffer: Vec<u8> = Vec::new();
    let mut i: usize = 0;
    while i < CHUNK_SIZE {
        buffer.push((i % 251) as u8);
        i += 1;
    }
    // Two full reads and one partial read, more than one chunk in all.
    assert!(read_step(&stats_tx, &write_tx, &buffer, CHUNK_SIZE));
    assert!(read_step(&stats_tx, &write_tx, &buffer, CHUNK_SIZE));
    assert!(read_step(&stats_tx, &write_tx, &buffer, 10));
    assert!(!read_step(&stats_tx, &write_tx, &buffer, 0));

    let mut expected: Vec<u8> = Vec::new();
    expected.extend(buffer.iter());
    expected.extend(buffer.iter());
    expected.extend(buffer[..10].iter());

    let mut received: Vec<u8> = Vec::new();
    loop {
        let chunk = write_rx.recv().unwrap();
        if chunk.is_empty() {
            break;
        }
        received.extend(chunk);
    }
    assert_eq!(received, expected);
}

#[test]
fn reader_stops_when_writer_is_gone() {
    let ((stats_tx, _stats_rx), (write_tx, write_rx)) = pipeline_channels();
    drop(write_rx);
    let buffer: Vec<u8> = vec![1, 2, 3];
    assert!(!read_step(&stats_tx, &write_tx, &buffer, 3));
}

#[test]
fn chunk_is_exact_read_prefix() {
    let buffer: Vec<u8> = vec![9, 8, 7, 6, 5];
    let chunk = make_chunk(&buffer, 3);
    assert_eq!(chunk, vec![9, 8, 7]);
    let empty = make_chunk(&buffer, 0);
    assert!(empty.is_empty());
}

#[test]
fn backpressure_bound_holds() {
    let ((_stats_tx, _stats_rx), (write_tx, write_rx)) = pipeline_channels();
    let mut sent: usize = 0;
    while write_tx.try_send(vec![0u8]).is_ok() {
        sent += 1;
    }
    // A sink that never drains: no more than the configured bound ever fits.
    assert_eq!(sent, 1024);
    assert_eq!(write_rx.len(), 1024);
    assert!(write_tx.try_send(vec![0u8]).is_err());
}

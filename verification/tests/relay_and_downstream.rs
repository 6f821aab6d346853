use gps_correct::downstream::{ChunkPlan, DownstreamServer, DownstreamState, DOWNSTREAM_PORT};
use gps_correct::fix::FixRecord;
use gps_correct::relay::{CorrectionRelay, RelayAction, RelayEnd, RelayEvent, RelayState};

fn relay_frames(relay: &mut CorrectionRelay, frames: &[Vec<u8>]) -> Vec<u8> {
    let mut written = Vec::new();
    for frame in frames {
        match relay.step(RelayEvent::Frame(frame.clone())) {
            RelayAction::Write(bytes) => written.extend_from_slice(&bytes),
            other => panic!("a frame was answered with {:?}", other),
        }
    }
    written
}

fn forward_chunks(server: &DownstreamServer, chunks: &[&[u8]]) -> Vec<u8> {
    let mut sent = Vec::new();
    for chunk in chunks {
        if server.on_chunk(chunk).forward {
            sent.extend_from_slice(chunk);
        }
    }
    sent
}

#[test]
fn frames_reach_the_serial_link_joined_in_order() {
    let frames = vec![vec![1, 2, 3], vec![], vec![4], vec![5, 6, 7, 8], vec![4]];
    let mut relay = CorrectionRelay::new();
    assert_eq!(relay_frames(&mut relay, &frames), vec![1, 2, 3, 4, 5, 6, 7, 8, 4]);
    assert_eq!(relay.state(), RelayState::Running);
}

#[test]
fn no_frames_nothing_written() {
    let mut relay = CorrectionRelay::new();
    assert_eq!(relay_frames(&mut relay, &[]), Vec::<u8>::new());
    assert_eq!(relay.state(), RelayState::Running);
}

#[test]
fn frame_without_data_is_passed_over() {
    let mut relay = CorrectionRelay::new();
    assert_eq!(relay.step(RelayEvent::Empty), RelayAction::Next);
    assert_eq!(relay.state(), RelayState::Running);
    assert_eq!(relay.step(RelayEvent::Frame(vec![9])), RelayAction::Write(vec![9]));
}

#[test]
fn relay_ends_when_the_caster_closes() {
    let mut relay = CorrectionRelay::new();
    assert_eq!(relay.step(RelayEvent::Frame(vec![1])), RelayAction::Write(vec![1]));
    assert_eq!(relay.step(RelayEvent::Closed), RelayAction::Stop(RelayEnd::CasterClosed));
    assert_eq!(relay.state(), RelayState::Ended(RelayEnd::CasterClosed));
}

#[test]
fn relay_ends_when_reading_fails() {
    let mut relay = CorrectionRelay::new();
    assert_eq!(relay.step(RelayEvent::ReadFailed), RelayAction::Stop(RelayEnd::CasterFailed));
    assert_eq!(relay.state(), RelayState::Ended(RelayEnd::CasterFailed));
}

#[test]
fn relay_ends_when_the_serial_write_fails() {
    let mut relay = CorrectionRelay::new();
    assert_eq!(relay.step(RelayEvent::Frame(vec![1, 2])), RelayAction::Write(vec![1, 2]));
    assert_eq!(relay.step(RelayEvent::WriteFailed), RelayAction::Stop(RelayEnd::SerialFailed));
    assert_eq!(relay.state(), RelayState::Ended(RelayEnd::SerialFailed));
}

#[test]
fn ended_relay_writes_nothing_more() {
    let mut relay = CorrectionRelay::new();
    relay.step(RelayEvent::Closed);
    assert_eq!(relay.step(RelayEvent::Frame(vec![1])), RelayAction::Stop(RelayEnd::CasterClosed));
    assert_eq!(relay.step(RelayEvent::WriteFailed), RelayAction::Stop(RelayEnd::CasterClosed));
    assert_eq!(relay.step(RelayEvent::Empty), RelayAction::Stop(RelayEnd::CasterClosed));
    assert_eq!(relay.state(), RelayState::Ended(RelayEnd::CasterClosed));
}

#[test]
fn downstream_port_is_fixed() {
    assert_eq!(DOWNSTREAM_PORT, 6543);
}

#[test]
fn every_chunk_is_forwarded_once_with_or_without_fix() {
    let mut server = DownstreamServer::new();
    assert!(server.accept());
    let chunks: [&[u8]; 4] =
        ["$GNRMC,1\r\n".as_bytes(), "$GNGGA,2*3\r\n".as_bytes(), &[0xff, 0x00], "tail".as_bytes()];
    let mut expected = Vec::new();
    for chunk in chunks {
        expected.extend_from_slice(chunk);
    }
    assert_eq!(forward_chunks(&server, &chunks), expected);
    assert_eq!(
        server.on_chunk(chunks[1]),
        ChunkPlan { fix: Some(FixRecord { raw: "$GNGGA,2*3".to_string() }), forward: true }
    );
    assert_eq!(server.on_chunk(chunks[0]), ChunkPlan { fix: None, forward: true });
    assert_eq!(server.on_chunk(chunks[2]), ChunkPlan { fix: None, forward: true });
}

#[test]
fn empty_chunk_is_not_written() {
    let mut server = DownstreamServer::new();
    server.accept();
    assert_eq!(server.on_chunk(&[]), ChunkPlan { fix: None, forward: false });
}

#[test]
fn without_client_chunks_are_scanned_and_not_forwarded() {
    let server = DownstreamServer::new();
    assert_eq!(server.state(), DownstreamState::Listening);
    assert_eq!(
        server.on_chunk("$GNGGA,2*3\r\n".as_bytes()),
        ChunkPlan { fix: Some(FixRecord { raw: "$GNGGA,2*3".to_string() }), forward: false }
    );
}

#[test]
fn lost_client_ends_the_forwarding_only() {
    let mut server = DownstreamServer::new();
    server.accept();
    server.write_failed();
    assert_eq!(server.state(), DownstreamState::Disconnected);
    assert_eq!(
        server.on_chunk("$GNGGA,2*3\r\n".as_bytes()),
        ChunkPlan { fix: Some(FixRecord { raw: "$GNGGA,2*3".to_string() }), forward: false }
    );
    assert_eq!(forward_chunks(&server, &["a".as_bytes(), "b".as_bytes()]), Vec::<u8>::new());
}

#[test]
fn one_client_at_a_time() {
    let mut server = DownstreamServer::new();
    assert!(server.may_accept());
    assert!(server.accept());
    assert_eq!(server.state(), DownstreamState::Connected);
    assert!(!server.may_accept());
    assert!(!server.accept());
    assert_eq!(server.state(), DownstreamState::Connected);
    server.write_failed();
    assert!(server.may_accept());
    assert!(server.accept());
    assert_eq!(server.state(), DownstreamState::Connected);
}

#[test]
fn failed_write_without_client_changes_nothing() {
    let mut server = DownstreamServer::new();
    server.write_failed();
    assert_eq!(server.state(), DownstreamState::Listening);
}

#[test]
fn twenty_bytes_through_and_a_fix_back() {
    let frame: Vec<u8> = (0u8..20).map(|i| i.wrapping_mul(13).wrapping_add(0xd3)).collect();
    let mut relay = CorrectionRelay::new();
    assert_eq!(relay.step(RelayEvent::Frame(frame.clone())), RelayAction::Write(frame.clone()));

    let chunk = "$GNGGA,123519,4807.038,N,01131.000,E,1,08,0.9,545.4,M,46.9,M,,*47\r\n";
    let mut server = DownstreamServer::new();
    server.accept();
    let plan = server.on_chunk(chunk.as_bytes());
    assert!(plan.forward);
    assert_eq!(forward_chunks(&server, &[chunk.as_bytes()]), chunk.as_bytes().to_vec());
    assert_eq!(
        plan.fix.map(|record| record.raw),
        Some("$GNGGA,123519,4807.038,N,01131.000,E,1,08,0.9,545.4,M,46.9,M,,*47".to_string())
    );
}

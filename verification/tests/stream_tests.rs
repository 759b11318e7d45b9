use keybridge::slicer::{read_varint, varint_is_readable, Slicer};
use keybridge::web::{
    found_reply, greeting_outcome, is_second_greeting, on_incoming, serve_asset, AssetReply,
    ClientMessage, Incoming, Stage,
};

const EBML: [u8; 4] = [0x1a, 0x45, 0xdf, 0xa3];
const SEGMENT: [u8; 4] = [0x18, 0x53, 0x80, 0x67];
const CLUSTER: [u8; 4] = [0x1f, 0x43, 0xb6, 0x75];
const UNKNOWN: [u8; 8] = [0x01, 0xff, 0xff, 0xff, 0xff, 0xff, 0xff, 0xff];

fn header() -> Vec<u8> {
    let mut v = Vec::new();
    v.extend_from_slice(&EBML);
    v.extend_from_slice(&[0x83, 1, 2, 3]); // size 3, payload
    v.extend_from_slice(&SEGMENT);
    v.extend_from_slice(&UNKNOWN);
    v.extend_from_slice(&[0x15, 0x49, 0xa9, 0x66, 0x82, 9, 9]); // an element of size 2
    v.extend_from_slice(&[0xec, 0x81, 0]); // a void element of size 1
    v
}

fn cluster(payload: &[u8]) -> Vec<u8> {
    let mut v = Vec::new();
    v.extend_from_slice(&CLUSTER);
    v.push(0x80 | payload.len() as u8);
    v.extend_from_slice(payload);
    v
}

#[test]
fn varints_of_every_length() {
    let mut offset = 0;
    assert_eq!(read_varint(&[0x81], &mut offset), 1);
    assert_eq!(offset, 1);
    let mut offset = 1;
    assert_eq!(read_varint(&[0xff, 0x40, 0x02, 0xff], &mut offset), 2);
    assert_eq!(offset, 3);
    let mut offset = 0;
    assert_eq!(read_varint(&[0x7f, 0xff], &mut offset), 0x3fff);
    assert_eq!(offset, 2);
    let mut offset = 0;
    assert_eq!(read_varint(&[0x21, 0x02, 0x03], &mut offset), 0x010203);
    assert_eq!(offset, 3);
    let mut offset = 0;
    assert_eq!(read_varint(&UNKNOWN, &mut offset), 0xff_ffff_ffff_ffff);
    assert_eq!(offset, 8);
    let mut offset = 0;
    assert_eq!(read_varint(&[0x80], &mut offset), 0);
    assert_eq!(offset, 1);
}

#[test]
fn varint_must_lie_inside_the_buffer() {
    assert!(varint_is_readable(&[0x81], 0));
    assert!(!varint_is_readable(&[0x81], 1));
    assert!(!varint_is_readable(&[], 0));
    assert!(!varint_is_readable(&[0x00, 1, 2, 3, 4, 5, 6, 7, 8], 0));
    assert!(!varint_is_readable(&[0x40], 0));
    assert!(varint_is_readable(&[0x40, 0], 0));
    assert!(!varint_is_readable(&UNKNOWN[..7], 0));
    assert!(varint_is_readable(&UNKNOWN, 0));
    assert!(!varint_is_readable(&[0x81], usize::MAX));
}

#[test]
fn header_then_clusters() {
    let mut slicer = Slicer::new();
    let mut stream = header();
    let head_len = stream.len();
    stream.extend_from_slice(&cluster(&[1, 2, 3]));
    stream.extend_from_slice(&cluster(&[4, 5]));
    let pieces = slicer.append(&stream);
    assert_eq!(pieces, vec![header()]);
    assert_eq!(pieces[0].len(), head_len);
    // one piece for each call, also where more are complete
    assert_eq!(slicer.append(&[]), vec![cluster(&[1, 2, 3])]);
    assert_eq!(slicer.append(&[]), vec![cluster(&[4, 5])]);
    assert!(slicer.append(&[]).is_empty());
}

#[test]
fn header_waits_for_the_first_cluster() {
    let mut slicer = Slicer::new();
    assert!(slicer.append(&EBML[..2]).is_empty());
    let rest = header();
    // the header without a cluster behind it is not complete
    assert!(slicer.append(&rest[2..]).is_empty());
    assert_eq!(slicer.append(&cluster(&[7])), vec![header()]);
    assert_eq!(slicer.append(&[]), vec![cluster(&[7])]);
}

#[test]
fn cluster_waits_for_its_payload() {
    let mut slicer = Slicer::new();
    let mut stream = header();
    stream.extend_from_slice(&CLUSTER);
    assert_eq!(slicer.append(&stream).len(), 1);
    // the size field, then the payload in two portions
    assert!(slicer.append(&[0x84, 1]).is_empty());
    assert!(slicer.append(&[2, 3]).is_empty());
    assert_eq!(slicer.append(&[4, 0x1f]), vec![cluster(&[1, 2, 3, 4])]);
    assert!(slicer.append(&[0x43]).is_empty());
}

#[test]
fn malformed_streams_are_refused() {
    // four bytes that are no EBML header
    assert!(Slicer::new().try_append(&[1, 2, 3, 4]).is_none());
    // the EBML identifier alone: its size field cannot be read
    assert!(Slicer::new().try_append(&EBML).is_none());
    // a size field that begins with a zero byte
    let mut zero = EBML.to_vec();
    zero.extend_from_slice(&[0, 0, 0, 0, 0, 0, 0, 0, 0]);
    assert!(Slicer::new().try_append(&zero).is_none());
    // a payload that is not all there
    let mut short = EBML.to_vec();
    short.extend_from_slice(&[0x83, 1]);
    assert!(Slicer::new().try_append(&short).is_none());
    // a Segment of known size
    let mut sized = EBML.to_vec();
    sized.extend_from_slice(&[0x80]);
    sized.extend_from_slice(&SEGMENT);
    sized.extend_from_slice(&[0x81, 0]);
    assert!(Slicer::new().try_append(&sized).is_none());
    // something else where the Segment should be
    let mut other = EBML.to_vec();
    other.extend_from_slice(&[0x80, 1, 2, 3, 4]);
    assert!(Slicer::new().try_append(&other).is_none());
    // after the header, something that is no Cluster
    let mut slicer = Slicer::new();
    let mut stream = header();
    stream.extend_from_slice(&cluster(&[]));
    assert_eq!(slicer.try_append(&stream), Some(vec![header()]));
    assert_eq!(slicer.try_append(&[]), Some(vec![cluster(&[])]));
    assert!(slicer.try_append(&[9, 9, 9, 9]).is_none());
}

#[test]
fn try_append_agrees_with_append_on_good_streams() {
    let mut a = Slicer::new();
    let mut b = Slicer::new();
    let mut stream = header();
    stream.extend_from_slice(&cluster(&[1]));
    for portion in [&stream[..1], &stream[1..3], &stream[3..]] {
        // the portions are cut so that no size field is split
        let _ = portion;
    }
    assert_eq!(b.try_append(&stream[..3]), Some(vec![]));
    assert!(a.append(&stream[..3]).is_empty());
    assert_eq!(b.try_append(&stream[3..]), Some(a.append(&stream[3..])));
    assert_eq!(b.try_append(&[]), Some(a.append(&[])));
}

#[test]
fn embedded_files_get_their_media_type() {
    match serve_asset("index.html", Some(vec![1, 2, 3])) {
        AssetReply::Found { body, content_type } => {
            assert_eq!(body, vec![1, 2, 3]);
            assert_eq!(content_type, "text/html");
        }
        AssetReply::NotFound => panic!("the file is there"),
    }
    match serve_asset("img/logo.PNG", Some(vec![])) {
        AssetReply::Found { content_type, .. } => assert_eq!(content_type, "image/png"),
        AssetReply::NotFound => panic!("the file is there"),
    }
    match serve_asset("data", Some(vec![9])) {
        AssetReply::Found { content_type, .. } => {
            assert_eq!(content_type, "application/octet-stream")
        }
        AssetReply::NotFound => panic!("the file is there"),
    }
    assert!(matches!(serve_asset("index.html", None), AssetReply::NotFound));
}

#[test]
fn found_reply_keeps_body_and_type() {
    match found_reply(vec![5, 6], "text/css".to_string()) {
        AssetReply::Found { body, content_type } => {
            assert_eq!(body, vec![5, 6]);
            assert_eq!(content_type, "text/css");
        }
        AssetReply::NotFound => panic!("a reply with a body"),
    }
}

#[test]
fn session_begins_with_a_greeting() {
    let v = on_incoming(Stage::Initial, Incoming::Message(ClientMessage::Hello));
    assert_eq!(v.stage, Stage::Greeted);
    assert_eq!(v.key, None);
    let v = on_incoming(Stage::Greeted, Incoming::Message(ClientMessage::Key { key: "a".to_string() }));
    assert_eq!(v.stage, Stage::Greeted);
    assert_eq!(v.key, Some("a".to_string()));
    let v = on_incoming(Stage::Initial, Incoming::Message(ClientMessage::Key { key: "a".to_string() }));
    assert_eq!(v.stage, Stage::Closed);
    assert_eq!(v.key, None);
}

#[test]
fn failures_close_the_session() {
    for stage in [Stage::Initial, Stage::Greeted, Stage::Closed] {
        assert_eq!(on_incoming(stage, Incoming::Failed).stage, Stage::Closed);
        assert_eq!(on_incoming(stage, Incoming::Undecodable).stage, Stage::Closed);
    }
}

#[test]
fn second_greeting_is_told_apart() {
    let hello = Incoming::Message(ClientMessage::Hello);
    assert!(!is_second_greeting(Stage::Initial, &hello));
    assert!(is_second_greeting(Stage::Greeted, &hello));
    assert!(is_second_greeting(Stage::Closed, &hello));
    let key = Incoming::Message(ClientMessage::Key { key: "x".to_string() });
    assert!(!is_second_greeting(Stage::Greeted, &key));
    assert!(!is_second_greeting(Stage::Greeted, &Incoming::Failed));
}

#[test]
fn sender_waits_for_the_greeting() {
    assert_eq!(greeting_outcome(Stage::Initial), None);
    assert_eq!(greeting_outcome(Stage::Greeted), Some(true));
    assert_eq!(greeting_outcome(Stage::Closed), Some(false));
}

use ls02::alert::{alert_batches, alert_writes, encode_utf16, MAX_ALERT_UNITS};
use ls02::common::{AlertType, CommandId};
use ls02::general::req::AlertPushRequest;
use ls02::{Endpoint, WireRecord, WriteType};

#[test]
fn utf16_matches_the_standard_encoding() {
    for text in ["", "A", "Hello", "héllo wörld", "€uro", "日本語", "a😀b", "😀😀", "\u{FFFF}\u{10000}\u{10FFFF}"] {
        let expected: Vec<u16> = text.encode_utf16().collect();
        assert_eq!(encode_utf16(text), expected, "{:?}", text);
    }
    assert_eq!(encode_utf16("😀"), vec![0xD83D, 0xDE00]);
    assert_eq!(encode_utf16("€"), vec![0x20AC]);
}

#[test]
fn short_text_takes_one_batch() {
    let units: Vec<u16> = "Hi".encode_utf16().collect();
    let t = alert_batches(AlertType::Message, &units).unwrap();
    assert_eq!(t.start.id, CommandId::Alert);
    assert_eq!(t.start.batch_idx, 0);
    assert_eq!(t.start.alert_type, AlertType::Message);
    assert_eq!(t.start.msg_full_len_bytes, 4);
    assert_eq!(t.start.msg_start_text_utf16, units);
    assert!(t.next.is_empty());
    assert_eq!(t.push, AlertPushRequest::new());
}

#[test]
fn empty_text_is_still_sent() {
    let writes = alert_writes(AlertType::Call, "").unwrap();
    assert_eq!(writes.len(), 2);
    assert_eq!(writes[0].bytes, vec![0x0F, 0x00, 0x00, 0x00]);
    assert_eq!(writes[1].bytes, vec![0x0F, 0xFD]);
}

#[test]
fn writes_of_a_short_alert() {
    let writes = alert_writes(AlertType::WhatsApp, "Hé€").unwrap();
    assert_eq!(writes.len(), 2);
    assert_eq!(writes[0].bytes, vec![0x0F, 0x00, 0x07, 0x06, 0x00, 0x48, 0x00, 0xE9, 0x20, 0xAC]);
    assert_eq!(writes[1].bytes, vec![0x0F, 0xFD]);
    for w in &writes {
        assert_eq!(w.endpoint, Endpoint::GeneralRw1);
        assert_eq!(w.write_type, WriteType::WithResponse);
    }
}

#[test]
fn batches_hold_22_then_23_units() {
    for n in [0usize, 1, 21, 22, 23, 44, 45, 46, 68, 69, 100, 127, 128, 200] {
        let units: Vec<u16> = (0..n as u16).map(|i| 0x100 + i).collect();
        let t = alert_batches(AlertType::Email, &units).unwrap();
        let expected_next = if n <= 22 { 0 } else { (n - 22 + 22) / 23 };
        assert_eq!(t.next.len(), expected_next, "n = {}", n);
        assert_eq!(t.start.msg_start_text_utf16.len(), n.min(22));
        assert_eq!(t.start.msg_full_len_bytes, ((2 * n) % 256) as u8);
        assert!(t.start.well_formed());
        let mut joined = t.start.msg_start_text_utf16.clone();
        for (i, batch) in t.next.iter().enumerate() {
            assert_eq!(batch.id, CommandId::Alert);
            assert_eq!(batch.batch_idx as usize, i + 1);
            assert!(batch.well_formed());
            assert!(!batch.msg_next_text_utf16.is_empty());
            if i + 1 < t.next.len() {
                assert_eq!(batch.msg_next_text_utf16.len(), 23);
            }
            joined.extend_from_slice(&batch.msg_next_text_utf16);
        }
        assert_eq!(joined, units);
    }
}

#[test]
fn no_write_exceeds_the_largest_write() {
    let text: String = std::iter::repeat("abcdefghij").take(30).collect();
    let writes = alert_writes(AlertType::Message, &text).unwrap();
    assert_eq!(writes.len(), 2 + (300 - 22 + 22) / 23);
    for w in &writes {
        assert!(w.bytes.len() <= ls02::MAX_WRITE_SIZE);
    }
    assert_eq!(writes[0].bytes.len(), 48);
    assert_eq!(writes[0].bytes[3], ((600 % 256) as u8));
    assert_eq!(writes[1].bytes.len(), 48);
    assert_eq!(&writes[1].bytes[..2], &[0x0F, 0x01]);
    assert_eq!(&writes[2].bytes[..2], &[0x0F, 0x02]);
    assert_eq!(writes.last().unwrap().bytes, vec![0x0F, 0xFD]);
    let mut text_bytes = Vec::new();
    text_bytes.extend_from_slice(&writes[0].bytes[4..]);
    for w in &writes[1..writes.len() - 1] {
        text_bytes.extend_from_slice(&w.bytes[2..]);
    }
    let expected: Vec<u8> = text.encode_utf16().flat_map(|u| u.to_be_bytes()).collect();
    assert_eq!(text_bytes, expected);
}

#[test]
fn the_longest_alert_takes_255_further_batches() {
    assert_eq!(MAX_ALERT_UNITS, 22 + 255 * 23);
    let units = vec![0x41u16; MAX_ALERT_UNITS];
    let t = alert_batches(AlertType::Message, &units).unwrap();
    assert_eq!(t.next.len(), 255);
    assert_eq!(t.next[254].batch_idx, 255);
    assert_eq!(t.next[254].msg_next_text_utf16.len(), 23);
    let units = vec![0x41u16; MAX_ALERT_UNITS + 1];
    assert!(alert_batches(AlertType::Message, &units).is_none());
    let text: String = std::iter::repeat('a').take(MAX_ALERT_UNITS + 1).collect();
    assert!(alert_writes(AlertType::Message, &text).is_none());
    let text: String = std::iter::repeat('a').take(MAX_ALERT_UNITS).collect();
    assert_eq!(alert_writes(AlertType::Message, &text).unwrap().len(), 257);
}

#[test]
fn surrogate_pairs_count_as_two_units() {
    let text: String = std::iter::repeat('😀').take(12).collect();
    let writes = alert_writes(AlertType::Message, &text).unwrap();
    assert_eq!(writes.len(), 3);
    assert_eq!(writes[0].bytes.len(), 48);
    assert_eq!(writes[0].bytes[3], 48);
    assert_eq!(&writes[0].bytes[4..8], &[0xD8, 0x3D, 0xDE, 0x00]);
    assert_eq!(writes[1].bytes, vec![0x0F, 0x01, 0xD8, 0x3D, 0xDE, 0x00]);
}

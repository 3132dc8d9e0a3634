use hello_stm32::uart_link::{echo_distance_cm, frame_message, receive_message};

#[test]
fn frame_prefixes_length() {
    assert_eq!(frame_message(&[0xAC, 0x02]), vec![2, 0xAC, 0x02]);
    assert_eq!(frame_message(&[]), vec![0]);
    assert_eq!(frame_message(&[1, 2, 3, 4, 5, 6, 7]), vec![7, 1, 2, 3, 4, 5, 6, 7]);
}

#[test]
fn frame_too_long_keeps_length_byte_only() {
    assert_eq!(frame_message(&[1, 2, 3, 4, 5, 6, 7, 8]), vec![8]);
    let long = [0u8; 300];
    assert_eq!(frame_message(&long), vec![(300 % 256) as u8]);
}

#[test]
fn receive_copies_payload_in_front() {
    let mut buffer = [9u8, 9, 9, 9];
    assert_eq!(receive_message(&[2, 0xAC, 0x02, 0x77], &mut buffer), 2);
    assert_eq!(buffer, [0xAC, 0x02, 9, 9]);
    assert_eq!(receive_message(&[0], &mut buffer), 0);
    assert_eq!(buffer, [0xAC, 0x02, 9, 9]);
}

#[test]
fn frame_then_receive_round_trip() {
    for payload in [&[][..], &[5][..], &[1, 2, 3][..], &[0xFF, 0xFF, 0xFF, 0x0F][..]] {
        let message = frame_message(payload);
        let mut buffer = [0xEEu8; 4];
        let n = receive_message(&message, &mut buffer);
        assert_eq!(n, payload.len());
        assert_eq!(&buffer[..n], payload);
    }
}

#[test]
fn distance_from_echo_time() {
    assert_eq!(echo_distance_cm(0), 0);
    assert_eq!(echo_distance_cm(58), 1);
    assert_eq!(echo_distance_cm(5800), 100);
    assert_eq!(echo_distance_cm(57), 0);
}

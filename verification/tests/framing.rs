use ddcstuff::ipc::{
    choose_socket_path, default_socket_path, frame_message, payload_length, FrameError, SocketChoice, MAX_MESSAGE_LEN,
};

#[test]
fn frames_carry_a_little_endian_length() {
    assert_eq!(frame_message(b"hi"), vec![2, 0, 0, 0, b'h', b'i']);
    assert_eq!(frame_message(b""), vec![0, 0, 0, 0]);
    let big = vec![7u8; 300];
    let f = frame_message(&big);
    assert_eq!(&f[..4], &[44, 1, 0, 0]);
    assert_eq!(&f[4..], &big[..]);
}

#[test]
fn length_prefix_is_checked() {
    assert_eq!(payload_length([2, 0, 0, 0]), Ok(2));
    assert_eq!(payload_length([0, 0, 0x10, 0]), Ok(MAX_MESSAGE_LEN));
    assert_eq!(payload_length([1, 0, 0x10, 0]), Err(FrameError::TooLarge(1048577)));
    assert_eq!(FrameError::TooLarge(1048577).message(), "message too large: 1048577 bytes");
    assert_eq!(payload_length([0xff, 0xff, 0xff, 0xff]), Err(FrameError::TooLarge(u32::MAX as usize)));
}

#[test]
fn reading_a_frame_gives_back_the_payload() {
    let payload = br#"{"cmd":"ping"}"#.to_vec();
    let f = frame_message(&payload);
    let n = payload_length([f[0], f[1], f[2], f[3]]).unwrap();
    assert_eq!(&f[4..4 + n], &payload[..]);
    assert_eq!(f.len(), 4 + n);
}

#[test]
fn socket_paths() {
    assert_eq!(default_socket_path(0, false, Some("/run/user/0".to_string())), "/run/ddcd.sock");
    assert_eq!(default_socket_path(1000, true, Some("/run/user/1000".to_string())), "/run/ddcd.sock");
    assert_eq!(default_socket_path(1000, false, Some("/run/user/1000".to_string())), "/run/user/1000/ddcd.sock");
    assert_eq!(default_socket_path(1000, false, None), "/tmp/ddcd-1000.sock");
}

#[test]
fn socket_path_choice() {
    assert!(matches!(choose_socket_path(Some("/tmp/a.sock"), "/run/b.sock"), SocketChoice::Given("/tmp/a.sock")));
    assert!(matches!(choose_socket_path(Some("/tmp/a.sock"), ""), SocketChoice::Given("/tmp/a.sock")));
    match choose_socket_path::<&str>(None, "/run/b.sock") {
        SocketChoice::Configured(p) => assert_eq!(p, "/run/b.sock"),
        _ => panic!("expected the configured path"),
    }
    assert!(matches!(choose_socket_path::<&str>(None, ""), SocketChoice::Default));
}

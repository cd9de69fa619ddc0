use log_tail::cursor::{DecodeError, TailCursor};

fn read(c: &mut TailCursor, file: &[u8]) -> Result<Vec<String>, DecodeError> {
    let delta = file[c.position() as usize..].to_vec();
    c.read_delta(&delta)
}

#[test]
fn appends_deliver_complete_lines_only() {
    let mut file: Vec<u8> = Vec::new();
    let mut c = TailCursor::at_end(file.len() as u64);
    assert_eq!(c.position(), 0);

    file.extend_from_slice(b"alpha\n");
    assert_eq!(read(&mut c, &file), Ok(vec!["alpha".to_string()]));
    assert_eq!(c.position(), 6);

    file.extend_from_slice(b"bet");
    assert_eq!(read(&mut c, &file), Ok(Vec::new()));
    assert_eq!(c.position(), 6);

    file.extend_from_slice(b"a\n");
    assert_eq!(read(&mut c, &file), Ok(vec!["beta".to_string()]));
    assert_eq!(c.position(), 11);
}

#[test]
fn start_at_end_replays_nothing() {
    let mut file: Vec<u8> = b"old line\nanother\n".to_vec();
    let mut c = TailCursor::at_end(file.len() as u64);
    assert_eq!(read(&mut c, &file), Ok(Vec::new()));
    assert_eq!(c.position(), 17);
    file.extend_from_slice(b"new\n");
    assert_eq!(read(&mut c, &file), Ok(vec!["new".to_string()]));
    assert_eq!(c.position(), 21);
}

#[test]
fn empty_delta_keeps_cursor() {
    let mut c = TailCursor::at_end(42);
    assert_eq!(c.read_delta(&Vec::new()), Ok(Vec::new()));
    assert_eq!(c.position(), 42);
    assert_eq!(c.read_delta(&Vec::new()), Ok(Vec::new()));
    assert_eq!(c.position(), 42);
}

#[test]
fn several_lines_in_one_delta_keep_order() {
    let mut c = TailCursor::at_end(100);
    let delta = b"one\ntwo\r\n\nthree\nfour".to_vec();
    assert_eq!(
        c.read_delta(&delta),
        Ok(vec![
            "one".to_string(),
            "two".to_string(),
            String::new(),
            "three".to_string()
        ])
    );
    assert_eq!(c.position(), 100 + 16);
}

#[test]
fn partial_line_is_read_again_whole() {
    let mut file: Vec<u8> = b"x\n".to_vec();
    let mut c = TailCursor::at_end(2);
    file.extend_from_slice(b"Damage: 1");
    assert_eq!(read(&mut c, &file), Ok(Vec::new()));
    file.extend_from_slice(b"2345");
    assert_eq!(read(&mut c, &file), Ok(Vec::new()));
    assert_eq!(c.position(), 2);
    file.extend_from_slice(b"\r\nnext");
    assert_eq!(read(&mut c, &file), Ok(vec!["Damage: 12345".to_string()]));
    assert_eq!(c.position(), 17);
}

#[test]
fn multibyte_text_is_decoded() {
    let mut c = TailCursor::at_end(0);
    let delta = "héllo wörld\n".as_bytes().to_vec();
    assert_eq!(c.read_delta(&delta), Ok(vec!["héllo wörld".to_string()]));
    assert_eq!(c.position(), delta.len() as u64);
}

#[test]
fn invalid_utf8_drops_delta_and_advances() {
    let mut c = TailCursor::at_end(5);
    let delta = vec![b'o', b'k', b'\n', 0xff, 0xfe, b'\n', b'p'];
    assert_eq!(c.read_delta(&delta), Err(DecodeError { skipped: 7 }));
    assert_eq!(c.position(), 12);
}

#[test]
fn invalid_bytes_in_partial_tail_drop_delta() {
    let mut c = TailCursor::at_end(0);
    let delta = vec![b'o', b'k', b'\n', 0xc3];
    assert_eq!(c.read_delta(&delta), Err(DecodeError { skipped: 4 }));
    assert_eq!(c.position(), 4);
    assert_eq!(c.read_delta(&b"next\n".to_vec()), Ok(vec!["next".to_string()]));
    assert_eq!(c.position(), 9);
}

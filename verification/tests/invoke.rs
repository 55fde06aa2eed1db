use initramfs_lib::invoke::{check_captured, check_ended, check_started, InvokeError};
use initramfs_lib::protocol::{Failure, Reply};

fn failure(code: Option<i32>, detail: &str) -> Failure {
    Failure { code, detail: detail.to_string() }
}

#[test]
fn start_succeeds_on_done_only() {
    assert_eq!(check_started(Reply::Done), Ok(()));
    assert_eq!(
        check_started(Reply::Failed(failure(Some(2), "missing"))),
        Err(InvokeError::Spawn(failure(Some(2), "missing")))
    );
    assert_eq!(
        check_started(Reply::Exited(0)),
        Err(InvokeError::Spawn(Failure::unexpected()))
    );
}

#[test]
fn exit_status_zero_is_success() {
    assert_eq!(check_ended(Reply::Exited(0)), Ok(()));
}

#[test]
fn exit_status_is_carried_in_the_error() {
    assert_eq!(check_ended(Reply::Exited(1)), Err(InvokeError::Exit(1)));
    assert_eq!(check_ended(Reply::Exited(-9)), Err(InvokeError::Exit(-9)));
    assert_eq!(check_ended(Reply::Exited(i32::MAX)), Err(InvokeError::Exit(i32::MAX)));
}

#[test]
fn failed_wait_is_a_spawn_error() {
    assert_eq!(
        check_ended(Reply::Failed(failure(Some(10), "no child"))),
        Err(InvokeError::Spawn(failure(Some(10), "no child")))
    );
    assert_eq!(check_ended(Reply::Done), Err(InvokeError::Spawn(Failure::unexpected())));
}

#[test]
fn capture_decodes_the_output() {
    assert_eq!(check_captured(Reply::Data(b"hello\n".to_vec()), 4096), Ok("hello\n".to_string()));
    assert_eq!(check_captured(Reply::Data(Vec::new()), 4096), Ok(String::new()));
    assert_eq!(
        check_captured(Reply::Data("héllo".as_bytes().to_vec()), 4096),
        Ok("héllo".to_string())
    );
}

#[test]
fn capture_is_cut_at_the_limit() {
    assert_eq!(check_captured(Reply::Data(b"hello world".to_vec()), 5), Ok("hello".to_string()));
    assert_eq!(check_captured(Reply::Data(b"hello".to_vec()), 5), Ok("hello".to_string()));
    assert_eq!(check_captured(Reply::Data(b"hello".to_vec()), 0), Ok(String::new()));
    let long = vec![b'a'; 5000];
    assert_eq!(check_captured(Reply::Data(long), 4096), Ok("a".repeat(4096)));
}

#[test]
fn capture_cut_inside_a_character_is_an_encoding_error() {
    assert_eq!(
        check_captured(Reply::Data("é".as_bytes().to_vec()), 1),
        Err(InvokeError::Encoding)
    );
}

#[test]
fn capture_of_bytes_that_are_no_text_is_an_encoding_error() {
    assert_eq!(check_captured(Reply::Data(vec![0xff, 0xfe]), 4096), Err(InvokeError::Encoding));
    assert_eq!(check_captured(Reply::Data(vec![0xc3]), 4096), Err(InvokeError::Encoding));
    assert_eq!(
        check_captured(Reply::Data(vec![0xed, 0xa0, 0x80]), 4096),
        Err(InvokeError::Encoding)
    );
}

#[test]
fn failed_read_is_a_read_error() {
    assert_eq!(
        check_captured(Reply::Failed(failure(Some(9), "bad fd")), 4096),
        Err(InvokeError::Read(failure(Some(9), "bad fd")))
    );
    assert_eq!(
        check_captured(Reply::Done, 4096),
        Err(InvokeError::Read(Failure::unexpected()))
    );
}

#[test]
fn library_failures_have_fixed_texts() {
    assert_eq!(Failure::unexpected(), failure(None, "unexpected reply"));
    assert_eq!(Failure::invalid(), failure(None, "text holds a NUL character"));
}

use p2phandshake::errors::{CustomError, ErrorClass};
use std::io;
use std::time::Duration;

fn io_error(text: &str) -> io::Error {
    io::Error::new(io::ErrorKind::ConnectionRefused, text.to_string())
}

fn one_of_each() -> Vec<CustomError> {
    vec![
        CustomError::AddressPortParse,
        CustomError::TcpConnectTimeOut("Timeout".to_string()),
        CustomError::TcpConnect(io_error("refused")),
        CustomError::NodeRecordCreation("bad id".to_string()),
        CustomError::ECIESStreamCreation,
        CustomError::SendMessage,
        CustomError::ReceiveMessage,
        CustomError::MessageDecode(alloy_rlp::Error::InputTooShort),
        CustomError::HandshakeMalformed,
        CustomError::HandshakeAuthentication,
        CustomError::FrameAuthentication,
    ]
}

fn elapsed() -> tokio::time::error::Elapsed {
    let runtime = tokio::runtime::Builder::new_current_thread().enable_time().build().unwrap();
    runtime
        .block_on(async {
            tokio::time::timeout(Duration::from_millis(1), std::future::pending::<()>()).await
        })
        .unwrap_err()
}

#[test]
fn errors_compare_by_variant() {
    let left = one_of_each();
    let right = one_of_each();
    for (i, a) in left.iter().enumerate() {
        for (j, b) in right.iter().enumerate() {
            let expected = i == j && !matches!(a, CustomError::TcpConnectTimeOut(_));
            assert_eq!(a == b, expected, "{a:?} == {b:?}");
            assert_eq!(a != b, !expected, "{a:?} != {b:?}");
        }
    }
}

#[test]
fn errors_compare_whatever_they_carry() {
    assert_eq!(CustomError::TcpConnect(io_error("a")), CustomError::TcpConnect(io_error("b")));
    assert_eq!(
        CustomError::NodeRecordCreation("a".to_string()),
        CustomError::NodeRecordCreation("b".to_string())
    );
    assert_eq!(
        CustomError::MessageDecode(alloy_rlp::Error::Overflow),
        CustomError::MessageDecode(alloy_rlp::Error::LeadingZero)
    );
}

#[test]
fn a_missed_deadline_equals_nothing() {
    let timeout = CustomError::TcpConnectTimeOut("Timeout".to_string());
    assert!(timeout != CustomError::TcpConnectTimeOut("Timeout".to_string()));
    assert!(!(timeout == timeout));
}

#[test]
fn every_error_has_its_class() {
    let classes: Vec<ErrorClass> = one_of_each().iter().map(|error| error.class()).collect();
    assert_eq!(
        classes,
        vec![
            ErrorClass::Input,
            ErrorClass::Timeout,
            ErrorClass::Transport,
            ErrorClass::Input,
            ErrorClass::Handshake,
            ErrorClass::Transport,
            ErrorClass::Transport,
            ErrorClass::Message,
            ErrorClass::Handshake,
            ErrorClass::Handshake,
            ErrorClass::Frame,
        ]
    );
}

#[test]
fn an_io_error_becomes_a_connect_failure() {
    match CustomError::from(io_error("refused")) {
        CustomError::TcpConnect(cause) => {
            assert_eq!(cause.kind(), io::ErrorKind::ConnectionRefused);
            assert_eq!(cause.to_string(), "refused");
        }
        other => panic!("{other:?}"),
    }
}

#[test]
fn a_decoding_error_becomes_a_message_failure() {
    let cause = alloy_rlp::Error::ListLengthMismatch { expected: 5, got: 2 };
    match CustomError::from(cause) {
        CustomError::MessageDecode(kept) => assert_eq!(kept, cause),
        other => panic!("{other:?}"),
    }
}

#[test]
fn an_expired_timer_becomes_a_timeout() {
    match CustomError::from(elapsed()) {
        CustomError::TcpConnectTimeOut(text) => assert_eq!(text, "Timeout"),
        other => panic!("{other:?}"),
    }
}

#[test]
fn the_question_mark_converts_too() {
    fn read() -> Result<(), CustomError> {
        Err(io_error("reset"))?;
        Ok(())
    }
    fn decode() -> Result<(), CustomError> {
        Err(alloy_rlp::Error::UnexpectedString)?;
        Ok(())
    }
    fn wait() -> Result<(), CustomError> {
        Err(elapsed())?;
        Ok(())
    }
    assert!(matches!(read(), Err(CustomError::TcpConnect(_))));
    assert!(matches!(decode(), Err(CustomError::MessageDecode(alloy_rlp::Error::UnexpectedString))));
    assert!(matches!(wait(), Err(CustomError::TcpConnectTimeOut(_))));
}

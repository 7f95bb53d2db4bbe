use network_sender::{
    recv_error_message, settle, DeliveryFailure, NetworkError, NetworkMessageSenderError, RecvError, SendError,
    SendRequest, TryRecvError, TryRecvErrorKind,
};

#[test]
fn send_request_keeps_its_fields() {
    let request = SendRequest::new("peer-1".to_string(), vec![0, 1, 255]);
    assert_eq!(request.recipient(), "peer-1");
    assert_eq!(request.payload(), &[0u8, 1, 255][..]);
    let copy = request.clone();
    assert_eq!(copy.recipient(), "peer-1");
    assert_eq!(copy.payload(), &[0u8, 1, 255][..]);
}

#[test]
fn empty_recipient_and_payload_are_accepted() {
    let request = SendRequest::new(String::new(), Vec::new());
    assert_eq!(request.recipient(), "");
    assert!(request.payload().is_empty());
}

#[test]
fn recv_error_message_names_the_cause() {
    let err = NetworkMessageSenderError::from_recv_error(RecvError::new("gone".to_string()));
    match err {
        NetworkMessageSenderError::RecvError(message) => {
            assert_eq!(message, "Recv Error: RecvError { error: \"gone\" }")
        }
    }
}

#[test]
fn recv_error_message_matches_the_debug_form() {
    let recv_error = RecvError::new("receiving on a closed channel".to_string());
    let expected = format!("Recv Error: {:?}", recv_error);
    assert_eq!(
        expected,
        "Recv Error: RecvError { error: \"receiving on a closed channel\" }"
    );
    match NetworkMessageSenderError::from_recv_error(recv_error) {
        NetworkMessageSenderError::RecvError(message) => assert_eq!(message, expected),
    }
}

#[test]
fn recv_error_message_escapes_the_cause() {
    let err = NetworkMessageSenderError::from_recv_error(RecvError::new("say \"hi\"\n".to_string()));
    match err {
        NetworkMessageSenderError::RecvError(message) => {
            assert_eq!(message, "Recv Error: RecvError { error: \"say \\\"hi\\\"\\n\" }")
        }
    }
}

#[test]
fn recv_error_message_wraps_the_given_debug_text() {
    assert_eq!(recv_error_message("\"x\""), "Recv Error: RecvError { error: \"x\" }");
}

fn recv_through_question_mark(
    received: Result<u8, RecvError>,
) -> Result<u8, NetworkMessageSenderError> {
    Ok(received?)
}

#[test]
fn question_mark_converts_a_disconnect() {
    match recv_through_question_mark(Err(RecvError::new("gone".to_string()))) {
        Err(NetworkMessageSenderError::RecvError(message)) => {
            assert_eq!(message, "Recv Error: RecvError { error: \"gone\" }")
        }
        Ok(_) => panic!("a disconnect must be an error"),
    }
    assert_eq!(recv_through_question_mark(Ok(7)).unwrap(), 7);
}

#[test]
fn settle_reports_a_failed_delivery() {
    let request = SendRequest::new("peer-9".to_string(), b"x".to_vec());
    let failure: DeliveryFailure =
        settle(request, Err(NetworkError::new("closed".to_string()))).unwrap();
    assert_eq!(failure.recipient(), "peer-9");
    assert_eq!(failure.error().error(), "closed");
}

#[test]
fn settle_reports_nothing_for_a_delivery() {
    let request = SendRequest::new("peer-9".to_string(), b"x".to_vec());
    assert!(settle(request, Ok(())).is_none());
}

#[test]
fn error_values_keep_their_text() {
    assert_eq!(RecvError::new("a".to_string()).error(), "a");
    assert_eq!(SendError::new("b".to_string()).error(), "b");
    assert_eq!(NetworkError::new("c".to_string()).error(), "c");
    let err = TryRecvError::new(TryRecvErrorKind::Disconnected, "d".to_string());
    assert_eq!(err.kind(), TryRecvErrorKind::Disconnected);
    assert_eq!(err.error(), "d");
    assert!(TryRecvError::empty("e".to_string()).is_empty());
    assert!(TryRecvError::disconnected("f".to_string()).is_disconnected());
}

use ibm_watson::voices::{GetVoiceError, ListVoicesError};

#[test]
fn list_voices_statuses_map_to_their_variants() {
    assert_eq!(
        ListVoicesError::classify_status(406),
        Some(ListVoicesError::NotAcceptable406)
    );
    assert_eq!(
        ListVoicesError::classify_status(415),
        Some(ListVoicesError::UnsupportedMediaType415)
    );
    assert_eq!(
        ListVoicesError::classify_status(500),
        Some(ListVoicesError::InternalServerError500)
    );
    assert_eq!(
        ListVoicesError::classify_status(503),
        Some(ListVoicesError::ServiceUnavailable503)
    );
}

#[test]
fn list_voices_unmapped_statuses_classify_to_none() {
    for status in [200u16, 304, 400, 401, 404, 502] {
        assert_eq!(ListVoicesError::classify_status(status), None);
    }
}

#[test]
fn list_voices_distinct_statuses_give_distinct_variants() {
    let mapped = [406u16, 415, 500, 503];
    for &a in mapped.iter() {
        for &b in mapped.iter() {
            let va = ListVoicesError::classify_status(a).unwrap();
            let vb = ListVoicesError::classify_status(b).unwrap();
            if a == b {
                assert_eq!(va, vb);
            } else {
                assert_ne!(va, vb);
            }
        }
    }
}

#[test]
fn list_voices_classification_is_idempotent() {
    for status in [406u16, 415, 500, 503, 404] {
        assert_eq!(
            ListVoicesError::classify_status(status),
            ListVoicesError::classify_status(status)
        );
    }
}

#[test]
fn list_voices_transport_failure_keeps_the_description() {
    let err = ListVoicesError::classify_transport_failure(String::from("connection reset"));
    assert_eq!(
        err,
        ListVoicesError::ConnectionError(String::from("connection reset"))
    );
    assert_eq!(err.message(), "connection reset");
}

#[test]
fn list_voices_messages_are_fixed() {
    assert_eq!(
        ListVoicesError::NotAcceptable406.message(),
        "The request specified an Accept header with an incompatible content type."
    );
    assert_eq!(
        ListVoicesError::UnsupportedMediaType415.message(),
        "The request specified an unacceptable media type."
    );
    assert_eq!(
        ListVoicesError::InternalServerError500.message(),
        "The service experienced an internal error."
    );
    assert_eq!(
        ListVoicesError::ServiceUnavailable503.message(),
        "The service is currently unavailable."
    );
}

#[test]
fn get_voice_statuses_map_to_their_variants() {
    let id = || String::from("custom-id-123");
    assert_eq!(
        GetVoiceError::classify_status(304, id()),
        Some(GetVoiceError::NotModified304)
    );
    assert_eq!(
        GetVoiceError::classify_status(400, id()),
        Some(GetVoiceError::BadRequest400)
    );
    assert_eq!(
        GetVoiceError::classify_status(401, id()),
        Some(GetVoiceError::Unauthorised401(String::from("custom-id-123")))
    );
    assert_eq!(
        GetVoiceError::classify_status(406, id()),
        Some(GetVoiceError::NotAcceptable406)
    );
    assert_eq!(
        GetVoiceError::classify_status(415, id()),
        Some(GetVoiceError::UnsupportedMediaType415)
    );
    assert_eq!(
        GetVoiceError::classify_status(500, id()),
        Some(GetVoiceError::InternalServerError500)
    );
    assert_eq!(
        GetVoiceError::classify_status(503, id()),
        Some(GetVoiceError::ServiceUnavailable503)
    );
    assert_eq!(GetVoiceError::classify_status(404, id()), None);
}

#[test]
fn get_voice_unauthorized_message_names_the_customisation_id() {
    let err = GetVoiceError::classify_status(401, String::from("custom-id-123")).unwrap();
    let message = err.message();
    assert!(message.contains("custom-id-123"));
    assert_eq!(
        message,
        "The specified customisation_id custom-id-123 is invalid for the requesting credentials"
    );
}

#[test]
fn get_voice_distinct_statuses_give_distinct_variants() {
    let mapped = [304u16, 400, 401, 406, 415, 500, 503];
    for &a in mapped.iter() {
        for &b in mapped.iter() {
            let va = GetVoiceError::classify_status(a, String::from("x")).unwrap();
            let vb = GetVoiceError::classify_status(b, String::from("x")).unwrap();
            if a == b {
                assert_eq!(va, vb);
            } else {
                assert_ne!(va, vb);
            }
        }
    }
}

#[test]
fn get_voice_classification_is_idempotent() {
    for status in [304u16, 400, 401, 406, 415, 500, 503, 404] {
        assert_eq!(
            GetVoiceError::classify_status(status, String::from("same-id")),
            GetVoiceError::classify_status(status, String::from("same-id"))
        );
    }
}

#[test]
fn get_voice_messages_are_fixed() {
    assert_eq!(
        GetVoiceError::NotModified304.message(),
        "The requested resource has not been modified since the time specified by the \
         If-Modified-Since header, as documented in the HTTP specification"
    );
    assert_eq!(
        GetVoiceError::BadRequest400.message(),
        "A required input parameter is null or a specified input parameter or header value \
         is invalid or not supported. Please check your customisation id"
    );
    assert_eq!(
        GetVoiceError::ServiceUnavailable503.message(),
        "The service is currently unavailable."
    );
}

#[test]
fn get_voice_transport_failure_keeps_the_description() {
    let err = GetVoiceError::classify_transport_failure(String::from("timed out"));
    assert_eq!(
        err,
        GetVoiceError::ConnectionError(String::from("timed out"))
    );
    assert_eq!(err.message(), "timed out");
}

use fastly_http_client::connector::{into_connector_error, ConnectorError};
use fastly_http_client::error::{classify, ErrorClass, RootCause, SendFailure};

fn class_of(cause: RootCause) -> ErrorClass {
    classify(&SendFailure { cause })
}

#[test]
fn io_causes_classify_as_io_failure() {
    let io_causes = [
        RootCause::DnsError,
        RootCause::ConnectionRefused,
        RootCause::ConnectionTerminated,
        RootCause::ConnectionLimitReached,
        RootCause::TlsProtocolError,
        RootCause::TlsAlertReceived,
        RootCause::TlsConfigurationError,
        RootCause::HttpIncompleteResponse,
        RootCause::HttpResponseHeaderSectionTooLarge,
        RootCause::HttpResponseBodyTooLarge,
        RootCause::HttpProtocolError,
    ];
    for cause in io_causes {
        assert_eq!(class_of(cause), ErrorClass::IoFailure);
    }
}

#[test]
fn timeout_causes_classify_as_timeout() {
    let timeout_causes = [
        RootCause::DnsTimeout,
        RootCause::ConnectionTimeout,
        RootCause::HttpResponseTimeout,
    ];
    for cause in timeout_causes {
        assert_eq!(class_of(cause), ErrorClass::Timeout);
    }
}

#[test]
fn unlisted_cause_classifies_as_other() {
    assert_eq!(class_of(RootCause::Unlisted), ErrorClass::Other);
}

#[test]
fn buffer_size_exceeded_classifies_as_other() {
    assert_eq!(class_of(RootCause::BufferSizeExceeded), ErrorClass::Other);
}

#[test]
fn classification_is_total() {
    let every_cause = [
        RootCause::DnsError,
        RootCause::DnsTimeout,
        RootCause::ConnectionRefused,
        RootCause::ConnectionTerminated,
        RootCause::ConnectionLimitReached,
        RootCause::ConnectionTimeout,
        RootCause::TlsProtocolError,
        RootCause::TlsAlertReceived,
        RootCause::TlsConfigurationError,
        RootCause::HttpIncompleteResponse,
        RootCause::HttpResponseHeaderSectionTooLarge,
        RootCause::HttpResponseBodyTooLarge,
        RootCause::HttpResponseTimeout,
        RootCause::HttpProtocolError,
        RootCause::BufferSizeExceeded,
        RootCause::Unlisted,
    ];
    for cause in every_cause {
        let class = class_of(cause);
        assert!(matches!(
            class,
            ErrorClass::IoFailure | ErrorClass::Timeout | ErrorClass::Other
        ));
    }
}

#[test]
fn connector_error_carries_the_failure() {
    let io = SendFailure { cause: RootCause::ConnectionTerminated };
    assert_eq!(into_connector_error(io), ConnectorError::Io(io));

    let timeout = SendFailure { cause: RootCause::DnsTimeout };
    assert_eq!(into_connector_error(timeout), ConnectorError::Timeout(timeout));

    let other = SendFailure { cause: RootCause::Unlisted };
    assert_eq!(into_connector_error(other), ConnectorError::Other(other));
}

use beep_sfu::logging::Fields;
use beep_sfu::logging::Log;
use beep_sfu::logging::LogSource;
use beep_sfu::logging::Span;
use beep_sfu::logging::log_source_of_thread;

#[test]
fn source_labels_read_back() {
    assert_eq!(
        LogSource::from_str("signalling_server"),
        LogSource::SignallingServer
    );
    assert_eq!(LogSource::from_str("main"), LogSource::Main);
    assert_eq!(LogSource::from_str("transport"), LogSource::Transport);
    assert_eq!(LogSource::from_str("anything else"), LogSource::Main);
    assert_eq!(LogSource::from_str(""), LogSource::Main);
}

#[test]
fn source_labels_round_trip() {
    for source in [
        LogSource::SignallingServer,
        LogSource::Main,
        LogSource::Transport,
    ] {
        assert_eq!(LogSource::from_str(source.to_str()), source);
    }
}

#[test]
fn thread_names_classify_records() {
    assert_eq!(
        log_source_of_thread("actix-rt|system:0|arbiter:1"),
        LogSource::SignallingServer
    );
    assert_eq!(log_source_of_thread("main"), LogSource::Main);
    assert_eq!(log_source_of_thread("ThreadId(12)"), LogSource::Transport);
    assert_eq!(log_source_of_thread("tokio-worker"), LogSource::Main);
    assert_eq!(log_source_of_thread(""), LogSource::Main);
}

#[test]
fn log_records_hold_their_fields() {
    let record = Log {
        timestamp: String::from("2024-05-01T12:00:00Z"),
        level: String::from("INFO"),
        fields: Fields {
            message: String::from("listening"),
        },
        target: String::from("transport"),
        span: Some(Span {
            name: String::from("worker"),
        }),
        spans: Some(vec![Span {
            name: String::from("main"),
        }]),
        thread_name: String::from("ThreadId(3)"),
    };
    assert_eq!(record.fields.message, "listening");
    assert_eq!(record.span.as_ref().unwrap().name, "worker");
    assert_eq!(log_source_of_thread(&record.thread_name), LogSource::Transport);
}

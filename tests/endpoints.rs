use lab_endpoints::clock::{now_ms, now_rfc3339, stamp};
use lab_endpoints::config::read_reply;
use lab_endpoints::gate::{gate_reply, maintenance_note};
use lab_endpoints::http::{http_response, request_path, status_line};
use lab_endpoints::logger::{log_line, log_name_of, write_reply, Logger};
use lab_endpoints::pressure::{
    create_reply, nofile_soft_or_default, progress_note, request_file_name, request_line,
    saturation_note, Guards, Saturation, ACCEPT_RESERVE, FILL_CAP, HANDLER_GUARDS,
};
use lab_endpoints::reply::{error_reply, is_health, ok_reply, Failure, Service};
use lab_endpoints::text::{decimal, join_path};

#[test]
fn health_is_ok_on_every_service() {
    let expected = [
        (Service::Logger, "{\"service\":\"endpoint2\",\"ok\":true}"),
        (Service::Gate, "{\"service\":\"endpoint3\",\"ok\":true}"),
        (Service::Pressurizer, "{\"service\":\"endpoint4\",\"ok\":true}"),
        (Service::ConfigReader, "{\"service\":\"endpoint5\",\"ok\":true}"),
    ];
    for (s, body) in expected {
        let r = ok_reply(s);
        assert_eq!(r.status, 200);
        assert_eq!(r.body, body);
        assert!(r.body.contains("\"ok\":true"));
        assert_eq!(r.content_type(), "application/json");
    }
}

#[test]
fn every_reply_is_json() {
    for f in [
        Failure::WriteFailed,
        Failure::Maintenance,
        Failure::TooManyOpenFiles,
        Failure::ConfigReadFailed,
    ] {
        assert_eq!(error_reply(Service::Logger, f).content_type(), "application/json");
    }
    let text = http_response(&create_reply(false));
    assert!(text.contains("\r\nContent-Type: application/json\r\n"));
}

#[test]
fn health_route_matching() {
    assert!(is_health("/health"));
    assert!(is_health("/health?"));
    assert!(is_health("/health?verbose=1"));
    assert!(!is_health("/healthz"));
    assert!(!is_health("/healt"));
    assert!(!is_health("/"));
    assert!(!is_health(""));
    assert!(!is_health("/x/health"));
}

#[test]
fn decimal_text() {
    assert_eq!(decimal(0), "0");
    assert_eq!(decimal(7), "7");
    assert_eq!(decimal(10), "10");
    assert_eq!(decimal(1700000000123), "1700000000123");
    assert_eq!(decimal(u128::MAX), u128::MAX.to_string());
}

#[test]
fn path_joining() {
    assert_eq!(join_path("/var/log/endpoint2", "logs"), "/var/log/endpoint2/logs");
    assert_eq!(join_path("/var/log/endpoint2/", "logs"), "/var/log/endpoint2/logs");
    assert_eq!(join_path("", "logs"), "logs");
}

#[test]
fn log_names_and_lines() {
    assert_eq!(log_name_of(1700000000123, 3), "req-1700000000123-3.log");
    assert_eq!(log_line("/", 42), "path=/ time_ms=42\n");
    assert_eq!(log_line("/a?b=c", 0), "path=/a?b=c time_ms=0\n");
}

#[test]
fn logger_paths_are_unique_and_counter_grows() {
    let mut l = Logger::new("/var/log/endpoint2");
    assert_eq!(l.counter(), 0);
    assert_eq!(l.logs_dir(), "/var/log/endpoint2/logs");
    let p1 = l.next_log_path(5);
    assert_eq!(l.counter(), 1);
    let p2 = l.next_log_path(5);
    assert_eq!(l.counter(), 2);
    assert_eq!(p1, "/var/log/endpoint2/logs/req-5-0.log");
    assert_eq!(p2, "/var/log/endpoint2/logs/req-5-1.log");
    assert_ne!(p1, p2);
    let c = l.next_counter();
    assert_eq!(c, 2);
    assert_eq!(l.counter(), 3);
}

#[test]
fn logger_happy_path_reply() {
    let mut l = Logger::new("/tmp/lab");
    let path = l.next_log_path(1700000000000);
    assert!(path.starts_with("/tmp/lab/logs/req-1700000000000-0") && path.ends_with(".log"));
    let r = write_reply(Some(&path));
    assert_eq!(r.status, 200);
    assert_eq!(
        r.body,
        "{\"service\":\"endpoint2\",\"ok\":true,\"logged\":\"/tmp/lab/logs/req-1700000000000-0.log\"}"
    );
}

#[test]
fn logger_write_failure_reply() {
    let r = write_reply(None);
    assert_eq!(r.status, 500);
    assert_eq!(r.body, "{\"service\":\"endpoint2\",\"ok\":false,\"error\":\"WRITE_FAILED\"}");
}

#[test]
fn gate_with_and_without_lock() {
    let r = gate_reply(true);
    assert_eq!(r.status, 503);
    assert_eq!(r.body, "{\"service\":\"endpoint3\",\"ok\":false,\"error\":\"MAINTENANCE\"}");
    assert!(r.body.contains("\"error\":\"MAINTENANCE\""));
    let r = gate_reply(false);
    assert_eq!(r.status, 200);
    assert_eq!(r.body, "{\"service\":\"endpoint3\",\"ok\":true}");
}

#[test]
fn gate_note_names_lock_and_url() {
    assert_eq!(
        maintenance_note("12ms_since_epoch", "/tmp/m.lock", "/foo"),
        "12ms_since_epoch LOCK PRESENT at /tmp/m.lock -> refusing request to /foo"
    );
}

#[test]
fn pressurizer_replies() {
    let r = create_reply(false);
    assert_eq!(r.status, 503);
    assert_eq!(
        r.body,
        "{\"service\":\"endpoint4\",\"ok\":false,\"error\":\"EMFILE_TOO_MANY_OPEN_FILES\"}"
    );
    let r = create_reply(true);
    assert_eq!(r.status, 200);
    assert_eq!(r.body, "{\"service\":\"endpoint4\",\"ok\":true}");
    assert_eq!(request_file_name(99), "req-99.bin");
    assert_eq!(request_line(99), "ok 99\n");
}

#[test]
fn saturation_stops_at_first_failure() {
    let mut s = Saturation::new();
    let mut reports = 0;
    let mut names = Vec::new();
    while !s.is_done() {
        names.push(s.next_fill_name());
        let ok = s.opened_count() < 100;
        if s.record_open(ok) {
            reports += 1;
        }
    }
    assert_eq!(s.opened_count(), 100);
    assert_eq!(names[0], "fill-0.bin");
    assert_eq!(names[100], "fill-100.bin");
    assert_eq!(reports, 3);
    assert_eq!(s.release_count(), ACCEPT_RESERVE + HANDLER_GUARDS);
    assert_eq!(s.retained(), 91);
}

#[test]
fn saturation_stops_at_cap() {
    let mut s = Saturation::new();
    while !s.is_done() {
        s.record_open(true);
    }
    assert_eq!(s.opened_count(), FILL_CAP);
    assert_eq!(s.retained(), FILL_CAP - 9);
}

#[test]
fn saturation_with_few_files_releases_all() {
    let mut s = Saturation::new();
    for _ in 0..4 {
        s.record_open(true);
    }
    s.record_open(false);
    assert!(s.is_done());
    assert_eq!(s.release_count(), 4);
    assert_eq!(s.retained(), 0);
}

#[test]
fn guards_are_bounded() {
    let mut g = Guards::new();
    while g.wants_more() {
        g.record_open(true);
    }
    assert_eq!(g.count(), HANDLER_GUARDS);
    let mut g = Guards::new();
    g.record_open(true);
    g.record_open(true);
    g.record_open(false);
    assert!(!g.wants_more());
    assert_eq!(g.count(), 2);
}

#[test]
fn request_path_parsing() {
    assert_eq!(request_path("GET /health HTTP/1.0\r\nHost: x\r\n\r\n"), "/health");
    assert_eq!(request_path("GET /x?y=1 HTTP/1.1\r\n"), "/x?y=1");
    assert_eq!(request_path("  GET \t /spaced   HTTP/1.0"), "/spaced");
    assert_eq!(request_path(""), "/");
    assert_eq!(request_path("GET"), "/");
    assert_eq!(request_path("GET \n/other HTTP/1.0"), "/");
    assert_eq!(request_path("GET /end"), "/end");
}

#[test]
fn http_response_text() {
    let text = http_response(&ok_reply(Service::Pressurizer));
    assert_eq!(
        text,
        "HTTP/1.0 200 OK\r\nServer: lab-endpoint4\r\nContent-Type: application/json\r\nContent-Length: 33\r\nConnection: close\r\n\r\n{\"service\":\"endpoint4\",\"ok\":true}"
    );
    let text = http_response(&create_reply(false));
    assert!(text.starts_with("HTTP/1.0 503 Service Unavailable\r\n"));
    assert!(text.contains("Content-Length: 71\r\n"));
    assert_eq!(status_line(500), "500 Internal Server Error");
    assert_eq!(status_line(404), "404");
}

#[test]
fn config_happy_path() {
    let r = read_reply(Some("{\"a\":1}".len()));
    assert_eq!(r.status, 200);
    assert_eq!(r.body, "{\"service\":\"endpoint5\",\"ok\":true,\"config_len\":7}");
    let r = read_reply(Some(0));
    assert_eq!(r.body, "{\"service\":\"endpoint5\",\"ok\":true,\"config_len\":0}");
}

#[test]
fn config_missing() {
    let r = read_reply(None);
    assert_eq!(r.status, 500);
    assert_eq!(r.body, "{\"service\":\"endpoint5\",\"ok\":false,\"error\":\"CONFIG_READ_FAILED\"}");
}

#[test]
fn clock_and_stamps() {
    assert_eq!(stamp(5), "5ms_since_epoch");
    let a = now_ms();
    let b = now_ms();
    assert!(a > 0 && b >= a);
    let s = now_rfc3339();
    assert!(s.ends_with("ms_since_epoch"));
    assert!(s[..s.len() - 14].chars().all(|c| c.is_ascii_digit()));
}

#[test]
fn pressurizer_notes_and_limits() {
    assert_eq!(progress_note(32), "[endpoint4] pre-opened 32 files...");
    assert_eq!(
        saturation_note(1024, 1000),
        "[endpoint4] RLIMIT_NOFILE soft=1024 held_after_reserve=1000 (reserve_total=ACCEPT:1 + GUARDS:8)"
    );
    assert_eq!(nofile_soft_or_default(true, 4096), 4096);
    assert_eq!(nofile_soft_or_default(false, 4096), 1024);
}

use alvr_dashboard::endpoints::{dashboard_request_url, events_url};
use alvr_dashboard::event::{Event, EventSeverity, EventType, LogEvent};
use alvr_dashboard::logging::{
    is_event_text, log_line, log_sink, max_level, record_event, LogSink, RecordLevel,
};
use alvr_dashboard::session::SessionDocument;
use alvr_dashboard::settings::{
    CodecType, EncoderQualityPreset, EntropyCoding, NvencAdaptiveQuantizationMode, NvencMultiPass,
    NvencTuningPreset, OculusFovetionLevel, RateControlMode, Switch,
};
use alvr_dashboard::worker::gui_handler::{
    get_drivers, handle_msg, Call, DashboardEvent, DriverResponse, Expected, FirewallRulesResponse,
    Plan, WorkerRequest,
};

#[test]
fn the_addresses_of_the_server() {
    assert_eq!(dashboard_request_url(8082), "http://localhost:8082/api/dashboard-request");
    assert_eq!(events_url(8082), "ws://localhost:8082/api/events");
    assert_eq!(events_url(0), "ws://localhost:0/api/events");
    assert_eq!(events_url(9), "ws://localhost:9/api/events");
    assert_eq!(events_url(10), "ws://localhost:10/api/events");
    assert_eq!(dashboard_request_url(65535), "http://localhost:65535/api/dashboard-request");
    assert_eq!(dashboard_request_url(1000), "http://localhost:1000/api/dashboard-request");
}

#[test]
fn log_lines_are_put_together() {
    assert_eq!(
        log_line("12:00:01.5", RecordLevel::Warn, "low bitrate"),
        "12:00:01.5 [WARN] low bitrate"
    );
    assert_eq!(
        log_line("t", RecordLevel::Info, "{\"id\":\"Session\"}"),
        "t [INFO] #{\"id\":\"Session\"}#"
    );
    assert_eq!(log_line("", RecordLevel::Error, ""), " [ERROR] ");
    assert_eq!(log_line("t", RecordLevel::Debug, "d"), "t [DEBUG] d");
    assert_eq!(log_line("t", RecordLevel::Trace, " {"), "t [TRACE]  {");
    assert!(is_event_text("{}"));
    assert!(!is_event_text(""));
    assert!(!is_event_text("a{"));
}

#[test]
fn records_become_events() {
    let event = record_event("t".to_string(), RecordLevel::Trace, "plain".to_string(), None);
    assert_eq!(
        event,
        Event {
            timestamp: "t".to_string(),
            event_type: EventType::Log(LogEvent {
                severity: EventSeverity::Debug,
                content: "plain".to_string()
            }),
        }
    );
    let carried = EventType::Session(Box::new(SessionDocument::new("s".to_string())));
    let event = record_event(
        "t".to_string(),
        RecordLevel::Info,
        "{...}".to_string(),
        Some(EventType::Session(Box::new(SessionDocument::new("s".to_string())))),
    );
    assert_eq!(event, Event { timestamp: "t".to_string(), event_type: carried });
    // a message that is plain text ignores what is handed in beside it
    let event = record_event(
        "t".to_string(),
        RecordLevel::Error,
        "boom".to_string(),
        Some(EventType::ServerRequestsSelfRestart),
    );
    assert_eq!(
        event.event_type,
        EventType::Log(LogEvent { severity: EventSeverity::Error, content: "boom".to_string() })
    );
    assert_eq!(RecordLevel::Warn.severity(), EventSeverity::Warning);
    assert_eq!(RecordLevel::Info.severity(), EventSeverity::Info);
    assert_eq!(RecordLevel::Debug.severity(), EventSeverity::Debug);
}

#[test]
fn where_the_log_goes() {
    assert_eq!(log_sink(true, true), LogSink::SessionLog);
    assert_eq!(log_sink(true, false), LogSink::SessionLog);
    assert_eq!(log_sink(false, true), LogSink::Null);
    assert_eq!(log_sink(false, false), LogSink::Stdout);
    assert_eq!(max_level(true), RecordLevel::Debug);
    assert_eq!(max_level(false), RecordLevel::Info);
}

fn plain(url: &str, expected: Expected) -> Call {
    Call { url: url.to_string(), body: None, expected }
}

#[test]
fn the_worker_plans_its_calls() {
    let base = "http://localhost:8082";
    assert_eq!(handle_msg(DashboardEvent::Quit, base), Plan { quit: true, calls: vec![] });
    assert_eq!(
        handle_msg(DashboardEvent::GetSession, base),
        Plan {
            quit: false,
            calls: vec![plain("http://localhost:8082/api/session/load", Expected::Session)]
        }
    );
    assert_eq!(
        handle_msg(DashboardEvent::GetDrivers, base),
        Plan {
            quit: false,
            calls: vec![plain("http://localhost:8082/api/driver/list", Expected::Drivers)]
        }
    );
    assert_eq!(get_drivers("b"), plain("b/api/driver/list", Expected::Drivers));
    assert_eq!(
        handle_msg(
            DashboardEvent::Dashboard(WorkerRequest::SessionUpdated("{\"a\":1}".to_string())),
            base
        ),
        Plan {
            quit: false,
            calls: vec![Call {
                url: "http://localhost:8082/api/session/store".to_string(),
                body: Some("{\"session\": {\"a\":1}}".to_string()),
                expected: Expected::Nothing,
            }]
        }
    );
    assert_eq!(
        handle_msg(DashboardEvent::Dashboard(WorkerRequest::RestartSteamVR), base),
        Plan {
            quit: false,
            calls: vec![plain("http://localhost:8082/restart-steamvr", Expected::Nothing)]
        }
    );
    assert_eq!(
        handle_msg(
            DashboardEvent::Dashboard(WorkerRequest::Driver(DriverResponse::RegisterAlvr)),
            base
        ),
        Plan {
            quit: false,
            calls: vec![
                plain("http://localhost:8082/api/driver/register", Expected::Nothing),
                plain("http://localhost:8082/api/driver/list", Expected::Drivers),
            ]
        }
    );
    assert_eq!(
        handle_msg(
            DashboardEvent::Dashboard(WorkerRequest::Driver(DriverResponse::Unregister(
                "C:\\alvr".to_string()
            ))),
            base
        ),
        Plan {
            quit: false,
            calls: vec![
                Call {
                    url: "http://localhost:8082/api/driver/unregister".to_string(),
                    body: Some("\"C:\\alvr\"".to_string()),
                    expected: Expected::Nothing,
                },
                plain("http://localhost:8082/api/driver/list", Expected::Drivers),
            ]
        }
    );
    assert_eq!(
        handle_msg(
            DashboardEvent::Dashboard(WorkerRequest::Firewall(FirewallRulesResponse::Add)),
            base
        ),
        Plan {
            quit: false,
            calls: vec![plain("http://localhost:8082/api/firewall-rules/add", Expected::Nothing)]
        }
    );
    assert_eq!(
        handle_msg(
            DashboardEvent::Dashboard(WorkerRequest::Firewall(FirewallRulesResponse::Remove)),
            base
        ),
        Plan {
            quit: false,
            calls: vec![plain(
                "http://localhost:8082/api/firewall-rules/remove",
                Expected::Nothing
            )]
        }
    );
    assert_eq!(
        handle_msg(DashboardEvent::Dashboard(WorkerRequest::Other), base),
        Plan { quit: false, calls: vec![] }
    );
}

#[test]
fn the_numbers_behind_the_settings() {
    assert_eq!(EncoderQualityPreset::Quality.code(), 0);
    assert_eq!(EncoderQualityPreset::Balanced.code(), 1);
    assert_eq!(EncoderQualityPreset::Speed.code(), 2);
    assert_eq!(NvencTuningPreset::HighQuality.code(), 1);
    assert_eq!(NvencTuningPreset::LowLatency.code(), 2);
    assert_eq!(NvencTuningPreset::UltraLowLatency.code(), 3);
    assert_eq!(NvencTuningPreset::Lossless.code(), 4);
    assert_eq!(NvencMultiPass::Disabled.code(), 0);
    assert_eq!(NvencMultiPass::QuarterResolution.code(), 1);
    assert_eq!(NvencMultiPass::FullResolution.code(), 2);
    assert_eq!(NvencAdaptiveQuantizationMode::Disabled.code(), 0);
    assert_eq!(NvencAdaptiveQuantizationMode::Spatial.code(), 1);
    assert_eq!(NvencAdaptiveQuantizationMode::Temporal.code(), 2);
    assert_eq!(RateControlMode::Cbr.code(), 0);
    assert_eq!(RateControlMode::Vbr.code(), 1);
    assert_eq!(EntropyCoding::Cavlc.code(), 1);
    assert_eq!(EntropyCoding::Cabac.code(), 0);
    assert_eq!(OculusFovetionLevel::NoFoveation.code(), 0);
    assert_eq!(OculusFovetionLevel::Low.code(), 1);
    assert_eq!(OculusFovetionLevel::Medium.code(), 2);
    assert_eq!(OculusFovetionLevel::High.code(), 3);
    assert_eq!(OculusFovetionLevel::HighTop.code(), 4);
    assert_eq!(CodecType::H264.code(), 0);
    assert_eq!(CodecType::Hevc.code(), 1);
    assert_eq!(Switch::Enabled(3).as_option(), Some(&3));
    assert_eq!(Switch::<u8>::Disabled.as_option(), None);
    assert_eq!(Switch::Enabled("x").into_option(), Some("x"));
    assert_eq!(Switch::<u8>::Disabled.into_option(), None);
}

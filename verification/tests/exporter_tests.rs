use hue_exporter::hue_client::{
    AuthError, AuthResponse, AuthResponseError, AuthResponseSuccess, HueClient, Light, LightState,
    Sensor, SensorConfig, SensorState,
};
use hue_exporter::metrics::{collect_samples, label_names, LightMetric, Metric, Sample, SensorMetric};
use hue_exporter::service::{
    auth_flow_step, index_page, token_instructions, AuthFlowStep, Config, INDEX_CONTENT_TYPE,
    METRICS_CONTENT_TYPE, NO_TOKEN_NOTICE,
};
use hue_exporter::text::{push_decimal, push_signed_decimal};

fn bare_sensor(name: &str, device_type: &str, on: bool) -> Sensor {
    Sensor {
        device_type: device_type.to_string(),
        name: name.to_string(),
        state: SensorState {
            lastupdated: "none".to_string(),
            daylight: None,
            flag: None,
            presence: None,
            dark: None,
            status: None,
            buttonevent: None,
            temperature: None,
            lightlevel: None,
        },
        config: SensorConfig {
            on,
            configured: None,
            sunriseoffset: None,
            sunsetoffset: None,
            reachable: None,
            battery: None,
            alert: None,
            ledindication: None,
            usertest: None,
            sensitivity: None,
            sensitivitymax: None,
            tholddark: None,
            tholdoffset: None,
        },
    }
}

fn full_sensor() -> Sensor {
    Sensor {
        device_type: "ZLLPresence".to_string(),
        name: "Hall".to_string(),
        state: SensorState {
            lastupdated: "2021-05-03T10:00:00".to_string(),
            daylight: Some(true),
            flag: Some(false),
            presence: Some(true),
            dark: Some(false),
            status: Some(3),
            buttonevent: Some(1002),
            temperature: Some(2134),
            lightlevel: Some(14000),
        },
        config: SensorConfig {
            on: true,
            configured: Some(true),
            sunriseoffset: Some(30),
            sunsetoffset: Some(-30),
            reachable: Some(false),
            battery: Some(87),
            alert: Some("none".to_string()),
            ledindication: Some(false),
            usertest: Some(true),
            sensitivity: Some(2),
            sensitivitymax: Some(4),
            tholddark: Some(16000),
            tholdoffset: Some(7000),
        },
    }
}

fn light(name: &str, bri: Option<i64>, ct: Option<i64>) -> Light {
    Light {
        device_type: "Color temperature light".to_string(),
        name: name.to_string(),
        state: LightState { reachable: true, on: false, bri, hue: None, sat: None, ct },
    }
}

fn sample(metric: Metric, name: &str, device_type: &str, value: i64) -> Sample {
    Sample { metric, name: name.to_string(), device_type: device_type.to_string(), value }
}

fn success(username: &str) -> AuthResponse {
    AuthResponse {
        error: None,
        success: Some(AuthResponseSuccess { username: username.to_string() }),
    }
}

fn failure(code: i64, description: &str) -> AuthResponse {
    AuthResponse {
        error: Some(AuthResponseError { error_type: code, description: description.to_string() }),
        success: None,
    }
}

#[test]
fn client_urls() {
    let client = HueClient::new("abc123".to_string(), "http://bridge.local".to_string());
    assert_eq!(client.sensors_url(), "http://bridge.local/api/abc123/sensors");
    assert_eq!(client.lights_url(), "http://bridge.local/api/abc123/lights");
    assert_eq!(HueClient::authorize_url("http://bridge.local"), "http://bridge.local/api");
    assert_eq!(HueClient::device_type(), "hue_exporter");
}

#[test]
fn authorization_grants_token_of_single_success() {
    let rs = vec![success("n3wt0k3n")];
    assert_eq!(HueClient::authorization_outcome(&rs), Ok("n3wt0k3n".to_string()));
}

#[test]
fn authorization_needs_link_button() {
    let rs = vec![failure(101, "link button not pressed")];
    let res = HueClient::authorization_outcome(&rs);
    assert_eq!(res, Err(AuthError::LinkButtonNotPressed));
    assert_eq!(
        res.unwrap_err().message(),
        "You now need to push the link button on your Hue bridge."
    );
}

#[test]
fn authorization_reports_other_bridge_errors() {
    let rs = vec![failure(7, "invalid value")];
    let res = HueClient::authorization_outcome(&rs);
    assert_eq!(
        res,
        Err(AuthError::Bridge { error_type: 7, description: "invalid value".to_string() })
    );
    assert_eq!(res.unwrap_err().message(), "received response 7 (invalid value)");
}

#[test]
fn authorization_error_wins_over_success() {
    let rs = vec![AuthResponse {
        error: Some(AuthResponseError { error_type: 2, description: "body".to_string() }),
        success: Some(AuthResponseSuccess { username: "u".to_string() }),
    }];
    assert_eq!(
        HueClient::authorization_outcome(&rs),
        Err(AuthError::Bridge { error_type: 2, description: "body".to_string() })
    );
}

#[test]
fn authorization_wants_exactly_one_element() {
    let none: Vec<AuthResponse> = vec![];
    let res = HueClient::authorization_outcome(&none);
    assert_eq!(res, Err(AuthError::UnexpectedLength(0)));
    assert_eq!(res.unwrap_err().message(), "expected response with one element, got 0");
    let two = vec![success("a"), success("b")];
    let res = HueClient::authorization_outcome(&two);
    assert_eq!(res, Err(AuthError::UnexpectedLength(2)));
    assert_eq!(res.unwrap_err().message(), "expected response with one element, got 2");
}

#[test]
fn authorization_without_success() {
    let rs = vec![AuthResponse { error: None, success: None }];
    let res = HueClient::authorization_outcome(&rs);
    assert_eq!(res, Err(AuthError::NoSuccess));
    assert_eq!(res.unwrap_err().message(), "somehow received no response????");
}

#[test]
fn error_messages_render_numbers() {
    assert_eq!(
        AuthError::UnexpectedLength(1234567).message(),
        "expected response with one element, got 1234567"
    );
    assert_eq!(
        AuthError::Bridge { error_type: -42, description: "odd".to_string() }.message(),
        "received response -42 (odd)"
    );
    assert_eq!(
        AuthError::Bridge { error_type: i64::MIN, description: String::new() }.message(),
        "received response -9223372036854775808 ()"
    );
}

#[test]
fn decimal_rendering() {
    let mut s = String::from("n=");
    push_decimal(&mut s, 0);
    assert_eq!(s, "n=0");
    let mut s = String::new();
    push_decimal(&mut s, u64::MAX);
    assert_eq!(s, u64::MAX.to_string());
    let mut s = String::new();
    push_decimal(&mut s, 1000);
    assert_eq!(s, "1000");
    let mut s = String::new();
    push_signed_decimal(&mut s, -1);
    assert_eq!(s, "-1");
    let mut s = String::new();
    push_signed_decimal(&mut s, i64::MAX);
    assert_eq!(s, i64::MAX.to_string());
}

#[test]
fn full_sensor_reports_every_gauge_in_order() {
    let s = full_sensor();
    let n = "Hall";
    let t = "ZLLPresence";
    let expected = vec![
        sample(Metric::Sensor(SensorMetric::ConfigOn), n, t, 1),
        sample(Metric::Sensor(SensorMetric::ConfigConfigured), n, t, 1),
        sample(Metric::Sensor(SensorMetric::ConfigSunriseoffset), n, t, 30),
        sample(Metric::Sensor(SensorMetric::ConfigSunsetoffset), n, t, -30),
        sample(Metric::Sensor(SensorMetric::ConfigReachable), n, t, 0),
        sample(Metric::Sensor(SensorMetric::ConfigBattery), n, t, 87),
        sample(Metric::Sensor(SensorMetric::ConfigLedindication), n, t, 0),
        sample(Metric::Sensor(SensorMetric::ConfigUsertest), n, t, 1),
        sample(Metric::Sensor(SensorMetric::ConfigSensitivity), n, t, 2),
        sample(Metric::Sensor(SensorMetric::ConfigSensitivitymax), n, t, 4),
        sample(Metric::Sensor(SensorMetric::ConfigTholddark), n, t, 16000),
        sample(Metric::Sensor(SensorMetric::ConfigTholdoffset), n, t, 7000),
        sample(Metric::Sensor(SensorMetric::StateDaylight), n, t, 1),
        sample(Metric::Sensor(SensorMetric::StateFlag), n, t, 0),
        sample(Metric::Sensor(SensorMetric::StatePresence), n, t, 1),
        sample(Metric::Sensor(SensorMetric::StateDark), n, t, 0),
        sample(Metric::Sensor(SensorMetric::StateStatus), n, t, 3),
        sample(Metric::Sensor(SensorMetric::StateButtonevent), n, t, 1002),
        sample(Metric::Sensor(SensorMetric::StateTemperature), n, t, 2134),
        sample(Metric::Sensor(SensorMetric::StateLightlevel), n, t, 14000),
    ];
    assert_eq!(s.samples(), expected);
}

#[test]
fn bare_sensor_reports_only_on() {
    let s = bare_sensor("Switch", "ZLLSwitch", false);
    assert_eq!(
        s.samples(),
        vec![sample(Metric::Sensor(SensorMetric::ConfigOn), "Switch", "ZLLSwitch", 0)]
    );
    assert_eq!(s.value_for(SensorMetric::ConfigBattery), None);
    assert_eq!(s.value_for(SensorMetric::ConfigOn), Some(0));
}

#[test]
fn light_reports_flags_and_present_values() {
    let l = light("Desk", Some(254), None);
    let t = "Color temperature light";
    assert_eq!(
        l.samples(),
        vec![
            sample(Metric::Light(LightMetric::StateReachable), "Desk", t, 1),
            sample(Metric::Light(LightMetric::StateOn), "Desk", t, 0),
            sample(Metric::Light(LightMetric::StateBri), "Desk", t, 254),
        ]
    );
    let l = light("Lamp", None, Some(366));
    assert_eq!(l.value_for(LightMetric::StateCt), Some(366));
    assert_eq!(l.value_for(LightMetric::StateHue), None);
    assert_eq!(l.samples().len(), 3);
}

#[test]
fn samples_of_a_scrape_keep_device_order() {
    let sensors = vec![bare_sensor("A", "T1", true), bare_sensor("B", "T2", false)];
    let lights = vec![light("L", None, None)];
    let t = "Color temperature light";
    assert_eq!(
        collect_samples(&sensors, &lights),
        vec![
            sample(Metric::Sensor(SensorMetric::ConfigOn), "A", "T1", 1),
            sample(Metric::Sensor(SensorMetric::ConfigOn), "B", "T2", 0),
            sample(Metric::Light(LightMetric::StateReachable), "L", t, 1),
            sample(Metric::Light(LightMetric::StateOn), "L", t, 0),
        ]
    );
    assert_eq!(collect_samples(&vec![], &vec![]), vec![]);
}

#[test]
fn every_sample_names_its_device_and_each_gauge_once() {
    let s = full_sensor();
    let samples = s.samples();
    for (i, a) in samples.iter().enumerate() {
        assert_eq!(a.name, "Hall");
        assert_eq!(a.device_type, "ZLLPresence");
        for b in samples.iter().skip(i + 1) {
            assert_ne!(a.metric, b.metric);
        }
        assert!(matches!(a.metric, Metric::Sensor(_)));
    }
    assert!(samples
        .iter()
        .filter(|x| matches!(
            x.metric,
            Metric::Sensor(SensorMetric::ConfigOn)
                | Metric::Sensor(SensorMetric::StateDark)
                | Metric::Sensor(SensorMetric::ConfigReachable)
        ))
        .all(|x| x.value == 0 || x.value == 1));
}

#[test]
fn gauge_names_and_help() {
    let m = Metric::Sensor(SensorMetric::ConfigSunriseoffset);
    assert_eq!(m.name(), "hue_sensors_config_sunriseoffset");
    assert_eq!(m.help(), "Hue sensor value config_sunriseoffset");
    let m = Metric::Light(LightMetric::StateCt);
    assert_eq!(m.name(), "hue_lights_state_ct");
    assert_eq!(m.help(), "Hue light value state_ct");
    assert!(Metric::Sensor(SensorMetric::StateTemperature).in_hundredths());
    assert!(!Metric::Sensor(SensorMetric::StateLightlevel).in_hundredths());
    assert_eq!(label_names(), ["name", "device_type"]);
}

#[test]
fn gauge_names_are_distinct() {
    let mut names: Vec<String> = SensorMetric::report_order()
        .into_iter()
        .map(|m| Metric::Sensor(m).name())
        .collect();
    names.extend(LightMetric::report_order().into_iter().map(|m| Metric::Light(m).name()));
    assert_eq!(names.len(), 26);
    let mut sorted = names.clone();
    sorted.sort();
    sorted.dedup();
    assert_eq!(sorted.len(), 26);
}

#[test]
fn config_defaults() {
    let c = Config::from_env_values(None, None, None);
    assert_eq!(c.token, None);
    assert_eq!(c.bridge_url, "http://hue-bridge.local");
    assert_eq!(c.bind_addr, "127.0.0.1:9369");
    let c = Config::from_env_values(
        Some("tok".to_string()),
        Some("http://10.0.0.2".to_string()),
        Some("0.0.0.0:9000".to_string()),
    );
    assert_eq!(c.token, Some("tok".to_string()));
    assert_eq!(c.bridge_url, "http://10.0.0.2");
    assert_eq!(c.bind_addr, "0.0.0.0:9000");
}

#[test]
fn index_page_links_metrics_and_source() {
    assert_eq!(
        index_page("hue_exporter", "0.3.0", "https://example.org/src"),
        "<h1>hue_exporter 0.3.0</h1>\n<ul>\n<li><a href='/metrics'>Metrics</a></li>\n<li><a href=\"https://example.org/src\">Source code</a></li>\n</ul>\n"
    );
    assert_eq!(INDEX_CONTENT_TYPE, "text/html; charset=utf-8");
    assert_eq!(METRICS_CONTENT_TYPE, "text/plain; charset=utf-8");
}

#[test]
fn token_instructions_name_the_variable() {
    assert_eq!(
        token_instructions("s3cr3t"),
        vec![
            "Received a token!  Please set the following environment variable:".to_string(),
            "\tHUE_TOKEN=s3cr3t".to_string(),
            "and restart the hue_exporter.".to_string(),
        ]
    );
}

#[test]
fn authorization_flow_steps() {
    assert_eq!(
        auth_flow_step(&Ok("t0k".to_string())),
        AuthFlowStep::Finish(token_instructions("t0k"))
    );
    let message = AuthError::LinkButtonNotPressed.message();
    assert_eq!(
        auth_flow_step(&Err(message)),
        AuthFlowStep::Retry(vec![
            "You now need to push the link button on your Hue bridge.".to_string(),
            "Press [ENTER] to try again...".to_string(),
        ])
    );
    assert_eq!(NO_TOKEN_NOTICE, "HUE_TOKEN is not set, starting authorization flow...");
}

use krocore::data::{JudgeResult, JudgeState};
use krocore::verdict_json::verdict_json;

#[test]
fn rendering_matches_expected_text() {
    let jr = JudgeResult {
        cpu_time: 12,
        real_time: 34,
        memory: 5678,
        state: JudgeState::Accepted,
        exit_code: 0,
    };
    let bytes = verdict_json(&jr);
    let text = String::from_utf8(bytes).unwrap();
    let expected = "{\n  \"cpu_time\": 12,\n  \"real_time\": 34,\n  \"memory\": 5678,\n  \"state\": \"Accepted\",\n  \"exit_code\": 0\n}";
    assert_eq!(text, expected);
}

#[test]
fn rendering_handles_extreme_values() {
    let jr = JudgeResult {
        cpu_time: u64::MAX,
        real_time: 0,
        memory: 1,
        state: JudgeState::MemoryLimitExceeded,
        exit_code: -2147483648,
    };
    let text = String::from_utf8(verdict_json(&jr)).unwrap();
    assert!(text.contains("\"cpu_time\": 18446744073709551615,"));
    assert!(text.contains("\"real_time\": 0,"));
    assert!(text.contains("\"state\": \"MemoryLimitExceeded\","));
    assert!(text.contains("\"exit_code\": -2147483648\n}"));
}

#[test]
fn rendering_round_trips_through_a_json_parser() {
    let jr = JudgeResult {
        cpu_time: 1234,
        real_time: 4321,
        memory: 987654321,
        state: JudgeState::RealTimeLimitExceeded,
        exit_code: 42,
    };
    let text = String::from_utf8(verdict_json(&jr)).unwrap();
    let value: serde_json::Value = serde_json::from_str(&text).unwrap();
    assert_eq!(value["cpu_time"].as_u64(), Some(1234));
    assert_eq!(value["real_time"].as_u64(), Some(4321));
    assert_eq!(value["memory"].as_u64(), Some(987654321));
    assert_eq!(value["state"].as_str(), Some("RealTimeLimitExceeded"));
    assert_eq!(value["exit_code"].as_i64(), Some(42));
    assert_eq!(value.as_object().unwrap().len(), 5);
}

#[test]
fn every_state_name_is_rendered() {
    let states = [
        (JudgeState::SystemError, "SystemError"),
        (JudgeState::MemoryLimitExceeded, "MemoryLimitExceeded"),
        (JudgeState::RealTimeLimitExceeded, "RealTimeLimitExceeded"),
        (JudgeState::CpuTimeLimitExceeded, "CpuTimeLimitExceeded"),
        (JudgeState::RuntimeError, "RuntimeError"),
        (JudgeState::Accepted, "Accepted"),
    ];
    for (state, name) in states {
        let jr = JudgeResult { cpu_time: 0, real_time: 0, memory: 0, state, exit_code: 0 };
        let text = String::from_utf8(verdict_json(&jr)).unwrap();
        let value: serde_json::Value = serde_json::from_str(&text).unwrap();
        assert_eq!(value["state"].as_str(), Some(name));
    }
}

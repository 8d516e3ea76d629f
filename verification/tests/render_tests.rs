use stress_test::collector::Experiment;
use stress_test::outcome::ExperimentEntry;
use stress_test::render::{entry_json, experiment_json, result_file_name, u128_dec, u64_dec};

#[test]
fn decimal_rendering_exact_values() {
    assert_eq!(u64_dec(0).as_str(), "0");
    assert_eq!(u64_dec(7).as_str(), "7");
    assert_eq!(u64_dec(10).as_str(), "10");
    assert_eq!(u64_dec(30).as_str(), "30");
    assert_eq!(u64_dec(1_000_000).as_str(), "1000000");
    assert_eq!(u64_dec(u64::MAX).as_str(), "18446744073709551615");
    assert_eq!(u128_dec(u128::MAX).as_str(), "340282366920938463463374607431768211455");
}

#[test]
fn entry_rendering_exact_value() {
    let e = ExperimentEntry { success: true, time_us: 123 };
    assert_eq!(entry_json(&e).as_str(), "{\"success\":true,\"time_us\":123}");
    let e = ExperimentEntry { success: false, time_us: 0 };
    assert_eq!(entry_json(&e).as_str(), "{\"success\":false,\"time_us\":0}");
}

#[test]
fn experiment_rendering_exact_value() {
    let exp = Experiment {
        duration: 2,
        rps: 5,
        data: vec![
            ExperimentEntry { success: true, time_us: 123 },
            ExperimentEntry { success: false, time_us: 45 },
        ],
    };
    assert_eq!(
        experiment_json(&exp).as_str(),
        "{\"duration\":2,\"rps\":5,\"data\":[{\"success\":true,\"time_us\":123},{\"success\":false,\"time_us\":45}]}"
    );
}

#[test]
fn empty_experiment_rendering() {
    let exp = Experiment { duration: 30, rps: 1, data: vec![] };
    assert_eq!(experiment_json(&exp).as_str(), "{\"duration\":30,\"rps\":1,\"data\":[]}");
}

#[test]
fn writing_twice_is_byte_identical() {
    let exp = Experiment {
        duration: 9,
        rps: 4,
        data: vec![
            ExperimentEntry { success: true, time_us: 77 },
            ExperimentEntry { success: true, time_us: 88 },
        ],
    };
    let first = experiment_json(&exp);
    let second = experiment_json(&exp);
    assert_eq!(first.as_bytes(), second.as_bytes());
}

#[test]
fn file_name_for_thirty_seconds_at_one_rps() {
    assert_eq!(result_file_name(30, 1).as_str(), "30-1.json");
}

#[test]
fn file_name_other_configurations() {
    assert_eq!(result_file_name(2, 5).as_str(), "2-5.json");
    assert_eq!(result_file_name(120, 1000).as_str(), "120-1000.json");
}

#[test]
fn rendered_experiment_parses_back() {
    let exp = Experiment {
        duration: 30,
        rps: 1,
        data: vec![ExperimentEntry { success: true, time_us: 456 }],
    };
    let text = experiment_json(&exp);
    let value: serde_json::Value = serde_json::from_str(text.as_str()).unwrap();
    assert_eq!(value["duration"].as_u64(), Some(30));
    assert_eq!(value["rps"].as_u64(), Some(1));
    let data = value["data"].as_array().unwrap();
    assert_eq!(data.len(), 1);
    assert_eq!(data[0]["success"].as_bool(), Some(true));
    assert_eq!(data[0]["time_us"].as_u64(), Some(456));
}

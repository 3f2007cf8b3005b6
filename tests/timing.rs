use startino::{millis_string, run_timed, step_line, step_report};

#[test]
fn millis_have_three_decimals() {
    assert_eq!(millis_string(0), "0.000");
    assert_eq!(millis_string(12345), "12.345");
    assert_eq!(millis_string(1000), "1.000");
    assert_eq!(millis_string(7), "0.007");
}

#[test]
fn line_matches_fixed_width_format() {
    let micros: u128 = 12345;
    let ms = micros as f64 / 1000.0;
    assert_eq!(step_line("Creating Vulkan Instance.", micros), format!("[{ms:12.3} ms] Creating Vulkan Instance."));
    assert_eq!(step_line("x", 0), "[       0.000 ms] x");
}

#[test]
fn wide_values_are_not_cut() {
    assert_eq!(step_line("y", 123456789012345), "[123456789012.345 ms] y");
    assert_eq!(step_line("z", 1234567890123), "[1234567890.123 ms] z");
}

#[test]
fn failed_step_gets_no_line() {
    let r: Result<u32, String> = Err("boom".to_string());
    assert_eq!(step_report("step", 5, &r), None);
    let ok: Result<u32, String> = Ok(1);
    assert_eq!(step_report("step", 5, &ok), Some("[       0.005 ms] step".to_string()));
}

#[test]
fn runner_propagates_error_unchanged() {
    let out = run_timed("failing", || -> Result<u32, String> { Err("layer missing".to_string()) });
    assert_eq!(out.result, Err("layer missing".to_string()));
    assert!(out.line.is_none());
}

#[test]
fn runner_returns_value_and_line() {
    let mut calls = 0;
    let out = run_timed("ok", || -> Result<u32, String> {
        calls += 1;
        Ok(7)
    });
    assert_eq!(out.result, Ok(7));
    assert_eq!(calls, 1);
    let line = out.line.unwrap();
    assert!(line.starts_with('['));
    assert!(line.ends_with(" ms] ok"));
}

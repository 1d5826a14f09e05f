use smolpc_codehelper::hardware::{detect_cpu_model_heuristic, npu_from_brand_lower, NpuConfidence};
use smolpc_codehelper::text::text_contains;

#[test]
fn core_ultra_in_any_case_points_to_intel_npu() {
    let npu = detect_cpu_model_heuristic("Intel CORE ULTRA 7 155H").unwrap().unwrap();
    assert!(npu.detected);
    assert_eq!(npu.confidence, NpuConfidence::Medium);
    assert_eq!(npu.details, "Intel AI Boost NPU detected (Intel Core Ultra series)");
    assert_eq!(npu.method, "CPU model heuristic");
}

#[test]
fn snapdragon_and_ryzen_ai_are_recognised() {
    let q = npu_from_brand_lower("snapdragon x plus x1p-42-100").unwrap();
    assert_eq!(q.details, "Qualcomm Hexagon NPU detected (Snapdragon X Elite/Plus)");
    let a = detect_cpu_model_heuristic("AMD Ryzen AI 9 HX 370").unwrap().unwrap();
    assert_eq!(a.details, "AMD Ryzen AI NPU detected");
}

#[test]
fn other_processors_have_no_npu_guess() {
    assert!(detect_cpu_model_heuristic("Intel(R) Core(TM) i7-9700K").unwrap().is_none());
    assert!(npu_from_brand_lower("").is_none());
}

#[test]
fn substring_search() {
    assert!(text_contains("abcabd", "abd"));
    assert!(text_contains("abc", ""));
    assert!(!text_contains("ab", "abc"));
    assert!(!text_contains("abcabc", "acb"));
}

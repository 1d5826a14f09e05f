//! What hardware probing reports.
use vstd::prelude::*;
use crate::text::{occurs_in, text_contains};

verus! {

/// A graphics adapter.
#[derive(Debug, Clone, PartialEq)]
pub struct GpuInfo {
    pub name: String,
    pub vendor: GpuVendor,
    pub backend: String,
    pub device_type: String,
    pub vram_mb: Option<u64>,
    pub temperature_c: Option<u32>,
    pub utilization_percent: Option<u32>,
    pub cuda_compute_capability: Option<String>,
}

/// Who made a graphics adapter.
#[derive(Debug, Clone, Copy, PartialEq, Eq, Structural)]
pub enum GpuVendor {
    Nvidia,
    Amd,
    Intel,
    Apple,
    Qualcomm,
    Unknown,
}

/// Whether a neural processing unit was found, and how sure the finding is.
#[derive(Debug, Clone, PartialEq)]
pub struct NpuInfo {
    pub detected: bool,
    pub confidence: NpuConfidence,
    pub details: String,
    pub method: String,
}

/// How sure a neural processing unit finding is.
#[derive(Debug, Clone, Copy, PartialEq, Eq, Structural)]
pub enum NpuConfidence {
    /// Confirmed by the platform's own device enumeration.
    High,
    /// The processor model is known to carry one.
    Medium,
    /// A general guess.
    Low,
}

/// A figure that probing reports as 0 when it could not read it.
pub fn non_zero_u64(val: u64) -> (r: Option<u64>)
    ensures
        r == if val > 0 {
            Some(val)
        } else {
            None::<u64>
        },
{
    if val > 0 {
        Some(val)
    } else {
        None
    }
}

/// A figure that probing reports as 0 when it could not read it.
pub fn non_zero_u32(val: u32) -> (r: Option<u32>)
    ensures
        r == if val > 0 {
            Some(val)
        } else {
            None::<u32>
        },
{
    if val > 0 {
        Some(val)
    } else {
        None
    }
}

/// A figure that probing reports as 0 when it could not read it.
pub fn non_zero_usize(val: usize) -> (r: Option<usize>)
    ensures
        r == if val > 0 {
            Some(val)
        } else {
            None::<usize>
        },
{
    if val > 0 {
        Some(val)
    } else {
        None
    }
}

/// Connection status as the front end shows it.
#[derive(Debug, Clone, PartialEq)]
pub struct StatusResponse {
    pub connected: bool,
    pub server_name: Option<String>,
    pub server_version: Option<String>,
}

/// The lower-case form of a text, as std's `str::to_lowercase` gives it.
pub uninterp spec fn lower_of(s: Seq<char>) -> Seq<char>;

/// Relies on `str::to_lowercase`: its result depends on the characters alone.
#[verifier::external_body]
fn lowercase(s: &str) -> (r: String)
    ensures
        r@ == lower_of(s@),
{
    s.to_lowercase()
}

/// Which neural processing unit a lower-case processor name points to:
/// Intel Core Ultra, Qualcomm Snapdragon X Elite or Plus, AMD Ryzen AI.
pub open spec fn npu_family(brand_lower: Seq<char>) -> Option<int> {
    if occurs_in(brand_lower, "core ultra"@) {
        Some(0)
    } else if occurs_in(brand_lower, "snapdragon x elite"@) || occurs_in(
        brand_lower,
        "snapdragon x plus"@,
    ) {
        Some(1)
    } else if occurs_in(brand_lower, "ryzen ai"@) {
        Some(2)
    } else {
        None
    }
}

/// The description of each family of `npu_family`.
pub open spec fn npu_details(family: int) -> Seq<char> {
    if family == 0 {
        "Intel AI Boost NPU detected (Intel Core Ultra series)"@
    } else if family == 1 {
        "Qualcomm Hexagon NPU detected (Snapdragon X Elite/Plus)"@
    } else {
        "AMD Ryzen AI NPU detected"@
    }
}

/// What the heuristic reports for a family.
pub open spec fn heuristic_report(r: Option<NpuInfo>, family: Option<int>) -> bool {
    match family {
        None => r is None,
        Some(f) => r matches Some(info) && info.detected && info.confidence == NpuConfidence::Medium
            && info.details@ == npu_details(f) && info.method@ == "CPU model heuristic"@,
    }
}

/// Guesses a neural processing unit from a processor name already in lower case.
pub fn npu_from_brand_lower(brand_lower: &str) -> (r: Option<NpuInfo>)
    ensures
        heuristic_report(r, npu_family(brand_lower@)),
{
    let details = if text_contains(brand_lower, "core ultra") {
        "Intel AI Boost NPU detected (Intel Core Ultra series)"
    } else if text_contains(brand_lower, "snapdragon x elite") || text_contains(
        brand_lower,
        "snapdragon x plus",
    ) {
        "Qualcomm Hexagon NPU detected (Snapdragon X Elite/Plus)"
    } else if text_contains(brand_lower, "ryzen ai") {
        "AMD Ryzen AI NPU detected"
    } else {
        return None;
    };
    Some(
        NpuInfo {
            detected: true,
            confidence: NpuConfidence::Medium,
            details: String::from_str(details),
            method: String::from_str("CPU model heuristic"),
        },
    )
}

/// Guesses a neural processing unit from the processor's name, whatever its case.
pub fn detect_cpu_model_heuristic(brand: &str) -> (r: Result<Option<NpuInfo>, String>)
    ensures
        r matches Ok(o) && heuristic_report(o, npu_family(lower_of(brand@))),
{
    let lower = lowercase(brand);
    Ok(npu_from_brand_lower(lower.as_str()))
}

} // verus!

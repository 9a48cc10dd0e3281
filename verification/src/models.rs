use vstd::prelude::*;

verus! {

/// Classes of hardware faults that the relay can report.
#[derive(Debug, Clone, Copy, PartialEq, Eq, Structural)]
pub enum FaultClass {
    MlccShortLoad,
    VrmPhaseShort,
    FirmwareStateBad,
    GpuDieDead,
    HealthyStandby,
    UnknownAmbiguity,
}

/// The status code that identifies each fault class.
pub open spec fn fault_code(f: FaultClass) -> Seq<char> {
    match f {
        FaultClass::MlccShortLoad => "ERR_MLCC_001"@,
        FaultClass::VrmPhaseShort => "ERR_VRM_PHASE"@,
        FaultClass::FirmwareStateBad => "ERR_FW_CRC_FAIL"@,
        FaultClass::GpuDieDead => "ERR_SILICON_DEAD"@,
        FaultClass::HealthyStandby => "STATUS_OK"@,
        FaultClass::UnknownAmbiguity => "WARN_AMBIGUOUS"@,
    }
}

impl FaultClass {
    /// The status code of this fault class.
    pub fn to_code(&self) -> (code: &'static str)
        ensures
            code@ == fault_code(*self),
    {
        match self {
            FaultClass::MlccShortLoad => "ERR_MLCC_001",
            FaultClass::VrmPhaseShort => "ERR_VRM_PHASE",
            FaultClass::FirmwareStateBad => "ERR_FW_CRC_FAIL",
            FaultClass::GpuDieDead => "ERR_SILICON_DEAD",
            FaultClass::HealthyStandby => "STATUS_OK",
            FaultClass::UnknownAmbiguity => "WARN_AMBIGUOUS",
        }
    }
}


/// Every fault class has its own code, so a code identifies its class.
pub proof fn lemma_fault_codes_distinct(a: FaultClass, b: FaultClass)
    ensures
        a != b ==> fault_code(a) != fault_code(b),
{
    reveal_strlit("ERR_MLCC_001");
    reveal_strlit("ERR_VRM_PHASE");
    reveal_strlit("ERR_FW_CRC_FAIL");
    reveal_strlit("ERR_SILICON_DEAD");
    reveal_strlit("STATUS_OK");
    reveal_strlit("WARN_AMBIGUOUS");
    assert("ERR_MLCC_001"@.len() == 12);
    assert("ERR_VRM_PHASE"@.len() == 13);
    assert("ERR_FW_CRC_FAIL"@.len() == 15);
    assert("ERR_SILICON_DEAD"@.len() == 16);
    assert("STATUS_OK"@.len() == 9);
    assert("WARN_AMBIGUOUS"@.len() == 14);
}

} // verus!

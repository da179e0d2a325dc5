//! The methods of the varlink interface: how each begins, and those that need no
//! call of libddcutil.
use crate::device::{answers, DdcReply, DdcRequest, Double, HeaderConstants};
use crate::operation::{
    step_answers, Operation, OperationModel, Purpose, Stage, StageModel, Step, StepModel, Target,
};
use crate::service::{DdcutilService, ServiceSharedState};
use crate::varlink_impl::{
    allows_prefix, is_edid_prefix_allowed, is_setvcp_verifying, verifies, CallOptions,
    DDCUTIL_VARLINK_VERSION,
};
use vstd::prelude::*;
use vstd::string::*;

verus! {

/// Why a method is refused before it does anything.
#[derive(Clone, Copy, Debug, PartialEq, Eq, Structural)]
pub enum Refusal {
    ConfigurationLocked,
    InvalidPollInterval,
}

impl Refusal {
    /// The name by which clients know the reason.
    pub open spec fn name(self) -> Seq<char> {
        match self {
            Refusal::ConfigurationLocked => "ConfigurationLocked"@,
            Refusal::InvalidPollInterval => "InvalidPollInterval"@,
        }
    }

    /// The name by which clients know the reason.
    pub fn as_str(&self) -> (res: &'static str)
        ensures
            res@ == self.name(),
    {
        match self {
            Refusal::ConfigurationLocked => "ConfigurationLocked",
            Refusal::InvalidPollInterval => "InvalidPollInterval",
        }
    }
}

/// A method begins for the given purpose with the given call of libddcutil, and
/// waits for what that call gives.
pub open spec fn begins(
    begun: (Operation, Step),
    purpose: Purpose,
    stage: StageModel,
    request: DdcRequest,
) -> bool {
    &&& begun.0@ == OperationModel { purpose, stage }
    &&& begun.1@ == StepModel::Ask { request }
    &&& begun.0@.is_valid()
    &&& forall|r: DdcReply| #[trigger] step_answers(begun.1@, r) ==> begun.0@.accepts(r)
}

/// A method begins with the search for the display.
pub open spec fn begins_search(begun: (Operation, Step), purpose: Purpose) -> bool {
    purpose.target() matches Some(target) && begins(
        begun,
        purpose,
        StageModel::Finding,
        DdcRequest::ListDisplays { include_invalid: target.allow_edid_prefix },
    )
}

/// The display that a client names.
pub open spec fn target_of(
    display_number: Option<i64>,
    edid_base64: Option<String>,
    options: Option<CallOptions>,
) -> Target {
    Target { display_number, edid_base64, allow_edid_prefix: allows_prefix(options) }
}

fn make_target(
    display_number: Option<i64>,
    edid_base64: Option<String>,
    options: &Option<CallOptions>,
) -> (res: Target)
    ensures
        res == target_of(display_number, edid_base64, *options),
{
    Target { display_number, edid_base64, allow_edid_prefix: is_edid_prefix_allowed(options) }
}

fn begin(purpose: Purpose, stage: Stage, request: DdcRequest) -> (res: (Operation, Step))
    requires
        (OperationModel { purpose, stage: stage@ }).is_valid(),
        forall|r: DdcReply| #[trigger]
            answers(request, r) ==> (OperationModel { purpose, stage: stage@ }).accepts(r),
    ensures
        begins(res, purpose, stage@, request),
{
    (Operation { purpose, stage }, Step::Ask { request })
}

fn begin_search(purpose: Purpose, include_invalid: bool) -> (res: (Operation, Step))
    requires
        purpose.target() matches Some(target) && target.allow_edid_prefix == include_invalid,
    ensures
        begins_search(res, purpose),
{
    begin(purpose, Stage::Finding, DdcRequest::ListDisplays { include_invalid })
}

/// An interval that may be set: none, or ten seconds and more.
pub open spec fn is_poll_interval(seconds: i64) -> bool {
    seconds == 0 || seconds >= 10
}

impl DdcutilService {
    /// Begins to detect displays anew, and to list them.
    pub fn detect(&self, include_offline: bool) -> (res: (Operation, Step))
        ensures
            begins(
                res,
                Purpose::Detect { include_offline },
                StageModel::Redetecting,
                DdcRequest::Redetect,
            ),
    {
        begin(
            Purpose::Detect { include_offline },
            Stage::Redetecting,
            DdcRequest::Redetect,
        )
    }

    /// Begins to list the displays that were detected.
    pub fn list_detected(&self, include_offline: bool) -> (res: (Operation, Step))
        ensures
            begins(
                res,
                Purpose::ListDetected { include_offline },
                StageModel::Listing,
                DdcRequest::ListDisplays { include_invalid: include_offline },
            ),
    {
        begin(
            Purpose::ListDetected { include_offline },
            Stage::Listing,
            DdcRequest::ListDisplays { include_invalid: include_offline },
        )
    }

    /// Begins to ask whether libddcutil adapts its pauses.
    pub fn get_ddcutil_dynamic_sleep(&self) -> (res: (Operation, Step))
        ensures
            begins(
                res,
                Purpose::GetDynamicSleep,
                StageModel::Asking,
                DdcRequest::DynamicSleepEnabled,
            ),
    {
        begin(
            Purpose::GetDynamicSleep,
            Stage::Asking,
            DdcRequest::DynamicSleepEnabled,
        )
    }

    /// Begins to ask how much libddcutil reports.
    pub fn get_ddcutil_output_level(&self) -> (res: (Operation, Step))
        ensures
            begins(
                res,
                Purpose::GetOutputLevel,
                StageModel::Asking,
                DdcRequest::OutputLevel,
            ),
    {
        begin(
            Purpose::GetOutputLevel,
            Stage::Asking,
            DdcRequest::OutputLevel,
        )
    }

    /// Begins to ask for the version of libddcutil.
    pub fn get_ddcutil_version(&self) -> (res: (Operation, Step))
        ensures
            begins(
                res,
                Purpose::GetVersion,
                StageModel::Asking,
                DdcRequest::Version,
            ),
    {
        begin(
            Purpose::GetVersion,
            Stage::Asking,
            DdcRequest::Version,
        )
    }

    /// Begins to ask for the state of a display.
    pub fn get_display_state(
        &self,
        display_number: Option<i64>,
        edid_base64: Option<String>,
        options: Option<CallOptions>,
    ) -> (res: (Operation, Step))
        ensures
            begins_search(
                res,
                Purpose::GetDisplayState {
                    target: target_of(display_number, edid_base64, options),
                },
            ),
    {
        let target = make_target(display_number, edid_base64, &options);
        let include_invalid = target.allow_edid_prefix;
        begin_search(Purpose::GetDisplayState { target }, include_invalid)
    }

    /// Begins to ask by how much libddcutil stretches its pauses for a display.
    pub fn get_sleep_multiplier(
        &self,
        display_number: Option<i64>,
        edid_base64: Option<String>,
        options: Option<CallOptions>,
    ) -> (res: (Operation, Step))
        ensures
            begins_search(
                res,
                Purpose::GetSleepMultiplier {
                    target: target_of(display_number, edid_base64, options),
                },
            ),
    {
        let target = make_target(display_number, edid_base64, &options);
        let include_invalid = target.allow_edid_prefix;
        begin_search(Purpose::GetSleepMultiplier { target }, include_invalid)
    }

    /// Begins to gather the capabilities of a display.
    pub fn get_capabilities_metadata(
        &self,
        display_number: Option<i64>,
        edid_base64: Option<String>,
        options: Option<CallOptions>,
    ) -> (res: (Operation, Step))
        ensures
            begins_search(
                res,
                Purpose::GetCapabilitiesMetadata {
                    target: target_of(display_number, edid_base64, options),
                },
            ),
    {
        let target = make_target(display_number, edid_base64, &options);
        let include_invalid = target.allow_edid_prefix;
        begin_search(Purpose::GetCapabilitiesMetadata { target }, include_invalid)
    }

    /// Begins to ask for the capabilities string of a display.
    pub fn get_capabilities_string(
        &self,
        display_number: Option<i64>,
        edid_base64: Option<String>,
        options: Option<CallOptions>,
    ) -> (res: (Operation, Step))
        ensures
            begins_search(
                res,
                Purpose::GetCapabilitiesString {
                    target: target_of(display_number, edid_base64, options),
                },
            ),
    {
        let target = make_target(display_number, edid_base64, &options);
        let include_invalid = target.allow_edid_prefix;
        begin_search(Purpose::GetCapabilitiesString { target }, include_invalid)
    }

    /// Begins to read several features of a display.
    pub fn get_multiple_vcp(
        &self,
        display_number: Option<i64>,
        edid_base64: Option<String>,
        vcp_codes: Vec<i64>,
        options: Option<CallOptions>,
    ) -> (res: (Operation, Step))
        ensures
            begins_search(
                res,
                Purpose::GetMultipleVcp {
                    target: target_of(display_number, edid_base64, options),
                    vcp_codes,
                },
            ),
    {
        let target = make_target(display_number, edid_base64, &options);
        let include_invalid = target.allow_edid_prefix;
        begin_search(Purpose::GetMultipleVcp { target, vcp_codes }, include_invalid)
    }

    /// Begins to read a feature of a display.
    pub fn get_vcp(
        &self,
        display_number: Option<i64>,
        edid_base64: Option<String>,
        vcp_code: i64,
        options: Option<CallOptions>,
    ) -> (res: (Operation, Step))
        ensures
            begins_search(
                res,
                Purpose::GetVcp {
                    target: target_of(display_number, edid_base64, options),
                    vcp_code,
                },
            ),
    {
        let target = make_target(display_number, edid_base64, &options);
        let include_invalid = target.allow_edid_prefix;
        begin_search(Purpose::GetVcp { target, vcp_code }, include_invalid)
    }

    /// Begins to ask for the metadata of a feature. `constants` are the numbers of
    /// libddcutil's header.
    pub fn get_vcp_metadata(
        &self,
        display_number: Option<i64>,
        edid_base64: Option<String>,
        vcp_code: i64,
        options: Option<CallOptions>,
        constants: &HeaderConstants,
    ) -> (res: (Operation, Step))
        ensures
            begins_search(
                res,
                Purpose::GetVcpMetadata {
                    target: target_of(display_number, edid_base64, options),
                    vcp_code,
                    constants: *constants,
                },
            ),
    {
        let target = make_target(display_number, edid_base64, &options);
        let include_invalid = target.allow_edid_prefix;
        begin_search(
            Purpose::GetVcpMetadata { target, vcp_code, constants: *constants },
            include_invalid,
        )
    }

    /// Begins to write a feature of a display, unless the configuration is locked.
    pub fn set_vcp(
        &self,
        display_number: Option<i64>,
        edid_base64: Option<String>,
        vcp_code: i64,
        new_value: i64,
        client_context: Option<String>,
        options: Option<CallOptions>,
    ) -> (res: Result<(Operation, Step), Refusal>)
        ensures
            match res {
                Err(refusal) => self.configuration_locked && refusal
                    == Refusal::ConfigurationLocked,
                Ok(begun) => !self.configuration_locked && begins_search(
                    begun,
                    Purpose::SetVcp {
                        target: target_of(display_number, edid_base64, options),
                        vcp_code,
                        new_value,
                        client_context,
                        verify: verifies(options),
                    },
                ),
            },
    {
        if self.configuration_locked {
            return Err(Refusal::ConfigurationLocked);
        }
        let verify = is_setvcp_verifying(&options);
        let target = make_target(display_number, edid_base64, &options);
        let include_invalid = target.allow_edid_prefix;
        let purpose = Purpose::SetVcp { target, vcp_code, new_value, client_context, verify };
        Ok(begin_search(purpose, include_invalid))
    }

    /// Begins to set by how much libddcutil stretches its pauses for a display, unless
    /// the configuration is locked.
    pub fn set_sleep_multiplier(
        &self,
        display_number: Option<i64>,
        edid_base64: Option<String>,
        new_multiplier: Double,
        options: Option<CallOptions>,
    ) -> (res: Result<(Operation, Step), Refusal>)
        ensures
            match res {
                Err(refusal) => self.configuration_locked && refusal
                    == Refusal::ConfigurationLocked,
                Ok(begun) => !self.configuration_locked && begins_search(
                    begun,
                    Purpose::SetSleepMultiplier {
                        target: target_of(display_number, edid_base64, options),
                        multiplier: new_multiplier,
                    },
                ),
            },
    {
        if self.configuration_locked {
            return Err(Refusal::ConfigurationLocked);
        }
        let target = make_target(display_number, edid_base64, &options);
        let include_invalid = target.allow_edid_prefix;
        let purpose = Purpose::SetSleepMultiplier { target, multiplier: new_multiplier };
        Ok(begin_search(purpose, include_invalid))
    }

    /// Begins to let libddcutil adapt its pauses or not, unless the configuration is
    /// locked.
    pub fn set_ddcutil_dynamic_sleep(&self, enabled: bool) -> (res: Result<
        (Operation, Step),
        Refusal,
    >)
        ensures
            match res {
                Err(refusal) => self.configuration_locked && refusal
                    == Refusal::ConfigurationLocked,
                Ok(begun) => !self.configuration_locked && begins(
                    begun,
                    Purpose::SetDynamicSleep,
                    StageModel::Asking,
                    DdcRequest::EnableDynamicSleep { enabled },
                ),
            },
    {
        if self.configuration_locked {
            return Err(Refusal::ConfigurationLocked);
        }
        Ok(
            begin(
                Purpose::SetDynamicSleep,
                Stage::Asking,
                DdcRequest::EnableDynamicSleep { enabled },
            ),
        )
    }

    /// Begins to set how much libddcutil reports, unless the configuration is locked.
    /// The level is reduced to 32 bits.
    pub fn set_ddcutil_output_level(&self, level: i64) -> (res: Result<(Operation, Step), Refusal>)
        ensures
            match res {
                Err(refusal) => self.configuration_locked && refusal
                    == Refusal::ConfigurationLocked,
                Ok(begun) => !self.configuration_locked && begins(
                    begun,
                    Purpose::SetOutputLevel,
                    StageModel::Asking,
                    DdcRequest::SetOutputLevel { level: level as u32 },
                ),
            },
    {
        if self.configuration_locked {
            return Err(Refusal::ConfigurationLocked);
        }
        let level: u32 = #[verifier::truncate] (level as u32);
        Ok(begin(Purpose::SetOutputLevel, Stage::Asking, DdcRequest::SetOutputLevel { level }))
    }

    /// The version of the interface.
    pub fn get_service_interface_version(&self) -> (res: String)
        ensures
            res@ == "1.0.0"@,
    {
        DDCUTIL_VARLINK_VERSION.to_owned()
    }

    /// The seconds to the next poll after displays came or went.
    pub fn get_service_poll_cascade_interval(&self) -> (res: Double)
        ensures
            res == self.state.poll_cascade_secs,
    {
        self.state.poll_cascade_secs
    }

    /// The seconds between polls.
    pub fn get_service_poll_interval(&self) -> (res: i64)
        ensures
            res == self.state.poll_interval_secs,
    {
        self.state.poll_interval_secs as i64
    }

    /// Sets the seconds to the next poll after displays came or went. Refused are
    /// numbers below zero, and those between zero and one.
    pub fn set_service_poll_cascade_interval(&mut self, seconds: Double) -> (res: Result<
        (),
        Refusal,
    >)
        ensures
            match res {
                Err(refusal) => *final(self) == *old(self) && refusal == (if old(
                    self,
                ).configuration_locked {
                    Refusal::ConfigurationLocked
                } else {
                    Refusal::InvalidPollInterval
                }),
                Ok(_) => *final(self) == (DdcutilService {
                    state: ServiceSharedState { poll_cascade_secs: seconds, ..old(self).state },
                    ..*old(self)
                }),
            },
            res is Ok <==> !old(self).configuration_locked && !seconds.is_negative()
                && !seconds.is_proper_fraction(),
    {
        if self.configuration_locked {
            return Err(Refusal::ConfigurationLocked);
        }
        if seconds.is_negative_or_fraction() {
            return Err(Refusal::InvalidPollInterval);
        }
        self.state.poll_cascade_secs = seconds;
        Ok(())
    }

    /// Sets the seconds between polls. Refused are numbers below zero, and those
    /// between zero and ten. A number is reduced to 32 bits.
    pub fn set_service_poll_interval(&mut self, seconds: i64) -> (res: Result<(), Refusal>)
        ensures
            match res {
                Err(refusal) => *final(self) == *old(self) && refusal == (if old(
                    self,
                ).configuration_locked {
                    Refusal::ConfigurationLocked
                } else {
                    Refusal::InvalidPollInterval
                }),
                Ok(_) => *final(self) == (DdcutilService {
                    state: ServiceSharedState {
                        poll_interval_secs: seconds as u32,
                        ..old(self).state
                    },
                    ..*old(self)
                }),
            },
            res is Ok <==> !old(self).configuration_locked && is_poll_interval(seconds),
    {
        if self.configuration_locked {
            return Err(Refusal::ConfigurationLocked);
        }
        if seconds < 0 || (seconds > 0 && seconds < 10) {
            return Err(Refusal::InvalidPollInterval);
        }
        self.state.poll_interval_secs = #[verifier::truncate] (seconds as u32);
        Ok(())
    }
}

/// An interval of at most 32 bits that may be set is the one that is read from then
/// on: polling either stops or is at least ten seconds apart.
pub proof fn accepted_interval_is_kept(seconds: i64)
    requires
        is_poll_interval(seconds),
        seconds <= u32::MAX,
    ensures
        (seconds as u32) as i64 == seconds,
        seconds as u32 == 0 || seconds as u32 >= 10,
{
}

} // verus!

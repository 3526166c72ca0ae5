//! The application state that the daemon serves, and the protocol that
//! applies a profile across the hardware subsystems.
//!
//! Applying a profile plans four steps: performance mode, lighting, battery
//! limit and, when the profile carries one, the fan curve. The daemon performs
//! every write that was planned. Only the performance mode step is critical:
//! the application succeeds exactly when that step does, whatever became of
//! the others, and only then does the profile become the current one.

use vstd::prelude::*;

use crate::config::DaemonConfig;
use crate::error::ArmouryError;
use crate::controller::is_unavailable;
use crate::controller::HardwareController;
use crate::controller::WritePlan;
use crate::profiles::ProfileManager;
use crate::surface::HardwareWrite;
use crate::surface::WriteOutcome;
use crate::types::GpuMode;
use crate::types::PerformanceMode;

verus! {

/// The state behind the daemon's interface: the hardware controller, the
/// profile store and the configuration.
pub struct AppState {
    pub hardware: HardwareController,
    pub profiles: ProfileManager,
    pub config: DaemonConfig,
}

/// The writes that applying a profile needs, one plan per step.
pub struct ProfilePlan {
    /// The profile's performance mode.
    pub performance_mode: PerformanceMode,
    /// The critical step.
    pub performance: WritePlan,
    /// Best effort: lighting.
    pub rgb: WritePlan,
    /// Best effort: battery charge limit.
    pub battery: WritePlan,
    /// Best effort: the fan curve, when the profile carries one.
    pub fan_curve: Option<WritePlan>,
}

/// A mode named in a request, and the plan for selecting it.
pub struct ModePlan<M> {
    pub mode: M,
    pub plan: WritePlan,
}

/// A step succeeded: its plan could proceed, and the write it planned, if
/// any, took effect.
pub open spec fn step_succeeds(plan: WritePlan, outcome: WriteOutcome) -> bool {
    plan is Ok && (plan->Ok_0 is None || outcome is Done)
}

impl AppState {
    /// Everything but the current profile pointer and the performance mode
    /// cache is as it was.
    pub open spec fn same_except_current(&self, other: &AppState) -> bool {
        &&& self.profiles.wf()
        &&& self.profiles.profiles_view() == other.profiles.profiles_view()
        &&& self.profiles.dir() == other.profiles.dir()
        &&& self.hardware.capabilities == other.hardware.capabilities
        &&& self.hardware.sysfs == other.hardware.sysfs
        &&& self.hardware.current_gpu_mode == other.hardware.current_gpu_mode
        &&& self.config == other.config
    }

    /// Plans applying the named profile; `None` when there is no such
    /// profile.
    pub fn plan_profile(&self, name: &str) -> (r: Option<ProfilePlan>)
        requires
            self.profiles.wf(),
        ensures
            r is Some <==> self.profiles.profiles_view().dom().contains(name@),
            r is Some ==> {
                let p = self.profiles.profiles_view()[name@];
                let plan = r->0;
                &&& plan.performance_mode == p.performance_mode
                &&& self.hardware.performance_plan(p.performance_mode, plan.performance)
                &&& self.hardware.rgb_plan(p.rgb_settings, plan.rgb)
                &&& self.hardware.battery_plan(p.battery_settings.charge_limit, plan.battery)
                &&& p.fan_curve is None ==> plan.fan_curve is None
                &&& p.fan_curve is Some ==> plan.fan_curve is Some
                    && self.hardware.fan_curve_plan(p.fan_curve->0.points@, plan.fan_curve->0)
            },
    {
        match self.profiles.get_profile(name) {
            None => None,
            Some(p) => {
                let fan_curve = match &p.fan_curve {
                    Some(curve) => Some(self.hardware.set_fan_curve(curve)),
                    None => None,
                };
                Some(
                    ProfilePlan {
                        performance_mode: p.performance_mode,
                        performance: self.hardware.set_performance_mode(p.performance_mode),
                        rgb: self.hardware.set_rgb_settings(&p.rgb_settings),
                        battery: self.hardware.set_battery_limit(
                            p.battery_settings.charge_limit,
                        ),
                        fan_curve,
                    },
                )
            },
        }
    }

    /// Completes applying the named profile, given the plan and the outcome
    /// of the performance mode write. The outcomes of the best-effort steps
    /// do not enter: the result is whether the performance mode step
    /// succeeded, and the profile becomes the current one exactly then.
    pub fn apply_profile(&mut self, name: &str, plan: &ProfilePlan, performance: &WriteOutcome) -> (r:
        bool)
        requires
            old(self).profiles.wf(),
            old(self).profiles.profiles_view().dom().contains(name@),
        ensures
            r == step_succeeds(plan.performance, *performance),
            final(self).profiles.current_name() == if r {
                name@
            } else {
                old(self).profiles.current_name()
            },
            final(self).hardware.current_performance_mode == if r && plan.performance->Ok_0 is Some {
                plan.performance_mode
            } else {
                old(self).hardware.current_performance_mode
            },
            final(self).same_except_current(old(self)),
    {
        let success = match &plan.performance {
            Ok(Some(_)) => self.hardware.commit_performance_mode(
                plan.performance_mode,
                performance,
            ).is_ok(),
            Ok(None) => true,
            Err(_) => false,
        };
        if success {
            self.profiles.set_current_profile(name);
        }
        success
    }

    /// Plans a performance mode change named as in a request
    /// (case-insensitive; "performance" means Turbo). `None`, with nothing
    /// planned, for an unknown name.
    pub fn plan_performance_mode(&self, mode_name: &str) -> (r: Option<ModePlan<PerformanceMode>>)
        ensures
            r is None <==> PerformanceMode::from_name_spec(mode_name@) is None,
            r is Some ==> r->0.mode == PerformanceMode::from_name_spec(mode_name@)->0
                && self.hardware.performance_plan(r->0.mode, r->0.plan),
    {
        match PerformanceMode::from_name(mode_name) {
            Some(mode) => Some(ModePlan { mode, plan: self.hardware.set_performance_mode(mode) }),
            None => None,
        }
    }

    /// Plans a GPU mode change named as in a request (case-insensitive).
    /// `None`, with nothing planned, for an unknown name.
    pub fn plan_gpu_mode(&self, mode_name: &str) -> (r: Option<ModePlan<GpuMode>>)
        ensures
            r is None <==> GpuMode::from_name_spec(mode_name@) is None,
            r is Some ==> r->0.mode == GpuMode::from_name_spec(mode_name@)->0,
            r is Some && !self.hardware.capabilities.gpu_switching ==> is_unavailable(r->0.plan),
            r is Some && self.hardware.capabilities.gpu_switching ==> r->0.plan == Ok::<
                Option<HardwareWrite>,
                ArmouryError,
            >(Some(HardwareWrite::GpuSwitch { mode: r->0.mode })),
    {
        match GpuMode::from_name(mode_name) {
            Some(mode) => Some(ModePlan { mode, plan: self.hardware.set_gpu_mode(mode) }),
            None => None,
        }
    }
}

} // verus!

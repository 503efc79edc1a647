//! Acer Nitro V15 (ANV15-41) provider.
//!
//! Every supported sensor on this model comes from the same generic Linux
//! interfaces as any other machine, so this provider delegates to
//! `GenericLinux`. Fan speeds need no override either: the generic hwmon
//! scan looks for `fan*_input` files on every device, so the `acer` hwmon
//! device that appears with `acer_wmi predator_v4=1` is picked up as is.

use vstd::prelude::*;
use crate::capability::CapabilityState;
use crate::command::CommandRunner;
use crate::evidence::{Evidence, EvidenceProvider};
use crate::provider::generic_linux::{
    battery_evidence_of, command_evidence, cpu_frequency_evidence_of, cpu_usage_step, fan_evidence_of,
    fan_rpm_result, file_evidence, hwmon_evidence, ram_usage_of, CpuTimeDelta, GenericLinux,
};
use crate::sensor::GpuKind;
use crate::sensor::{MemoryUsage, Rpm};
use crate::sysfs::{IoError, SysfsReader};

verus! {

pub struct AcerNitroV15<R: SysfsReader, C: CommandRunner> {
    generic: GenericLinux<R, C>,
}

impl<R: SysfsReader, C: CommandRunner> AcerNitroV15<R, C> {
    pub fn new(sysfs: R, commands: C) -> (r: Self)
        ensures
            r.inner().reader() == sysfs,
            r.inner().runner() == commands,
            r.inner().cpu_history() is None,
    {
        Self { generic: GenericLinux::new(sysfs, commands) }
    }

    pub closed spec fn inner(&self) -> GenericLinux<R, C> {
        self.generic
    }

    /// The generic provider every reading is delegated to.
    pub fn generic(&self) -> (r: &GenericLinux<R, C>)
        ensures
            *r == self.inner(),
    {
        &self.generic
    }

    /// Delegates to `GenericLinux::cpu_utilization_sample`.
    pub fn cpu_utilization_sample(&mut self) -> (r: CapabilityState<CpuTimeDelta>)
        ensures
            final(self).inner().reader() == old(self).inner().reader(),
            final(self).inner().runner() == old(self).inner().runner(),
            exists|read: Result<String, IoError>|
                #[trigger] old(self).inner().reader().read_result("/proc/stat"@, read)
                    && cpu_usage_step(old(self).inner().cpu_history(), read) == (
                    final(self).inner().cpu_history(),
                    r,
                ),
    {
        self.generic.cpu_utilization_sample()
    }

    /// Delegates to `GenericLinux::ram_usage`.
    pub fn ram_usage(&self) -> (r: CapabilityState<MemoryUsage>)
        ensures
            exists|read: Result<String, IoError>|
                #[trigger] self.inner().reader().read_result("/proc/meminfo"@, read) && ram_usage_of(
                    read,
                ) == r,
    {
        let r = self.generic.ram_usage();
        let ghost read = choose|read: Result<String, IoError>|
            #[trigger] self.generic.reader().read_result("/proc/meminfo"@, read) && ram_usage_of(read)
                == r;
        assert(self.inner().reader().read_result("/proc/meminfo"@, read) && ram_usage_of(read) == r);
        r
    }

    /// Delegates to `GenericLinux::fan_rpm`.
    pub fn fan_rpm(&self) -> (r: CapabilityState<Vec<Rpm>>)
        ensures
            fan_rpm_result(self.inner().reader(), r),
    {
        self.generic.fan_rpm()
    }
}

/// Every piece of evidence is the generic provider's.
impl<R: SysfsReader, C: CommandRunner> EvidenceProvider for AcerNitroV15<R, C> {
    fn cpu_temperature_evidence(&self) -> (r: Option<Evidence>)
        ensures
            hwmon_evidence(self.inner().reader(), seq!["k10temp", "coretemp"], r),
    {
        self.generic.cpu_temperature_evidence()
    }

    fn gpu_temperature_evidence(&self, gpu: GpuKind) -> (r: Option<Evidence>)
        ensures
            gpu is Integrated ==> hwmon_evidence(self.inner().reader(), seq!["amdgpu"], r),
            gpu is Discrete ==> command_evidence(
                self.inner().runner(),
                "--query-gpu=temperature.gpu"@,
                r,
            ),
    {
        self.generic.gpu_temperature_evidence(gpu)
    }

    fn cpu_utilization_evidence(&self) -> (r: Option<Evidence>)
        ensures
            file_evidence(self.inner().reader(), "/proc/stat"@, r),
    {
        self.generic.cpu_utilization_evidence()
    }

    fn gpu_utilization_evidence(&self, gpu: GpuKind) -> (r: Option<Evidence>)
        ensures
            gpu is Integrated ==> r is None,
            gpu is Discrete ==> command_evidence(
                self.inner().runner(),
                "--query-gpu=utilization.gpu"@,
                r,
            ),
    {
        self.generic.gpu_utilization_evidence(gpu)
    }

    fn cpu_frequency_evidence(&self) -> (r: Option<Evidence>)
        ensures
            cpu_frequency_evidence_of(self.inner().reader(), r),
    {
        self.generic.cpu_frequency_evidence()
    }

    fn ram_usage_evidence(&self) -> (r: Option<Evidence>)
        ensures
            file_evidence(self.inner().reader(), "/proc/meminfo"@, r),
    {
        self.generic.ram_usage_evidence()
    }

    fn battery_evidence(&self) -> (r: Option<Evidence>)
        ensures
            battery_evidence_of(self.inner().reader(), r),
    {
        self.generic.battery_evidence()
    }

    fn fan_rpm_evidence(&self) -> (r: Option<Evidence>)
        ensures
            fan_evidence_of(self.inner().reader(), r),
    {
        self.generic.fan_rpm_evidence()
    }
}

} // verus!

//! The lifecycle worker's decision logic, and the laws that hold of it.
//!
//! The worker drains hotplug events sequentially. For each event the
//! surrounding application performs the outside work (the availability
//! probe, the settle delay, descriptor and serial-number reads, directory
//! creation, and the mount/unmount tool invocations) and hands the outcomes
//! to the functions here as plain values; every decision — whether to
//! proceed, which path to mount, what to record or release, what to
//! report — is taken by this module.
//!
//! An attach event runs through [`tool_guard`] and the classifier, then
//! [`Handler::prepare_mount`], then [`Handler::complete_mount`]; a detach
//! event runs through the same guards, then [`Handler::begin_detach`], with
//! [`tool_outcome`] translating the unmount tool's exit. The spec functions
//! [`spec_attach`] and [`spec_detach`] state what one whole event does, and
//! the lemmas at the end of this module prove the round-trip and guard
//! properties over them.

use vstd::prelude::*;
use crate::device::{DeviceAddr, is_managed};
use crate::error::Error;
use crate::handler::{Handler, path_of};

verus! {

/// What a hotplug event asks the worker to do: a device arrived (mount it)
/// or departed (unmount it).
#[derive(Clone, Copy, PartialEq, Eq, Structural, Debug)]
pub enum Action {
    Mount,
    Unmount,
}

/// The decision taken before a device is touched: abort because the mount
/// tool is unavailable, silently ignore a device outside the managed
/// family, or proceed with the event.
#[derive(Clone, Copy, PartialEq, Eq, Structural, Debug)]
pub enum Precheck {
    NotInstalled,
    NotManaged,
    Proceed,
}

/// The precheck decision: the tool guard comes first, then the classifier.
pub open spec fn spec_precheck(tool_available: bool, vendor_id: u16, product_id: u16) -> Precheck {
    if !tool_available {
        Precheck::NotInstalled
    } else if !is_managed(vendor_id, product_id) {
        Precheck::NotManaged
    } else {
        Precheck::Proceed
    }
}

/// The guard run before anything else touches the device: aborts the event
/// with `IfuseNotInstalled` iff the availability probe reported false.
/// Together with [`crate::device::is_apple_device`] this implements the
/// first arm of [`spec_precheck`].
pub fn tool_guard(tool_available: bool) -> (r: Result<(), Error>)
    ensures
        tool_available <==> r is Ok,
        !tool_available ==> r == Result::<(), Error>::Err(Error::IfuseNotInstalled),
{
    if tool_available {
        Ok(())
    } else {
        Err(Error::IfuseNotInstalled)
    }
}

/// Translates a mount/unmount tool invocation into a structured outcome:
/// success iff the process exited successfully, otherwise an error carrying
/// the captured standard-error text.
pub fn tool_outcome(exit_ok: bool, stderr: String) -> (r: Result<(), Error>)
    ensures
        exit_ok ==> r is Ok,
        !exit_ok ==> r == Result::<(), Error>::Err(Error::CantMount(stderr)),
{
    if exit_ok {
        Ok(())
    } else {
        Err(Error::CantMount(stderr))
    }
}

impl Handler {
    /// Decides whether a classified, opened device can be mounted and
    /// where: fails iff the device offered no language codes (the serial
    /// number cannot be read without one), and otherwise returns the
    /// mount-point path derived from the serial number.
    pub fn prepare_mount(&self, language_count: usize, serial: &str) -> (r: Result<String, Error>)
        ensures
            language_count == 0 ==> (r matches Err(e) && e matches Error::CantMount(m)
                && m@ == "Languages empty"@),
            language_count > 0 ==> (r matches Ok(p) && p@ == path_of(self.base(), serial@)),
    {
        if language_count == 0 {
            Err(Error::CantMount("Languages empty".to_owned()))
        } else {
            Ok(self.mount_point(serial))
        }
    }

    /// Finishes an attach event, given the mount tool's outcome. On
    /// success the slot -> serial mapping is recorded; on failure nothing
    /// is recorded and the captured standard error is reported. A failed
    /// mount is not retried.
    pub fn complete_mount(
        &mut self,
        slot: DeviceAddr,
        serial: String,
        mount_exit_ok: bool,
        mount_stderr: String,
    ) -> (r: Result<(), Error>)
        ensures
            final(self).base() == old(self).base(),
            mount_exit_ok ==> r is Ok && final(self)@ == old(self)@.insert(slot, serial@),
            !mount_exit_ok ==> final(self)@ == old(self)@ && r == Result::<(), Error>::Err(
                Error::CantMount(mount_stderr),
            ),
    {
        match tool_outcome(mount_exit_ok, mount_stderr) {
            Ok(()) => {
                self.record(slot, serial);
                Ok(())
            },
            Err(e) => Err(e),
        }
    }

    /// Begins a detach event: releases the slot from the registry and
    /// returns the path the unmount tool must be invoked on. If the slot
    /// was never recorded, reports `DeviceNotFound` and leaves the
    /// registry unchanged — no unmount is attempted. The mapping is
    /// removed even if the later unmount invocation fails: the device is
    /// physically gone regardless of the tool's outcome.
    pub fn begin_detach(&mut self, slot: DeviceAddr) -> (r: Result<String, Error>)
        ensures
            final(self).base() == old(self).base(),
            old(self)@.contains_key(slot) ==> {
                &&& final(self)@ == old(self)@.remove(slot)
                &&& r matches Ok(p) && p@ == path_of(old(self).base(), old(self)@[slot])
            },
            !old(self)@.contains_key(slot) ==> {
                &&& final(self)@ == old(self)@
                &&& r == Result::<String, Error>::Err(Error::DeviceNotFound)
            },
    {
        match self.release(slot) {
            Some(serial) => Ok(self.mount_point(serial.as_str())),
            None => Err(Error::DeviceNotFound),
        }
    }
}

/// The condition one event ends in, at the specification level.
pub enum Report {
    /// The device was mounted and its slot recorded.
    Mounted,
    /// The device is outside the managed family; nothing was done.
    Ignored,
    /// The availability probe reported the mount tool missing.
    NotInstalled,
    /// The device offered no language codes; no serial number could be
    /// read, so no directory was created and no tool was invoked.
    NoLanguages,
    /// The mount tool was invoked and failed; carries its standard error.
    /// Nothing was recorded.
    MountFailed(Seq<char>),
    /// The slot was released and the unmount tool invoked successfully.
    Unmounted,
    /// A departure for a slot that was never recorded; no tool was
    /// invoked.
    UnknownDevice,
    /// The slot was released but the unmount tool failed; carries its
    /// standard error. The mapping stays removed.
    UnmountFailed(Seq<char>),
}

/// Everything one attach event does, at the specification level.
pub struct AttachEffects {
    /// The registry contents after the event.
    pub registry: Map<DeviceAddr, Seq<char>>,
    /// The directory whose existence was ensured, if the event got that
    /// far.
    pub dir_created: Option<Seq<char>>,
    /// The path handed to the mount tool, if it was invoked.
    pub mount_call: Option<Seq<char>>,
    /// The condition the event ended in.
    pub report: Report,
}

/// Everything one detach event does, at the specification level.
pub struct DetachEffects {
    /// The registry contents after the event.
    pub registry: Map<DeviceAddr, Seq<char>>,
    /// The path handed to the unmount tool, if it was invoked.
    pub unmount_call: Option<Seq<char>>,
    /// The condition the event ended in.
    pub report: Report,
}

/// One whole attach event: the composition of the precheck (tool guard,
/// then classifier), `prepare_mount`, directory creation, the mount tool
/// invocation, and `complete_mount`, given the outcomes the outside world
/// produced
/// (`tool_available`, `language_count`, `serial`, `mount_exit_ok`,
/// `mount_stderr`).
pub open spec fn spec_attach(
    registry: Map<DeviceAddr, Seq<char>>,
    base: Seq<char>,
    tool_available: bool,
    vendor_id: u16,
    product_id: u16,
    slot: DeviceAddr,
    language_count: nat,
    serial: Seq<char>,
    mount_exit_ok: bool,
    mount_stderr: Seq<char>,
) -> AttachEffects {
    if spec_precheck(tool_available, vendor_id, product_id) == Precheck::NotInstalled {
        AttachEffects {
            registry,
            dir_created: None,
            mount_call: None,
            report: Report::NotInstalled,
        }
    } else if spec_precheck(tool_available, vendor_id, product_id) == Precheck::NotManaged {
        AttachEffects { registry, dir_created: None, mount_call: None, report: Report::Ignored }
    } else if language_count == 0 {
        AttachEffects { registry, dir_created: None, mount_call: None, report: Report::NoLanguages }
    } else if mount_exit_ok {
        AttachEffects {
            registry: registry.insert(slot, serial),
            dir_created: Some(path_of(base, serial)),
            mount_call: Some(path_of(base, serial)),
            report: Report::Mounted,
        }
    } else {
        AttachEffects {
            registry,
            dir_created: Some(path_of(base, serial)),
            mount_call: Some(path_of(base, serial)),
            report: Report::MountFailed(mount_stderr),
        }
    }
}

/// One whole detach event: the composition of the precheck (tool guard,
/// then classifier), `begin_detach`, the unmount tool invocation, and
/// `tool_outcome`.
pub open spec fn spec_detach(
    registry: Map<DeviceAddr, Seq<char>>,
    base: Seq<char>,
    tool_available: bool,
    vendor_id: u16,
    product_id: u16,
    slot: DeviceAddr,
    unmount_exit_ok: bool,
    unmount_stderr: Seq<char>,
) -> DetachEffects {
    if spec_precheck(tool_available, vendor_id, product_id) == Precheck::NotInstalled {
        DetachEffects { registry, unmount_call: None, report: Report::NotInstalled }
    } else if spec_precheck(tool_available, vendor_id, product_id) == Precheck::NotManaged {
        DetachEffects { registry, unmount_call: None, report: Report::Ignored }
    } else if !registry.contains_key(slot) {
        DetachEffects { registry, unmount_call: None, report: Report::UnknownDevice }
    } else {
        DetachEffects {
            registry: registry.remove(slot),
            unmount_call: Some(path_of(base, registry[slot])),
            report: if unmount_exit_ok {
                Report::Unmounted
            } else {
                Report::UnmountFailed(unmount_stderr)
            },
        }
    }
}

/// Mount-then-unmount round trip: an attach for a managed device on which
/// every outside step succeeds, followed by a departure for the same slot,
/// issues exactly one mount call and exactly one unmount call, both on the
/// path derived from the device's serial number, and leaves the registry
/// exactly as it was — in particular, empty if it started empty.
pub proof fn lemma_mount_unmount_round_trip(
    registry: Map<DeviceAddr, Seq<char>>,
    base: Seq<char>,
    vendor_id: u16,
    product_id: u16,
    slot: DeviceAddr,
    language_count: nat,
    serial: Seq<char>,
)
    requires
        is_managed(vendor_id, product_id),
        language_count > 0,
        !registry.contains_key(slot),
    ensures
        ({
            let a = spec_attach(
                registry,
                base,
                true,
                vendor_id,
                product_id,
                slot,
                language_count,
                serial,
                true,
                Seq::empty(),
            );
            let d = spec_detach(
                a.registry,
                base,
                true,
                vendor_id,
                product_id,
                slot,
                true,
                Seq::empty(),
            );
            &&& a.mount_call == Some(path_of(base, serial))
            &&& a.report == Report::Mounted
            &&& d.unmount_call == Some(path_of(base, serial))
            &&& d.report == Report::Unmounted
            &&& d.registry == registry
        }),
{
    let a = spec_attach(
        registry,
        base,
        true,
        vendor_id,
        product_id,
        slot,
        language_count,
        serial,
        true,
        Seq::empty(),
    );
    let d = spec_detach(a.registry, base, true, vendor_id, product_id, slot, true, Seq::empty());
    assert(a.registry == registry.insert(slot, serial));
    assert(d.registry =~= registry);
}

/// Unmount without prior mount: a departure event for a slot that was
/// never recorded reports `UnknownDevice`, invokes no unmount tool, and
/// leaves the registry unchanged.
pub proof fn lemma_unmount_without_prior_mount(
    registry: Map<DeviceAddr, Seq<char>>,
    base: Seq<char>,
    vendor_id: u16,
    product_id: u16,
    slot: DeviceAddr,
    unmount_exit_ok: bool,
    unmount_stderr: Seq<char>,
)
    requires
        is_managed(vendor_id, product_id),
        !registry.contains_key(slot),
    ensures
        ({
            let d = spec_detach(
                registry,
                base,
                true,
                vendor_id,
                product_id,
                slot,
                unmount_exit_ok,
                unmount_stderr,
            );
            &&& d.unmount_call is None
            &&& d.report == Report::UnknownDevice
            &&& d.registry == registry
        }),
{
}

/// Non-managed device: an attach event for a (vendor, product) pair
/// outside the managed family creates no directory, invokes no tool, and
/// leaves the registry unchanged.
pub proof fn lemma_unmanaged_device_ignored(
    registry: Map<DeviceAddr, Seq<char>>,
    base: Seq<char>,
    vendor_id: u16,
    product_id: u16,
    slot: DeviceAddr,
    language_count: nat,
    serial: Seq<char>,
    mount_exit_ok: bool,
    mount_stderr: Seq<char>,
)
    requires
        !is_managed(vendor_id, product_id),
    ensures
        ({
            let a = spec_attach(
                registry,
                base,
                true,
                vendor_id,
                product_id,
                slot,
                language_count,
                serial,
                mount_exit_ok,
                mount_stderr,
            );
            &&& a.dir_created is None
            &&& a.mount_call is None
            &&& a.report == Report::Ignored
            &&& a.registry == registry
        }),
{
}

/// Tool-unavailable guard: if the availability probe reports false, an
/// attach event reports `NotInstalled`, creates no directory, invokes no
/// mount tool, and leaves the registry unchanged — whatever the device.
pub proof fn lemma_tool_unavailable_guard(
    registry: Map<DeviceAddr, Seq<char>>,
    base: Seq<char>,
    vendor_id: u16,
    product_id: u16,
    slot: DeviceAddr,
    language_count: nat,
    serial: Seq<char>,
    mount_exit_ok: bool,
    mount_stderr: Seq<char>,
)
    ensures
        ({
            let a = spec_attach(
                registry,
                base,
                false,
                vendor_id,
                product_id,
                slot,
                language_count,
                serial,
                mount_exit_ok,
                mount_stderr,
            );
            &&& a.dir_created is None
            &&& a.mount_call is None
            &&& a.report == Report::NotInstalled
            &&& a.registry == registry
        }),
{
}

} // verus!

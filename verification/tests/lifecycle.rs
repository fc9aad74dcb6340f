use ifuse_automount::device::{is_apple_device, DeviceAddr};
use ifuse_automount::error::Error;
use ifuse_automount::handler::Handler;
use ifuse_automount::lifecycle::{tool_guard, tool_outcome};

const VENDOR: u16 = 0x05AC;
const PRODUCT: u16 = 0x12A8;

#[test]
fn tool_guard_aborts_when_probe_reports_false() {
    // If the availability probe reports false, the event aborts with the
    // "not installed" condition before any gateway call is made.
    assert_eq!(tool_guard(false), Err(Error::IfuseNotInstalled));
}

#[test]
fn tool_guard_passes_when_probe_reports_true() {
    assert_eq!(tool_guard(true), Ok(()));
}

#[test]
fn unmanaged_device_is_ignored_before_any_side_effect() {
    // The worker returns success with no side effect for devices outside
    // the managed family: the classifier is the only step that runs.
    assert!(!is_apple_device(VENDOR, 0x0000));
    assert!(!is_apple_device(0x0000, PRODUCT));
    assert!(is_apple_device(VENDOR, PRODUCT));
}

#[test]
fn tool_failure_carries_captured_stderr() {
    assert_eq!(tool_outcome(true, String::new()), Ok(()));
    assert_eq!(
        tool_outcome(false, String::from("fuse: bad mount point")),
        Err(Error::CantMount(String::from("fuse: bad mount point")))
    );
}

#[test]
fn prepare_mount_rejects_device_without_languages() {
    let h = Handler::new(String::from("/base"));
    assert_eq!(
        h.prepare_mount(0, "SER"),
        Err(Error::CantMount(String::from("Languages empty")))
    );
}

#[test]
fn prepare_mount_derives_the_mount_point() {
    let h = Handler::new(String::from("/base"));
    assert_eq!(h.prepare_mount(1, "SER"), Ok(String::from("/base/SER")));
}

#[test]
fn failed_mount_is_reported_and_not_recorded() {
    let mut h = Handler::new(String::from("/base"));
    let slot = DeviceAddr { bus: 1, addr: 5 };
    let r = h.complete_mount(
        slot,
        String::from("SER"),
        false,
        String::from("ifuse: no device"),
    );
    assert_eq!(r, Err(Error::CantMount(String::from("ifuse: no device"))));
    assert!(!h.contains(slot));
    assert!(h.is_empty());
    // The later departure then finds nothing to unmount.
    assert_eq!(h.begin_detach(slot), Err(Error::DeviceNotFound));
}

#[test]
fn mount_then_unmount_round_trip() {
    // A simulated attach followed by a simulated departure for the same
    // slot: exactly one mount invocation and one unmount invocation, both
    // on the serial-derived path, and the registry is empty afterward.
    let mut h = Handler::new(String::from("/base"));
    let slot = DeviceAddr { bus: 3, addr: 9 };
    let mut mount_calls: Vec<String> = Vec::new();
    let mut unmount_calls: Vec<String> = Vec::new();

    // Attach event.
    assert_eq!(tool_guard(true), Ok(()));
    assert!(is_apple_device(VENDOR, PRODUCT));
    let path = h.prepare_mount(1, "SER").unwrap();
    mount_calls.push(path.clone()); // the tool runs here and succeeds
    assert_eq!(h.complete_mount(slot, String::from("SER"), true, String::new()), Ok(()));
    assert!(h.contains(slot));

    // Departure event for the same slot.
    assert_eq!(tool_guard(true), Ok(()));
    assert!(is_apple_device(VENDOR, PRODUCT));
    let unmount_path = h.begin_detach(slot).unwrap();
    unmount_calls.push(unmount_path.clone()); // the tool runs here
    assert_eq!(tool_outcome(true, String::new()), Ok(()));

    assert_eq!(mount_calls, vec![String::from("/base/SER")]);
    assert_eq!(unmount_calls, vec![String::from("/base/SER")]);
    assert!(h.is_empty());
}

#[test]
fn departure_for_unrecorded_slot_reports_device_not_found() {
    // Unmount without prior mount: reported, and no unmount invocation is
    // ever issued because no path is returned.
    let mut h = Handler::new(String::from("/base"));
    let slot = DeviceAddr { bus: 4, addr: 1 };
    assert_eq!(h.begin_detach(slot), Err(Error::DeviceNotFound));
    assert!(h.is_empty());
}

#[test]
fn failed_unmount_does_not_reinsert_the_mapping() {
    let mut h = Handler::new(String::from("/base"));
    let slot = DeviceAddr { bus: 2, addr: 2 };
    assert_eq!(h.complete_mount(slot, String::from("SER"), true, String::new()), Ok(()));
    let path = h.begin_detach(slot).unwrap();
    assert_eq!(path, String::from("/base/SER"));
    // The unmount tool fails; the condition is reported but the device is
    // gone, so the slot stays released.
    assert_eq!(
        tool_outcome(false, String::from("fusermount: not mounted")),
        Err(Error::CantMount(String::from("fusermount: not mounted")))
    );
    assert!(!h.contains(slot));
    assert!(h.is_empty());
}

#[test]
fn error_messages_are_operator_readable() {
    assert_eq!(
        Error::CantMount(String::from("boom")).message(),
        String::from("Can't mount device: boom")
    );
    assert_eq!(Error::IfuseNotInstalled.message(), String::from("ifuse not installed"));
    assert_eq!(Error::DeviceNotFound.message(), String::from("Device not found"));
    assert_eq!(Error::Io(String::from("denied")).message(), String::from("denied"));
    assert_eq!(Error::Usb(String::from("no device")).message(), String::from("no device"));
}

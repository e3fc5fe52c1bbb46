//! Tracking of attached logical devices, keyed by transport path.
//!
//! On arrival the manager opens a device, reads its reported name, applies
//! the matching persisted entry best-effort, and registers the device under
//! its path; on removal it drops whatever is registered there, idempotent
//! if nothing is.  A periodic battery sweep reads every tracked device
//! best-effort.

use vstd::prelude::*;

use crate::config::{Config, DeviceConfig};
use crate::error::DeviceError;
use crate::mouse::MxMaster3s;
use crate::types::{spec_action_like, Action, BatteryInfo, ButtonId};

verus! {

/// A battery level strictly below this is flagged as low.
pub const LOW_BATTERY_PERCENT: u8 = 10;

/// Whether a battery reading is flagged as low.
pub fn is_low_battery(level: u8) -> (r: bool)
    ensures
        r == (level < LOW_BATTERY_PERCENT),
{
    level < LOW_BATTERY_PERCENT
}

/// The button named at position `j` of a persisted button list has an
/// action configured on the device, equivalent to one of the list's
/// actions for that same button.
pub open spec fn spec_button_applied(
    device: MxMaster3s,
    buttons: Seq<(ButtonId, Action)>,
    j: int,
) -> bool {
    device.spec_button_action(buttons[j].0) is Some && (exists|k: int|
        0 <= k < buttons.len() && (#[trigger] buttons[k]).0 == buttons[j].0 && spec_action_like(
            buttons[k].1,
            device.spec_button_action(buttons[j].0)->Some_0,
        ))
}

/// Zero or more concurrently attached devices, keyed by transport path,
/// with the persisted configuration they are matched against.
pub struct DeviceManager {
    devices: Vec<(String, MxMaster3s)>,
    config: Config,
}

impl DeviceManager {
    pub closed spec fn spec_entries(self) -> Seq<(String, MxMaster3s)> {
        self.devices@
    }

    pub closed spec fn spec_config(self) -> Config {
        self.config
    }

    /// Some device is tracked under this path.
    pub open spec fn spec_registered(self, path: Seq<char>) -> bool {
        exists|i: int|
            0 <= i < self.spec_entries().len() && (#[trigger] self.spec_entries()[i]).0@ == path
    }

    /// Every tracked session is well formed.
    pub open spec fn spec_wf(self) -> bool {
        forall|i: int|
            0 <= i < self.spec_entries().len() ==> (#[trigger] self.spec_entries()[i]).1.spec_wf()
    }

    pub fn new(config: Config) -> (r: Self)
        ensures
            r.spec_wf(),
            r.spec_entries().len() == 0,
            r.spec_config() == config,
            forall|p: Seq<char>| !r.spec_registered(p),
    {
        DeviceManager { devices: Vec::new(), config }
    }

    /// Apply every field of a persisted entry to an open device,
    /// best-effort: a failure applying one hardware field does not stop
    /// the rest.  Afterwards the software tuning equals the entry's, and
    /// every button the entry names has an action configured.
    pub fn apply_config(&self, device: &mut MxMaster3s, config: &DeviceConfig) -> (r: Result<
        (),
        DeviceError,
    >)
        requires
            old(device).spec_wf(),
        ensures
            final(device).spec_wf(),
            r is Ok,
            final(device).spec_scroll_wheel() == config.scroll_wheel,
            final(device).spec_thumbwheel() == config.thumbwheel,
            forall|j: int|
                0 <= j < config.buttons@.len() ==> #[trigger] spec_button_applied(
                    *final(device),
                    config.buttons@,
                    j,
                ),
    {
        // Hardware fields: a failure is tolerated and the next field is
        // still applied.
        match device.set_dpi(config.dpi) {
            Ok(_) => {},
            Err(_) => {},
        }
        match device.set_smartshift(config.smartshift) {
            Ok(_) => {},
            Err(_) => {},
        }
        match device.set_hires_scroll(config.hiresscroll) {
            Ok(_) => {},
            Err(_) => {},
        }
        match device.set_scroll_wheel(config.scroll_wheel) {
            Ok(_) => {},
            Err(_) => {},
        }
        match device.set_thumb_wheel(config.thumbwheel) {
            Ok(_) => {},
            Err(_) => {},
        }
        let mut i: usize = 0;
        while i < config.buttons.len()
            invariant
                device.spec_wf(),
                i <= config.buttons@.len(),
                device.spec_scroll_wheel() == config.scroll_wheel,
                device.spec_thumbwheel() == config.thumbwheel,
                forall|j: int|
                    0 <= j < i ==> #[trigger] spec_button_applied(*device, config.buttons@, j),
            decreases config.buttons@.len() - i,
        {
            let pair = &config.buttons[i];
            let copy = pair.1.duplicate();
            let ghost copied = copy;
            let ghost dev_before = *device;
            match device.set_button_action(pair.0, copy) {
                Ok(_) => {},
                Err(_) => {},
            }
            proof {
                assert forall|j: int| 0 <= j < i + 1 implies #[trigger] spec_button_applied(
                    *device,
                    config.buttons@,
                    j,
                ) by {
                    if config.buttons@[j].0 == config.buttons@[i as int].0 {
                        assert(device.spec_button_action(config.buttons@[j].0) == Some(copied));
                        assert((#[trigger] config.buttons@[i as int]).0 == config.buttons@[j].0
                            && spec_action_like(config.buttons@[i as int].1, copied));
                    } else {
                        assert(spec_button_applied(dev_before, config.buttons@, j));
                        assert(device.spec_button_action(config.buttons@[j].0)
                            == dev_before.spec_button_action(config.buttons@[j].0));
                        let k0 = choose|k: int|
                            0 <= k < config.buttons@.len() && (#[trigger] config.buttons@[k]).0
                                == config.buttons@[j].0 && spec_action_like(
                                config.buttons@[k].1,
                                dev_before.spec_button_action(config.buttons@[j].0)->Some_0,
                            );
                        assert((#[trigger] config.buttons@[k0]).0 == config.buttons@[j].0
                            && spec_action_like(
                            config.buttons@[k0].1,
                            device.spec_button_action(config.buttons@[j].0)->Some_0,
                        ));
                    }
                }
            }
            i += 1;
        }
        Ok(())
    }

    /// On hot-plug arrival: open a device against the receiver identity,
    /// read its name, apply the matching persisted entry if one exists,
    /// and register the device under the path.  An open or read failure is
    /// not fatal: nothing is registered and the manager goes on.  The
    /// registry is either left as it was or extended by exactly one entry
    /// under the given path; tracking of every other path is untouched.
    pub fn handle_device_added(&mut self, device_path: String) -> (r: Result<(), DeviceError>)
        requires
            old(self).spec_wf(),
        ensures
            final(self).spec_wf(),
            final(self).spec_config() == old(self).spec_config(),
            r is Ok,
            final(self).spec_entries() == old(self).spec_entries()
                || (final(self).spec_entries().len() == old(self).spec_entries().len() + 1
                && final(self).spec_entries().last().0@ == device_path@ && (forall|i: int|
                0 <= i < old(self).spec_entries().len() ==> #[trigger] final(self).spec_entries()[i]
                    == old(self).spec_entries()[i])),
            forall|q: Seq<char>|
                q != device_path@ ==> (final(self).spec_registered(q) <==> old(
                    self,
                ).spec_registered(q)),
    {
        let mut device = match MxMaster3s::open_bolt_receiver(2) {
            Ok(d) => d,
            Err(_) => { return Ok(()) },
        };
        let name = match device.get_device_name() {
            Ok(n) => n,
            Err(_) => { return Ok(()) },
        };
        match self.config.find_device_config(&name) {
            Some(index) => {
                match self.apply_config(&mut device, &self.config.devices[index]) {
                    Ok(_) => {},
                    Err(_) => {},
                }
            },
            None => {},
        }
        self.devices.push((device_path, device));
        proof {
            let n = old(self).spec_entries().len() as int;
            assert forall|t: int| 0 <= t < self.spec_entries().len() implies (
            #[trigger] self.spec_entries()[t]).1.spec_wf() by {
                if t < n {
                    assert(self.spec_entries()[t] == old(self).spec_entries()[t]);
                }
            }
            assert forall|q: Seq<char>| q != device_path@ implies (self.spec_registered(q) <==> old(
                self,
            ).spec_registered(q)) by {
                if old(self).spec_registered(q) {
                    let i = choose|i: int|
                        0 <= i < old(self).spec_entries().len() && (#[trigger] old(
                            self,
                        ).spec_entries()[i]).0@ == q;
                    assert((self.spec_entries()[i]).0@ == q);
                }
                if self.spec_registered(q) {
                    let i = choose|i: int|
                        0 <= i < self.spec_entries().len() && (#[trigger] self.spec_entries()[i]).0@
                            == q;
                    assert(i < n) by {
                        if i == n {
                            assert((self.spec_entries()[i]).0@ == device_path@);
                        }
                    }
                    assert((old(self).spec_entries()[i]).0@ == q);
                }
            }
        }
        Ok(())
    }

    /// On removal: drop whatever is registered under the path.  Idempotent
    /// when nothing is; tracking of every other path is untouched.
    pub fn handle_device_removed(&mut self, device_path: &String)
        requires
            old(self).spec_wf(),
        ensures
            final(self).spec_wf(),
            final(self).spec_config() == old(self).spec_config(),
            !final(self).spec_registered(device_path@),
            forall|q: Seq<char>|
                q != device_path@ ==> (final(self).spec_registered(q) <==> old(
                    self,
                ).spec_registered(q)),
    {
        let mut i: usize = 0;
        while i < self.devices.len()
            invariant
                self.spec_wf(),
                self.spec_config() == old(self).spec_config(),
                i <= self.devices@.len(),
                forall|j: int| 0 <= j < i ==> (#[trigger] self.devices@[j]).0@ != device_path@,
                forall|q: Seq<char>|
                    q != device_path@ ==> (self.spec_registered(q) <==> old(self).spec_registered(
                        q,
                    )),
            decreases self.devices@.len() - i,
        {
            if self.devices[i].0 == *device_path {
                let ghost before = self.devices@;
                let ghost was = *self;
                let _removed = self.devices.remove(i);
                proof {
                    assert(self.devices@ =~= before.subrange(0, i as int) + before.subrange(
                        i + 1,
                        before.len() as int,
                    ));
                    assert forall|t: int| 0 <= t < self.spec_entries().len() implies (
                    #[trigger] self.spec_entries()[t]).1.spec_wf() by {
                        if t < i {
                            assert(self.spec_entries()[t] == was.spec_entries()[t]);
                        } else {
                            assert(self.spec_entries()[t] == was.spec_entries()[t + 1]);
                        }
                    }
                    assert forall|j: int| 0 <= j < i implies (#[trigger] self.spec_entries()[j]).0@
                        != device_path@ by {
                        assert(self.spec_entries()[j] == was.spec_entries()[j]);
                    }
                    assert forall|q: Seq<char>| q != device_path@ implies (self.spec_registered(q)
                        <==> was.spec_registered(q)) by {
                        if self.spec_registered(q) {
                            let t = choose|t: int|
                                0 <= t < self.spec_entries().len() && (
                                #[trigger] self.spec_entries()[t]).0@ == q;
                            if t < i {
                                assert((was.spec_entries()[t]).0@ == q);
                            } else {
                                assert((was.spec_entries()[t + 1]).0@ == q);
                            }
                        }
                        if was.spec_registered(q) {
                            let t = choose|t: int|
                                0 <= t < was.spec_entries().len() && (
                                #[trigger] was.spec_entries()[t]).0@ == q;
                            assert(t != i);
                            if t < i {
                                assert((self.spec_entries()[t]).0@ == q);
                            } else {
                                assert((self.spec_entries()[t - 1]).0@ == q);
                            }
                        }
                    }
                }
            } else {
                i += 1;
            }
        }
    }

    /// Read the battery of every tracked device, best-effort: one reading
    /// (or nothing, when the read failed) per device, in registry order.
    /// The registry keeps the same devices under the same paths.
    pub fn battery_sweep(&mut self) -> (r: Vec<(String, Option<BatteryInfo>)>)
        requires
            old(self).spec_wf(),
        ensures
            final(self).spec_wf(),
            final(self).spec_config() == old(self).spec_config(),
            final(self).spec_entries().len() == old(self).spec_entries().len(),
            forall|i: int|
                0 <= i < old(self).spec_entries().len() ==> (#[trigger] final(self).spec_entries()[i]).0
                    == old(self).spec_entries()[i].0,
            r@.len() == old(self).spec_entries().len(),
            forall|i: int|
                0 <= i < r@.len() ==> (#[trigger] r@[i]).0 == old(self).spec_entries()[i].0,
    {
        let ghost orig = self.devices@;
        let mut swept: Vec<(String, MxMaster3s)> = Vec::new();
        let mut results: Vec<(String, Option<BatteryInfo>)> = Vec::new();
        while self.devices.len() > 0
            invariant
                self.spec_config() == old(self).spec_config(),
                orig == old(self).spec_entries(),
                old(self).spec_wf(),
                swept@.len() + self.devices@.len() == orig.len(),
                self.devices@ == orig.skip(swept@.len() as int),
                forall|j: int|
                    0 <= j < swept@.len() ==> (#[trigger] swept@[j]).0 == orig[j].0
                        && swept@[j].1.spec_wf(),
                results@.len() == swept@.len(),
                forall|j: int| 0 <= j < results@.len() ==> (#[trigger] results@[j]).0 == orig[j].0,
            decreases self.devices@.len(),
        {
            let ghost k = swept@.len();
            proof {
                assert(self.devices@[0] == orig.skip(k as int)[0]);
                assert(orig.skip(k as int)[0] == orig[k as int]);
            }
            let (path, mut device) = self.devices.remove(0);
            proof {
                assert(self.devices@ =~= orig.skip(k as int + 1));
            }
            let reading = match device.get_battery_info() {
                Ok(info) => Some(info),
                Err(_) => Option::<BatteryInfo>::None,
            };
            results.push((path.clone(), reading));
            swept.push((path, device));
        }
        proof {
            assert(self.devices@.len() == 0);
            assert(swept@.len() == orig.len());
        }
        self.devices = swept;
        results
    }
}

} // verus!

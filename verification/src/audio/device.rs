//! The watch on the default audio device.

use vstd::prelude::*;

verus! {

/// Shortest time between two unforced polls, in nanoseconds: one second.
pub const POLL_INTERVAL_NANOS: u128 = 1_000_000_000;

/// The identity under which two resolutions of the default device are
/// compared: the device's name, or `None` where there is no device or it
/// cannot tell its name.
pub open spec fn identity(device: Option<String>) -> Option<Seq<char>> {
    match device {
        Some(name) => Some(name@),
        None => None,
    }
}

/// The time that has passed on the caller's clock between `last_poll` and
/// `now`, or `None` where the clock has gone backwards and cannot say.
pub open spec fn elapsed(last_poll: u128, now: u128) -> Option<nat> {
    if now >= last_poll {
        Some((now - last_poll) as nat)
    } else {
        None
    }
}

/// Whether a poll at `now` looks at the device at all: always when it is
/// forced, and otherwise only once a full interval has passed since the last
/// poll that did.
pub open spec fn poll_due(last_poll: u128, skip_waiting: bool, now: u128) -> bool {
    skip_waiting || match elapsed(last_poll, now) {
        Some(nanos) => nanos >= POLL_INTERVAL_NANOS,
        None => false,
    }
}

/// The time of the last poll as recorded after a poll at `now`. Only a poll
/// that comes too early leaves the record as it was: one that is due, and one
/// that finds the clock gone backwards, both start the interval afresh.
pub open spec fn last_poll_after(last_poll: u128, skip_waiting: bool, now: u128) -> u128 {
    if poll_due(last_poll, skip_waiting, now) || elapsed(last_poll, now) is None {
        now
    } else {
        last_poll
    }
}

/// Keeps track of which device is the current default one and of when that
/// was last looked up, so that a change of device is noticed without looking
/// it up more than once per interval.
///
/// The selector holds no handle to the audio subsystem: its owner reads the
/// clock and resolves the default device, and tells the selector what it
/// found. Times are nanoseconds on a clock of the owner's choosing.
pub struct DeviceSelector {
    use_input: bool,
    current_device: Option<String>,
    last_poll: u128,
}

impl DeviceSelector {
    /// Whether the default input device is followed, rather than the default
    /// output device.
    pub closed spec fn use_input(&self) -> bool {
        self.use_input
    }

    /// The identity of the device on record: that of the device found when
    /// it was last resolved.
    pub closed spec fn current_device(&self) -> Option<Seq<char>> {
        identity(self.current_device)
    }

    /// The time of the last poll that has started the interval afresh.
    pub closed spec fn last_poll(&self) -> u128 {
        self.last_poll
    }

    /// A selector for the given direction. `device` is the name of the
    /// default device as resolved by the caller just now, and `now` the time
    /// of that resolution.
    pub fn new(use_input: bool, device: Option<String>, now: u128) -> (selector: Self)
        ensures
            selector.use_input() == use_input,
            selector.current_device() == identity(device),
            selector.last_poll() == now,
    {
        DeviceSelector { use_input, current_device: device, last_poll: now }
    }

    /// Whether the default input device is followed, rather than the default
    /// output device.
    pub fn uses_input(&self) -> (input: bool)
        ensures
            input == self.use_input(),
    {
        self.use_input
    }

    /// The name of the device on record, or `None` where the record is of no
    /// device.
    pub fn device_name(&self) -> (name: &Option<String>)
        ensures
            identity(*name) == self.current_device(),
    {
        &self.current_device
    }

    /// Resolves the current default device for the selector's direction,
    /// and the stream configuration that this device offers by default.
    ///
    /// `device` looks up the default device, for input where its argument is
    /// `true` and for output otherwise; `config` asks a device for its
    /// default configuration in that direction. Where there is no device
    /// there is no configuration either, and none is asked for; a device
    /// that offers no configuration is returned alone.
    pub fn get_device_and_config<D, K, FD, FK>(&self, device: FD, config: FK) -> (resolved: (
        Option<D>,
        Option<K>,
    )) where FD: FnOnce(bool) -> Option<D>, FK: FnOnce(&D, bool) -> Option<K>
        requires
            call_requires(device, (self.use_input(),)),
            forall|found: &D| call_requires(config, (found, self.use_input())),
        ensures
            call_ensures(device, (self.use_input(),), resolved.0),
            match resolved.0 {
                Some(found) => call_ensures(config, (&found, self.use_input()), resolved.1),
                None => resolved.1 is None,
            },
    {
        match device(self.use_input) {
            Some(found) => {
                let offered = config(&found, self.use_input);
                (Some(found), offered)
            },
            None => (None, None),
        }
    }

    /// First half of a poll: decides at time `now` whether the default device
    /// is to be resolved again.
    ///
    /// Without `skip_waiting`, a poll that comes less than one interval
    /// after the last one is not due and changes nothing. Where the clock
    /// has gone backwards the poll is not due either, but the interval
    /// starts afresh at `now`. Where the result is `true`, the caller
    /// resolves the device and reports it to
    /// [`DeviceSelector::device_resolved`]; where it is `false`, the outcome
    /// of the poll is that nothing has changed.
    pub fn poll_is_due(&mut self, skip_waiting: bool, now: u128) -> (due: bool)
        ensures
            due == poll_due(old(self).last_poll(), skip_waiting, now),
            final(self).last_poll() == last_poll_after(old(self).last_poll(), skip_waiting, now),
            final(self).current_device() == old(self).current_device(),
            final(self).use_input() == old(self).use_input(),
    {
        if skip_waiting {
            self.last_poll = now;
            true
        } else if now >= self.last_poll {
            if now - self.last_poll >= POLL_INTERVAL_NANOS {
                self.last_poll = now;
                true
            } else {
                false
            }
        } else {
            self.last_poll = now;
            false
        }
    }

    /// Second half of a poll: compares the device that the caller has just
    /// resolved with the one on record, by identity. Any difference counts,
    /// also between no device and some device; the record is then brought
    /// up to date.
    pub fn device_resolved(&mut self, device: Option<String>) -> (updated: bool)
        ensures
            updated <==> identity(device) != old(self).current_device(),
            final(self).current_device() == identity(device),
            final(self).last_poll() == old(self).last_poll(),
            final(self).use_input() == old(self).use_input(),
    {
        let updated = match (&self.current_device, &device) {
            (None, None) => false,
            (Some(previous), Some(name)) => !(*previous == *name),
            _ => true,
        };
        if updated {
            self.current_device = device;
        }
        updated
    }

    /// A whole poll at time `now`: says whether the default device has
    /// changed since it was last recorded.
    ///
    /// `resolve` looks up the name of the current default device. It is
    /// called only where the poll is due, see [`DeviceSelector::poll_is_due`],
    /// and then once; a poll that is not due answers `false` and leaves the
    /// record of the device alone. Where it is due, the answer is that of
    /// [`DeviceSelector::device_resolved`] on what `resolve` found.
    pub fn poll_device_has_changed<F: FnOnce() -> Option<String>>(
        &mut self,
        skip_waiting: bool,
        now: u128,
        resolve: F,
    ) -> (updated: bool)
        requires
            call_requires(resolve, ()),
        ensures
            final(self).last_poll() == last_poll_after(old(self).last_poll(), skip_waiting, now),
            final(self).use_input() == old(self).use_input(),
            !poll_due(old(self).last_poll(), skip_waiting, now) ==> {
                &&& !updated
                &&& final(self).current_device() == old(self).current_device()
            },
            poll_due(old(self).last_poll(), skip_waiting, now) ==> exists|device: Option<String>|
                {
                    &&& #[trigger] call_ensures(resolve, (), device)
                    &&& updated <==> identity(device) != old(self).current_device()
                    &&& final(self).current_device() == identity(device)
                },
    {
        if !self.poll_is_due(skip_waiting, now) {
            return false;
        }
        let device = resolve();
        self.device_resolved(device)
    }
}

/// Rate limiting: of two unforced polls that come less than one interval
/// apart, in either order on the clock, at most one resolves the device,
/// whatever went before.
pub proof fn lemma_rate_limit(last_poll: u128, first: u128, second: u128)
    requires
        second < first + POLL_INTERVAL_NANOS,
        first < second + POLL_INTERVAL_NANOS,
    ensures
        !(poll_due(last_poll, false, first) && poll_due(
            last_poll_after(last_poll, false, first),
            false,
            second,
        )),
{
}

/// A forced poll is always due, and every poll that is due starts the
/// interval afresh.
pub proof fn lemma_forced_poll(last_poll: u128, now: u128)
    ensures
        poll_due(last_poll, true, now),
        forall|skip_waiting: bool| #[trigger]
            poll_due(last_poll, skip_waiting, now) ==> last_poll_after(
                last_poll,
                skip_waiting,
                now,
            ) == now,
{
}

} // verus!

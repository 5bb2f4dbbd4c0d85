//! The session state machine: devices, stream lifecycle and dispatch.
//!
//! The backend performs I/O; the session decides. Each method returns what
//! the backend glue must do, and the glue reports stream outcomes back, so
//! every decision on this path is verified while the OS work stays outside.

use vstd::prelude::*;

use crate::device::{
    device_position, indices_distinct, lemma_device_position, lemma_position_from_witness, Device,
};
use crate::device::{find_device_index, position_of_index};
use crate::error::Error;
use crate::listener::{
    model_contains, model_dispatch, model_find, model_remove, AudioData, Listener,
};

verus! {

/// What the backend glue must do after a session step: leave the running
/// stream alone, or tear it down and rebuild it against the device at the
/// given position of the session's device list.
#[derive(Debug, Clone, Copy, PartialEq, Eq, Structural)]
pub enum StreamAction {
    Keep,
    Rebuild(usize),
}

/// The session's mathematical state: the enumerated devices, the selected
/// and the pending device position, whether a stream is live, and the
/// registry model. The spec functions below are the session's transition
/// relation; every method of [`Host`] promises exactly one of them.
pub struct SessionModel<M> {
    pub devices: Seq<Device>,
    pub current: Option<usize>,
    pub pending: Option<usize>,
    pub listening: bool,
    pub registry: Seq<(Seq<char>, M)>,
}

/// Positions in range, device identifiers unique, registry keys unique.
pub open spec fn session_wf<M>(s: SessionModel<M>) -> bool {
    &&& indices_distinct(s.devices)
    &&& match s.current {
        Some(i) => i < s.devices.len(),
        None => true,
    }
    &&& match s.pending {
        Some(i) => i < s.devices.len(),
        None => true,
    }
    &&& crate::listener::model_distinct(s.registry)
}

/// Which device `listen` binds: a pending switch wins, then the device
/// already selected, then the default (position zero); with no devices at
/// all there is nothing to bind.
pub open spec fn spec_listen_target<M>(s: SessionModel<M>) -> Result<usize, Error> {
    if s.devices.len() == 0 {
        Err(Error::NoDefaultDeviceFound)
    } else {
        match s.pending {
            Some(i) => Ok(i),
            None => match s.current {
                Some(i) => Ok(i),
                None => Ok(0),
            },
        }
    }
}

/// How the session commits the outcome of a stream build: on success the
/// target becomes current, any pending switch is consumed and dispatch is
/// live; on failure nothing changes, so a failed switch leaves the session
/// listening on the previous device.
pub open spec fn spec_stream_started<M>(s: SessionModel<M>, target: usize, ok: bool) -> SessionModel<M> {
    if ok && target < s.devices.len() {
        SessionModel { current: Some(target), pending: None, listening: true, ..s }
    } else {
        s
    }
}

/// The device-switch decision. An unknown identifier changes nothing and is
/// reported (`None` here, `DeviceNotFound` at the call). While idle the
/// switch is recorded as pending and applied when `listen` next runs; while
/// listening the stream must be rebuilt, and the session state waits for
/// `stream_started` so that a failed rebuild rolls nothing forward.
pub open spec fn spec_change_device<M>(s: SessionModel<M>, index: u32) -> (
    SessionModel<M>,
    Option<StreamAction>,
) {
    let pos = device_position(s.devices, index);
    if pos == -1 {
        (s, None)
    } else if s.listening {
        (s, Some(StreamAction::Rebuild(pos as usize)))
    } else {
        (SessionModel { pending: Some(pos as usize), ..s }, Some(StreamAction::Keep))
    }
}

/// Where a backend identifier lands after re-enumeration: its new position,
/// the first device when it vanished but devices remain, nothing when the
/// list is empty.
pub open spec fn spec_find_fallback(devices: Seq<Device>, index: u32) -> Option<usize> {
    if device_position(devices, index) != -1 {
        Some(device_position(devices, index) as usize)
    } else if devices.len() > 0 {
        Some(0usize)
    } else {
        None
    }
}

/// Re-enumeration: the device list is replaced; the selected device follows
/// its identifier into the new list (falling back to the first device when
/// it vanished); a pending switch survives only if its device is still
/// there. The registry and the stream state are untouched.
pub open spec fn spec_refresh<M>(s: SessionModel<M>, new_devices: Seq<Device>) -> SessionModel<M> {
    let current = match s.current {
        Some(i) => if i < s.devices.len() {
            spec_find_fallback(new_devices, s.devices[i as int].spec_index())
        } else {
            None
        },
        None => None,
    };
    let pending = match s.pending {
        Some(i) => if i < s.devices.len() && device_position(
            new_devices,
            s.devices[i as int].spec_index(),
        ) != -1 {
            Some(device_position(new_devices, s.devices[i as int].spec_index()) as usize)
        } else {
            None
        },
        None => None,
    };
    SessionModel { devices: new_devices, current, pending, ..s }
}

/// The session: ties one consumer registry to the backend's device list and
/// stream lifecycle.
///
/// States: idle (no stream bound) and listening (stream active, dispatch
/// live). The backend itself — enumerating hardware, opening and closing OS
/// streams — is a collaborator the session only decides for: each method
/// returns what the glue must do, and `stream_started` feeds the outcome
/// back. The registry is deliberately decoupled from the stream handle:
/// no device switch ever touches it, so consumers never re-register.
pub struct Host<T> {
    devices: Vec<Device>,
    current_device_index: Option<usize>,
    pending_device_index: Option<usize>,
    listening: bool,
    listener: Listener<T>,
}

impl<T: AudioData> Host<T> {
    /// The session's mathematical state.
    pub closed spec fn model(&self) -> SessionModel<T::Model> {
        SessionModel {
            devices: self.devices@,
            current: self.current_device_index,
            pending: self.pending_device_index,
            listening: self.listening,
            registry: self.listener.model(),
        }
    }

    pub closed spec fn wf(&self) -> bool {
        &&& self.listener.wf()
        &&& session_wf(self.model())
    }

    /// A well-formed session has a well-formed model.
    pub proof fn lemma_wf_session(&self)
        requires
            self.wf(),
        ensures
            session_wf(self.model()),
    {
    }

    /// A fresh session over one enumeration of devices: idle, nothing
    /// selected, nothing pending, no consumers registered.
    pub fn new(devices: Vec<Device>) -> (h: Host<T>)
        requires
            indices_distinct(devices@),
        ensures
            h.wf(),
            h.model().devices == devices@,
            h.model().current == None::<usize>,
            h.model().pending == None::<usize>,
            !h.model().listening,
            h.model().registry == Seq::<(Seq<char>, T::Model)>::empty(),
    {
        let h = Host {
            devices,
            current_device_index: None,
            pending_device_index: None,
            listening: false,
            listener: Listener::new(),
        };
        proof {
            h.listener.lemma_wf_distinct();
        }
        h
    }

    /// The position of the device currently listened to, if any.
    pub fn current_device_index(&self) -> (r: Option<usize>)
        ensures
            r == self.model().current,
    {
        self.current_device_index
    }

    /// The device currently listened to, if any.
    pub fn current_device(&self) -> (r: Option<&Device>)
        requires
            self.wf(),
        ensures
            match self.model().current {
                Some(i) => r matches Some(d) && *d == self.model().devices[i as int],
                None => r is None,
            },
    {
        match self.current_device_index {
            Some(i) => Some(&self.devices[i]),
            None => None,
        }
    }

    /// The default device: the first of the enumeration (the backend glue
    /// puts the backend's default there). Fails exactly when no device
    /// exists.
    pub fn default_device(&self) -> (r: Result<&Device, Error>)
        ensures
            self.model().devices.len() > 0 ==> (r matches Ok(d) && *d == self.model().devices[0]),
            self.model().devices.len() == 0 ==> r == Err::<&Device, Error>(
                Error::NoDefaultDeviceFound,
            ),
    {
        if self.devices.len() > 0 {
            Ok(&self.devices[0])
        } else {
            Err(Error::NoDefaultDeviceFound)
        }
    }

    /// The devices of the last enumeration.
    pub fn devices(&self) -> (r: &Vec<Device>)
        ensures
            r@ == self.model().devices,
    {
        &self.devices
    }

    /// Decides which device to bind a stream to; the glue builds the stream
    /// and reports through [`Host::stream_started`]. The session state
    /// itself does not move until that report, so a failed build leaves
    /// everything as it was.
    pub fn listen(&mut self) -> (r: Result<usize, Error>)
        requires
            old(self).wf(),
        ensures
            *final(self) == *old(self),
            final(self).wf(),
            r == spec_listen_target(old(self).model()),
            r matches Ok(i) ==> i < old(self).model().devices.len(),
    {
        if self.devices.len() == 0 {
            return Err(Error::NoDefaultDeviceFound);
        }
        match self.pending_device_index {
            Some(i) => Ok(i),
            None => match self.current_device_index {
                Some(i) => Ok(i),
                None => Ok(0),
            },
        }
    }

    /// Commits the outcome of a stream build or rebuild against the device
    /// at `target`: on success the session is listening there and any
    /// pending switch is consumed; on failure nothing changes.
    pub fn stream_started(&mut self, target: usize, ok: bool)
        requires
            old(self).wf(),
        ensures
            final(self).wf(),
            final(self).model() == spec_stream_started(old(self).model(), target, ok),
    {
        if ok && target < self.devices.len() {
            self.current_device_index = Some(target);
            self.pending_device_index = None;
            self.listening = true;
        }
    }

    /// Releases the stream: the session is idle again. Slots keep their
    /// last value, consumers stay registered.
    pub fn stop(&mut self)
        requires
            old(self).wf(),
        ensures
            final(self).wf(),
            final(self).model() == (SessionModel { listening: false, ..old(self).model() }),
    {
        self.listening = false;
    }

    /// Requests a switch to `device`. Unknown devices are refused with
    /// `DeviceNotFound`. While idle the switch is recorded and applied by
    /// the next `listen`; while listening the returned action tells the
    /// glue to rebuild the stream, and the switch is committed by
    /// [`Host::stream_started`] — never before, so a failed rebuild leaves
    /// the session listening on the previous device.
    pub fn change_device(&mut self, device: &Device) -> (r: Result<StreamAction, Error>)
        requires
            old(self).wf(),
        ensures
            final(self).wf(),
            ({
                let (s2, act) = spec_change_device(old(self).model(), device.spec_index());
                &&& final(self).model() == s2
                &&& match act {
                    Some(a) => r == Ok::<StreamAction, Error>(a),
                    None => r matches Err(e) && e matches Error::DeviceNotFound(n) && n@
                        == device.spec_name(),
                }
            }),
    {
        proof {
            lemma_device_position(self.devices@, device.spec_index());
        }
        match position_of_index(&self.devices, device.index()) {
            Some(i) => {
                if self.listening {
                    Ok(StreamAction::Rebuild(i))
                } else {
                    self.pending_device_index = Some(i);
                    Ok(StreamAction::Keep)
                }
            },
            None => Err(Error::DeviceNotFound(device.name_owned())),
        }
    }

    /// Requests a switch by position in the device list; positions outside
    /// the list are refused with `InvalidDeviceIndex`. Otherwise behaves as
    /// a switch to the device at that position.
    pub fn change_device_by_index(&mut self, index: usize) -> (r: Result<StreamAction, Error>)
        requires
            old(self).wf(),
        ensures
            final(self).wf(),
            index >= old(self).model().devices.len() ==> r == Err::<StreamAction, Error>(
                Error::InvalidDeviceIndex(index),
            ) && final(self).model() == old(self).model(),
            index < old(self).model().devices.len() ==> ({
                let (s2, act) = spec_change_device(
                    old(self).model(),
                    old(self).model().devices[index as int].spec_index(),
                );
                &&& final(self).model() == s2
                &&& act matches Some(a) && r == Ok::<StreamAction, Error>(a)
            }),
    {
        if index >= self.devices.len() {
            return Err(Error::InvalidDeviceIndex(index));
        }
        let target = Device::new(self.devices[index].name_owned(), self.devices[index].index());
        proof {
            lemma_position_from_witness(self.devices@, target.spec_index(), index as int);
        }
        self.change_device(&target)
    }

    /// Replaces the device list after a re-enumeration, carrying the
    /// selection along by backend identifier. The registry and the stream
    /// state are untouched.
    pub fn refresh(&mut self, new_devices: Vec<Device>)
        requires
            old(self).wf(),
            indices_distinct(new_devices@),
        ensures
            final(self).wf(),
            final(self).model() == spec_refresh(old(self).model(), new_devices@),
    {
        proof {
            if let Some(i) = self.current_device_index {
                lemma_device_position(new_devices@, self.devices@[i as int].spec_index());
            }
            if let Some(i) = self.pending_device_index {
                lemma_device_position(new_devices@, self.devices@[i as int].spec_index());
            }
        }
        let current = match self.current_device_index {
            Some(i) => find_device_index(&new_devices, self.devices[i].index()),
            None => None,
        };
        let pending = match self.pending_device_index {
            Some(i) => position_of_index(&new_devices, self.devices[i].index()),
            None => None,
        };
        self.devices = new_devices;
        self.current_device_index = current;
        self.pending_device_index = pending;
    }

    /// The producer callback's path: forwards one frame to every registered
    /// consumer, in registration order. Device and stream state are
    /// untouched.
    pub fn dispatch(&mut self, frame: &Vec<u32>)
        requires
            old(self).wf(),
        ensures
            final(self).wf(),
            final(self).model() == (SessionModel {
                registry: model_dispatch::<T>(old(self).model().registry, frame@),
                ..old(self).model()
            }),
    {
        self.listener.dispatch(frame);
        proof {
            self.listener.lemma_wf_distinct();
        }
    }

    /// Registers a consumer under `key`; fails with `DuplicateListenerKey`
    /// exactly when the key is taken.
    pub fn register(&mut self, key: String, adapter: T) -> (r: Result<(), Error>)
        requires
            old(self).wf(),
        ensures
            final(self).wf(),
            final(self).model().devices == old(self).model().devices,
            final(self).model().current == old(self).model().current,
            final(self).model().pending == old(self).model().pending,
            final(self).model().listening == old(self).model().listening,
            match r {
                Ok(()) => {
                    &&& !model_contains(old(self).model().registry, key@)
                    &&& final(self).model().registry == old(self).model().registry.push(
                        (key@, adapter.model()),
                    )
                },
                Err(e) => {
                    &&& e == Error::DuplicateListenerKey(key)
                    &&& model_contains(old(self).model().registry, key@)
                    &&& final(self).model().registry == old(self).model().registry
                },
            },
    {
        let r = self.listener.register(key, adapter);
        proof {
            self.listener.lemma_wf_distinct();
        }
        r
    }

    /// Removes the consumer under `key`; a second removal is a no-op.
    pub fn remove(&mut self, key: &String) -> (r: bool)
        requires
            old(self).wf(),
        ensures
            final(self).wf(),
            final(self).model().devices == old(self).model().devices,
            final(self).model().current == old(self).model().current,
            final(self).model().pending == old(self).model().pending,
            final(self).model().listening == old(self).model().listening,
            r == model_contains(old(self).model().registry, key@),
            final(self).model().registry == model_remove(old(self).model().registry, key@),
    {
        let r = self.listener.remove(key);
        proof {
            self.listener.lemma_wf_distinct();
        }
        r
    }

    /// A snapshot of the latest value of the consumer under `key`.
    pub fn poll(&self, key: &String) -> (r: Option<T>)
        requires
            self.wf(),
        ensures
            match r {
                Some(v) => model_contains(self.model().registry, key@) && v.model()
                    == self.model().registry[model_find(self.model().registry, key@)].1,
                None => !model_contains(self.model().registry, key@),
            },
    {
        self.listener.poll(key)
    }

    /// Attaches to the consumer under `key`, creating it with `initial`
    /// when absent, and returns a snapshot of its current value.
    pub fn create_listener(&mut self, key: String, initial: T) -> (r: T)
        requires
            old(self).wf(),
        ensures
            final(self).wf(),
            final(self).model().devices == old(self).model().devices,
            final(self).model().current == old(self).model().current,
            final(self).model().pending == old(self).model().pending,
            final(self).model().listening == old(self).model().listening,
            model_contains(old(self).model().registry, key@) ==> {
                &&& final(self).model().registry == old(self).model().registry
                &&& r.model() == old(self).model().registry[
                    model_find(old(self).model().registry, key@)
                ].1
            },
            !model_contains(old(self).model().registry, key@) ==> {
                &&& final(self).model().registry == old(self).model().registry.push(
                    (key@, initial.model()),
                )
                &&& r.model() == initial.model()
            },
    {
        let r = self.listener.create(key, initial);
        proof {
            self.listener.lemma_wf_distinct();
        }
        r
    }
}

/// Law: a device switch while listening never disturbs the registry.
///
/// From any listening session that knows the requested device, the switch
/// decision leaves the whole session state unchanged, and committing the
/// successful rebuild moves only the selection: afterwards the session
/// listens on the requested device and the registry — every key and every
/// payload — is exactly what it was, so no consumer ever re-registers
/// across a device switch.
pub proof fn lemma_switch_keeps_consumers<M>(s: SessionModel<M>, index: u32)
    requires
        s.listening,
        device_position(s.devices, index) != -1,
    ensures
        ({
            let pos = device_position(s.devices, index) as usize;
            let (s1, act) = spec_change_device(s, index);
            &&& s1 == s
            &&& act == Some(StreamAction::Rebuild(pos))
            &&& spec_stream_started(s1, pos, true).registry == s.registry
            &&& spec_stream_started(s1, pos, true).current == Some(pos)
            &&& spec_stream_started(s1, pos, true).listening
            &&& spec_stream_started(s1, pos, true).devices == s.devices
        }),
{
    lemma_device_position(s.devices, index);
}

} // verus!

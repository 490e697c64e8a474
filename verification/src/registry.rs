//! The table of managers and listeners behind their handles, and the life
//! cycle of a listener: created, configured, running, stopped, destroyed.
//!
//! The registry decides; the caller acts. Starting a listener hands back
//! what its worker needs, stopping or destroying one says whether a worker
//! has to be joined before the call may return to the host.

use crate::error::MidiError;
use crate::midi::MidiManager;
use std::collections::HashMap;
use vstd::prelude::*;
use vstd::slice::slice_to_vec;

verus! {

broadcast use vstd::std_specs::hash::group_hash_axioms;

/// The state of one listener.
#[derive(Debug, Clone)]
pub struct EventListener {
    /// The host's event reference that the listener forwards to.
    pub user_event: Option<u32>,
    /// The status bytes that the listener forwards; empty for all.
    pub filter_array: Vec<u8>,
    /// The input device that the listener is bound to.
    pub device_index: Option<usize>,
    /// Whether a worker runs for the listener.
    pub running: bool,
}

/// The mathematical value of an [`EventListener`].
pub struct ListenerView {
    pub user_event: Option<u32>,
    pub filter: Seq<u8>,
    pub device_index: Option<usize>,
    pub running: bool,
}

impl View for EventListener {
    type V = ListenerView;

    open spec fn view(&self) -> ListenerView {
        ListenerView {
            user_event: self.user_event,
            filter: self.filter_array@,
            device_index: self.device_index,
            running: self.running,
        }
    }
}

/// A listener as it is created: nothing set, not running.
pub open spec fn fresh_listener() -> ListenerView {
    ListenerView { user_event: None, filter: Seq::empty(), device_index: None, running: false }
}

impl EventListener {
    /// A listener with nothing set, not running.
    pub fn new() -> (r: EventListener)
        ensures
            r@ == fresh_listener(),
    {
        EventListener {
            user_event: None,
            filter_array: Vec::new(),
            device_index: None,
            running: false,
        }
    }
}

/// What the worker of a started listener needs: the device to open a
/// connection of its own to, the host's event reference, and the filter.
#[derive(Debug, Clone)]
pub struct WorkerPlan {
    pub device_index: usize,
    pub user_event: u32,
    pub filter_array: Vec<u8>,
}

/// The managers and listeners of a process behind their handles. Both
/// tables draw their handles from one counter that starts at one and only
/// grows.
pub struct MidiRegistry {
    next_handle: i32,
    managers: HashMap<i32, MidiManager>,
    listeners: HashMap<i32, EventListener>,
}

impl MidiRegistry {
    /// The handle that the next creation returns.
    pub closed spec fn next_handle(&self) -> int {
        self.next_handle as int
    }

    /// The managers behind their handles.
    pub closed spec fn managers(&self) -> Map<i32, MidiManager> {
        self.managers@
    }

    /// The listeners behind their handles.
    pub closed spec fn listeners(&self) -> Map<i32, ListenerView> {
        Map::new(|h: i32| self.listeners@.contains_key(h), |h: i32| self.listeners@[h]@)
    }

    /// Whether a handle was ever handed out.
    pub open spec fn issued(&self, handle: i32) -> bool {
        1 <= handle < self.next_handle()
    }

    /// Every handle in a table was handed out, and the counter is
    /// positive.
    pub open spec fn wf(&self) -> bool {
        &&& self.next_handle() >= 1
        &&& forall|h: i32| #[trigger] self.managers().contains_key(h) ==> self.issued(h)
        &&& forall|h: i32| #[trigger] self.listeners().contains_key(h) ==> self.issued(h)
    }

    /// An empty registry whose first handle is one.
    pub fn new() -> (r: MidiRegistry)
        ensures
            r.wf(),
            r.next_handle() == 1,
            r.managers() == Map::<i32, MidiManager>::empty(),
            r.listeners() == Map::<i32, ListenerView>::empty(),
    {
        let r = MidiRegistry { next_handle: 1, managers: HashMap::new(), listeners: HashMap::new() };
        assert(r.listeners() =~= Map::<i32, ListenerView>::empty());
        r
    }

    /// Whether a handle is left to hand out.
    pub fn has_free_handle(&self) -> (r: bool)
        ensures
            r == (self.next_handle() < i32::MAX),
    {
        self.next_handle < i32::MAX
    }

    /// Hands out the next handle.
    fn mint(&mut self) -> (handle: i32)
        requires
            old(self).next_handle < i32::MAX,
        ensures
            handle == old(self).next_handle,
            final(self).next_handle == handle + 1,
            final(self).managers == old(self).managers,
            final(self).listeners == old(self).listeners,
            final(self).managers() == old(self).managers(),
            final(self).listeners() == old(self).listeners(),
    {
        let handle = self.next_handle;
        self.next_handle = handle + 1;
        handle
    }

    /// Puts a listener behind a handle, in place of the one that was
    /// there.
    fn put_listener(&mut self, handle: i32, listener: EventListener)
        ensures
            final(self).next_handle == old(self).next_handle,
            final(self).managers == old(self).managers,
            final(self).managers() == old(self).managers(),
            final(self).listeners() == old(self).listeners().insert(handle, listener@),
    {
        self.listeners.insert(handle, listener);
        assert(self.listeners() =~= old(self).listeners().insert(handle, listener@));
    }

    /// Takes the listener behind a handle out of the table.
    fn take_listener(&mut self, handle: i32) -> (r: Option<EventListener>)
        ensures
            final(self).next_handle == old(self).next_handle,
            final(self).managers == old(self).managers,
            final(self).managers() == old(self).managers(),
            final(self).listeners() == old(self).listeners().remove(handle),
            match r {
                Some(listener) => old(self).listeners().contains_key(handle) && old(self).listeners()[handle] == listener@,
                None => !old(self).listeners().contains_key(handle),
            },
    {
        let r = self.listeners.remove(&handle);
        assert(self.listeners() =~= old(self).listeners().remove(handle));
        r
    }
}

/// Creates a manager without connections and returns its handle, which no
/// creation returned before.
pub fn midi_create_manager(registry: &mut MidiRegistry) -> (handle: i32)
    requires
        old(registry).wf(),
        old(registry).next_handle() < i32::MAX,
    ensures
        final(registry).wf(),
        handle == old(registry).next_handle(),
        handle >= 1,
        !old(registry).issued(handle),
        final(registry).next_handle() == handle + 1,
        final(registry).managers() == old(registry).managers().insert(
            handle,
            MidiManager { input_device: None, output_device: None },
        ),
        final(registry).listeners() == old(registry).listeners(),
{
    let handle = registry.mint();
    registry.managers.insert(handle, MidiManager::new());
    assert(registry.listeners() =~= old(registry).listeners());
    assert(registry.managers() == old(registry).managers().insert(
        handle,
        MidiManager { input_device: None, output_device: None },
    ));
    handle
}

/// Removes a manager. An unknown handle gives `InvalidHandle` and changes
/// nothing.
pub fn midi_destroy_manager(registry: &mut MidiRegistry, handle: i32) -> (r: Result<(), MidiError>)
    requires
        old(registry).wf(),
    ensures
        final(registry).wf(),
        final(registry).next_handle() == old(registry).next_handle(),
        final(registry).listeners() == old(registry).listeners(),
        final(registry).managers() == old(registry).managers().remove(handle),
        r == if old(registry).managers().contains_key(handle) {
            Ok::<(), MidiError>(())
        } else {
            Err::<(), MidiError>(MidiError::InvalidHandle)
        },
{
    let removed = registry.managers.remove(&handle);
    assert(registry.listeners() =~= old(registry).listeners());
    assert(registry.managers() == old(registry).managers().remove(handle));
    match removed {
        Some(_) => Ok(()),
        None => Err(MidiError::InvalidHandle),
    }
}

/// Closes a connection made with `midi_connect_with_user_event`: removes
/// its manager as `midi_destroy_manager` does.
pub fn midi_disconnect(registry: &mut MidiRegistry, handle: i32) -> (r: Result<(), MidiError>)
    requires
        old(registry).wf(),
    ensures
        final(registry).wf(),
        final(registry).next_handle() == old(registry).next_handle(),
        final(registry).listeners() == old(registry).listeners(),
        final(registry).managers() == old(registry).managers().remove(handle),
        r == if old(registry).managers().contains_key(handle) {
            Ok::<(), MidiError>(())
        } else {
            Err::<(), MidiError>(MidiError::InvalidHandle)
        },
{
    midi_destroy_manager(registry, handle)
}

/// What connecting a manager's input or output to a device does to the
/// table of managers: an unknown handle or an index beyond the devices
/// present changes nothing.
pub open spec fn manager_connected(
    managers: Map<i32, MidiManager>,
    handle: i32,
    device_index: usize,
    available: usize,
    input: bool,
) -> Map<i32, MidiManager> {
    if managers.contains_key(handle) && device_index < available {
        managers.insert(
            handle,
            if input {
                MidiManager { input_device: Some(device_index), ..managers[handle] }
            } else {
                MidiManager { output_device: Some(device_index), ..managers[handle] }
            },
        )
    } else {
        managers
    }
}

/// The answer to a connection request of a manager.
pub open spec fn manager_connect_result(
    managers: Map<i32, MidiManager>,
    handle: i32,
    device_index: usize,
    available: usize,
) -> Result<(), MidiError> {
    if !managers.contains_key(handle) {
        Err(MidiError::InvalidHandle)
    } else if device_index >= available {
        Err(MidiError::IndexOutOfRange)
    } else {
        Ok(())
    }
}

/// Whether a manager may be connected to a device, before any port is
/// opened: the answer that `midi_connect_input` and `midi_connect_output`
/// give for the same handle and index, with nothing recorded.
pub fn midi_can_connect(
    registry: &MidiRegistry,
    handle: i32,
    device_index: usize,
    available: usize,
) -> (r: Result<(), MidiError>)
    ensures
        r == manager_connect_result(registry.managers(), handle, device_index, available),
{
    if !registry.managers.contains_key(&handle) {
        Err(MidiError::InvalidHandle)
    } else if device_index >= available {
        Err(MidiError::IndexOutOfRange)
    } else {
        Ok(())
    }
}

/// Records the input device of a manager. `available` is the number of
/// input devices present.
pub fn midi_connect_input(
    registry: &mut MidiRegistry,
    handle: i32,
    device_index: usize,
    available: usize,
) -> (r: Result<(), MidiError>)
    requires
        old(registry).wf(),
    ensures
        final(registry).wf(),
        final(registry).next_handle() == old(registry).next_handle(),
        final(registry).listeners() == old(registry).listeners(),
        final(registry).managers() == manager_connected(
            old(registry).managers(),
            handle,
            device_index,
            available,
            true,
        ),
        r == manager_connect_result(old(registry).managers(), handle, device_index, available),
{
    let mut manager = match registry.managers.get(&handle) {
        Some(manager) => *manager,
        None => {
            return Err(MidiError::InvalidHandle);
        },
    };
    match manager.connect_input(device_index, available) {
        Ok(()) => {
            registry.managers.insert(handle, manager);
            assert(registry.listeners() =~= old(registry).listeners());
            Ok(())
        },
        Err(e) => Err(e),
    }
}

/// Records the output device of a manager. `available` is the number of
/// output devices present.
pub fn midi_connect_output(
    registry: &mut MidiRegistry,
    handle: i32,
    device_index: usize,
    available: usize,
) -> (r: Result<(), MidiError>)
    requires
        old(registry).wf(),
    ensures
        final(registry).wf(),
        final(registry).next_handle() == old(registry).next_handle(),
        final(registry).listeners() == old(registry).listeners(),
        final(registry).managers() == manager_connected(
            old(registry).managers(),
            handle,
            device_index,
            available,
            false,
        ),
        r == manager_connect_result(old(registry).managers(), handle, device_index, available),
{
    let mut manager = match registry.managers.get(&handle) {
        Some(manager) => *manager,
        None => {
            return Err(MidiError::InvalidHandle);
        },
    };
    match manager.connect_output(device_index, available) {
        Ok(()) => {
            registry.managers.insert(handle, manager);
            assert(registry.listeners() =~= old(registry).listeners());
            Ok(())
        },
        Err(e) => Err(e),
    }
}

/// The output device that a message of a manager goes to. An unknown
/// handle gives `InvalidHandle`, an empty message `NotPresent`, a manager
/// without an output device `DeviceUnavailable`.
pub fn midi_send_message(registry: &MidiRegistry, handle: i32, message: &[u8]) -> (r: Result<
    usize,
    MidiError,
>)
    ensures
        r == if !registry.managers().contains_key(handle) {
            Err::<usize, MidiError>(MidiError::InvalidHandle)
        } else if message@.len() == 0 {
            Err::<usize, MidiError>(MidiError::NotPresent)
        } else {
            match registry.managers()[handle].output_device {
                Some(device) => Ok::<usize, MidiError>(device),
                None => Err::<usize, MidiError>(MidiError::DeviceUnavailable),
            }
        },
{
    match registry.managers.get(&handle) {
        None => Err(MidiError::InvalidHandle),
        Some(manager) => {
            if message.len() == 0 {
                Err(MidiError::NotPresent)
            } else {
                manager.send_message(message)
            }
        },
    }
}

/// What the caller of a receive gets: the pending message, if one is
/// pending and fits a buffer of `buffer_size` bytes. An unknown handle
/// gives `InvalidHandle`, a message longer than the buffer
/// `CapacityExceeded`.
pub fn midi_receive_message(
    registry: &MidiRegistry,
    handle: i32,
    pending: Option<Vec<u8>>,
    buffer_size: usize,
) -> (r: Result<Option<Vec<u8>>, MidiError>)
    ensures
        r == if !registry.managers().contains_key(handle) {
            Err::<Option<Vec<u8>>, MidiError>(MidiError::InvalidHandle)
        } else {
            match pending {
                Some(message) => if message.len() > buffer_size {
                    Err::<Option<Vec<u8>>, MidiError>(MidiError::CapacityExceeded)
                } else {
                    Ok::<Option<Vec<u8>>, MidiError>(Some(message))
                },
                None => Ok::<Option<Vec<u8>>, MidiError>(None),
            }
        },
{
    if !registry.managers.contains_key(&handle) {
        return Err(MidiError::InvalidHandle);
    }
    match pending {
        Some(message) => {
            if message.len() > buffer_size {
                Err(MidiError::CapacityExceeded)
            } else {
                Ok(Some(message))
            }
        },
        None => Ok(None),
    }
}

/// Registers a connection that forwards through a callback of its own:
/// a manager bound to the input device, behind a new handle. An index
/// beyond the devices present gives `IndexOutOfRange` and changes
/// nothing.
pub fn midi_connect_with_user_event(
    registry: &mut MidiRegistry,
    device_index: usize,
    available: usize,
) -> (r: Result<i32, MidiError>)
    requires
        old(registry).wf(),
        old(registry).next_handle() < i32::MAX,
    ensures
        final(registry).wf(),
        final(registry).listeners() == old(registry).listeners(),
        match r {
            Ok(handle) => device_index < available && handle == old(registry).next_handle()
                && final(registry).next_handle() == handle + 1 && final(registry).managers() == old(registry).managers().insert(
                handle,
                MidiManager { input_device: Some(device_index), output_device: None },
            ),
            Err(e) => device_index >= available && e == MidiError::IndexOutOfRange && final(registry).next_handle() == old(registry).next_handle() && final(registry).managers() == old(registry).managers(),
        },
{
    let mut manager = MidiManager::new();
    match manager.connect_input(device_index, available) {
        Ok(()) => {
            let handle = registry.mint();
            registry.managers.insert(handle, manager);
            assert(registry.listeners() =~= old(registry).listeners());
            assert(registry.managers() == old(registry).managers().insert(handle, manager));
            Ok(handle)
        },
        Err(e) => Err(e),
    }
}

/// Creates a listener with nothing set, not running, and returns its
/// handle, which no creation returned before.
pub fn midi_create_event_listener(registry: &mut MidiRegistry) -> (handle: i32)
    requires
        old(registry).wf(),
        old(registry).next_handle() < i32::MAX,
    ensures
        final(registry).wf(),
        handle == old(registry).next_handle(),
        handle >= 1,
        !old(registry).issued(handle),
        final(registry).next_handle() == handle + 1,
        final(registry).managers() == old(registry).managers(),
        final(registry).listeners() == old(registry).listeners().insert(handle, fresh_listener()),
{
    let handle = registry.mint();
    registry.put_listener(handle, EventListener::new());
    handle
}

/// The answer to a request that changes the settings of a listener: an
/// unknown handle gives `InvalidHandle`, a running listener
/// `AlreadyRunning`.
pub open spec fn configure_result(listeners: Map<i32, ListenerView>, handle: i32) -> Result<
    (),
    MidiError,
> {
    if !listeners.contains_key(handle) {
        Err(MidiError::InvalidHandle)
    } else if listeners[handle].running {
        Err(MidiError::AlreadyRunning)
    } else {
        Ok(())
    }
}

/// Sets the host's event reference of a listener that is not running.
pub fn midi_set_user_event(registry: &mut MidiRegistry, handle: i32, user_event_ref: u32) -> (r:
    Result<(), MidiError>)
    requires
        old(registry).wf(),
    ensures
        final(registry).wf(),
        final(registry).next_handle() == old(registry).next_handle(),
        final(registry).managers() == old(registry).managers(),
        r == configure_result(old(registry).listeners(), handle),
        final(registry).listeners() == if r is Ok {
            old(registry).listeners().insert(
                handle,
                ListenerView { user_event: Some(user_event_ref), ..old(registry).listeners()[handle] },
            )
        } else {
            old(registry).listeners()
        },
{
    let mut listener = match registry.take_listener(handle) {
        Some(listener) => listener,
        None => {
            assert(registry.listeners() =~= old(registry).listeners());
            return Err(MidiError::InvalidHandle);
        },
    };
    let r = if listener.running {
        Err(MidiError::AlreadyRunning)
    } else {
        listener.user_event = Some(user_event_ref);
        Ok(())
    };
    registry.put_listener(handle, listener);
    assert(r is Err ==> registry.listeners() =~= old(registry).listeners());
    assert(r is Ok ==> registry.listeners() =~= old(registry).listeners().insert(
        handle,
        ListenerView { user_event: Some(user_event_ref), ..old(registry).listeners()[handle] },
    ));
    r
}

/// Sets the filter of a listener that is not running: the status bytes
/// that it forwards, none for all.
pub fn midi_set_message_filter(registry: &mut MidiRegistry, handle: i32, filter: &[u8]) -> (r:
    Result<(), MidiError>)
    requires
        old(registry).wf(),
    ensures
        final(registry).wf(),
        final(registry).next_handle() == old(registry).next_handle(),
        final(registry).managers() == old(registry).managers(),
        r == configure_result(old(registry).listeners(), handle),
        final(registry).listeners() == if r is Ok {
            old(registry).listeners().insert(
                handle,
                ListenerView { filter: filter@, ..old(registry).listeners()[handle] },
            )
        } else {
            old(registry).listeners()
        },
{
    let mut listener = match registry.take_listener(handle) {
        Some(listener) => listener,
        None => {
            assert(registry.listeners() =~= old(registry).listeners());
            return Err(MidiError::InvalidHandle);
        },
    };
    let r = if listener.running {
        Err(MidiError::AlreadyRunning)
    } else {
        listener.filter_array = slice_to_vec(filter);
        Ok(())
    };
    registry.put_listener(handle, listener);
    assert(r is Err ==> registry.listeners() =~= old(registry).listeners());
    assert(r is Ok ==> registry.listeners() =~= old(registry).listeners().insert(
        handle,
        ListenerView { filter: filter@, ..old(registry).listeners()[handle] },
    ));
    r
}

/// The answer to the request to bind a listener to an input device: as
/// for any setting, and `IndexOutOfRange` for an index beyond the devices
/// present.
pub open spec fn bind_result(
    listeners: Map<i32, ListenerView>,
    handle: i32,
    device_index: usize,
    available: usize,
) -> Result<(), MidiError> {
    if configure_result(listeners, handle) is Err {
        configure_result(listeners, handle)
    } else if device_index >= available {
        Err(MidiError::IndexOutOfRange)
    } else {
        Ok(())
    }
}

/// Binds a listener that is not running to an input device. `available`
/// is the number of input devices present.
pub fn midi_connect_event_input(
    registry: &mut MidiRegistry,
    handle: i32,
    device_index: usize,
    available: usize,
) -> (r: Result<(), MidiError>)
    requires
        old(registry).wf(),
    ensures
        final(registry).wf(),
        final(registry).next_handle() == old(registry).next_handle(),
        final(registry).managers() == old(registry).managers(),
        r == bind_result(old(registry).listeners(), handle, device_index, available),
        final(registry).listeners() == if r is Ok {
            old(registry).listeners().insert(
                handle,
                ListenerView { device_index: Some(device_index), ..old(registry).listeners()[handle] },
            )
        } else {
            old(registry).listeners()
        },
{
    let mut listener = match registry.take_listener(handle) {
        Some(listener) => listener,
        None => {
            assert(registry.listeners() =~= old(registry).listeners());
            return Err(MidiError::InvalidHandle);
        },
    };
    let r = if listener.running {
        Err(MidiError::AlreadyRunning)
    } else if device_index >= available {
        Err(MidiError::IndexOutOfRange)
    } else {
        listener.device_index = Some(device_index);
        Ok(())
    };
    registry.put_listener(handle, listener);
    assert(r is Err ==> registry.listeners() =~= old(registry).listeners());
    assert(r is Ok ==> registry.listeners() =~= old(registry).listeners().insert(
        handle,
        ListenerView { device_index: Some(device_index), ..old(registry).listeners()[handle] },
    ));
    r
}

/// Why a listener cannot start, if it cannot: an unknown handle gives
/// `InvalidHandle`, a listener without an event reference `NotPresent`,
/// one without a device `DeviceUnavailable`, a running one
/// `AlreadyRunning`.
pub open spec fn start_refusal(listeners: Map<i32, ListenerView>, handle: i32) -> Option<
    MidiError,
> {
    if !listeners.contains_key(handle) {
        Some(MidiError::InvalidHandle)
    } else if listeners[handle].user_event is None {
        Some(MidiError::NotPresent)
    } else if listeners[handle].device_index is None {
        Some(MidiError::DeviceUnavailable)
    } else if listeners[handle].running {
        Some(MidiError::AlreadyRunning)
    } else {
        None
    }
}

/// Whether a plan is the one for the worker of a listener.
pub open spec fn plan_for(plan: WorkerPlan, listener: ListenerView) -> bool {
    &&& listener.device_index == Some(plan.device_index)
    &&& listener.user_event == Some(plan.user_event)
    &&& listener.filter == plan.filter_array@
}

/// Starts a listener: marks it running and returns what its worker needs.
/// A listener that cannot start stays as it was. The caller spawns the
/// worker and ends the start with `midi_confirm_start`, which takes the
/// start back where the worker could not open its connection.
pub fn midi_start_event_listening(registry: &mut MidiRegistry, handle: i32) -> (r: Result<
    WorkerPlan,
    MidiError,
>)
    requires
        old(registry).wf(),
    ensures
        final(registry).wf(),
        final(registry).next_handle() == old(registry).next_handle(),
        final(registry).managers() == old(registry).managers(),
        match r {
            Ok(plan) => start_refusal(old(registry).listeners(), handle) is None && plan_for(
                plan,
                old(registry).listeners()[handle],
            ) && final(registry).listeners() == old(registry).listeners().insert(
                handle,
                ListenerView { running: true, ..old(registry).listeners()[handle] },
            ),
            Err(e) => start_refusal(old(registry).listeners(), handle) == Some(e) && final(registry).listeners() == old(registry).listeners(),
        },
{
    let mut listener = match registry.take_listener(handle) {
        Some(listener) => listener,
        None => {
            assert(registry.listeners() =~= old(registry).listeners());
            return Err(MidiError::InvalidHandle);
        },
    };
    let r = match (listener.user_event, listener.device_index) {
        (None, _) => Err(MidiError::NotPresent),
        (Some(_), None) => Err(MidiError::DeviceUnavailable),
        (Some(user_event), Some(device_index)) => {
            if listener.running {
                Err(MidiError::AlreadyRunning)
            } else {
                listener.running = true;
                Ok(
                    WorkerPlan {
                        device_index,
                        user_event,
                        filter_array: slice_to_vec(listener.filter_array.as_slice()),
                    },
                )
            }
        },
    };
    registry.put_listener(handle, listener);
    assert(r is Err ==> registry.listeners() =~= old(registry).listeners());
    assert(r is Ok ==> registry.listeners() =~= old(registry).listeners().insert(
        handle,
        ListenerView { running: true, ..old(registry).listeners()[handle] },
    ));
    r
}

/// The listeners after one of them was stopped.
pub open spec fn stopped(listeners: Map<i32, ListenerView>, handle: i32) -> Map<
    i32,
    ListenerView,
> {
    if listeners.contains_key(handle) {
        listeners.insert(handle, ListenerView { running: false, ..listeners[handle] })
    } else {
        listeners
    }
}

/// Whether a listener runs, or `InvalidHandle` for an unknown handle.
pub open spec fn status_of(listeners: Map<i32, ListenerView>, handle: i32) -> Result<
    bool,
    MidiError,
> {
    if listeners.contains_key(handle) {
        Ok(listeners[handle].running)
    } else {
        Err(MidiError::InvalidHandle)
    }
}

/// Stops a listener: marks it as not running and says whether it ran, in
/// which case the caller joins its worker before it goes on. Stopping a
/// stopped listener succeeds and changes nothing.
pub fn midi_stop_event_listening(registry: &mut MidiRegistry, handle: i32) -> (r: Result<
    bool,
    MidiError,
>)
    requires
        old(registry).wf(),
    ensures
        final(registry).wf(),
        final(registry).next_handle() == old(registry).next_handle(),
        final(registry).managers() == old(registry).managers(),
        r == status_of(old(registry).listeners(), handle),
        final(registry).listeners() == stopped(old(registry).listeners(), handle),
{
    let mut listener = match registry.take_listener(handle) {
        Some(listener) => listener,
        None => {
            assert(registry.listeners() =~= old(registry).listeners());
            return Err(MidiError::InvalidHandle);
        },
    };
    let was_running = listener.running;
    listener.running = false;
    registry.put_listener(handle, listener);
    assert(registry.listeners() =~= stopped(old(registry).listeners(), handle));
    Ok(was_running)
}

/// Destroys a listener: removes it from the registry and says whether it
/// ran, in which case the caller joins its worker before it goes on. The
/// handle is unknown from then on.
pub fn midi_destroy_event_listener(registry: &mut MidiRegistry, handle: i32) -> (r: Result<
    bool,
    MidiError,
>)
    requires
        old(registry).wf(),
    ensures
        final(registry).wf(),
        final(registry).next_handle() == old(registry).next_handle(),
        final(registry).managers() == old(registry).managers(),
        r == status_of(old(registry).listeners(), handle),
        final(registry).listeners() == old(registry).listeners().remove(handle),
{
    match registry.take_listener(handle) {
        Some(listener) => Ok(listener.running),
        None => Err(MidiError::InvalidHandle),
    }
}

/// Whether a listener runs.
pub fn midi_get_listener_status(registry: &MidiRegistry, handle: i32) -> (r: Result<
    bool,
    MidiError,
>)
    ensures
        r == status_of(registry.listeners(), handle),
{
    match registry.listeners.get(&handle) {
        Some(listener) => Ok(listener.running),
        None => Err(MidiError::InvalidHandle),
    }
}

/// What a start comes to once the worker has tried to open its
/// connection: success where it is open, `DeviceUnavailable` where it is
/// not, `InvalidHandle` for an unknown handle.
pub open spec fn start_outcome(listeners: Map<i32, ListenerView>, handle: i32, connected: bool)
    -> Result<(), MidiError> {
    if !listeners.contains_key(handle) {
        Err(MidiError::InvalidHandle)
    } else if connected {
        Ok(())
    } else {
        Err(MidiError::DeviceUnavailable)
    }
}

/// Ends a start. The caller says whether the worker of the started
/// listener could open its connection. Where it could not, the listener
/// is marked as not running again and the start fails with
/// `DeviceUnavailable`: a start never succeeds over a worker that is not
/// there.
pub fn midi_confirm_start(registry: &mut MidiRegistry, handle: i32, connected: bool) -> (r: Result<
    (),
    MidiError,
>)
    requires
        old(registry).wf(),
    ensures
        final(registry).wf(),
        final(registry).next_handle() == old(registry).next_handle(),
        final(registry).managers() == old(registry).managers(),
        r == start_outcome(old(registry).listeners(), handle, connected),
        final(registry).listeners() == if connected {
            old(registry).listeners()
        } else {
            stopped(old(registry).listeners(), handle)
        },
{
    if connected {
        match midi_get_listener_status(registry, handle) {
            Ok(_) => Ok(()),
            Err(e) => Err(e),
        }
    } else {
        match midi_stop_event_listening(registry, handle) {
            Ok(_) => Err(MidiError::DeviceUnavailable),
            Err(e) => Err(e),
        }
    }
}

/// Ends the opening of a listener in one call. The caller says whether
/// the worker could open its connection. Where it could not, the listener
/// is destroyed again and the opening fails with `DeviceUnavailable`.
pub fn midi_confirm_open(registry: &mut MidiRegistry, handle: i32, connected: bool) -> (r: Result<
    i32,
    MidiError,
>)
    requires
        old(registry).wf(),
    ensures
        final(registry).wf(),
        final(registry).next_handle() == old(registry).next_handle(),
        final(registry).managers() == old(registry).managers(),
        r == match start_outcome(old(registry).listeners(), handle, connected) {
            Ok(_) => Ok::<i32, MidiError>(handle),
            Err(e) => Err::<i32, MidiError>(e),
        },
        final(registry).listeners() == if connected {
            old(registry).listeners()
        } else {
            old(registry).listeners().remove(handle)
        },
{
    if connected {
        match midi_get_listener_status(registry, handle) {
            Ok(_) => Ok(handle),
            Err(e) => Err(e),
        }
    } else {
        match midi_destroy_event_listener(registry, handle) {
            Ok(_) => Err(MidiError::DeviceUnavailable),
            Err(e) => Err(e),
        }
    }
}

/// A start whose worker cannot open its connection leaves the listener as
/// it was before the start, not running, and reports `DeviceUnavailable`.
pub proof fn lemma_failed_start_is_undone(listeners: Map<i32, ListenerView>, handle: i32)
    requires
        start_refusal(listeners, handle) is None,
    ensures
        ({
            let started = listeners.insert(
                handle,
                ListenerView { running: true, ..listeners[handle] },
            );
            &&& start_outcome(started, handle, false) == Err::<(), MidiError>(
                MidiError::DeviceUnavailable,
            )
            &&& stopped(started, handle) == listeners
            &&& status_of(stopped(started, handle), handle) == Ok::<bool, MidiError>(false)
        }),
{
    let started = listeners.insert(handle, ListenerView { running: true, ..listeners[handle] });
    assert(stopped(started, handle) =~= listeners);
}

/// Creates a listener, sets its event reference and filter, binds it to
/// an input device and starts it. Where the device index lies beyond the
/// devices present, the listener is destroyed again and only its handle
/// is spent. The caller spawns the worker and ends the opening with
/// `midi_confirm_open`.
pub fn midi_open_with_user_event(
    registry: &mut MidiRegistry,
    device_id: usize,
    user_event_ref: u32,
    filter: &[u8],
    available: usize,
) -> (r: Result<(i32, WorkerPlan), MidiError>)
    requires
        old(registry).wf(),
        old(registry).next_handle() < i32::MAX,
    ensures
        final(registry).wf(),
        final(registry).next_handle() == old(registry).next_handle() + 1,
        final(registry).managers() == old(registry).managers(),
        match r {
            Ok((handle, plan)) => {
                let listener = ListenerView {
                    user_event: Some(user_event_ref),
                    filter: filter@,
                    device_index: Some(device_id),
                    running: true,
                };
                &&& device_id < available
                &&& handle == old(registry).next_handle()
                &&& plan_for(plan, listener)
                &&& final(registry).listeners() == old(registry).listeners().insert(
                    handle,
                    listener,
                )
            },
            Err(e) => device_id >= available && e == MidiError::IndexOutOfRange && final(registry).listeners() == old(registry).listeners(),
        },
{
    let handle = midi_create_event_listener(registry);
    assert(!old(registry).listeners().contains_key(handle));
    if let Err(e) = midi_set_user_event(registry, handle, user_event_ref) {
        let _ = midi_destroy_event_listener(registry, handle);
        return Err(e);
    }
    if let Err(e) = midi_set_message_filter(registry, handle, filter) {
        let _ = midi_destroy_event_listener(registry, handle);
        return Err(e);
    }
    if let Err(e) = midi_connect_event_input(registry, handle, device_id, available) {
        let _ = midi_destroy_event_listener(registry, handle);
        assert(registry.listeners() =~= old(registry).listeners());
        return Err(e);
    }
    match midi_start_event_listening(registry, handle) {
        Ok(plan) => {
            assert(registry.listeners() =~= old(registry).listeners().insert(
                handle,
                ListenerView {
                    user_event: Some(user_event_ref),
                    filter: filter@,
                    device_index: Some(device_id),
                    running: true,
                },
            ));
            Ok((handle, plan))
        },
        Err(e) => {
            let _ = midi_destroy_event_listener(registry, handle);
            Err(e)
        },
    }
}

/// Right after a listener was stopped, its status is "not running".
pub proof fn lemma_stopped_is_not_running(listeners: Map<i32, ListenerView>, handle: i32)
    requires
        listeners.contains_key(handle),
    ensures
        status_of(stopped(listeners, handle), handle) == Ok::<bool, MidiError>(false),
        stopped(stopped(listeners, handle), handle) == stopped(listeners, handle),
{
    assert(stopped(stopped(listeners, handle), handle) =~= stopped(listeners, handle));
}

/// A handle that was handed out is never the one that a later creation
/// returns, whether or not it was destroyed in between: the counter of a
/// later registry is beyond it.
pub proof fn lemma_handles_never_reused(earlier: MidiRegistry, later: MidiRegistry, handle: i32)
    requires
        earlier.issued(handle),
        earlier.next_handle() <= later.next_handle(),
    ensures
        later.issued(handle),
        later.next_handle() != handle,
{
}

/// A destroyed listener is unknown: its status, and every request that
/// names it, answer `InvalidHandle`.
pub proof fn lemma_destroyed_is_unknown(listeners: Map<i32, ListenerView>, handle: i32)
    ensures
        status_of(listeners.remove(handle), handle) == Err::<bool, MidiError>(
            MidiError::InvalidHandle,
        ),
        configure_result(listeners.remove(handle), handle) == Err::<(), MidiError>(
            MidiError::InvalidHandle,
        ),
        start_refusal(listeners.remove(handle), handle) == Some(MidiError::InvalidHandle),
        stopped(listeners.remove(handle), handle) == listeners.remove(handle),
{
}

} // verus!

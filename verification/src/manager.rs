//! The manager: configuration, filters, the known-peripheral registry, and
//! the event-side decisions of the two transport pumps.
//!
//! The native adapters and the tasks that drain them live with the
//! embedder; each raw discovery event, resolved to a plain snapshot, is
//! handed to one of the `on_*` transitions here, which applies the filter,
//! constructs the handle, maintains the registry and publishes the
//! normalized event on the bus.

use vstd::prelude::*;
use crate::bus::BusListener;
use crate::bus::BusRecv;
use crate::bus::EventBus;
use crate::enums::CoreEvent;
use crate::enums::Error;
use crate::peripheral::BleCandidate;
use crate::peripheral::BleDeviceDetails;
use crate::peripheral::Device;
use crate::peripheral::Peripheral;
use crate::peripheral::contains_uuid;
use crate::peripheral::PeripheralIdentity;
use crate::peripheral::UsbDeviceInfo;
use crate::peripheral::spec_ble_identity;
use crate::peripheral::spec_is_ble_handle_of;
use crate::peripheral::spec_is_usb_handle_of;
use crate::peripheral::spec_has_required_characteristics;

verus! {

/// A filter over USB descriptors: each present field must match the
/// descriptor for it to be accepted, and an empty filter accepts all.
#[derive(Debug, Clone, Copy)]
pub struct UsbFilter {
    pub vendor_id: Option<u16>,
    pub product_id: Option<u16>,
    pub input_report_byte_length: Option<u16>,
}

impl UsbFilter {
    /// What this filter accepts.
    pub open spec fn spec_accepts(&self, d: UsbDeviceInfo) -> bool {
        &&& (match self.vendor_id {
            Some(v) => d.vendor_id == v,
            None => true,
        })
        &&& (match self.product_id {
            Some(v) => d.product_id == v,
            None => true,
        })
        &&& (match self.input_report_byte_length {
            Some(v) => d.input_report_byte_length == v,
            None => true,
        })
    }

    /// Whether the descriptor satisfies every constraint of this filter.
    pub fn accepts(&self, d: &UsbDeviceInfo) -> (r: bool)
        ensures
            r == self.spec_accepts(*d),
    {
        let vendor_ok = match self.vendor_id {
            Some(v) => d.vendor_id == v,
            None => true,
        };
        let product_ok = match self.product_id {
            Some(v) => d.product_id == v,
            None => true,
        };
        let report_ok = match self.input_report_byte_length {
            Some(v) => d.input_report_byte_length == v,
            None => true,
        };
        vendor_ok && product_ok && report_ok
    }
}

/// A filter over BLE candidates: an accepted candidate must carry the
/// given address, where one is set, and expose the given characteristic,
/// where one is set; an empty filter accepts all.
#[derive(Debug, Clone)]
pub struct BleFilter {
    pub address: Option<String>,
    pub required_characteristic: Option<u128>,
}

impl BleFilter {
    /// What this filter accepts.
    pub open spec fn spec_accepts(&self, c: BleCandidate) -> bool {
        &&& (match self.address {
            Some(a) => c.device.address@ == a@,
            None => true,
        })
        &&& (match self.required_characteristic {
            Some(u) => c.characteristics@.contains(u),
            None => true,
        })
    }

    /// Whether the candidate satisfies every constraint of this filter.
    pub fn accepts(&self, c: &BleCandidate) -> (r: bool)
        ensures
            r == self.spec_accepts(*c),
    {
        let address_ok = match &self.address {
            Some(a) => *a == c.device.address,
            None => true,
        };
        let char_ok = match self.required_characteristic {
            Some(u) => contains_uuid(&c.characteristics, u),
            None => true,
        };
        address_ok && char_ok
    }
}

/// The manager's configuration, captured by value at start and read-only
/// thereafter.
#[derive(Debug, Clone)]
pub struct AppOptions {
    /// Whether the manager broadcasts its event feed at all.
    pub is_broadcast: bool,
    /// How many unread events the broadcast retains per listener at most.
    pub broadcast_buf_len: usize,
    pub ble_filter: Option<BleFilter>,
    pub usb_filter: Option<UsbFilter>,
}

/// The configuration that `start` falls back to when the caller passes
/// none: broadcasting on with a default depth, and no filters.
pub open spec fn spec_default_options() -> AppOptions {
    AppOptions { is_broadcast: true, broadcast_buf_len: 108, ble_filter: None, usb_filter: None }
}

impl Default for AppOptions {
    fn default() -> (r: Self)
        ensures
            r == spec_default_options(),
    {
        AppOptions { is_broadcast: true, broadcast_buf_len: 108, ble_filter: None, usb_filter: None }
    }
}

impl AppOptions {
    /// A configuration with broadcasting off and no filters, to be built
    /// up with the setters.
    pub fn new() -> (r: Self)
        ensures
            r == (AppOptions {
                is_broadcast: false,
                broadcast_buf_len: 0,
                ble_filter: None,
                usb_filter: None,
            }),
    {
        Self { is_broadcast: false, broadcast_buf_len: 0, ble_filter: None, usb_filter: None }
    }

    /// What the configured USB filter accepts; no filter accepts all.
    pub open spec fn spec_usb_accepts(&self, d: UsbDeviceInfo) -> bool {
        match self.usb_filter {
            Some(f) => f.spec_accepts(d),
            None => true,
        }
    }

    /// What the configured BLE filter accepts; no filter accepts all.
    pub open spec fn spec_ble_accepts(&self, c: BleCandidate) -> bool {
        match self.ble_filter {
            Some(f) => f.spec_accepts(c),
            None => true,
        }
    }

    /// Applies the configured USB filter to a descriptor.
    pub fn usb_filter(&self, hid_device: &UsbDeviceInfo) -> (r: bool)
        ensures
            r == self.spec_usb_accepts(*hid_device),
    {
        match &self.usb_filter {
            Some(filter_handler) => filter_handler.accepts(hid_device),
            None => true,
        }
    }

    /// Applies the configured BLE filter to a candidate.
    pub fn ble_filter(&self, ble_device: &BleCandidate) -> (r: bool)
        ensures
            r == self.spec_ble_accepts(*ble_device),
    {
        match &self.ble_filter {
            Some(filter_handler) => filter_handler.accepts(ble_device),
            None => true,
        }
    }

    /// Turns broadcasting on or off and sets its retention depth.
    pub fn set_broadcast(self, is_broadcast: bool, broadcast_buf_len: usize) -> (r: Self)
        ensures
            r == (AppOptions { is_broadcast, broadcast_buf_len, ..self }),
    {
        let mut r = self;
        r.is_broadcast = is_broadcast;
        r.broadcast_buf_len = broadcast_buf_len;
        r
    }

    /// Installs the USB filter.
    pub fn set_usb_filter(self, filter_handler: UsbFilter) -> (r: Self)
        ensures
            r == (AppOptions { usb_filter: Some(filter_handler), ..self }),
    {
        let mut r = self;
        r.usb_filter = Some(filter_handler);
        r
    }

    /// Installs the BLE filter.
    pub fn set_ble_filter(self, filter_handler: BleFilter) -> (r: Self)
        ensures
            r == (AppOptions { ble_filter: Some(filter_handler), ..self }),
    {
        let mut r = self;
        r.ble_filter = Some(filter_handler);
        r
    }
}

/// The USB descriptors of `s` that the configured filter accepts, in
/// order.
pub open spec fn spec_usb_filtered(options: AppOptions, s: Seq<UsbDeviceInfo>) -> Seq<
    UsbDeviceInfo,
>
    decreases s.len(),
{
    if s.len() == 0 {
        Seq::empty()
    } else {
        let rest = spec_usb_filtered(options, s.drop_last());
        if options.spec_usb_accepts(s.last()) {
            rest.push(s.last())
        } else {
            rest
        }
    }
}

/// Filtering is sound and complete per element: everything it keeps came
/// from the snapshot and passes the filter — a descriptor appears in the
/// filtered snapshot only if the filter accepts it.
pub proof fn lemma_usb_filtered_accepted(options: AppOptions, s: Seq<UsbDeviceInfo>)
    ensures
        forall|k: int| 0 <= k < spec_usb_filtered(options, s).len()
            ==> options.spec_usb_accepts(#[trigger] spec_usb_filtered(options, s)[k])
                && s.contains(spec_usb_filtered(options, s)[k]),
    decreases s.len(),
{
    if s.len() > 0 {
        lemma_usb_filtered_accepted(options, s.drop_last());
        assert forall|k: int| 0 <= k < spec_usb_filtered(options, s).len() implies
            options.spec_usb_accepts(#[trigger] spec_usb_filtered(options, s)[k])
                && s.contains(spec_usb_filtered(options, s)[k]) by {
            let rest = spec_usb_filtered(options, s.drop_last());
            if k < rest.len() {
                assert(s.drop_last().contains(rest[k]));
                let j = choose|j: int| 0 <= j < s.drop_last().len() && s.drop_last()[j] == rest[k];
                assert(s[j] == rest[k]);
            } else {
                assert(s[s.len() - 1] == s.last());
            }
        }
    }
}

/// The registry entries that do not carry the removed identity, in order.
pub open spec fn spec_remove_identity(s: Seq<Peripheral>, idv: u128) -> Seq<Peripheral>
    decreases s.len(),
{
    if s.len() == 0 {
        Seq::empty()
    } else {
        let rest = spec_remove_identity(s.drop_last(), idv);
        if s.last().id.value == idv {
            rest
        } else {
            rest.push(s.last())
        }
    }
}

/// The registry entries that do not carry the removed identity, in order,
/// as an exact copy.
fn remove_identity_entries(peripherals: &Vec<Peripheral>, id: &PeripheralIdentity) -> (r: Vec<
    Peripheral,
>)
    ensures
        r@ == spec_remove_identity(peripherals@, id.value),
{
    let mut kept: Vec<Peripheral> = Vec::new();
    let mut i: usize = 0;
    while i < peripherals.len()
        invariant
            i <= peripherals@.len(),
            kept@ == spec_remove_identity(peripherals@.subrange(0, i as int), id.value),
        decreases peripherals@.len() - i,
    {
        proof {
            assert(peripherals@.subrange(0, i + 1).drop_last() =~= peripherals@.subrange(
                0,
                i as int,
            ));
            assert(peripherals@.subrange(0, i + 1).last() == peripherals@[i as int]);
        }
        let p = &peripherals[i];
        if p.id.value != id.value {
            kept.push(p.duplicate());
        }
        i = i + 1;
    }
    proof {
        assert(peripherals@.subrange(0, peripherals@.len() as int) =~= peripherals@);
    }
    kept
}

/// Whether a registered handle is a USB handle bound to the given
/// platform path.
pub open spec fn spec_usb_path_matches(p: Peripheral, path: Seq<char>) -> bool {
    match p.peripheral_device.device {
        Device::Usb(d) => d.path@ == path,
        Device::Ble(_) => false,
    }
}

/// The identity of the first registered USB handle bound to the given
/// platform path, where one is registered.
pub open spec fn spec_first_usb_identity_for_path(s: Seq<Peripheral>, path: Seq<char>) -> Option<
    PeripheralIdentity,
>
    decreases s.len(),
{
    if s.len() == 0 {
        None
    } else if spec_usb_path_matches(s.first(), path) {
        Some(s.first().id)
    } else {
        spec_first_usb_identity_for_path(s.subrange(1, s.len() as int), path)
    }
}

/// The first registered handle carrying the given identity, where one is
/// registered.
pub open spec fn spec_find_by_identity(s: Seq<Peripheral>, idv: u128) -> Option<Peripheral>
    decreases s.len(),
{
    if s.len() == 0 {
        None
    } else if s.first().id.value == idv {
        Some(s.first())
    } else {
        spec_find_by_identity(s.subrange(1, s.len() as int), idv)
    }
}

/// Finds the identity under which a USB device at the given path was
/// registered, scanning from the oldest entry.
fn find_usb_identity_for_path(peripherals: &Vec<Peripheral>, path: &String) -> (r: Option<
    PeripheralIdentity,
>)
    ensures
        r == spec_first_usb_identity_for_path(peripherals@, path@),
{
    let n: usize = peripherals.len();
    let mut i: usize = 0;
    proof {
        assert(peripherals@.subrange(0, n as int) =~= peripherals@);
    }
    while i < n
        invariant
            i <= n,
            n == peripherals@.len(),
            spec_first_usb_identity_for_path(peripherals@, path@)
                == spec_first_usb_identity_for_path(
                peripherals@.subrange(i as int, n as int),
                path@,
            ),
        decreases n - i,
    {
        proof {
            assert(peripherals@.subrange(i as int, n as int).first() == peripherals@[i as int]);
            assert(peripherals@.subrange(i as int, n as int).subrange(
                1,
                peripherals@.subrange(i as int, n as int).len() as int,
            ) =~= peripherals@.subrange(i + 1, n as int));
        }
        let p = &peripherals[i];
        match &p.peripheral_device.device {
            Device::Usb(d) => {
                if d.path == *path {
                    return Some(p.id);
                }
            },
            Device::Ble(_) => {},
        }
        i = i + 1;
    }
    None
}

/// The manager: the captured configuration, the broadcast bus where one is
/// configured, and the registry of announced handles.
pub struct App {
    pub options: AppOptions,
    /// The manager-level event feed; present exactly where broadcasting
    /// was configured on.
    pub announcer: Option<EventBus<CoreEvent>>,
    /// The known-peripheral registry: every handle announced and not yet
    /// removed by identity.
    pub peripherals: Vec<Peripheral>,
}

impl App {
    /// Every event this manager has published, oldest first; empty where
    /// broadcasting is off.
    pub open spec fn spec_events(&self) -> Seq<CoreEvent> {
        match self.announcer {
            Some(bus) => bus.spec_history(),
            None => Seq::empty(),
        }
    }

    /// The feed index of the oldest event the bus still retains.
    pub open spec fn spec_events_base(&self) -> int {
        match self.announcer {
            Some(bus) => bus.spec_base(),
            None => 0,
        }
    }

    /// The bus exists exactly where broadcasting was configured on, is
    /// well-formed, and retains at most the configured depth.
    pub open spec fn wf(&self) -> bool {
        &&& self.announcer is Some <==> self.options.is_broadcast
        &&& (match self.announcer {
            Some(bus) => bus.wf() && bus.spec_depth() == self.options.broadcast_buf_len,
            None => true,
        })
    }

    /// Builds a ready manager from the given configuration, or from the
    /// default one where none is given: the broadcast bus is created
    /// exactly where broadcasting is on, and the registry starts empty.
    /// Starting the native adapters and their pump tasks is the
    /// embedder's part.
    pub fn start(options: Option<AppOptions>) -> (r: App)
        ensures
            r.wf(),
            r.options == (match options {
                Some(o) => o,
                None => spec_default_options(),
            }),
            r.spec_events() == Seq::<CoreEvent>::empty(),
            r.peripherals@ == Seq::<Peripheral>::empty(),
    {
        let options = match options {
            Some(o) => o,
            None => AppOptions::default(),
        };
        let mut announcer: Option<EventBus<CoreEvent>> = None;
        if options.is_broadcast {
            announcer = Some(EventBus::new(options.broadcast_buf_len));
        }
        App { options, announcer, peripherals: Vec::new() }
    }

    /// Whether this manager broadcasts its event feed, as configured at
    /// start.
    pub fn is_support_broadcast(&self) -> (r: bool)
        ensures
            r == self.options.is_broadcast,
    {
        self.options.is_broadcast
    }

    /// Subscribes a listener to the event feed. This fails, with the
    /// broadcast-disabled error, exactly where the manager was started
    /// with broadcasting off; the new listener observes only events
    /// published after this call.
    pub fn register_broadcast(&self) -> (r: Result<BusListener, Error>)
        requires
            self.wf(),
        ensures
            r is Ok <==> self.options.is_broadcast,
            r matches Ok(l) ==> l.spec_cursor() == self.spec_events().len(),
            r matches Err(e) ==> e matches Error::BroadcastDisabled,
    {
        match &self.announcer {
            Some(bus) => Ok(bus.subscribe()),
            None => Err(Error::BroadcastDisabled),
        }
    }

    /// One receive attempt on the event feed for `listener`, with the
    /// same outcomes as the bus itself; on a manager without broadcasting
    /// there is never anything to receive.
    pub fn next_event<'a>(&'a self, listener: &mut BusListener) -> (r: BusRecv<'a, CoreEvent>)
        requires
            self.wf(),
        ensures
            self.announcer is None ==> r is Empty && *final(listener) == *old(listener),
            self.announcer is Some ==> {
                &&& old(listener).spec_cursor() >= self.spec_events().len() ==> {
                    &&& r is Empty
                    &&& final(listener).spec_cursor() == old(listener).spec_cursor()
                }
                &&& old(listener).spec_cursor() < self.spec_events_base() ==> {
                    &&& (r matches BusRecv::Lagged(n)
                        && n == self.spec_events_base() - old(listener).spec_cursor())
                    &&& final(listener).spec_cursor() == self.spec_events_base()
                }
                &&& self.spec_events_base() <= old(listener).spec_cursor()
                    < self.spec_events().len() ==> {
                    &&& (r matches BusRecv::Event(e)
                        && *e == self.spec_events()[old(listener).spec_cursor()])
                    &&& final(listener).spec_cursor() == old(listener).spec_cursor() + 1
                }
            },
    {
        match &self.announcer {
            Some(bus) => bus.recv(listener),
            None => BusRecv::Empty,
        }
    }

    /// A fresh, filtered snapshot of the known USB peripherals: one newly
    /// constructed handle for each descriptor of the adapter's snapshot
    /// that the configured filter accepts, in snapshot order — a device
    /// appears here only if the filter accepts its descriptor.
    pub fn peripherals(&self, snapshot: &Vec<UsbDeviceInfo>) -> (r: Vec<Peripheral>)
        ensures
            r@.len() == spec_usb_filtered(self.options, snapshot@).len(),
            forall|i: int| 0 <= i < r@.len()
                ==> spec_is_usb_handle_of(
                    #[trigger] r@[i],
                    spec_usb_filtered(self.options, snapshot@)[i],
                ),
    {
        let mut r: Vec<Peripheral> = Vec::new();
        let mut i: usize = 0;
        while i < snapshot.len()
            invariant
                i <= snapshot@.len(),
                r@.len() == spec_usb_filtered(self.options, snapshot@.subrange(0, i as int)).len(),
                forall|k: int| 0 <= k < r@.len()
                    ==> spec_is_usb_handle_of(
                        #[trigger] r@[k],
                        spec_usb_filtered(self.options, snapshot@.subrange(0, i as int))[k],
                    ),
            decreases snapshot@.len() - i,
        {
            proof {
                assert(snapshot@.subrange(0, i + 1).drop_last() =~= snapshot@.subrange(
                    0,
                    i as int,
                ));
                assert(snapshot@.subrange(0, i + 1).last() == snapshot@[i as int]);
            }
            let d = &snapshot[i];
            if self.options.usb_filter(d) {
                r.push(Peripheral::new_usb(d.duplicate()));
            }
            i = i + 1;
        }
        proof {
            assert(snapshot@.subrange(0, snapshot@.len() as int) =~= snapshot@);
        }
        r
    }

    /// Looks one device up by identity in the known-peripheral registry.
    /// The lookup returns the handle registered under that identity —
    /// registered handles all passed the configured filter at discovery —
    /// and fails with the not-found error on an identity that is unknown,
    /// was excluded by the filter, or was already removed.
    pub fn peripheral(&self, id: &PeripheralIdentity) -> (r: Result<Peripheral, Error>)
        ensures
            r is Ok <==> spec_find_by_identity(self.peripherals@, id.value) is Some,
            r matches Ok(p) ==> spec_find_by_identity(self.peripherals@, id.value) == Some(p)
                && p.id == *id,
            r matches Err(e) ==> e matches Error::DeviceNotFound,
    {
        let n: usize = self.peripherals.len();
        let mut i: usize = 0;
        proof {
            assert(self.peripherals@.subrange(0, n as int) =~= self.peripherals@);
        }
        while i < n
            invariant
                i <= n,
                n == self.peripherals@.len(),
                spec_find_by_identity(self.peripherals@, id.value) == spec_find_by_identity(
                    self.peripherals@.subrange(i as int, n as int),
                    id.value,
                ),
            decreases n - i,
        {
            proof {
                assert(self.peripherals@.subrange(i as int, n as int).first() == self
                    .peripherals@[i as int]);
                assert(self.peripherals@.subrange(i as int, n as int).subrange(
                    1,
                    self.peripherals@.subrange(i as int, n as int).len() as int,
                ) =~= self.peripherals@.subrange(i + 1, n as int));
            }
            let p = &self.peripherals[i];
            if p.id.value == id.value {
                return Ok(p.duplicate());
            }
            i = i + 1;
        }
        Err(Error::DeviceNotFound)
    }

    /// The USB pump's add decision, fed with the re-resolved descriptor of
    /// the newly attached device. Where the configured filter accepts the
    /// descriptor, a handle is constructed, recorded in the registry, and
    /// announced in an add event; where it does not, nothing changes — a
    /// filtered-out device appears in no event.
    pub fn on_usb_device_add(&mut self, device: UsbDeviceInfo)
        requires
            old(self).wf(),
            old(self).spec_events().len() < usize::MAX,
        ensures
            final(self).wf(),
            final(self).options == old(self).options,
            !old(self).options.spec_usb_accepts(device) ==> *final(self) == *old(self),
            old(self).options.spec_usb_accepts(device) ==> {
                &&& final(self).peripherals@.len() == old(self).peripherals@.len() + 1
                &&& final(self).peripherals@.drop_last() == old(self).peripherals@
                &&& spec_is_usb_handle_of(final(self).peripherals@.last(), device)
                &&& final(self).spec_events() == (if old(self).options.is_broadcast {
                    old(self).spec_events().push(
                        CoreEvent::DeviceAdd(final(self).peripherals@.last()),
                    )
                } else {
                    old(self).spec_events()
                })
            },
    {
        if self.options.usb_filter(&device) {
            let p = Peripheral::new_usb(device);
            match &mut self.announcer {
                Some(bus) => bus.publish(CoreEvent::DeviceAdd(p.duplicate())),
                None => {},
            }
            self.peripherals.push(p);
            proof {
                assert(self.peripherals@.drop_last() =~= old(self).peripherals@);
            }
        }
    }

    /// The USB pump's remove decision, fed with the removed device's
    /// descriptor. Where the configured filter accepts it and a handle
    /// was registered for the device's path, the remove event is keyed by
    /// that registered identity — the one its add event announced, USB
    /// identities being stable only through the registry — and the entry
    /// is dropped; a device that was never announced yields no event.
    pub fn on_usb_device_remove(&mut self, device: UsbDeviceInfo)
        requires
            old(self).wf(),
            old(self).spec_events().len() < usize::MAX,
        ensures
            final(self).wf(),
            final(self).options == old(self).options,
            !old(self).options.spec_usb_accepts(device) ==> *final(self) == *old(self),
            old(self).options.spec_usb_accepts(device) ==> (match
                spec_first_usb_identity_for_path(old(self).peripherals@, device.path@) {
                Some(id) => {
                    &&& final(self).peripherals@ == spec_remove_identity(
                        old(self).peripherals@,
                        id.value,
                    )
                    &&& old(self).options.is_broadcast ==> final(self).spec_events() == old(
                        self,
                    ).spec_events().push(CoreEvent::DeviceRemove(id))
                    &&& !old(self).options.is_broadcast ==> final(self).spec_events() == old(
                        self,
                    ).spec_events()
                },
                None => *final(self) == *old(self),
            }),
    {
        if self.options.usb_filter(&device) {
            match find_usb_identity_for_path(&self.peripherals, &device.path) {
                Some(id) => {
                    match &mut self.announcer {
                        Some(bus) => bus.publish(CoreEvent::DeviceRemove(id)),
                        None => {},
                    }
                    let kept = remove_identity_entries(&self.peripherals, &id);
                    self.peripherals = kept;
                },
                None => {},
            }
        }
    }

    /// The BLE pump's connect decision, fed with the connected candidate
    /// and its device-information reads. The filter is applied first;
    /// then handle construction validates the candidate — an unsupported
    /// one fails here, is reported to the pump for logging, and appears
    /// in no event stream. Only a fully constructed handle is recorded
    /// and announced.
    pub fn on_ble_device_connected(&mut self, candidate: BleCandidate, details: BleDeviceDetails)
        -> (r: Result<(), Error>)
        requires
            old(self).wf(),
            old(self).spec_events().len() < usize::MAX,
            old(self).options.spec_ble_accepts(candidate) && spec_has_required_characteristics(
                candidate.characteristics@,
            ) ==> details.pnp@.len() >= 5,
        ensures
            final(self).wf(),
            final(self).options == old(self).options,
            !old(self).options.spec_ble_accepts(candidate) ==> *final(self) == *old(self) && r
                is Ok,
            old(self).options.spec_ble_accepts(candidate) && !spec_has_required_characteristics(
                candidate.characteristics@,
            ) ==> *final(self) == *old(self) && (r matches Err(e)
                && e matches Error::NonSupport),
            old(self).options.spec_ble_accepts(candidate) && spec_has_required_characteristics(
                candidate.characteristics@,
            ) ==> {
                &&& r is Ok
                &&& final(self).peripherals@.len() == old(self).peripherals@.len() + 1
                &&& final(self).peripherals@.drop_last() == old(self).peripherals@
                &&& spec_is_ble_handle_of(final(self).peripherals@.last(), candidate, details)
                &&& final(self).spec_events() == (if old(self).options.is_broadcast {
                    old(self).spec_events().push(
                        CoreEvent::DeviceAdd(final(self).peripherals@.last()),
                    )
                } else {
                    old(self).spec_events()
                })
            },
    {
        if !self.options.ble_filter(&candidate) {
            return Ok(());
        }
        match Peripheral::new_ble(candidate, details) {
            Ok(p) => {
                match &mut self.announcer {
                    Some(bus) => bus.publish(CoreEvent::DeviceAdd(p.duplicate())),
                    None => {},
                }
                self.peripherals.push(p);
                proof {
                    assert(self.peripherals@.drop_last() =~= old(self).peripherals@);
                }
                Ok(())
            },
            Err(e) => Err(e),
        }
    }

    /// The BLE pump's disconnect decision, fed with the native connection
    /// identifier of the device that went away — the device is already
    /// gone, so no metadata lookup is possible. The identity is derived
    /// directly from the native identifier, every registry entry carrying
    /// it is dropped, and a remove event keyed by it is announced.
    pub fn on_ble_device_disconnected(&mut self, native_id: &[u8; 6])
        requires
            old(self).wf(),
            old(self).spec_events().len() < usize::MAX,
        ensures
            final(self).wf(),
            final(self).options == old(self).options,
            final(self).peripherals@ == spec_remove_identity(
                old(self).peripherals@,
                (spec_ble_identity(native_id@) as u128),
            ),
            old(self).options.is_broadcast ==> final(self).spec_events() == old(
                self,
            ).spec_events().push(
                CoreEvent::DeviceRemove(
                    PeripheralIdentity { value: (spec_ble_identity(native_id@) as u128) },
                ),
            ),
            !old(self).options.is_broadcast ==> final(self).spec_events() == old(
                self,
            ).spec_events(),
    {
        let id = PeripheralIdentity::from_ble_native_id(native_id);
        match &mut self.announcer {
            Some(bus) => bus.publish(CoreEvent::DeviceRemove(id)),
            None => {},
        }
        let kept = remove_identity_entries(&self.peripherals, &id);
        self.peripherals = kept;
    }
}

} // verus!

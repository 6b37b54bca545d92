//! The boot sequence as a state machine: load the identity, and while the
//! device is not set up, run the setup session (scan, open the hotspot and
//! portal, wait for credentials, join the network, record the setup).
//!
//! Each call of [`BootPhase::step`] takes what the outside world reported and
//! returns the next phase and the one action to perform; the caller performs
//! it and reports back. No step waits or touches the radio itself.

use vstd::prelude::*;
use crate::hotspot::{generate_hotspot, hotspot_name, is_drawn_hotspot};
use crate::identity::{
    has_serial, is_drawn_serial, lemma_drawn_serial_nonempty, loaded_identity, or_empty, provisioned,
    IdentityLoad, IdentityLoadView, IdentityView, StoredView, WinkLinkDeviceInfo,
};
use crate::portal::{check_credentials, credentials_problem, CredentialError, Credentials, CredentialsView};

verus! {

/// Why boot cannot go on; each of these ends in fatal escalation.
#[derive(Clone, Copy, Debug, PartialEq, Eq, Structural)]
pub enum BootError {
    /// The identity storage could not be opened.
    StorageUnavailable,
    /// A new serial number could not be written.
    SerialNotStored,
    /// The radio could not open the setup hotspot and portal.
    PortalFailed,
    /// Joining the chosen network failed (rejected, or no address).
    JoinFailed,
    /// The setup could not be recorded in storage.
    OwnershipNotStored,
    /// An event came that the current phase does not expect.
    UnexpectedEvent,
}

/// Where the boot sequence stands.
#[derive(Debug)]
pub enum BootPhase {
    /// Nothing known yet; the identity is being read.
    Start,
    /// A new serial number is being written.
    StoringSerial { identity: WinkLinkDeviceInfo },
    /// The radio scans for visible networks.
    Scanning { identity: WinkLinkDeviceInfo },
    /// The hotspot and the portal are being started.
    OpeningPortal { identity: WinkLinkDeviceInfo, hotspot: Credentials },
    /// The portal is up; the credential slot is polled.
    AwaitingCredentials { identity: WinkLinkDeviceInfo, hotspot: Credentials },
    /// The hotspot is stopped and the radio joins the chosen network.
    Joining { identity: WinkLinkDeviceInfo, hotspot: Credentials, network: Credentials },
    /// The completed identity is being written.
    StoringOwnership { identity: WinkLinkDeviceInfo },
    /// Boot is over, the device ready or about to restart.
    Done,
    /// Boot failed and was escalated.
    Failed,
}

/// What the outside world reports to the boot sequence.
#[derive(Debug)]
pub enum BootEvent {
    /// The identity was loaded from storage.
    IdentityLoaded(IdentityLoad),
    /// The identity storage could not be opened.
    StorageUnavailable,
    /// Whether the serial number was written.
    SerialStored(bool),
    /// The scan ended (a failed scan counts as one that found nothing).
    ScanFinished,
    /// Whether the hotspot and the portal started.
    PortalOpened(bool),
    /// What the credential slot held when it was polled; polling empties it.
    SlotPolled(Option<Credentials>),
    /// Whether the radio joined the network and obtained an address.
    NetworkJoined(bool),
    /// Whether the completed identity was written.
    OwnershipStored(bool),
}

/// The one thing to do next.
#[derive(Debug)]
pub enum BootAction {
    /// Write this serial number to storage.
    StoreSerial(String),
    /// Scan for visible networks in client mode.
    ScanNetworks,
    /// Stop the scan mode, start the hotspot with these credentials, and
    /// serve the portal.
    OpenPortal(Credentials),
    /// Wait the poll interval, then poll the credential slot.
    PollSlot,
    /// Show this problem to the operator, then keep polling.
    RejectCredentials(CredentialError),
    /// Stop the hotspot and join this network in client mode.
    JoinNetwork(Credentials),
    /// Write the owner and the name fields to storage.
    StoreOwnership { owner: String, name: String },
    /// The device is set up; hand over to the application.
    Ready(WinkLinkDeviceInfo),
    /// Setup just completed; restart the device in a controlled way.
    RestartAfterSetup(WinkLinkDeviceInfo),
    /// Route this failure to fatal escalation.
    Escalate(BootError),
    /// Nothing is left to do.
    Nothing,
}

pub enum PhaseView {
    Start,
    StoringSerial { identity: IdentityView },
    Scanning { identity: IdentityView },
    OpeningPortal { identity: IdentityView, hotspot: CredentialsView },
    AwaitingCredentials { identity: IdentityView, hotspot: CredentialsView },
    Joining { identity: IdentityView, hotspot: CredentialsView, network: CredentialsView },
    StoringOwnership { identity: IdentityView },
    Done,
    Failed,
}

pub enum EventView {
    IdentityLoaded(IdentityLoadView),
    StorageUnavailable,
    SerialStored(bool),
    ScanFinished,
    PortalOpened(bool),
    SlotPolled(Option<CredentialsView>),
    NetworkJoined(bool),
    OwnershipStored(bool),
}

pub enum ActionView {
    StoreSerial(Seq<char>),
    ScanNetworks,
    OpenPortal(CredentialsView),
    PollSlot,
    RejectCredentials(CredentialError),
    JoinNetwork(CredentialsView),
    StoreOwnership { owner: Seq<char>, name: Seq<char> },
    Ready(IdentityView),
    RestartAfterSetup(IdentityView),
    Escalate(BootError),
    Nothing,
}

impl View for BootPhase {
    type V = PhaseView;

    open spec fn view(&self) -> PhaseView {
        match self {
            BootPhase::Start => PhaseView::Start,
            BootPhase::StoringSerial { identity } => PhaseView::StoringSerial { identity: identity@ },
            BootPhase::Scanning { identity } => PhaseView::Scanning { identity: identity@ },
            BootPhase::OpeningPortal { identity, hotspot } => PhaseView::OpeningPortal {
                identity: identity@,
                hotspot: hotspot@,
            },
            BootPhase::AwaitingCredentials { identity, hotspot } => PhaseView::AwaitingCredentials {
                identity: identity@,
                hotspot: hotspot@,
            },
            BootPhase::Joining { identity, hotspot, network } => PhaseView::Joining {
                identity: identity@,
                hotspot: hotspot@,
                network: network@,
            },
            BootPhase::StoringOwnership { identity } => PhaseView::StoringOwnership { identity: identity@ },
            BootPhase::Done => PhaseView::Done,
            BootPhase::Failed => PhaseView::Failed,
        }
    }
}

impl View for BootEvent {
    type V = EventView;

    open spec fn view(&self) -> EventView {
        match self {
            BootEvent::IdentityLoaded(load) => EventView::IdentityLoaded(load@),
            BootEvent::StorageUnavailable => EventView::StorageUnavailable,
            BootEvent::SerialStored(ok) => EventView::SerialStored(*ok),
            BootEvent::ScanFinished => EventView::ScanFinished,
            BootEvent::PortalOpened(ok) => EventView::PortalOpened(*ok),
            BootEvent::SlotPolled(c) => EventView::SlotPolled(
                match c {
                    Some(c) => Some(c@),
                    None => None,
                },
            ),
            BootEvent::NetworkJoined(ok) => EventView::NetworkJoined(*ok),
            BootEvent::OwnershipStored(ok) => EventView::OwnershipStored(*ok),
        }
    }
}

impl View for BootAction {
    type V = ActionView;

    open spec fn view(&self) -> ActionView {
        match self {
            BootAction::StoreSerial(s) => ActionView::StoreSerial(s@),
            BootAction::ScanNetworks => ActionView::ScanNetworks,
            BootAction::OpenPortal(c) => ActionView::OpenPortal(c@),
            BootAction::PollSlot => ActionView::PollSlot,
            BootAction::RejectCredentials(e) => ActionView::RejectCredentials(*e),
            BootAction::JoinNetwork(c) => ActionView::JoinNetwork(c@),
            BootAction::StoreOwnership { owner, name } => ActionView::StoreOwnership {
                owner: owner@,
                name: name@,
            },
            BootAction::Ready(i) => ActionView::Ready(i@),
            BootAction::RestartAfterSetup(i) => ActionView::RestartAfterSetup(i@),
            BootAction::Escalate(e) => ActionView::Escalate(*e),
            BootAction::Nothing => ActionView::Nothing,
        }
    }
}

/// Where a known identity leads: straight to the application when the device
/// is set up, else to the network scan that opens the setup session.
pub open spec fn after_identity(identity: IdentityView) -> (PhaseView, ActionView) {
    if provisioned(identity) {
        (PhaseView::Done, ActionView::Ready(identity))
    } else {
        (PhaseView::Scanning { identity }, ActionView::ScanNetworks)
    }
}

/// The identity that a completed setup records: the joined network's SSID
/// as the owner, the hotspot's name as the device's name.
pub open spec fn completed_identity(identity: IdentityView, hotspot: CredentialsView, network: CredentialsView) -> IdentityView {
    IdentityView { device_owner: network.ssid, device_name: hotspot.ssid, ..identity }
}

pub open spec fn escalation(e: BootError) -> (PhaseView, ActionView) {
    (PhaseView::Failed, ActionView::Escalate(e))
}

/// One step of the boot sequence, with `hotspot` as the credentials of the
/// setup hotspot if this step opens it.
pub open spec fn transition(phase: PhaseView, event: EventView, hotspot: CredentialsView) -> (PhaseView, ActionView) {
    match (phase, event) {
        (PhaseView::Start, EventView::IdentityLoaded(load)) => if load.store_serial {
            (
                PhaseView::StoringSerial { identity: load.identity },
                ActionView::StoreSerial(load.identity.serial_number),
            )
        } else {
            after_identity(load.identity)
        },
        (PhaseView::Start, EventView::StorageUnavailable) => escalation(BootError::StorageUnavailable),
        (PhaseView::StoringSerial { identity }, EventView::SerialStored(ok)) => if ok {
            after_identity(identity)
        } else {
            escalation(BootError::SerialNotStored)
        },
        (PhaseView::Scanning { identity }, EventView::ScanFinished) => (
            PhaseView::OpeningPortal { identity, hotspot },
            ActionView::OpenPortal(hotspot),
        ),
        (PhaseView::OpeningPortal { identity, hotspot: h }, EventView::PortalOpened(ok)) => if ok {
            (PhaseView::AwaitingCredentials { identity, hotspot: h }, ActionView::PollSlot)
        } else {
            escalation(BootError::PortalFailed)
        },
        (PhaseView::AwaitingCredentials { identity, hotspot: h }, EventView::SlotPolled(polled)) => match polled {
            None => (PhaseView::AwaitingCredentials { identity, hotspot: h }, ActionView::PollSlot),
            Some(network) => match credentials_problem(network) {
                Some(e) => (PhaseView::AwaitingCredentials { identity, hotspot: h }, ActionView::RejectCredentials(e)),
                None => (PhaseView::Joining { identity, hotspot: h, network }, ActionView::JoinNetwork(network)),
            },
        },
        (PhaseView::Joining { identity, hotspot: h, network }, EventView::NetworkJoined(ok)) => if ok {
            (
                PhaseView::StoringOwnership { identity: completed_identity(identity, h, network) },
                ActionView::StoreOwnership { owner: network.ssid, name: h.ssid },
            )
        } else {
            escalation(BootError::JoinFailed)
        },
        (PhaseView::StoringOwnership { identity }, EventView::OwnershipStored(ok)) => if ok {
            (PhaseView::Done, ActionView::RestartAfterSetup(identity))
        } else {
            escalation(BootError::OwnershipNotStored)
        },
        (PhaseView::Done, _) => (PhaseView::Done, ActionView::Nothing),
        (PhaseView::Failed, _) => (PhaseView::Failed, ActionView::Nothing),
        _ => escalation(BootError::UnexpectedEvent),
    }
}

/// Whether this step opens the hotspot, and so needs its credentials.
pub open spec fn opens_hotspot(phase: PhaseView, event: EventView) -> bool {
    phase is Scanning && event is ScanFinished
}

fn continue_with(identity: WinkLinkDeviceInfo) -> (r: (BootPhase, BootAction))
    ensures
        (r.0@, r.1@) == after_identity(identity@),
{
    if identity.is_provisioned() {
        (BootPhase::Done, BootAction::Ready(identity))
    } else {
        (BootPhase::Scanning { identity }, BootAction::ScanNetworks)
    }
}

impl BootPhase {
    /// The phase that boot starts in.
    pub fn new() -> (r: BootPhase)
        ensures
            r@ == PhaseView::Start,
    {
        BootPhase::Start
    }

    /// One step, with `hotspot` as the credentials of the setup hotspot if
    /// this step opens it.
    pub fn step_with(self, event: BootEvent, hotspot: Credentials) -> (r: (BootPhase, BootAction))
        ensures
            (r.0@, r.1@) == transition(self@, event@, hotspot@),
    {
        match (self, event) {
            (BootPhase::Start, BootEvent::IdentityLoaded(load)) => {
                if load.store_serial {
                    let serial = load.identity.serial_number.clone();
                    (BootPhase::StoringSerial { identity: load.identity }, BootAction::StoreSerial(serial))
                } else {
                    continue_with(load.identity)
                }
            },
            (BootPhase::Start, BootEvent::StorageUnavailable) => {
                (BootPhase::Failed, BootAction::Escalate(BootError::StorageUnavailable))
            },
            (BootPhase::StoringSerial { identity }, BootEvent::SerialStored(ok)) => {
                if ok {
                    continue_with(identity)
                } else {
                    (BootPhase::Failed, BootAction::Escalate(BootError::SerialNotStored))
                }
            },
            (BootPhase::Scanning { identity }, BootEvent::ScanFinished) => {
                let shown = hotspot.duplicate();
                (BootPhase::OpeningPortal { identity, hotspot }, BootAction::OpenPortal(shown))
            },
            (BootPhase::OpeningPortal { identity, hotspot: h }, BootEvent::PortalOpened(ok)) => {
                if ok {
                    (BootPhase::AwaitingCredentials { identity, hotspot: h }, BootAction::PollSlot)
                } else {
                    (BootPhase::Failed, BootAction::Escalate(BootError::PortalFailed))
                }
            },
            (BootPhase::AwaitingCredentials { identity, hotspot: h }, BootEvent::SlotPolled(polled)) => {
                match polled {
                    None => (BootPhase::AwaitingCredentials { identity, hotspot: h }, BootAction::PollSlot),
                    Some(network) => match check_credentials(&network) {
                        Some(e) => (
                            BootPhase::AwaitingCredentials { identity, hotspot: h },
                            BootAction::RejectCredentials(e),
                        ),
                        None => {
                            let join = network.duplicate();
                            (BootPhase::Joining { identity, hotspot: h, network }, BootAction::JoinNetwork(join))
                        },
                    },
                }
            },
            (BootPhase::Joining { identity, hotspot: h, network }, BootEvent::NetworkJoined(ok)) => {
                if ok {
                    let owner = network.ssid.clone();
                    let name = h.ssid.clone();
                    let completed = WinkLinkDeviceInfo {
                        serial_number: identity.serial_number,
                        device_owner: network.ssid,
                        device_name: h.ssid,
                    };
                    (BootPhase::StoringOwnership { identity: completed }, BootAction::StoreOwnership { owner, name })
                } else {
                    (BootPhase::Failed, BootAction::Escalate(BootError::JoinFailed))
                }
            },
            (BootPhase::StoringOwnership { identity }, BootEvent::OwnershipStored(ok)) => {
                if ok {
                    (BootPhase::Done, BootAction::RestartAfterSetup(identity))
                } else {
                    (BootPhase::Failed, BootAction::Escalate(BootError::OwnershipNotStored))
                }
            },
            (BootPhase::Done, _) => (BootPhase::Done, BootAction::Nothing),
            (BootPhase::Failed, _) => (BootPhase::Failed, BootAction::Nothing),
            _ => (BootPhase::Failed, BootAction::Escalate(BootError::UnexpectedEvent)),
        }
    }
}

impl BootPhase {
    /// One step; where it opens the setup hotspot, the hotspot's name and
    /// password are drawn here.
    pub fn step(self, event: BootEvent) -> (r: (BootPhase, BootAction))
        ensures
            exists|hotspot: CredentialsView|
                (opens_hotspot(self@, event@) ==> is_drawn_hotspot(hotspot))
                    && (r.0@, r.1@) == #[trigger] transition(self@, event@, hotspot),
    {
        let opens = match (&self, &event) {
            (BootPhase::Scanning { .. }, BootEvent::ScanFinished) => true,
            _ => false,
        };
        let hotspot = if opens {
            generate_hotspot()
        } else {
            Credentials::new(String::new(), String::new())
        };
        let ghost h = hotspot@;
        let r = self.step_with(event, hotspot);
        assert((r.0@, r.1@) == transition(self@, event@, h));
        r
    }
}

/// The outcome once the identity is known (after writing a new serial number,
/// if one was drawn).
pub open spec fn identity_settled(load: IdentityLoadView, hotspot: CredentialsView) -> (PhaseView, ActionView) {
    let first = transition(PhaseView::Start, EventView::IdentityLoaded(load), hotspot);
    if load.store_serial {
        transition(first.0, EventView::SerialStored(true), hotspot)
    } else {
        first
    }
}

/// Boot enters the setup session exactly when the owner or the name is
/// empty, and goes straight to the application exactly when both are set;
/// a drawn serial number is written first in either case.
pub proof fn lemma_setup_iff_incomplete(load: IdentityLoadView, hotspot: CredentialsView)
    ensures
        identity_settled(load, hotspot).1 == ActionView::ScanNetworks <==> !provisioned(load.identity),
        identity_settled(load, hotspot).1 == ActionView::Ready(load.identity) <==> provisioned(load.identity),
        load.store_serial ==> transition(PhaseView::Start, EventView::IdentityLoaded(load), hotspot).1
            == ActionView::StoreSerial(load.identity.serial_number),
{
}

/// A device whose storage holds all three fields boots straight to the
/// application: the first step already hands over, with no radio action.
pub proof fn lemma_set_up_device_boots_directly(stored: StoredView, draw: Seq<char>, hotspot: CredentialsView)
    requires
        has_serial(stored),
        or_empty(stored.device_owner).len() > 0,
        or_empty(stored.device_name).len() > 0,
    ensures
        transition(PhaseView::Start, EventView::IdentityLoaded(loaded_identity(stored, draw)), hotspot) == (
            PhaseView::Done,
            ActionView::Ready(IdentityView {
                serial_number: or_empty(stored.serial_number),
                device_owner: or_empty(stored.device_owner),
                device_name: or_empty(stored.device_name),
            }),
        ),
{
}

/// A fresh device, an operator who submits valid credentials, and a radio
/// that does its part: boot writes the drawn serial number, scans, opens the
/// hotspot, joins the submitted network, records the setup and asks for a
/// restart; the next boot, on what was recorded, goes straight to the
/// application.
pub proof fn lemma_fresh_device_setup(draw: Seq<char>, hotspot: CredentialsView, network: CredentialsView)
    requires
        is_drawn_serial(draw),
        is_drawn_hotspot(hotspot),
        credentials_problem(network) is None,
    ensures
        ({
            let stored = StoredView { serial_number: None, device_owner: None, device_name: None };
            let s1 = transition(PhaseView::Start, EventView::IdentityLoaded(loaded_identity(stored, draw)), hotspot);
            let s2 = transition(s1.0, EventView::SerialStored(true), hotspot);
            let s3 = transition(s2.0, EventView::ScanFinished, hotspot);
            let s4 = transition(s3.0, EventView::PortalOpened(true), hotspot);
            let s5 = transition(s4.0, EventView::SlotPolled(Some(network)), hotspot);
            let s6 = transition(s5.0, EventView::NetworkJoined(true), hotspot);
            let s7 = transition(s6.0, EventView::OwnershipStored(true), hotspot);
            let done = IdentityView { serial_number: draw, device_owner: network.ssid, device_name: hotspot.ssid };
            let recorded = StoredView {
                serial_number: Some(draw),
                device_owner: Some(network.ssid),
                device_name: Some(hotspot.ssid),
            };
            &&& s1.1 == ActionView::StoreSerial(draw)
            &&& s2.1 == ActionView::ScanNetworks
            &&& s3.1 == ActionView::OpenPortal(hotspot)
            &&& s4.1 == ActionView::PollSlot
            &&& s5.1 == ActionView::JoinNetwork(network)
            &&& s6.1 == ActionView::StoreOwnership { owner: network.ssid, name: hotspot.ssid }
            &&& s7 == (PhaseView::Done, ActionView::RestartAfterSetup(done))
            &&& provisioned(done)
            &&& transition(PhaseView::Start, EventView::IdentityLoaded(loaded_identity(recorded, draw)), hotspot)
                == (PhaseView::Done, ActionView::Ready(done))
        }),
{
    lemma_drawn_serial_nonempty(draw);
    reveal_strlit("WinkLink-");
    let n = choose|n: nat| 1000 <= n < 9999 && hotspot.ssid == hotspot_name(n);
    assert(hotspot.ssid.len() > 0);
}

} // verus!

//! The device identity: its serial number, created once and kept for good,
//! and the owner and name fields that a successful setup fills in.

use vstd::prelude::*;
use crate::random::random_below;
use crate::text::{decimal, opt_text, push_decimal};

verus! {

/// Text that every serial number starts with.
pub const SERIAL_PREFIX: &'static str = "WL";

/// The identity of a device as the firmware holds it in memory.
#[derive(Debug)]
pub struct WinkLinkDeviceInfo {
    pub serial_number: String,
    pub device_owner: String,
    pub device_name: String,
}

pub struct IdentityView {
    pub serial_number: Seq<char>,
    pub device_owner: Seq<char>,
    pub device_name: Seq<char>,
}

impl View for WinkLinkDeviceInfo {
    type V = IdentityView;

    open spec fn view(&self) -> IdentityView {
        IdentityView {
            serial_number: self.serial_number@,
            device_owner: self.device_owner@,
            device_name: self.device_name@,
        }
    }
}

/// A device counts as set up once both its owner and its name are non-empty.
pub open spec fn provisioned(i: IdentityView) -> bool {
    i.device_owner.len() > 0 && i.device_name.len() > 0
}

/// The serial number made from the drawn value `n`.
pub open spec fn serial_text(n: nat) -> Seq<char> {
    SERIAL_PREFIX@ + decimal(n)
}

/// Whether `t` is a serial number that the firmware can draw.
pub open spec fn is_drawn_serial(t: Seq<char>) -> bool {
    exists|n: nat| n < u32::MAX && t == serial_text(n)
}

impl WinkLinkDeviceInfo {
    pub fn new(serial_number: String, device_owner: String, device_name: String) -> (r: Self)
        ensures
            r.serial_number == serial_number,
            r.device_owner == device_owner,
            r.device_name == device_name,
    {
        WinkLinkDeviceInfo { serial_number, device_owner, device_name }
    }

    /// A copy holding the same text.
    pub fn duplicate(&self) -> (r: Self)
        ensures
            r@ == self@,
    {
        WinkLinkDeviceInfo {
            serial_number: self.serial_number.clone(),
            device_owner: self.device_owner.clone(),
            device_name: self.device_name.clone(),
        }
    }

    /// Whether both the owner and the name are filled in.
    pub fn is_provisioned(&self) -> (r: bool)
        ensures
            r == provisioned(self@),
    {
        !self.device_owner.as_str().is_empty() && !self.device_name.as_str().is_empty()
    }

    /// The serial number for the drawn value `n`: the prefix, then `n` in decimal.
    pub fn serial_from(n: u32) -> (r: String)
        ensures
            r@ == serial_text(n as nat),
    {
        let mut s = String::from_str(SERIAL_PREFIX);
        push_decimal(&mut s, n);
        s
    }

    /// Draws a new serial number from a value below `u32::MAX`.
    pub fn generate_new_serial() -> (r: String)
        ensures
            is_drawn_serial(r@),
    {
        let n = random_below(0, u32::MAX as u64) as u32;
        let r = Self::serial_from(n);
        assert(r@ == serial_text(n as nat));
        r
    }
}

/// What reading the three identity fields from storage gave: `None` for a
/// field that is absent or could not be read.
#[derive(Debug)]
pub struct StoredIdentity {
    pub serial_number: Option<String>,
    pub device_owner: Option<String>,
    pub device_name: Option<String>,
}

pub struct StoredView {
    pub serial_number: Option<Seq<char>>,
    pub device_owner: Option<Seq<char>>,
    pub device_name: Option<Seq<char>>,
}

impl View for StoredIdentity {
    type V = StoredView;

    open spec fn view(&self) -> StoredView {
        StoredView {
            serial_number: opt_text(self.serial_number),
            device_owner: opt_text(self.device_owner),
            device_name: opt_text(self.device_name),
        }
    }
}

/// The text of a field, empty when it is absent.
pub open spec fn or_empty(o: Option<Seq<char>>) -> Seq<char> {
    match o {
        Some(t) => t,
        None => seq![],
    }
}

/// Whether storage holds a usable serial number.
pub open spec fn has_serial(stored: StoredView) -> bool {
    or_empty(stored.serial_number).len() > 0
}

/// The identity that loading builds, and whether it still has to write the
/// serial number back to storage.
#[derive(Debug)]
pub struct IdentityLoad {
    pub identity: WinkLinkDeviceInfo,
    pub store_serial: bool,
}

pub struct IdentityLoadView {
    pub identity: IdentityView,
    pub store_serial: bool,
}

impl View for IdentityLoad {
    type V = IdentityLoadView;

    open spec fn view(&self) -> IdentityLoadView {
        IdentityLoadView { identity: self.identity@, store_serial: self.store_serial }
    }
}

/// Loading the stored fields: a stored serial number is kept as it is and
/// nothing is written; without one, `fresh` becomes the serial number and is
/// to be written back. An absent owner or name reads as empty.
pub open spec fn loaded_identity(stored: StoredView, fresh: Seq<char>) -> IdentityLoadView {
    IdentityLoadView {
        identity: IdentityView {
            serial_number: if has_serial(stored) { or_empty(stored.serial_number) } else { fresh },
            device_owner: or_empty(stored.device_owner),
            device_name: or_empty(stored.device_name),
        },
        store_serial: !has_serial(stored),
    }
}

/// Storage after the write that loading asked for, if any.
pub open spec fn stored_after(stored: StoredView, load: IdentityLoadView) -> StoredView {
    if load.store_serial {
        StoredView { serial_number: Some(load.identity.serial_number), ..stored }
    } else {
        stored
    }
}

fn text_or_empty(o: Option<String>) -> (r: String)
    ensures
        r@ == or_empty(opt_text(o)),
{
    match o {
        Some(t) => t,
        None => String::new(),
    }
}

impl WinkLinkDeviceInfo {
    /// Builds the identity from the stored fields, with `fresh` as the serial
    /// number where storage holds none.
    pub fn populate_with(stored: StoredIdentity, fresh: String) -> (r: IdentityLoad)
        ensures
            r@ == loaded_identity(stored@, fresh@),
    {
        let kept = text_or_empty(stored.serial_number);
        let store_serial = kept.as_str().is_empty();
        let serial_number = if store_serial { fresh } else { kept };
        IdentityLoad {
            identity: WinkLinkDeviceInfo {
                serial_number,
                device_owner: text_or_empty(stored.device_owner),
                device_name: text_or_empty(stored.device_name),
            },
            store_serial,
        }
    }

    /// Builds the identity from the stored fields, drawing a new serial
    /// number only where storage holds none.
    pub fn populate(stored: StoredIdentity) -> (r: IdentityLoad)
        ensures
            exists|fresh: Seq<char>|
                is_drawn_serial(fresh) && r@ == #[trigger] loaded_identity(stored@, fresh),
            has_serial(stored@) ==> r@ == loaded_identity(stored@, seq![]),
    {
        let present = match &stored.serial_number {
            Some(t) => !t.as_str().is_empty(),
            None => false,
        };
        let fresh = if present {
            String::new()
        } else {
            Self::generate_new_serial()
        };
        let ghost fresh_view = fresh@;
        let r = Self::populate_with(stored, fresh);
        proof {
            if present {
                let n: nat = 0;
                assert(loaded_identity(stored@, serial_text(n)) == loaded_identity(stored@, fresh_view));
                assert(is_drawn_serial(serial_text(n)));
            }
        }
        r
    }
}

/// A drawn serial number is never empty.
pub proof fn lemma_drawn_serial_nonempty(t: Seq<char>)
    requires
        is_drawn_serial(t),
    ensures
        t.len() > 0,
{
    reveal_strlit("WL");
}

/// Loading twice: a serial number already in storage is kept and not
/// written again; one drawn by the first load is written once, and the second
/// load keeps it and writes nothing.
pub proof fn lemma_serial_generated_once(stored: StoredView, first_draw: Seq<char>, second_draw: Seq<char>)
    requires
        is_drawn_serial(first_draw),
    ensures
        has_serial(stored) ==> !loaded_identity(stored, first_draw).store_serial
            && loaded_identity(stored, first_draw).identity.serial_number == or_empty(stored.serial_number),
        ({
            let first = loaded_identity(stored, first_draw);
            let second = loaded_identity(stored_after(stored, first), second_draw);
            &&& !second.store_serial
            &&& second.identity.serial_number == first.identity.serial_number
            &&& second.identity.device_owner == first.identity.device_owner
            &&& second.identity.device_name == first.identity.device_name
        }),
{
    lemma_drawn_serial_nonempty(first_draw);
}

} // verus!

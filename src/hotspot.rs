//! The setup hotspot: the access point that the device opens while it waits
//! for credentials, with a drawn name and password shown on its screen.

use vstd::prelude::*;
use crate::portal::{Credentials, CredentialsView};
use crate::random::random_below;
use crate::text::{decimal, push_char, push_decimal};

verus! {

/// Text that every hotspot name starts with.
pub const HOTSPOT_PREFIX: &'static str = "WinkLink-";

/// Smallest number drawn for a hotspot name.
pub const SUFFIX_LOW: u64 = 1000;

/// Bound, not reached, of the number drawn for a hotspot name.
pub const SUFFIX_HIGH: u64 = 9999;

/// Characters that a hotspot password is made of.
pub const PASSWORD_CHARSET: &'static str = "ABCDEFGHIJKLMNOPQRSTUVWXYZabcdefghijklmnopqrstuvwxyz0123456789";

/// Number of characters in a hotspot password.
pub const PASSWORD_LEN: usize = 8;

/// The hotspot name for the drawn number `n`.
pub open spec fn hotspot_name(n: nat) -> Seq<char> {
    HOTSPOT_PREFIX@ + decimal(n)
}

/// The password whose characters are those of the charset at `picks`.
pub open spec fn password_text(picks: Seq<usize>) -> Seq<char> {
    picks.map_values(|i: usize| PASSWORD_CHARSET@[i as int])
}

pub open spec fn charset_len() -> nat {
    PASSWORD_CHARSET@.len()
}

/// Whether `c` is a pair that the firmware can draw for its hotspot.
pub open spec fn is_drawn_hotspot(c: CredentialsView) -> bool {
    &&& exists|n: nat| SUFFIX_LOW <= n < SUFFIX_HIGH && c.ssid == hotspot_name(n)
    &&& exists|picks: Seq<usize>|
        picks.len() == PASSWORD_LEN && (forall|k: int| 0 <= k < picks.len() ==> picks[k] < charset_len())
            && c.password == password_text(picks)
}

proof fn lemma_charset_len()
    ensures
        charset_len() == 62,
{
    reveal_strlit("ABCDEFGHIJKLMNOPQRSTUVWXYZabcdefghijklmnopqrstuvwxyz0123456789");
}

/// The hotspot name for the number `n`.
pub fn wifi_name_from(n: u16) -> (r: String)
    ensures
        r@ == hotspot_name(n as nat),
{
    let mut s = String::from_str(HOTSPOT_PREFIX);
    push_decimal(&mut s, n as u32);
    s
}

/// Draws a hotspot name: the prefix and a number in `1000..9999`.
pub fn generate_wifi_name() -> (r: String)
    ensures
        exists|n: nat| SUFFIX_LOW <= n < SUFFIX_HIGH && r@ == hotspot_name(n),
{
    let n = random_below(SUFFIX_LOW, SUFFIX_HIGH) as u16;
    wifi_name_from(n)
}

/// The password made of the charset's characters at `picks`.
pub fn wifi_password_from(picks: &Vec<usize>) -> (r: String)
    requires
        forall|k: int| 0 <= k < picks@.len() ==> picks@[k] < charset_len(),
    ensures
        r@ == password_text(picks@),
{
    let mut s = String::new();
    let mut i: usize = 0;
    while i < picks.len()
        invariant
            i <= picks@.len(),
            forall|k: int| 0 <= k < picks@.len() ==> picks@[k] < charset_len(),
            s@ == password_text(picks@.take(i as int)),
        decreases picks@.len() - i,
    {
        let c = PASSWORD_CHARSET.get_char(picks[i]);
        push_char(&mut s, c);
        assert(password_text(picks@.take(i + 1)) =~= password_text(picks@.take(i as int)).push(c));
        i = i + 1;
    }
    assert(picks@.take(i as int) =~= picks@);
    s
}

/// Draws a password of eight characters from the charset.
pub fn generate_wifi_password() -> (r: String)
    ensures
        exists|picks: Seq<usize>|
            picks.len() == PASSWORD_LEN && (forall|k: int| 0 <= k < picks.len() ==> picks[k] < charset_len())
                && r@ == password_text(picks),
{
    proof {
        lemma_charset_len();
    }
    let mut picks: Vec<usize> = Vec::new();
    let mut i: usize = 0;
    while i < PASSWORD_LEN
        invariant
            i <= PASSWORD_LEN,
            picks@.len() == i,
            charset_len() == 62,
            forall|k: int| 0 <= k < picks@.len() ==> picks@[k] < charset_len(),
        decreases PASSWORD_LEN - i,
    {
        let pick = random_below(0, 62) as usize;
        picks.push(pick);
        i = i + 1;
    }
    wifi_password_from(&picks)
}

/// Draws the name and password of the setup hotspot.
pub fn generate_hotspot() -> (r: Credentials)
    ensures
        is_drawn_hotspot(r@),
{
    let ssid = generate_wifi_name();
    let password = generate_wifi_password();
    Credentials::new(ssid, password)
}

} // verus!

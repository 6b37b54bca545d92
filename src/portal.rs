//! The captive portal that collects WiFi credentials over the setup access
//! point: the network-selection page, the parsing and checking of a posted
//! form, and the slot that hands one accepted pair to the setup session.

use vstd::prelude::*;
use crate::text::{
    byte_len, chars_of, fits_in_bytes, opt_text, decode_component, escape_html, html_escaped, percent_decoded,
    same_text, trim_text, whitespace_trimmed,
};

verus! {

/// Longest SSID, in bytes, that a WiFi network can have.
pub const MAX_SSID_BYTES: usize = 32;

/// Longest WiFi password, in bytes.
pub const MAX_PASSWORD_BYTES: usize = 64;

/// The name and password of a WiFi network.
#[derive(Debug)]
pub struct Credentials {
    pub ssid: String,
    pub password: String,
}

/// What a pair of credentials holds, as text.
pub struct CredentialsView {
    pub ssid: Seq<char>,
    pub password: Seq<char>,
}

impl View for Credentials {
    type V = CredentialsView;

    open spec fn view(&self) -> CredentialsView {
        CredentialsView { ssid: self.ssid@, password: self.password@ }
    }
}

impl Credentials {
    pub fn new(ssid: String, password: String) -> (r: Credentials)
        ensures
            r.ssid == ssid,
            r.password == password,
    {
        Credentials { ssid, password }
    }

    /// A copy holding the same text.
    pub fn duplicate(&self) -> (r: Credentials)
        ensures
            r@ == self@,
    {
        Credentials { ssid: self.ssid.clone(), password: self.password.clone() }
    }
}

/// Why a pair of credentials cannot be used.
#[derive(Clone, Copy, Debug, PartialEq, Eq, Structural)]
pub enum CredentialError {
    /// The manual entry was chosen and left empty.
    ManualSsidEmpty,
    /// The SSID is empty (after trimming, for a submitted form).
    SsidEmpty,
    /// The SSID is longer than [`MAX_SSID_BYTES`].
    SsidTooLong,
    /// The password is longer than [`MAX_PASSWORD_BYTES`].
    PasswordTooLong,
}

/// The first rule that `c` breaks, if any: the SSID must be non-empty and
/// fit in 32 bytes, the password must fit in 64 bytes.
pub open spec fn credentials_problem(c: CredentialsView) -> Option<CredentialError> {
    if c.ssid.len() == 0 {
        Some(CredentialError::SsidEmpty)
    } else if byte_len(c.ssid) > MAX_SSID_BYTES {
        Some(CredentialError::SsidTooLong)
    } else if byte_len(c.password) > MAX_PASSWORD_BYTES {
        Some(CredentialError::PasswordTooLong)
    } else {
        None
    }
}

/// Checks the lengths of a credential pair before it is used to join a network.
pub fn check_credentials(c: &Credentials) -> (r: Option<CredentialError>)
    ensures
        r == credentials_problem(c@),
{
    if c.ssid.as_str().is_empty() {
        Some(CredentialError::SsidEmpty)
    } else if !fits_in_bytes(c.ssid.as_str(), MAX_SSID_BYTES) {
        Some(CredentialError::SsidTooLong)
    } else if !fits_in_bytes(c.password.as_str(), MAX_PASSWORD_BYTES) {
        Some(CredentialError::PasswordTooLong)
    } else {
        None
    }
}

/// Start of the `&`-separated piece of `form` that ends at `end`: one past
/// the last `&` before `end`, or 0 when there is none.
pub open spec fn piece_start(form: Seq<char>, end: int) -> int
    decreases end,
{
    if end <= 0 {
        0
    } else if form[end - 1] == '&' {
        end
    } else {
        piece_start(form, end - 1)
    }
}

pub proof fn lemma_piece_start_bounds(form: Seq<char>, end: int)
    requires
        0 <= end,
    ensures
        0 <= piece_start(form, end) <= end,
    decreases end,
{
    if end > 0 && form[end - 1] != '&' {
        lemma_piece_start_bounds(form, end - 1);
    }
}

/// Position of the first `=` in `piece` at or after `k`, or the piece's length.
pub open spec fn key_end(piece: Seq<char>, k: int) -> int
    decreases piece.len() - k,
{
    if k < 0 || k >= piece.len() {
        piece.len() as int
    } else if piece[k] == '=' {
        k
    } else {
        key_end(piece, k + 1)
    }
}

/// What one `key=value` piece gives the field `name`: the percent-decoded
/// value, when the piece has an `=`, its key trimmed is `name`, and the value
/// decodes.
pub open spec fn assignment(piece: Seq<char>, name: Seq<char>) -> Option<Seq<char>> {
    let eq = key_end(piece, 0);
    if eq < piece.len() && whitespace_trimmed(piece.take(eq)) == name {
        percent_decoded(piece.skip(eq + 1))
    } else {
        None
    }
}

/// The value that the last piece of `form[0..end]` to assign `name` gives it.
pub open spec fn value_before(form: Seq<char>, end: int, name: Seq<char>) -> Option<Seq<char>>
    decreases end,
{
    if end < 0 {
        None
    } else {
        let start = piece_start(form, end);
        match assignment(form.subrange(start, end), name) {
            Some(v) => Some(v),
            None => if start <= 0 {
                None
            } else {
                proof {
                    lemma_piece_start_bounds(form, end);
                }
                value_before(form, start - 1, name)
            },
        }
    }
}

/// The value of field `name` in a URL-encoded form body: later pieces win,
/// and a piece whose value does not decode is passed over.
pub open spec fn field_value(form: Seq<char>, name: Seq<char>) -> Option<Seq<char>> {
    value_before(form, form.len() as int, name)
}

/// The value of field `name`, or empty text when no piece assigns it.
pub open spec fn field_text(form: Seq<char>, name: Seq<char>) -> Seq<char> {
    match field_value(form, name) {
        Some(v) => v,
        None => seq![],
    }
}

fn piece_start_at(form: &Vec<char>, end: usize) -> (r: usize)
    requires
        end <= form@.len(),
    ensures
        r == piece_start(form@, end as int),
        r <= end,
{
    let mut k = end;
    while k > 0 && form[k - 1] != '&'
        invariant
            k <= end <= form@.len(),
            piece_start(form@, k as int) == piece_start(form@, end as int),
        decreases k,
    {
        k = k - 1;
    }
    k
}

fn key_end_at(form: &Vec<char>, start: usize, end: usize) -> (r: usize)
    requires
        start <= end <= form@.len(),
    ensures
        start <= r <= end,
        r - start == key_end(form@.subrange(start as int, end as int), 0),
{
    let ghost piece = form@.subrange(start as int, end as int);
    let mut k = start;
    while k < end && form[k] != '='
        invariant
            start <= k <= end <= form@.len(),
            piece == form@.subrange(start as int, end as int),
            key_end(piece, (k - start) as int) == key_end(piece, 0),
        decreases end - k,
    {
        assert(piece[(k - start) as int] == form@[k as int]);
        k = k + 1;
    }
    proof {
        if k < end {
            assert(piece[(k - start) as int] == form@[k as int]);
        }
    }
    k
}

/// The value of field `name` in the URL-encoded form `form`.
pub fn form_field(form: &str, name: &str) -> (r: Option<String>)
    ensures
        opt_text(r) == field_value(form@, name@),
{
    let chars = chars_of(form);
    field_in(form, &chars, name)
}

fn field_in(form: &str, chars: &Vec<char>, name: &str) -> (r: Option<String>)
    requires
        chars@ == form@,
    ensures
        opt_text(r) == field_value(form@, name@),
{
    let mut end = chars.len();
    loop
        invariant
            chars@ == form@,
            end <= form@.len(),
            value_before(form@, end as int, name@) == field_value(form@, name@),
        decreases end,
    {
        let start = piece_start_at(chars, end);
        let eq = key_end_at(chars, start, end);
        let ghost piece = form@.subrange(start as int, end as int);
        if eq < end {
            let key = trim_text(form.substring_char(start, eq));
            assert(piece.take((eq - start) as int) =~= form@.subrange(start as int, eq as int));
            if same_text(key, name) {
                let decoded = decode_component(form.substring_char(eq + 1, end));
                assert(piece.skip((eq - start) + 1) =~= form@.subrange(eq + 1, end as int));
                if decoded.is_some() {
                    return decoded;
                }
            }
        }
        if start == 0 {
            return None;
        }
        proof {
            lemma_piece_start_bounds(form@, end as int);
        }
        end = start - 1;
    }
}

/// The outcome of a posted form: the chosen network (the `manual_ssid`
/// field when `s` is `manual`, else `s`) with surrounding whitespace removed,
/// and the `p` field as the password, when they pass the checks.
pub open spec fn submission_outcome(form: Seq<char>) -> Result<CredentialsView, CredentialError> {
    let choice = field_text(form, "s"@);
    let manual = field_text(form, "manual_ssid"@);
    let password = field_text(form, "p"@);
    if choice == "manual"@ && manual.len() == 0 {
        Err(CredentialError::ManualSsidEmpty)
    } else {
        let ssid = whitespace_trimmed(if choice == "manual"@ { manual } else { choice });
        let c = CredentialsView { ssid, password };
        match credentials_problem(c) {
            Some(e) => Err(e),
            None => Ok(c),
        }
    }
}

pub open spec fn outcome_of(r: Result<Credentials, CredentialError>) -> Result<CredentialsView, CredentialError> {
    match r {
        Ok(c) => Ok(c@),
        Err(e) => Err(e),
    }
}

fn field_or_empty(o: Option<String>) -> (r: String)
    ensures
        r@ == match opt_text(o) {
            Some(v) => v,
            None => seq![],
        },
{
    match o {
        Some(v) => v,
        None => String::new(),
    }
}

/// Reads the credentials out of a URL-encoded form body (fields `s`,
/// `manual_ssid` and `p`) and checks them.
pub fn read_submission(form: &str) -> (r: Result<Credentials, CredentialError>)
    ensures
        outcome_of(r) == submission_outcome(form@),
{
    let chars = chars_of(form);
    let choice = field_or_empty(field_in(form, &chars, "s"));
    let manual = field_or_empty(field_in(form, &chars, "manual_ssid"));
    let password = field_or_empty(field_in(form, &chars, "p"));
    let use_manual = same_text(choice.as_str(), "manual");
    if use_manual && manual.as_str().is_empty() {
        return Err(CredentialError::ManualSsidEmpty);
    }
    let chosen = if use_manual { manual } else { choice };
    let ssid = String::from_str(trim_text(chosen.as_str()));
    let c = Credentials { ssid, password };
    match check_credentials(&c) {
        Some(e) => Err(e),
        None => Ok(c),
    }
}

/// The single place where the portal leaves accepted credentials for the
/// setup session. A new pair replaces one that was not yet taken.
pub struct CredentialSlot {
    pending: Option<Credentials>,
}

pub open spec fn pending_view(o: Option<Credentials>) -> Option<CredentialsView> {
    match o {
        Some(c) => Some(c@),
        None => None,
    }
}

impl CredentialSlot {
    /// What the slot holds.
    pub closed spec fn pending(&self) -> Option<CredentialsView> {
        pending_view(self.pending)
    }

    /// An empty slot.
    pub fn new() -> (r: CredentialSlot)
        ensures
            r.pending() is None,
    {
        CredentialSlot { pending: None }
    }

    /// Leaves `c` in the slot, replacing what it held.
    pub fn put(&mut self, c: Credentials)
        ensures
            final(self).pending() == Some(c@),
    {
        self.pending = Some(c);
    }

    /// Takes what the slot holds and leaves it empty.
    pub fn take(&mut self) -> (r: Option<Credentials>)
        ensures
            pending_view(r) == old(self).pending(),
            final(self).pending() is None,
    {
        self.pending.take()
    }
}

/// The slot after a form was posted: the form's credentials when they are
/// accepted, else the slot as it was.
pub open spec fn slot_after(slot: Option<CredentialsView>, form: Seq<char>) -> Option<CredentialsView> {
    match submission_outcome(form) {
        Ok(c) => Some(c),
        Err(_) => slot,
    }
}

/// Handles a posted form: accepted credentials go into `slot`; a rejected
/// form leaves it as it was.
pub fn handle_connect(slot: &mut CredentialSlot, form: &str) -> (r: Result<(), CredentialError>)
    ensures
        final(slot).pending() == slot_after(old(slot).pending(), form@),
        r is Ok <==> submission_outcome(form@) is Ok,
        submission_outcome(form@) is Err ==> r == Err::<(), CredentialError>(submission_outcome(form@)->Err_0),
{
    match read_submission(form) {
        Ok(c) => {
            slot.put(c);
            Ok(())
        },
        Err(e) => Err(e),
    }
}

/// Reply to an accepted form.
pub const CONFIRMATION_PAGE: &'static str = "<html><head><meta name='viewport' content='width=device-width, initial-scale=1'></head>
<body style='font-family: Arial, sans-serif; padding: 20px; text-align: center;'>
<h2>Connecting to WiFi...</h2>
<p>Your WinkLink device is now connecting to the selected network.</p>
<p>Please return to your device to confirm connection status.</p>
</body></html>";

/// Reply when the manual entry was chosen and left empty.
pub const MANUAL_SSID_EMPTY_PAGE: &'static str = "Error: Manual SSID cannot be empty. <a href='/'>Go back</a>";

/// Reply when no network name remains after trimming.
pub const SSID_EMPTY_PAGE: &'static str = "Error: SSID cannot be empty. <a href='/'>Go back</a>";

/// Reply when the network name is too long.
pub const SSID_TOO_LONG_PAGE: &'static str = "Error: SSID cannot be longer than 32 bytes. <a href='/'>Go back</a>";

/// Reply when the password is too long.
pub const PASSWORD_TOO_LONG_PAGE: &'static str = "Error: Password cannot be longer than 64 bytes. <a href='/'>Go back</a>";

/// The page that answers a posted form with the given outcome.
pub open spec fn reply_text(r: Result<(), CredentialError>) -> Seq<char> {
    match r {
        Ok(()) => CONFIRMATION_PAGE@,
        Err(CredentialError::ManualSsidEmpty) => MANUAL_SSID_EMPTY_PAGE@,
        Err(CredentialError::SsidEmpty) => SSID_EMPTY_PAGE@,
        Err(CredentialError::SsidTooLong) => SSID_TOO_LONG_PAGE@,
        Err(CredentialError::PasswordTooLong) => PASSWORD_TOO_LONG_PAGE@,
    }
}

/// The page that answers a posted form with the given outcome.
pub fn reply_page(r: Result<(), CredentialError>) -> (page: &'static str)
    ensures
        page@ == reply_text(r),
{
    match r {
        Ok(()) => CONFIRMATION_PAGE,
        Err(CredentialError::ManualSsidEmpty) => MANUAL_SSID_EMPTY_PAGE,
        Err(CredentialError::SsidEmpty) => SSID_EMPTY_PAGE,
        Err(CredentialError::SsidTooLong) => SSID_TOO_LONG_PAGE,
        Err(CredentialError::PasswordTooLong) => PASSWORD_TOO_LONG_PAGE,
    }
}

/// A network seen by the scan that precedes the portal.
#[derive(Debug)]
pub struct ScanEntry {
    pub ssid: String,
    /// Whether the network needs no password.
    pub open: bool,
}

pub struct ScanEntryView {
    pub ssid: Seq<char>,
    pub open: bool,
}

impl View for ScanEntry {
    type V = ScanEntryView;

    open spec fn view(&self) -> ScanEntryView {
        ScanEntryView { ssid: self.ssid@, open: self.open }
    }
}

impl ScanEntry {
    pub fn new(ssid: String, open: bool) -> (r: ScanEntry)
        ensures
            r.ssid == ssid,
            r.open == open,
    {
        ScanEntry { ssid, open }
    }
}

pub open spec fn scan_view(v: Seq<ScanEntry>) -> Seq<ScanEntryView> {
    v.map_values(|e: ScanEntry| e@)
}

/// The portal page up to the list of scanned networks.
pub const PAGE_HEAD: &'static str = "<html><head><meta name='viewport' content='width=device-width, initial-scale=1'>
<style>
body { font-family: Arial, sans-serif; padding: 20px; }
select, input { padding: 8px; width: 100%; max-width: 300px; margin-bottom: 10px; }
.btn { padding: 10px 16px; background-color: #4285f4; color: white; border: none; border-radius: 4px; cursor: pointer; }
</style>
</head><body>
<h2>Connect to Wi-Fi Network</h2>
<form method='post' action='/connect' enctype='application/x-www-form-urlencoded'>
<div>
<label for='network-select'>Select your network:</label><br/>
<select id='network-select' name='s' required onchange='toggleManualInput()'>
<option value=''>-- Select a network --</option>
";

/// The portal page after the list of scanned networks.
pub const PAGE_TAIL: &'static str = "<option value='manual'>-- Enter network manually --</option>
</select>
</div>
<div id='manual-input' style='display: none;'>
<label for='manual-ssid'>Network name:</label><br/>
<input type='text' id='manual-ssid' name='manual_ssid' />
</div>
<div>
<label for='pass'>Password:</label><br/>
<input type='password' id='pass' name='p' />
</div>
<input type='submit' value='Connect' class='btn' />
</form>
<script>
function toggleManualInput() {
var select = document.getElementById('network-select');
var manualDiv = document.getElementById('manual-input');
var manualInput = document.getElementById('manual-ssid');
if (select.value === 'manual') {
manualDiv.style.display = 'block';
manualInput.required = true;
} else {
manualDiv.style.display = 'none';
manualInput.required = false;
}
}
</script>
</body></html>
";

/// Opening of a network's entry in the selection list.
pub const OPTION_OPEN: &'static str = "<option value=\"";

/// Between the escaped value and the escaped label of an entry.
pub const OPTION_LABEL: &'static str = "\">";

/// Between the label and the security note: a space, the signal symbol, a space.
pub const OPTION_SIGNAL: &'static str = " \u{1F4F6} ";

pub const OPEN_NOTE: &'static str = "(Open)";

pub const SECURE_NOTE: &'static str = "(Secure)";

pub const OPTION_CLOSE: &'static str = "</option>";

/// The list entry for one scanned network; none for a hidden (empty) SSID.
pub open spec fn network_option(e: ScanEntryView) -> Seq<char> {
    if e.ssid.len() == 0 {
        seq![]
    } else {
        OPTION_OPEN@ + html_escaped(e.ssid) + OPTION_LABEL@ + html_escaped(e.ssid) + OPTION_SIGNAL@
            + (if e.open { OPEN_NOTE@ } else { SECURE_NOTE@ }) + OPTION_CLOSE@
    }
}

/// The list entries for the scanned networks, in scan order.
pub open spec fn network_options(nets: Seq<ScanEntryView>) -> Seq<char>
    decreases nets.len(),
{
    if nets.len() == 0 {
        seq![]
    } else {
        network_options(nets.drop_last()) + network_option(nets.last())
    }
}

/// The network-selection page for the given scan.
pub open spec fn portal_page(nets: Seq<ScanEntryView>) -> Seq<char> {
    PAGE_HEAD@ + network_options(nets) + PAGE_TAIL@
}

fn append_option(page: &mut String, e: &ScanEntry)
    ensures
        final(page)@ == old(page)@ + network_option(e@),
{
    if e.ssid.as_str().is_empty() {
        assert(old(page)@ + network_option(e@) =~= old(page)@);
        return;
    }
    let escaped = escape_html(e.ssid.as_str());
    page.append(OPTION_OPEN);
    page.append(escaped.as_str());
    page.append(OPTION_LABEL);
    page.append(escaped.as_str());
    page.append(OPTION_SIGNAL);
    if e.open {
        page.append(OPEN_NOTE);
    } else {
        page.append(SECURE_NOTE);
    }
    page.append(OPTION_CLOSE);
    assert(final(page)@ =~= old(page)@ + network_option(e@));
}

/// Renders the network-selection page served at `/`.
pub fn render_portal_page(networks: &Vec<ScanEntry>) -> (page: String)
    ensures
        page@ == portal_page(scan_view(networks@)),
{
    let ghost nets = scan_view(networks@);
    let mut page = String::from_str(PAGE_HEAD);
    let mut i: usize = 0;
    while i < networks.len()
        invariant
            i <= networks@.len(),
            nets == scan_view(networks@),
            page@ == PAGE_HEAD@ + network_options(nets.take(i as int)),
        decreases networks@.len() - i,
    {
        append_option(&mut page, &networks[i]);
        assert(nets.take(i + 1).drop_last() =~= nets.take(i as int));
        assert(nets.take(i + 1).last() == networks@[i as int]@);
        i = i + 1;
    }
    assert(nets.take(i as int) =~= nets);
    page.append(PAGE_TAIL);
    page
}

/// Two accepted forms posted before the session looks at the slot: the slot
/// then holds the second form's credentials, whatever it held before.
pub proof fn lemma_last_write_wins(slot: Option<CredentialsView>, first: Seq<char>, second: Seq<char>)
    requires
        submission_outcome(first) is Ok,
        submission_outcome(second) is Ok,
    ensures
        slot_after(slot_after(slot, first), second) == Some(submission_outcome(second)->Ok_0),
{
}

/// Length limits are inclusive: an SSID of 32 bytes and a password of 64
/// bytes pass, one more byte in either is refused.
pub proof fn lemma_length_boundary(c: CredentialsView)
    requires
        c.ssid.len() > 0,
    ensures
        byte_len(c.ssid) == 32 && byte_len(c.password) <= 64 ==> credentials_problem(c) is None,
        byte_len(c.ssid) == 33 ==> credentials_problem(c) == Some(CredentialError::SsidTooLong),
        byte_len(c.ssid) <= 32 && byte_len(c.password) == 64 ==> credentials_problem(c) is None,
        byte_len(c.ssid) <= 32 && byte_len(c.password) == 65 ==> credentials_problem(c)
            == Some(CredentialError::PasswordTooLong),
{
}

/// A refused form (an empty or too long SSID, a too long password) leaves
/// the slot as it was.
pub proof fn lemma_refused_form_keeps_slot(slot: Option<CredentialsView>, form: Seq<char>)
    requires
        submission_outcome(form) is Err,
    ensures
        slot_after(slot, form) == slot,
{
}

/// When `s` is `manual` and `manual_ssid` is not empty, the network is the
/// trimmed `manual_ssid`, whatever else the form holds.
pub proof fn lemma_manual_ssid_precedence(form: Seq<char>)
    requires
        field_text(form, "s"@) == "manual"@,
        field_text(form, "manual_ssid"@).len() > 0,
    ensures
        ({
            let c = CredentialsView {
                ssid: whitespace_trimmed(field_text(form, "manual_ssid"@)),
                password: field_text(form, "p"@),
            };
            submission_outcome(form) == match credentials_problem(c) {
                Some(e) => Err(e),
                None => Ok(c),
            }
        }),
{
}

} // verus!

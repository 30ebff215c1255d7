//! Streaming apps (Sunshine host, Moonlight client, standalone Tailscale):
//! where an existing install is looked for, the report of what is
//! installed, and the credential generated for Sunshine's admin API.

use vstd::prelude::*;

use crate::digest::{le_bytes, push_bytes, push_le_bytes, sha256, sha256_digest};
use crate::text::{chars_of, extend_chars, extend_str, opt_chars, owned, replace_all, replace_str, string_of, strs};

verus! {

/// What the streaming-app installer found or did.
#[derive(Debug, Clone)]
pub struct StreamingInstallReport {
    pub sunshine_installed: bool,
    pub sunshine_path: Option<String>,
    pub moonlight_installed: bool,
    pub moonlight_path: Option<String>,
    pub tailscale_installed: bool,
    pub tailscale_path: Option<String>,
    /// Credentials set on Sunshine after a fresh install, if that succeeded.
    pub auto_creds_user: Option<String>,
    pub auto_creds_pass: Option<String>,
    pub messages: Vec<String>,
}

/// The plain-value model of a report.
#[verifier::ext_equal]
pub struct ReportView {
    pub sunshine_installed: bool,
    pub sunshine_path: Option<Seq<char>>,
    pub moonlight_installed: bool,
    pub moonlight_path: Option<Seq<char>>,
    pub tailscale_installed: bool,
    pub tailscale_path: Option<Seq<char>>,
    pub auto_creds_user: Option<Seq<char>>,
    pub auto_creds_pass: Option<Seq<char>>,
    pub messages: Seq<Seq<char>>,
}

impl View for StreamingInstallReport {
    type V = ReportView;

    open spec fn view(&self) -> ReportView {
        ReportView {
            sunshine_installed: self.sunshine_installed,
            sunshine_path: opt_chars(self.sunshine_path),
            moonlight_installed: self.moonlight_installed,
            moonlight_path: opt_chars(self.moonlight_path),
            tailscale_installed: self.tailscale_installed,
            tailscale_path: opt_chars(self.tailscale_path),
            auto_creds_user: opt_chars(self.auto_creds_user),
            auto_creds_pass: opt_chars(self.auto_creds_pass),
            messages: strs(self.messages@),
        }
    }
}

/// Standard Sunshine install locations, in probing order.
pub open spec fn sunshine_paths() -> Seq<Seq<char>> {
    seq![
        "C:\\Program Files\\Sunshine\\sunshine.exe"@,
        "C:\\Program Files (x86)\\Sunshine\\sunshine.exe"@,
    ]
}

/// Standard Moonlight install locations, in probing order.
pub open spec fn moonlight_paths() -> Seq<Seq<char>> {
    seq![
        "C:\\Program Files\\Moonlight Game Streaming\\Moonlight.exe"@,
        "C:\\Program Files (x86)\\Moonlight Game Streaming\\Moonlight.exe"@,
    ]
}

/// Standard Tailscale install locations, in probing order.
pub open spec fn tailscale_paths() -> Seq<Seq<char>> {
    seq![
        "C:\\Program Files\\Tailscale\\tailscale.exe"@,
        "C:\\Program Files (x86)\\Tailscale\\tailscale.exe"@,
        "C:\\Program Files\\Tailscale IPN\\tailscale-ipn.exe"@,
    ]
}

/// The first path whose probe found a file.
pub open spec fn first_existing(paths: Seq<Seq<char>>, exists: Seq<bool>) -> Option<Seq<char>>
    decreases paths.len(),
{
    if paths.len() == 0 || exists.len() == 0 {
        None
    } else if exists[0] {
        Some(paths[0])
    } else {
        first_existing(paths.drop_first(), exists.drop_first())
    }
}

/// The paths Sunshine is probed at.
pub fn sunshine_candidates() -> (r: Vec<&'static str>)
    ensures
        r@.map_values(|s: &str| s@) == sunshine_paths(),
{
    let r = vec![
        "C:\\Program Files\\Sunshine\\sunshine.exe",
        "C:\\Program Files (x86)\\Sunshine\\sunshine.exe",
    ];
    assert(r@.map_values(|s: &str| s@) =~= sunshine_paths());
    r
}

/// The paths Moonlight is probed at.
pub fn moonlight_candidates() -> (r: Vec<&'static str>)
    ensures
        r@.map_values(|s: &str| s@) == moonlight_paths(),
{
    let r = vec![
        "C:\\Program Files\\Moonlight Game Streaming\\Moonlight.exe",
        "C:\\Program Files (x86)\\Moonlight Game Streaming\\Moonlight.exe",
    ];
    assert(r@.map_values(|s: &str| s@) =~= moonlight_paths());
    r
}

/// The paths Tailscale is probed at.
pub fn tailscale_candidates() -> (r: Vec<&'static str>)
    ensures
        r@.map_values(|s: &str| s@) == tailscale_paths(),
{
    let r = vec![
        "C:\\Program Files\\Tailscale\\tailscale.exe",
        "C:\\Program Files (x86)\\Tailscale\\tailscale.exe",
        "C:\\Program Files\\Tailscale IPN\\tailscale-ipn.exe",
    ];
    assert(r@.map_values(|s: &str| s@) =~= tailscale_paths());
    r
}

fn pick_first(paths: Vec<&'static str>, exists: &[bool]) -> (r: Option<String>)
    requires
        paths@.len() == exists@.len(),
    ensures
        opt_chars(r) == first_existing(paths@.map_values(|p: &str| p@), exists@),
{
    let ghost pv = paths@.map_values(|p: &str| p@);
    let mut i: usize = 0;
    assert(pv.skip(0) =~= pv && exists@.skip(0) =~= exists@);
    while i < paths.len()
        invariant
            i <= paths@.len() == exists@.len(),
            pv == paths@.map_values(|p: &str| p@),
            first_existing(pv, exists@) == first_existing(pv.skip(i as int), exists@.skip(i as int)),
        decreases paths.len() - i,
    {
        assert(pv.skip(i as int)[0] == paths@[i as int]@);
        if exists[i] {
            return Some(owned(paths[i]));
        }
        assert(pv.skip(i as int).drop_first() =~= pv.skip(i + 1));
        assert(exists@.skip(i as int).drop_first() =~= exists@.skip(i + 1));
        i += 1;
    }
    None
}

/// The report of what is already installed, given for each app whether a
/// file exists at each of its candidate paths (in probing order).
pub fn detect_existing(sunshine: [bool; 2], moonlight: [bool; 2], tailscale: [bool; 3]) -> (r:
    StreamingInstallReport)
    ensures
        opt_chars(r.sunshine_path) == first_existing(sunshine_paths(), sunshine@),
        opt_chars(r.moonlight_path) == first_existing(moonlight_paths(), moonlight@),
        opt_chars(r.tailscale_path) == first_existing(tailscale_paths(), tailscale@),
        r.sunshine_installed == r.sunshine_path is Some,
        r.moonlight_installed == r.moonlight_path is Some,
        r.tailscale_installed == r.tailscale_path is Some,
        r.auto_creds_user is None,
        r.auto_creds_pass is None,
        r.messages@.len() == 0,
{
    let sunshine_path = pick_first(sunshine_candidates(), &sunshine);
    let moonlight_path = pick_first(moonlight_candidates(), &moonlight);
    let tailscale_path = pick_first(tailscale_candidates(), &tailscale);
    StreamingInstallReport {
        sunshine_installed: sunshine_path.is_some(),
        sunshine_path,
        moonlight_installed: moonlight_path.is_some(),
        moonlight_path,
        tailscale_installed: tailscale_path.is_some(),
        tailscale_path,
        auto_creds_user: None,
        auto_creds_pass: None,
        messages: Vec::new(),
    }
}

/// Characters a generated password is drawn from: letters and digits
/// without the look-alikes I, O, 0, 1, i, l, o.
pub open spec fn password_alphabet() -> Seq<char> {
    "ABCDEFGHJKLMNPQRSTUVWXYZ23456789abcdefghjkmnpqrstuvwxyz"@
}

/// The bytes hashed into a password: the timestamp in nanoseconds and the
/// process id, little-endian, then a fixed salt.
pub open spec fn password_seed(nanos: u128, pid: u32) -> Seq<u8> {
    le_bytes(nanos as nat, 16) + le_bytes(pid as nat, 4) + vstd::utf8::encode_utf8(
        "abyss-sunshine-credential-salt-v1"@,
    )
}

/// The 24-character password derived from a digest: each of its first 24
/// bytes picks an alphabet character by its value modulo the alphabet size.
pub open spec fn password_from(digest: Seq<u8>) -> Seq<char> {
    Seq::new(24, |i: int| password_alphabet()[(digest[i] as int) % (password_alphabet().len() as int)])
}

/// A 24-character alphanumeric password for a host-local credential,
/// derived by SHA-256 from the current time (`nanos` since the Unix epoch)
/// and the process id.
pub fn generate_password(nanos: u128, pid: u32) -> (r: String)
    ensures
        r@ == password_from(sha256_digest(password_seed(nanos, pid))),
{
    let mut data: Vec<u8> = Vec::new();
    push_le_bytes(&mut data, nanos, 16);
    push_le_bytes(&mut data, pid as u128, 4);
    push_bytes(&mut data, "abyss-sunshine-credential-salt-v1".as_bytes());
    assert(data@ =~= password_seed(nanos, pid));
    let digest = sha256(data.as_slice());
    let alphabet = chars_of("ABCDEFGHJKLMNPQRSTUVWXYZ23456789abcdefghjkmnpqrstuvwxyz");
    proof {
        reveal_strlit("ABCDEFGHJKLMNPQRSTUVWXYZ23456789abcdefghjkmnpqrstuvwxyz");
    }
    assert(alphabet@.len() == 55);
    let mut out: Vec<char> = Vec::new();
    let mut i: usize = 0;
    while i < 24
        invariant
            i <= 24,
            digest@.len() == 32,
            alphabet@ == password_alphabet(),
            alphabet@.len() == 55,
            out@ == password_from(digest@).take(i as int),
        decreases 24 - i,
    {
        let b = digest[i];
        let k = (b as usize) % alphabet.len();
        out.push(alphabet[k]);
        assert(out@ =~= password_from(digest@).take(i + 1));
        i += 1;
    }
    assert(out@ =~= password_from(digest@));
    crate::text::string_of(out.as_slice())
}


/// A value quoted for a single-quoted PowerShell string: `'` doubled.
pub open spec fn ps_quoted(s: Seq<char>) -> Seq<char> {
    replace_all(s, "'"@, "''"@)
}

/// The PowerShell command that runs `sunshine.exe --creds <user> <pass>`
/// elevated and waits for it.
pub open spec fn creds_command(exe: Seq<char>, user: Seq<char>, pass: Seq<char>) -> Seq<char> {
    "Start-Process -FilePath '"@ + ps_quoted(exe) + "' -ArgumentList @('--creds', '"@ + ps_quoted(user)
        + "', '"@ + ps_quoted(pass) + "') -Verb RunAs -Wait"@
}

fn push_quoted(v: &mut Vec<char>, s: &str)
    ensures
        final(v)@ == old(v)@ + ps_quoted(s@),
{
    proof {
        reveal_strlit("'");
    }
    let c = chars_of(s);
    let q = replace_str(c.as_slice(), "'", "''");
    extend_chars(v, q.as_slice());
}

/// The elevated PowerShell command that sets Sunshine's web-UI
/// credentials with the bundled `sunshine.exe`.
pub fn sunshine_creds_command(exe: &str, user: &str, pass: &str) -> (r: String)
    ensures
        r@ == creds_command(exe@, user@, pass@),
{
    let mut v: Vec<char> = Vec::new();
    extend_str(&mut v, "Start-Process -FilePath '");
    push_quoted(&mut v, exe);
    extend_str(&mut v, "' -ArgumentList @('--creds', '");
    push_quoted(&mut v, user);
    extend_str(&mut v, "', '");
    push_quoted(&mut v, pass);
    extend_str(&mut v, "') -Verb RunAs -Wait");
    string_of(v.as_slice())
}

} // verus!

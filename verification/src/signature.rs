//! Signature verification for binaries that are loaded into other processes.

use crate::text::{append_hex_word, hex_word, law_word_told};
use crate::util::{wrap, wrapped};
use vstd::prelude::*;
use vstd::string::StringExecFns;

verus! {

pub const TRUST_E_NOSIGNATURE: u32 = 0x800b_0100;

pub const CERT_E_UNTRUSTEDROOT: u32 = 0x800b_0109;

pub const CERT_E_CHAINING: u32 = 0x800b_010a;

pub const TRUST_E_BAD_DIGEST: u32 = 0x8009_6010;

pub const TRUST_E_EXPLICIT_DISTRUST: u32 = 0x800b_0111;

pub const CRYPT_E_SECURITY_SETTINGS: u32 = 0x8009_2026;

/// Show nothing.
pub const UI_NONE: u32 = 2;

/// Check no more revocations than the policy does.
pub const REVOKE_NONE: u32 = 0;

/// Verify a file.
pub const CHOICE_FILE: u32 = 1;

/// Look for revocations in the cache only.
pub const CACHE_ONLY_URL_RETRIEVAL: u32 = 4096;

pub const STATE_ACTION_VERIFY: u32 = 1;

pub const STATE_ACTION_CLOSE: u32 = 2;

/// Environment variable that waives the check.
pub fn allow_unsigned_env() -> (r: &'static str)
    ensures
        r@ == "YOURGG_ALLOW_UNSIGNED"@,
{
    "YOURGG_ALLOW_UNSIGNED"
}

/// Whether verification may be skipped: only by a debug build, and only where the environment
/// variable has a value other than "0".
pub fn unsigned_allowed(debug: bool, value: &Option<String>) -> (r: bool)
    ensures
        r == (debug && value is Some && value->0@ != "0"@),
{
    match value {
        Some(value) => debug && *value != "0".to_owned(),
        None => false,
    }
}

/// What is said where verification was skipped.
pub fn waived_notice(path: &str) -> (r: String)
    ensures
        r@ == "[signature] check waived by "@ + "YOURGG_ALLOW_UNSIGNED"@ + " (debug build): "@
            + path@,
{
    let mut text = "[signature] check waived by ".to_owned();
    text.append(allow_unsigned_env());
    text.append(" (debug build): ");
    text.append(path);
    text
}

/// What a verdict means.
pub open spec fn meaning(status: i32) -> Seq<char> {
    let code = wrapped(status);
    if code == TRUST_E_NOSIGNATURE {
        "the file is not signed at all (a local build?)"@
    } else if code == CERT_E_UNTRUSTEDROOT {
        "the signing certificate does not chain to a trusted root"@
    } else if code == CERT_E_CHAINING {
        "the certificate chain could not be built"@
    } else if code == TRUST_E_BAD_DIGEST {
        "the signature does not match the file (tampered or truncated)"@
    } else if code == TRUST_E_EXPLICIT_DISTRUST {
        "the publisher is explicitly distrusted on this machine"@
    } else if code == CRYPT_E_SECURITY_SETTINGS {
        "local security settings block this signature"@
    } else {
        "the Authenticode signature could not be verified"@
    }
}

/// Says what a verdict means.
pub fn describe(status: i32) -> (r: &'static str)
    ensures
        r@ == meaning(status),
{
    match wrap(status) {
        TRUST_E_NOSIGNATURE => "the file is not signed at all (a local build?)",
        CERT_E_UNTRUSTEDROOT => "the signing certificate does not chain to a trusted root",
        CERT_E_CHAINING => "the certificate chain could not be built",
        TRUST_E_BAD_DIGEST => "the signature does not match the file (tampered or truncated)",
        TRUST_E_EXPLICIT_DISTRUST => "the publisher is explicitly distrusted on this machine",
        CRYPT_E_SECURITY_SETTINGS => "local security settings block this signature",
        _ => "the Authenticode signature could not be verified",
    }
}

/// A binary is not trusted.
#[derive(Debug, Clone, Copy, PartialEq, Eq, Structural)]
pub struct Untrusted {
    pub status: i32,
}

impl Untrusted {
    pub open spec fn text(self, path: Seq<char>) -> Seq<char> {
        "refusing to inject "@ + path + ": "@ + meaning(self.status) + " (WinVerifyTrust "@
            + hex_word(wrapped(self.status) as nat)
            + "). Only CI-signed binaries may be used against a Riot game; "@
            + "download the signed artifact from the deploy workflow."@
    }

    /// What went wrong, for the binary at `path`.
    pub fn message(&self, path: &str) -> (r: String)
        ensures
            r@ == self.text(path@),
    {
        let mut text = "refusing to inject ".to_owned();
        text.append(path);
        text.append(": ");
        text.append(describe(self.status));
        text.append(" (WinVerifyTrust ");
        append_hex_word(&mut text, wrap(self.status));
        text.append("). Only CI-signed binaries may be used against a Riot game; ");
        text.append("download the signed artifact from the deploy workflow.");
        text
    }
}

/// What is asked of the system's verification.
#[derive(Debug, Clone, Copy, PartialEq, Eq, Structural)]
pub struct TrustPlan {
    pub ui_choice: u32,
    pub revocation_checks: u32,
    pub union_choice: u32,
    pub provider_flags: u32,
    pub state_action: u32,
}

/// A call to the system's verification.
pub open spec fn trust_plan(state_action: u32) -> TrustPlan {
    TrustPlan {
        ui_choice: UI_NONE,
        revocation_checks: REVOKE_NONE,
        union_choice: CHOICE_FILE,
        provider_flags: CACHE_ONLY_URL_RETRIEVAL,
        state_action,
    }
}

fn plan(state_action: u32) -> (r: TrustPlan)
    ensures
        r == trust_plan(state_action),
{
    TrustPlan {
        ui_choice: UI_NONE,
        revocation_checks: REVOKE_NONE,
        union_choice: CHOICE_FILE,
        provider_flags: CACHE_ONLY_URL_RETRIEVAL,
        state_action,
    }
}

/// How far a verification has come, and so what to ask of the system.
#[derive(Debug, Clone, Copy, PartialEq, Eq, Structural)]
pub enum TrustCheck {
    Verify(TrustPlan),
    /// Release what the verification holds, whatever its verdict.
    Close { plan: TrustPlan, status: i32 },
    Trusted,
    Refused(Untrusted),
}

impl TrustCheck {
    /// Where the verification stands after the system gave `status`.
    pub open spec fn next(self, status: i32) -> TrustCheck {
        match self {
            TrustCheck::Verify(_) => TrustCheck::Close {
                plan: trust_plan(STATE_ACTION_CLOSE),
                status,
            },
            TrustCheck::Close { status: verdict, .. } => if verdict == 0 {
                TrustCheck::Trusted
            } else {
                TrustCheck::Refused(Untrusted { status: verdict })
            },
            over => over,
        }
    }

    /// Tells the verification what the system gave.
    pub fn advance(&mut self, status: i32)
        ensures
            *final(self) == old(self).next(status),
    {
        *self =
        match *self {
            TrustCheck::Verify(_) => TrustCheck::Close { plan: plan(STATE_ACTION_CLOSE), status },
            TrustCheck::Close { status: verdict, .. } => if verdict == 0 {
                TrustCheck::Trusted
            } else {
                TrustCheck::Refused(Untrusted { status: verdict })
            },
            over => over,
        };
    }
}

/// Begins to verify that a binary carries a valid signature, unless that is waived.
pub fn verify_signed(waived: bool) -> (r: TrustCheck)
    ensures
        r == (if waived {
            TrustCheck::Trusted
        } else {
            TrustCheck::Verify(trust_plan(STATE_ACTION_VERIFY))
        }),
{
    if waived {
        return TrustCheck::Trusted;
    }
    TrustCheck::Verify(plan(STATE_ACTION_VERIFY))
}

/// A binary is trusted exactly where the first verdict is zero, and what the verification holds
/// is released whatever the verdict.
pub proof fn law_verdict_decides(verdict: i32, closed: i32)
    ensures
        ({
            let check = TrustCheck::Verify(trust_plan(STATE_ACTION_VERIFY)).next(verdict);
            &&& check matches TrustCheck::Close { plan, .. } && plan.state_action
                == STATE_ACTION_CLOSE
            &&& check.next(closed) == if verdict == 0 {
                TrustCheck::Trusted
            } else {
                TrustCheck::Refused(Untrusted { status: verdict })
            }
        }),
{
}

/// Six verdicts have a meaning of their own, and every other one says no more than that the
/// signature could not be verified.
pub proof fn law_meanings(status: i32)
    ensures
        wrapped(status) != 0x800b_0100 && wrapped(status) != 0x800b_0109 && wrapped(status)
            != 0x800b_010a && wrapped(status) != 0x8009_6010 && wrapped(status) != 0x800b_0111
            && wrapped(status) != 0x8009_2026 ==> meaning(status)
            == "the Authenticode signature could not be verified"@,
        wrapped(status) == 0x800b_0100 ==> meaning(status)
            == "the file is not signed at all (a local build?)"@,
        wrapped(status) == 0x800b_0109 ==> meaning(status)
            == "the signing certificate does not chain to a trusted root"@,
        wrapped(status) == 0x800b_010a ==> meaning(status)
            == "the certificate chain could not be built"@,
        wrapped(status) == 0x8009_6010 ==> meaning(status)
            == "the signature does not match the file (tampered or truncated)"@,
        wrapped(status) == 0x800b_0111 ==> meaning(status)
            == "the publisher is explicitly distrusted on this machine"@,
        wrapped(status) == 0x8009_2026 ==> meaning(status)
            == "local security settings block this signature"@,
{
}

/// The text of a refusal names the file, then what the verdict means, then the verdict itself as
/// eight digits.
pub proof fn law_refusal_names_file(err: Untrusted, path: Seq<char>)
    ensures
        ({
            let file = "refusing to inject "@ + path + ": "@;
            let verdict = file + meaning(err.status) + " (WinVerifyTrust "@;
            let text = err.text(path);
            &&& text.take(file.len() as int) =~= file
            &&& text.take(verdict.len() as int) =~= verdict
            &&& text.subrange(verdict.len() as int, verdict.len() + 10int) =~= hex_word(
                wrapped(err.status) as nat,
            )
        }),
{
    law_word_told(wrapped(err.status));
}

} // verus!

//! Trust verifier: classifies the platform's certificate-chain status codes
//! into a three-way outcome (trusted / untrusted with a reason / verification
//! failed), and models the verification session whose open/query/close
//! lifecycle must be completed on every path.

use vstd::prelude::*;
use vstd::string::StringExecFns;

verus! {

pub const SUCCESS: u32 = 0;

pub const TRUST_E_SYSTEM_ERROR: u32 = 0x80096001;

pub const TRUST_E_NO_SIGNER_CERT: u32 = 0x80096002;

pub const TRUST_E_COUNTER_SIGNER: u32 = 0x80096003;

pub const TRUST_E_CERT_SIGNATURE: u32 = 0x80096004;

pub const TRUST_E_TIME_STAMP: u32 = 0x80096005;

pub const TRUST_E_BAD_DIGEST: u32 = 0x80096010;

pub const TRUST_E_BASIC_CONSTRAINTS: u32 = 0x80096019;

pub const TRUST_E_FINANCIAL_CRITERIA: u32 = 0x8009601E;

pub const TRUST_E_PROVIDER_UNKNOWN: u32 = 0x800B0001;

pub const TRUST_E_ACTION_UNKNOWN: u32 = 0x800B0002;

pub const TRUST_E_SUBJECT_FORM_UNKNOWN: u32 = 0x800B0003;

pub const TRUST_E_SUBJECT_NOT_TRUSTED: u32 = 0x800B0004;

pub const TRUST_E_NOSIGNATURE: u32 = 0x800B0100;

pub const CERT_E_UNTRUSTEDROOT: u32 = 0x800B0109;

pub const CERT_E_CHAINING: u32 = 0x800B010A;

pub const TRUST_E_FAIL: u32 = 0x800B010B;

pub const TRUST_E_EXPLICIT_DISTRUST: u32 = 0x800B0111;

pub const CRYPT_E_FILE_ERROR: u32 = 0x80092003;

/// Verdict for one file: `valid` is true exactly when the chain validated;
/// otherwise `message` carries the reason the file is not trustworthy.
#[derive(Debug)]
pub struct TrustData {
    pub valid: bool,
    pub message: String,
}

/// The three kinds of outcome a verification can have.
pub enum OutcomeKind {
    Trusted,
    Untrusted,
    Failed,
}

/// Status codes on which chain validation completed and judged the file not
/// trustworthy (unsigned, expired, tampered, untrusted root, and so on).
pub open spec fn is_untrusted_code(status: u32) -> bool {
    ||| status == TRUST_E_NO_SIGNER_CERT
    ||| status == TRUST_E_COUNTER_SIGNER
    ||| status == TRUST_E_CERT_SIGNATURE
    ||| status == TRUST_E_TIME_STAMP
    ||| status == TRUST_E_BAD_DIGEST
    ||| status == TRUST_E_BASIC_CONSTRAINTS
    ||| status == TRUST_E_FINANCIAL_CRITERIA
    ||| status == TRUST_E_PROVIDER_UNKNOWN
    ||| status == TRUST_E_ACTION_UNKNOWN
    ||| status == TRUST_E_SUBJECT_FORM_UNKNOWN
    ||| status == TRUST_E_SUBJECT_NOT_TRUSTED
    ||| status == TRUST_E_NOSIGNATURE
    ||| status == CERT_E_UNTRUSTEDROOT
    ||| status == CERT_E_CHAINING
    ||| status == TRUST_E_FAIL
    ||| status == TRUST_E_EXPLICIT_DISTRUST
}

/// Status codes on which the verification mechanism itself failed: this is
/// not a trust judgement about the file. Every code that is neither success
/// nor a documented untrusted code falls here, so no code is silently
/// dropped.
pub open spec fn is_failure_code(status: u32) -> bool {
    status != SUCCESS && !is_untrusted_code(status)
}

/// The status codes the classification table documents by name.
pub open spec fn is_listed_code(status: u32) -> bool {
    ||| status == SUCCESS
    ||| is_untrusted_code(status)
    ||| status == TRUST_E_SYSTEM_ERROR
    ||| status == CRYPT_E_FILE_ERROR
}

/// The outcome kind a status code classifies to.
pub open spec fn outcome_kind(status: u32) -> OutcomeKind {
    if status == SUCCESS {
        OutcomeKind::Trusted
    } else if is_untrusted_code(status) {
        OutcomeKind::Untrusted
    } else {
        OutcomeKind::Failed
    }
}

/// The display message reported for each untrusted status code.
pub open spec fn untrusted_message(status: u32) -> Seq<char> {
    if status == TRUST_E_NO_SIGNER_CERT {
        "Invalid cert found: result TRUST_E_NO_SIGNER_CERT"@
    } else if status == TRUST_E_COUNTER_SIGNER {
        "Invalid cert found: result TRUST_E_COUNTER_SIGNER"@
    } else if status == TRUST_E_CERT_SIGNATURE {
        "Invalid cert found: result TRUST_E_CERT_SIGNATURE"@
    } else if status == TRUST_E_TIME_STAMP {
        "Expired cert found: result TRUST_E_TIME_STAMP"@
    } else if status == TRUST_E_BAD_DIGEST {
        "Invalid cert found: result TRUST_E_BAD_DIGEST"@
    } else if status == TRUST_E_BASIC_CONSTRAINTS {
        "Invalid cert found: result TRUST_E_BASIC_CONSTRAINTS"@
    } else if status == TRUST_E_FINANCIAL_CRITERIA {
        "Invalid cert found: result TRUST_E_FINANCIAL_CRITERIA"@
    } else if status == TRUST_E_PROVIDER_UNKNOWN {
        "Invalid cert found: result TRUST_E_PROVIDER_UNKNOWN"@
    } else if status == TRUST_E_ACTION_UNKNOWN {
        "Invalid cert found: result TRUST_E_ACTION_UNKNOWN"@
    } else if status == TRUST_E_SUBJECT_FORM_UNKNOWN {
        "Invalid cert found: result TRUST_E_SUBJECT_FORM_UNKNOWN"@
    } else if status == TRUST_E_SUBJECT_NOT_TRUSTED {
        "Invalid cert found: result TRUST_E_SUBJECT_NOT_TRUSTED"@
    } else if status == TRUST_E_NOSIGNATURE {
        "Unsigned PE found: result TRUST_E_NOSIGNATURE"@
    } else if status == CERT_E_UNTRUSTEDROOT {
        "Invalid cert found: result CERT_E_UNTRUSTEDROOT"@
    } else if status == CERT_E_CHAINING {
        "Invalid cert found: result CERT_E_CHAINING"@
    } else if status == TRUST_E_FAIL {
        "Invalid cert found: result TRUST_E_FAIL"@
    } else if status == TRUST_E_EXPLICIT_DISTRUST {
        "Explicitly untrusted cert found: result TRUST_E_EXPLICIT_DISTRUST"@
    } else {
        Seq::<char>::empty()
    }
}

/// The error message reported when verification itself failed; an
/// unrecognized code is carried verbatim, in uppercase hexadecimal.
pub open spec fn failure_message(status: u32) -> Seq<char> {
    if status == TRUST_E_SYSTEM_ERROR {
        "Error: result TRUST_E_SYSTEM_ERROR"@
    } else if status == CRYPT_E_FILE_ERROR {
        "Error: CRYPT_E_FILE_ERROR - couldn't read file - check manually"@
    } else {
        "Unknown error: code: 0x"@ + hex_chars(status as nat)
    }
}

/// The uppercase hexadecimal digit for a value below sixteen.
pub open spec fn hex_digit_char(d: nat) -> char {
    if d == 0 {
        '0'
    } else if d == 1 {
        '1'
    } else if d == 2 {
        '2'
    } else if d == 3 {
        '3'
    } else if d == 4 {
        '4'
    } else if d == 5 {
        '5'
    } else if d == 6 {
        '6'
    } else if d == 7 {
        '7'
    } else if d == 8 {
        '8'
    } else if d == 9 {
        '9'
    } else if d == 10 {
        'A'
    } else if d == 11 {
        'B'
    } else if d == 12 {
        'C'
    } else if d == 13 {
        'D'
    } else if d == 14 {
        'E'
    } else {
        'F'
    }
}

/// The uppercase hexadecimal rendering of a number, most significant digit
/// first, with no leading zeros.
pub open spec fn hex_chars(n: nat) -> Seq<char>
    decreases n,
{
    if n < 16 {
        seq![hex_digit_char(n)]
    } else {
        hex_chars(n / 16).push(hex_digit_char(n % 16))
    }
}

fn hex_digit_str(d: u32) -> (r: &'static str)
    requires
        d < 16,
    ensures
        r@ == seq![hex_digit_char(d as nat)],
{
    let r: &'static str = if d == 0 {
        "0"
    } else if d == 1 {
        "1"
    } else if d == 2 {
        "2"
    } else if d == 3 {
        "3"
    } else if d == 4 {
        "4"
    } else if d == 5 {
        "5"
    } else if d == 6 {
        "6"
    } else if d == 7 {
        "7"
    } else if d == 8 {
        "8"
    } else if d == 9 {
        "9"
    } else if d == 10 {
        "A"
    } else if d == 11 {
        "B"
    } else if d == 12 {
        "C"
    } else if d == 13 {
        "D"
    } else if d == 14 {
        "E"
    } else {
        "F"
    };
    proof {
        reveal_strlit("0");
        reveal_strlit("1");
        reveal_strlit("2");
        reveal_strlit("3");
        reveal_strlit("4");
        reveal_strlit("5");
        reveal_strlit("6");
        reveal_strlit("7");
        reveal_strlit("8");
        reveal_strlit("9");
        reveal_strlit("A");
        reveal_strlit("B");
        reveal_strlit("C");
        reveal_strlit("D");
        reveal_strlit("E");
        reveal_strlit("F");
        assert(r@ =~= seq![hex_digit_char(d as nat)]);
    }
    r
}

/// Render a code in uppercase hexadecimal, as `hex_chars` states.
pub fn hex_upper(n: u32) -> (r: String)
    ensures
        r@ == hex_chars(n as nat),
    decreases n,
{
    let d: u32 = n % 16;
    let digit = hex_digit_str(d);
    if n < 16 {
        let r = String::from_str(digit);
        proof {
            assert(r@ =~= hex_chars(n as nat));
        }
        r
    } else {
        let mut r = hex_upper(n / 16);
        r.append(digit);
        proof {
            assert(n as nat / 16 == (n / 16) as nat);
            assert(n as nat % 16 == d as nat);
            assert(r@ =~= hex_chars(n as nat));
        }
        r
    }
}

/// What the classification promises of its result for a given status code:
/// success is reported exactly on non-failure codes, the verdict is valid
/// exactly on the success code, and the carried message is the documented
/// one.
pub open spec fn classified(status: u32, r: Result<TrustData, String>) -> bool {
    &&& (r is Ok <==> !is_failure_code(status))
    &&& (r matches Result::Ok(t) ==> {
        &&& t.valid == (status == SUCCESS)
        &&& (status == SUCCESS ==> t.message@.len() == 0)
        &&& (status != SUCCESS ==> t.message@ == untrusted_message(status))
    })
    &&& (r matches Result::Err(m) ==> m@ == failure_message(status))
}

/// Map one platform status code to its trust outcome, per the fixed
/// classification table: `Ok` with a valid verdict on success, `Ok` with an
/// invalid verdict and a reason message on every documented untrusted code,
/// and `Err` when verification itself failed — including every unrecognized
/// code, whose raw value is preserved in the error message.
pub fn check_cert(status: u32) -> (r: Result<TrustData, String>)
    ensures
        classified(status, r),
{
    if status == SUCCESS {
        Result::Ok(TrustData { valid: true, message: String::new() })
    } else if status == TRUST_E_NO_SIGNER_CERT {
        Result::Ok(TrustData {
            valid: false,
            message: String::from_str("Invalid cert found: result TRUST_E_NO_SIGNER_CERT"),
        })
    } else if status == TRUST_E_COUNTER_SIGNER {
        Result::Ok(TrustData {
            valid: false,
            message: String::from_str("Invalid cert found: result TRUST_E_COUNTER_SIGNER"),
        })
    } else if status == TRUST_E_CERT_SIGNATURE {
        Result::Ok(TrustData {
            valid: false,
            message: String::from_str("Invalid cert found: result TRUST_E_CERT_SIGNATURE"),
        })
    } else if status == TRUST_E_TIME_STAMP {
        Result::Ok(TrustData {
            valid: false,
            message: String::from_str("Expired cert found: result TRUST_E_TIME_STAMP"),
        })
    } else if status == TRUST_E_BAD_DIGEST {
        Result::Ok(TrustData {
            valid: false,
            message: String::from_str("Invalid cert found: result TRUST_E_BAD_DIGEST"),
        })
    } else if status == TRUST_E_BASIC_CONSTRAINTS {
        Result::Ok(TrustData {
            valid: false,
            message: String::from_str("Invalid cert found: result TRUST_E_BASIC_CONSTRAINTS"),
        })
    } else if status == TRUST_E_FINANCIAL_CRITERIA {
        Result::Ok(TrustData {
            valid: false,
            message: String::from_str("Invalid cert found: result TRUST_E_FINANCIAL_CRITERIA"),
        })
    } else if status == TRUST_E_PROVIDER_UNKNOWN {
        Result::Ok(TrustData {
            valid: false,
            message: String::from_str("Invalid cert found: result TRUST_E_PROVIDER_UNKNOWN"),
        })
    } else if status == TRUST_E_ACTION_UNKNOWN {
        Result::Ok(TrustData {
            valid: false,
            message: String::from_str("Invalid cert found: result TRUST_E_ACTION_UNKNOWN"),
        })
    } else if status == TRUST_E_SUBJECT_FORM_UNKNOWN {
        Result::Ok(TrustData {
            valid: false,
            message: String::from_str("Invalid cert found: result TRUST_E_SUBJECT_FORM_UNKNOWN"),
        })
    } else if status == TRUST_E_SUBJECT_NOT_TRUSTED {
        Result::Ok(TrustData {
            valid: false,
            message: String::from_str("Invalid cert found: result TRUST_E_SUBJECT_NOT_TRUSTED"),
        })
    } else if status == TRUST_E_NOSIGNATURE {
        Result::Ok(TrustData {
            valid: false,
            message: String::from_str("Unsigned PE found: result TRUST_E_NOSIGNATURE"),
        })
    } else if status == CERT_E_UNTRUSTEDROOT {
        Result::Ok(TrustData {
            valid: false,
            message: String::from_str("Invalid cert found: result CERT_E_UNTRUSTEDROOT"),
        })
    } else if status == CERT_E_CHAINING {
        Result::Ok(TrustData {
            valid: false,
            message: String::from_str("Invalid cert found: result CERT_E_CHAINING"),
        })
    } else if status == TRUST_E_FAIL {
        Result::Ok(TrustData {
            valid: false,
            message: String::from_str("Invalid cert found: result TRUST_E_FAIL"),
        })
    } else if status == TRUST_E_EXPLICIT_DISTRUST {
        Result::Ok(TrustData {
            valid: false,
            message: String::from_str(
                "Explicitly untrusted cert found: result TRUST_E_EXPLICIT_DISTRUST",
            ),
        })
    } else if status == TRUST_E_SYSTEM_ERROR {
        Result::Err(String::from_str("Error: result TRUST_E_SYSTEM_ERROR"))
    } else if status == CRYPT_E_FILE_ERROR {
        Result::Err(String::from_str(
            "Error: CRYPT_E_FILE_ERROR - couldn't read file - check manually",
        ))
    } else {
        let mut m = String::from_str("Unknown error: code: 0x");
        let digits = hex_upper(status);
        m.append(digits.as_str());
        Result::Err(m)
    }
}

pub const UI_NONE: u32 = 2;

pub const REVOKE_NONE: u32 = 0;

pub const CHOICE_FILE: u32 = 1;

pub const STATE_ACTION_VERIFY: u32 = 1;

pub const STATE_ACTION_CLOSE: u32 = 2;

/// Configuration of a verification request, as handed to the platform call.
pub struct VerifyRequest {
    pub ui_choice: u32,
    pub revocation_checks: u32,
    pub union_choice: u32,
    pub state_action: u32,
}

/// Build the fixed verification request: fully unattended (no UI),
/// revocation checking disabled, the subject is a file, and the session
/// state action starts at "verify". None of this is configurable.
pub fn open_request() -> (r: VerifyRequest)
    ensures
        r.ui_choice == UI_NONE,
        r.revocation_checks == REVOKE_NONE,
        r.union_choice == CHOICE_FILE,
        r.state_action == STATE_ACTION_VERIFY,
{
    VerifyRequest {
        ui_choice: UI_NONE,
        revocation_checks: REVOKE_NONE,
        union_choice: CHOICE_FILE,
        state_action: STATE_ACTION_VERIFY,
    }
}

/// The lifecycle states of a verification session.
pub enum SessionPhase {
    Opened,
    Closed,
}

/// One verification session: platform-held state opened for a single file
/// and a single query. The invariant the whole subsystem protects is that
/// every opened session is closed before the verifier returns, on every
/// path.
pub struct VerificationSession {
    phase: SessionPhase,
    close_calls: u64,
}

impl VerificationSession {
    /// The lifecycle state the session is in.
    pub closed spec fn spec_phase(self) -> SessionPhase {
        self.phase
    }

    /// How many times the session's close step has run.
    pub closed spec fn spec_close_calls(self) -> int {
        self.close_calls as int
    }

    /// Open a fresh session, ready for one query; its close step has not
    /// run.
    pub fn open() -> (s: Self)
        ensures
            s.spec_phase() is Opened,
            s.spec_close_calls() == 0,
    {
        VerificationSession { phase: SessionPhase::Opened, close_calls: 0 }
    }

    /// Whether the session's state has been released.
    pub fn is_closed(&self) -> (b: bool)
        ensures
            b == (self.spec_phase() is Closed),
    {
        match self.phase {
            SessionPhase::Opened => false,
            SessionPhase::Closed => true,
        }
    }

    /// How many times the session's close step has run.
    pub fn close_calls(&self) -> (n: u64)
        ensures
            n == self.spec_close_calls(),
    {
        self.close_calls
    }

    /// Release the session's state. The protocol opens each session once and
    /// closes it once, so this step runs only on a session that is still
    /// open and has never been closed.
    pub fn close(&mut self)
        requires
            old(self).spec_phase() is Opened,
            old(self).spec_close_calls() == 0,
        ensures
            final(self).spec_phase() is Closed,
            final(self).spec_close_calls() == 1,
    {
        self.phase = SessionPhase::Closed;
        self.close_calls = self.close_calls + 1;
    }
}

/// Run the whole verification protocol on the status code the platform's
/// query step reported: open a session, classify the code, and close the
/// session. Whatever the code — success, any untrusted code, any failure
/// code, or one the table does not recognize — the returned session has been
/// closed exactly once.
pub fn verify_status(status: u32) -> (r: (Result<TrustData, String>, VerificationSession))
    ensures
        classified(status, r.0),
        r.1.spec_phase() is Closed,
        r.1.spec_close_calls() == 1,
{
    let mut session = VerificationSession::open();
    let outcome = check_cert(status);
    session.close();
    (outcome, session)
}

/// The classification table is a total function on status codes: every code
/// has exactly one outcome kind, and only the success code is ever
/// classified as trusted.
pub proof fn lemma_classification_total(status: u32)
    ensures
        outcome_kind(status) is Trusted || outcome_kind(status) is Untrusted || outcome_kind(
            status,
        ) is Failed,
        outcome_kind(status) is Trusted <==> status == SUCCESS,
        outcome_kind(status) is Untrusted <==> is_untrusted_code(status),
        outcome_kind(status) is Failed <==> is_failure_code(status),
        is_listed_code(status) && status != SUCCESS ==> !(outcome_kind(status) is Trusted),
{
}

/// An untrusted verdict and a verification failure are never conflated: on
/// an untrusted code the classification reports an invalid verdict, on a
/// failure code it reports an error, no code is both, and neither kind is
/// ever reported as a valid verdict.
pub proof fn lemma_untrusted_failure_distinct(status: u32, r: Result<TrustData, String>)
    requires
        classified(status, r),
    ensures
        is_untrusted_code(status) ==> (r matches Result::Ok(t) && !t.valid),
        is_failure_code(status) ==> r is Err,
        !(is_untrusted_code(status) && is_failure_code(status)),
        is_untrusted_code(status) || is_failure_code(status) ==> !(r matches Result::Ok(t)
            && t.valid),
{
}

} // verus!

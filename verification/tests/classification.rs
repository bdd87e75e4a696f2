use trustscan::trust::CERT_E_CHAINING;
use trustscan::trust::CERT_E_UNTRUSTEDROOT;
use trustscan::trust::CRYPT_E_FILE_ERROR;
use trustscan::trust::SUCCESS;
use trustscan::trust::TRUST_E_ACTION_UNKNOWN;
use trustscan::trust::TRUST_E_BAD_DIGEST;
use trustscan::trust::TRUST_E_BASIC_CONSTRAINTS;
use trustscan::trust::TRUST_E_CERT_SIGNATURE;
use trustscan::trust::TRUST_E_COUNTER_SIGNER;
use trustscan::trust::TRUST_E_EXPLICIT_DISTRUST;
use trustscan::trust::TRUST_E_FAIL;
use trustscan::trust::TRUST_E_FINANCIAL_CRITERIA;
use trustscan::trust::TRUST_E_NOSIGNATURE;
use trustscan::trust::TRUST_E_NO_SIGNER_CERT;
use trustscan::trust::TRUST_E_PROVIDER_UNKNOWN;
use trustscan::trust::TRUST_E_SUBJECT_FORM_UNKNOWN;
use trustscan::trust::TRUST_E_SUBJECT_NOT_TRUSTED;
use trustscan::trust::TRUST_E_SYSTEM_ERROR;
use trustscan::trust::TRUST_E_TIME_STAMP;
use trustscan::trust::check_cert;
use trustscan::trust::hex_upper;

const UNTRUSTED: [(u32, &str); 16] = [
    (TRUST_E_NO_SIGNER_CERT, "Invalid cert found: result TRUST_E_NO_SIGNER_CERT"),
    (TRUST_E_COUNTER_SIGNER, "Invalid cert found: result TRUST_E_COUNTER_SIGNER"),
    (TRUST_E_CERT_SIGNATURE, "Invalid cert found: result TRUST_E_CERT_SIGNATURE"),
    (TRUST_E_TIME_STAMP, "Expired cert found: result TRUST_E_TIME_STAMP"),
    (TRUST_E_BAD_DIGEST, "Invalid cert found: result TRUST_E_BAD_DIGEST"),
    (TRUST_E_BASIC_CONSTRAINTS, "Invalid cert found: result TRUST_E_BASIC_CONSTRAINTS"),
    (TRUST_E_FINANCIAL_CRITERIA, "Invalid cert found: result TRUST_E_FINANCIAL_CRITERIA"),
    (TRUST_E_PROVIDER_UNKNOWN, "Invalid cert found: result TRUST_E_PROVIDER_UNKNOWN"),
    (TRUST_E_ACTION_UNKNOWN, "Invalid cert found: result TRUST_E_ACTION_UNKNOWN"),
    (
        TRUST_E_SUBJECT_FORM_UNKNOWN,
        "Invalid cert found: result TRUST_E_SUBJECT_FORM_UNKNOWN",
    ),
    (
        TRUST_E_SUBJECT_NOT_TRUSTED,
        "Invalid cert found: result TRUST_E_SUBJECT_NOT_TRUSTED",
    ),
    (TRUST_E_NOSIGNATURE, "Unsigned PE found: result TRUST_E_NOSIGNATURE"),
    (CERT_E_UNTRUSTEDROOT, "Invalid cert found: result CERT_E_UNTRUSTEDROOT"),
    (CERT_E_CHAINING, "Invalid cert found: result CERT_E_CHAINING"),
    (TRUST_E_FAIL, "Invalid cert found: result TRUST_E_FAIL"),
    (
        TRUST_E_EXPLICIT_DISTRUST,
        "Explicitly untrusted cert found: result TRUST_E_EXPLICIT_DISTRUST",
    ),
];

#[test]
fn success_is_the_only_trusted_code() {
    let t = check_cert(SUCCESS).expect("success classifies as a verdict");
    assert!(t.valid);
    assert!(t.message.is_empty());
    for (code, _) in UNTRUSTED {
        let t = check_cert(code).expect("untrusted codes classify as verdicts");
        assert!(!t.valid);
    }
}

#[test]
fn untrusted_codes_carry_their_documented_reason() {
    for (code, message) in UNTRUSTED {
        let t = check_cert(code).expect("untrusted codes classify as verdicts");
        assert!(!t.valid);
        assert_eq!(t.message, message);
    }
}

#[test]
fn failure_codes_are_errors_not_verdicts() {
    let e = check_cert(TRUST_E_SYSTEM_ERROR).unwrap_err();
    assert_eq!(e, "Error: result TRUST_E_SYSTEM_ERROR");
    let e = check_cert(CRYPT_E_FILE_ERROR).unwrap_err();
    assert_eq!(
        e,
        "Error: CRYPT_E_FILE_ERROR - couldn't read file - check manually"
    );
}

#[test]
fn unrecognized_codes_keep_their_raw_value() {
    let e = check_cert(0x12AB34).unwrap_err();
    assert_eq!(e, "Unknown error: code: 0x12AB34");
    let e = check_cert(1).unwrap_err();
    assert_eq!(e, "Unknown error: code: 0x1");
    let e = check_cert(0xDEADBEEF).unwrap_err();
    assert_eq!(e, "Unknown error: code: 0xDEADBEEF");
}

#[test]
fn hex_rendering_matches_the_standard_one() {
    for n in [0u32, 1, 9, 10, 15, 16, 255, 0x800B0100, u32::MAX] {
        assert_eq!(hex_upper(n), format!("{:X}", n));
    }
}

#[test]
fn untrusted_and_failed_are_never_conflated() {
    // Every documented untrusted code yields a verdict, never an error, and
    // never a valid one; every failure code yields an error, never a verdict.
    for (code, _) in UNTRUSTED {
        match check_cert(code) {
            Ok(t) => assert!(!t.valid),
            Err(_) => panic!("untrusted code reported as a verification failure"),
        }
    }
    for code in [TRUST_E_SYSTEM_ERROR, CRYPT_E_FILE_ERROR, 7u32, 0xFFFFFFFF] {
        assert!(check_cert(code).is_err());
    }
}

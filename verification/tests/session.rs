use trustscan::trust::CERT_E_CHAINING;
use trustscan::trust::CERT_E_UNTRUSTEDROOT;
use trustscan::trust::CHOICE_FILE;
use trustscan::trust::CRYPT_E_FILE_ERROR;
use trustscan::trust::REVOKE_NONE;
use trustscan::trust::STATE_ACTION_VERIFY;
use trustscan::trust::SUCCESS;
use trustscan::trust::TRUST_E_ACTION_UNKNOWN;
use trustscan::trust::TRUST_E_BAD_DIGEST;
use trustscan::trust::TRUST_E_BASIC_CONSTRAINTS;
use trustscan::trust::TRUST_E_CERT_SIGNATURE;
use trustscan::trust::TRUST_E_COUNTER_SIGNER;
use trustscan::trust::TRUST_E_EXPLICIT_DISTRUST;
use trustscan::trust::TRUST_E_FAIL;
use trustscan::trust::TRUST_E_FINANCIAL_CRITERIA;
use trustscan::trust::TRUST_E_NOSIGNATURE;
use trustscan::trust::TRUST_E_NO_SIGNER_CERT;
use trustscan::trust::TRUST_E_PROVIDER_UNKNOWN;
use trustscan::trust::TRUST_E_SUBJECT_FORM_UNKNOWN;
use trustscan::trust::TRUST_E_SUBJECT_NOT_TRUSTED;
use trustscan::trust::TRUST_E_SYSTEM_ERROR;
use trustscan::trust::TRUST_E_TIME_STAMP;
use trustscan::trust::UI_NONE;
use trustscan::trust::VerificationSession;
use trustscan::trust::open_request;
use trustscan::trust::verify_status;

#[test]
fn close_runs_exactly_once_on_every_path() {
    let all_codes = [
        SUCCESS,
        TRUST_E_NO_SIGNER_CERT,
        TRUST_E_COUNTER_SIGNER,
        TRUST_E_CERT_SIGNATURE,
        TRUST_E_TIME_STAMP,
        TRUST_E_BAD_DIGEST,
        TRUST_E_BASIC_CONSTRAINTS,
        TRUST_E_FINANCIAL_CRITERIA,
        TRUST_E_PROVIDER_UNKNOWN,
        TRUST_E_ACTION_UNKNOWN,
        TRUST_E_SUBJECT_FORM_UNKNOWN,
        TRUST_E_SUBJECT_NOT_TRUSTED,
        TRUST_E_NOSIGNATURE,
        CERT_E_UNTRUSTEDROOT,
        CERT_E_CHAINING,
        TRUST_E_FAIL,
        TRUST_E_EXPLICIT_DISTRUST,
        TRUST_E_SYSTEM_ERROR,
        CRYPT_E_FILE_ERROR,
        // Codes the table does not recognize.
        1,
        0x12AB34,
        u32::MAX,
    ];
    for code in all_codes {
        let (_, session) = verify_status(code);
        assert!(session.is_closed());
        assert_eq!(session.close_calls(), 1);
    }
}

#[test]
fn a_fresh_session_is_open_and_unclosed() {
    let session = VerificationSession::open();
    assert!(!session.is_closed());
    assert_eq!(session.close_calls(), 0);
}

#[test]
fn the_request_is_unattended_with_revocation_off() {
    let request = open_request();
    assert_eq!(request.ui_choice, UI_NONE);
    assert_eq!(request.revocation_checks, REVOKE_NONE);
    assert_eq!(request.union_choice, CHOICE_FILE);
    assert_eq!(request.state_action, STATE_ACTION_VERIFY);
}

use sipacker::registrator::{
    RegStep, RegistrationStatus, RegistrationStatusKind, Registrator, Settings, StatusLine,
};

#[test]
fn status_kind_of_2xx_is_successful() {
    let st = RegistrationStatus::from_status_line(StatusLine {
        code: 200,
        reason: Some(b"OK".to_vec()),
    });
    assert_eq!(st.kind, RegistrationStatusKind::Successful);
    assert_eq!(st.reason, b"OK".to_vec());
}

#[test]
fn status_kind_of_failures() {
    for code in [400u16, 401, 403, 404, 486, 500, 503, 600, 603, 699] {
        let st = RegistrationStatus::from_status_line(StatusLine { code, reason: None });
        assert_eq!(st.kind, RegistrationStatusKind::Failed, "code {code}");
        assert_eq!(st.reason, Vec::<u8>::new());
    }
}

#[test]
fn status_kind_of_others_is_unregistered() {
    for code in [100u16, 180, 183, 300, 302, 99, 700] {
        let st = RegistrationStatus::from_status_line(StatusLine { code, reason: None });
        assert_eq!(st.kind, RegistrationStatusKind::Unregistered, "code {code}");
    }
}

#[test]
fn happy_register_reports_successful() {
    let mut reg = Registrator::new();
    reg.run_registration();
    assert!(reg.wait_for_registration_response().is_none());
    let step = reg.registration_step(StatusLine { code: 200, reason: Some(b"OK".to_vec()) });
    assert!(matches!(step, RegStep::RefreshAfterExpiry));
    let st = reg.wait_for_registration_response().unwrap();
    assert_eq!(st.kind, RegistrationStatusKind::Successful);
}

#[test]
fn bad_credentials_report_forbidden() {
    let mut reg = Registrator::new();
    reg.run_registration();
    // the registrar challenges, then refuses
    let step1 = reg.registration_step(StatusLine {
        code: 401,
        reason: Some(b"Unauthorized".to_vec()),
    });
    assert!(matches!(step1, RegStep::RetryAfterDelay));
    let step2 = reg.registration_step(StatusLine {
        code: 403,
        reason: Some(b"Forbidden".to_vec()),
    });
    assert!(matches!(step2, RegStep::RetryAfterDelay));
    let st = reg.wait_for_registration_response().unwrap();
    assert_eq!(st.kind, RegistrationStatusKind::Failed);
    assert_eq!(st.reason, b"Forbidden".to_vec());
}

#[test]
fn stop_registration_clears_status() {
    let mut reg = Registrator::new();
    reg.run_registration();
    reg.registration_step(StatusLine { code: 200, reason: None });
    reg.stop_registration();
    assert!(reg.wait_for_registration_response().is_none());
    // stopped: a new loop may start
    reg.run_registration();
}

#[test]
fn build_forms_the_three_uris() {
    let settings = Settings {
        sip_port: 5170,
        sip_registrar_ip: b"192.168.0.90".to_vec(),
        contact_ip: b"192.168.0.102".to_vec(),
        extension_number: 2003,
        expiry_secs: 600,
    };
    let (reg, uris) = Registrator::build(&settings);
    assert_eq!(uris.id, b"sip:2003@192.168.0.102".to_vec());
    assert_eq!(uris.contact, b"sip:2003@192.168.0.102:5170".to_vec());
    assert_eq!(uris.registrar, b"sip:2003@192.168.0.90:5170".to_vec());
    assert!(reg.wait_for_registration_response().is_none());
}

use assistant_rs::wifi::{WifiCredentialParseError, WifiCredentials, WifiProvisioningStep};

#[test]
fn parses_ssid_and_password_with_quotes_and_bom() {
    let c = WifiCredentials::parse("\u{feff}# home\nSSID = \"My Net\"\npsk='secret pass'\n").unwrap();
    assert_eq!(c.ssid, "My Net");
    assert_eq!(c.password, "secret pass");
}

#[test]
fn later_keys_override_and_pass_alias_works() {
    let c = WifiCredentials::parse("ssid=a\nssid=b\npass=x\npassword=y\n").unwrap();
    assert_eq!(c.ssid, "b");
    assert_eq!(c.password, "y");
}

#[test]
fn missing_or_empty_ssid_is_rejected() {
    assert!(matches!(WifiCredentials::parse("password=x"), Err(WifiCredentialParseError::MissingSsid)));
    assert!(matches!(WifiCredentials::parse("ssid=\"\""), Err(WifiCredentialParseError::MissingSsid)));
    assert_eq!(WifiCredentialParseError::MissingSsid.label(), "NO SSID");
}

#[test]
fn overlong_values_are_rejected() {
    let long_ssid = format!("ssid={}", "s".repeat(33));
    assert!(matches!(WifiCredentials::parse(&long_ssid), Err(WifiCredentialParseError::SsidTooLong)));
    let long_pass = format!("ssid=n\npassword={}", "p".repeat(65));
    assert!(matches!(WifiCredentials::parse(&long_pass), Err(WifiCredentialParseError::PasswordTooLong)));
    let ok = format!("ssid={}\npassword={}", "s".repeat(32), "p".repeat(64));
    assert!(WifiCredentials::parse(&ok).is_ok());
}

#[test]
fn ssid_length_counts_bytes() {
    let seventeen_e_acute = format!("ssid={}", "\u{e9}".repeat(17));
    assert!(matches!(WifiCredentials::parse(&seventeen_e_acute), Err(WifiCredentialParseError::SsidTooLong)));
}

#[test]
fn provisioning_labels() {
    assert_eq!(WifiProvisioningStep::ImportSd.label(), "IMPORT SD");
    assert_eq!(WifiProvisioningStep::Connected.short_label(), "OK");
}

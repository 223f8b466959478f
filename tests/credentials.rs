use wisp_installer::credentials::{
    answer_challenge, git_credential, negotiate, Credential, CredentialRequest, Mechanisms,
    StoredCredentials,
};

fn request(username: Option<&str>, ssh_key: bool, system_default: bool, plaintext: bool) -> CredentialRequest {
    CredentialRequest {
        url: "https://example.com/private.git".to_string(),
        username: username.map(|s| s.to_string()),
        allowed: Mechanisms { ssh_key, system_default, plaintext },
    }
}

fn stored() -> StoredCredentials {
    StoredCredentials { username: "alice".to_string(), password: "pw".to_string() }
}

fn agent_user(c: &Credential) -> String {
    match c {
        Credential::SshAgent { username } => username.clone(),
        _ => panic!("not an agent credential"),
    }
}

#[test]
fn plaintext_only_uses_stored_credentials() {
    let r = negotiate(&request(None, false, false, true), &None, &stored()).unwrap();
    match &r {
        Credential::Plaintext { username, password } => {
            assert_eq!(username, "alice");
            assert_eq!(password, "pw");
        }
        _ => panic!("expected plaintext"),
    }
    assert_eq!(r.notice(), Some("(using plain text to authenticate)".to_string()));
}

#[test]
fn agent_prefers_supplied_username() {
    let r = negotiate(&request(Some("bob"), true, true, true), &Some("carol".to_string()), &stored()).unwrap();
    assert_eq!(agent_user(&r), "bob");
    assert_eq!(r.notice(), None);
}

#[test]
fn agent_falls_back_to_helper_then_default() {
    let r = negotiate(&request(None, true, false, false), &Some("carol".to_string()), &stored()).unwrap();
    assert_eq!(agent_user(&r), "carol");
    let r = negotiate(&request(None, true, false, false), &None, &stored()).unwrap();
    assert_eq!(agent_user(&r), "git");
}

#[test]
fn platform_default_before_plaintext() {
    let r = negotiate(&request(None, false, true, true), &None, &stored()).unwrap();
    assert!(matches!(r, Credential::SystemDefault));
    assert_eq!(r.notice(), None);
}

#[test]
fn plaintext_never_chosen_over_better_mechanisms() {
    for (ssh, def) in [(true, false), (false, true), (true, true)] {
        let r = negotiate(&request(None, ssh, def, true), &None, &stored()).unwrap();
        assert!(!matches!(r, Credential::Plaintext { .. }));
    }
}

#[test]
fn no_mechanism_fails() {
    let e = negotiate(&request(Some("bob"), false, false, false), &None, &stored()).unwrap_err();
    assert_eq!(e.message, "no authentication available");
}

#[test]
fn negotiation_is_repeatable() {
    for bits in 0..8u32 {
        let req = request(None, bits & 1 != 0, bits & 2 != 0, bits & 4 != 0);
        let a = format!("{:?}", negotiate(&req, &None, &stored()));
        let b = format!("{:?}", negotiate(&req, &None, &stored()));
        assert_eq!(a, b);
    }
}

#[test]
fn failed_negotiation_gives_transport_error() {
    let choice = negotiate(&request(None, false, false, false), &None, &stored());
    let e = git_credential(choice).err().unwrap();
    assert_eq!(e.message(), "no authentication available");
}

#[test]
fn plaintext_challenge_builds_credential_and_notice() {
    let (notice, cred) = answer_challenge(&request(None, false, false, true), &None, &stored());
    assert_eq!(notice, Some("(using plain text to authenticate)".to_string()));
    let cred = cred.unwrap();
    assert!(cred.has_username());
    assert_eq!(cred.credtype(), git2::CredentialType::USER_PASS_PLAINTEXT.bits());
}

#[test]
fn agent_challenge_builds_agent_credential() {
    let (notice, cred) = answer_challenge(&request(Some("bob"), true, false, false), &None, &stored());
    assert_eq!(notice, None);
    let cred = cred.unwrap();
    assert_eq!(cred.credtype(), git2::CredentialType::SSH_KEY.bits());
}

#[test]
fn platform_default_always_builds() {
    let choice = negotiate(&request(None, false, true, false), &None, &stored());
    let cred = git_credential(choice).unwrap();
    assert_eq!(cred.credtype(), git2::CredentialType::DEFAULT.bits());
}

#[test]
fn nul_in_username_is_refused_by_transport() {
    let choice = negotiate(&request(Some("bo\0b"), true, false, false), &None, &stored());
    assert!(git_credential(choice).is_err());
}

use waystone::host_identity::{
    contains_private_key_material, list_hosts, list_identities, supported_trust_state,
    validate_host, validate_host_record, validate_identity, validate_identity_record,
    CertificateRecord, HostFile, HostIdentityError, HostRecord, HostSection, HostService,
    IdentityFile, IdentityRecord, IdentitySection, LoadedIdentity, SshKeyRecord,
};

const HOSTS_ROOT: &str = "examples/connections/hosts";
const IDENTITIES_ROOT: &str = "examples/connections/identities";

fn offgridholdout() -> HostRecord {
    HostRecord {
        host: HostSection {
            id: "offgridholdout".to_string(),
            display_name: "Off-Grid Holdout".to_string(),
            address: "offgridholdout.example".to_string(),
            notes: Some("Community capsule host".to_string()),
        },
        services: vec![HostService {
            service_type: "ssh".to_string(),
            port: 22,
            trust: "trusted".to_string(),
            fingerprint: Some("SHA256:exampleFingerprint".to_string()),
        }],
    }
}

fn nick_pub() -> IdentityRecord {
    IdentityRecord {
        identity: IdentitySection {
            id: "nick-pub".to_string(),
            display_name: "Nick (publishing)".to_string(),
            author_name: Some("Nick".to_string()),
        },
        ssh_keys: vec![SshKeyRecord {
            id: "nick-ed25519".to_string(),
            public_key: "ssh-ed25519 AAAAC3NzaC1lZDI1NTE5AAAAIExample nick@waystone".to_string(),
            private_key_ref: "workspace-secret:nick-ed25519".to_string(),
        }],
        certificates: vec![],
    }
}

const NICK_PUB_TEXT: &str = "[identity]\nid = \"nick-pub\"\ndisplay_name = \"Nick (publishing)\"\n\n[[ssh_keys]]\nid = \"nick-ed25519\"\npublic_key = \"ssh-ed25519 AAAAC3NzaC1lZDI1NTE5AAAAIExample nick@waystone\"\nprivate_key_ref = \"workspace-secret:nick-ed25519\"\n";

#[test]
fn validates_host_example() {
    let report = validate_host(Ok(offgridholdout())).expect("host example should load");

    assert!(report.valid, "{report:#?}");
}

#[test]
fn validates_identity_example() {
    let report = validate_identity(
        "examples/connections/identities/nick-pub.toml",
        Ok(LoadedIdentity { record: nick_pub(), text: NICK_PUB_TEXT.to_string() }),
    )
    .expect("identity example should load");

    assert!(report.valid, "{report:#?}");
}

#[test]
fn rejects_invalid_trust_state() {
    let mut host = offgridholdout();
    host.services[0].trust = "sometimes".to_string();
    let report = validate_host(Ok(host)).expect("invalid host should parse");

    assert!(!report.valid);
    assert!(report.errors.iter().any(|issue| issue.code == "unsupported_trust_state"));
}

#[test]
fn detects_private_key_material() {
    // The header is put together from its words so that the file holds no
    // whole key block.
    let header = ["BEGIN", "OPENSSH", "PRIVATE", "KEY"].join(" ");
    let text = format!("{NICK_PUB_TEXT}\n# pasted by mistake\n-----{header}-----\n");
    let report = validate_identity(
        "tests/fixtures/identities/private-key-leak/identity.toml",
        Ok(LoadedIdentity { record: nick_pub(), text }),
    )
    .expect("invalid identity should parse");

    assert!(!report.valid);
    assert!(report.errors.iter().any(|issue| issue.code == "private_key_material_present"));
}

#[test]
fn lists_hosts() {
    let hosts = list_hosts(Ok(vec![HostFile {
        path: format!("{HOSTS_ROOT}/offgridholdout.toml"),
        record: Some(offgridholdout()),
    }]))
    .expect("hosts should list");

    assert_eq!(hosts.len(), 1);
    assert_eq!(hosts[0].id, "offgridholdout");
}

#[test]
fn lists_identities() {
    let identities = list_identities(Ok(vec![IdentityFile {
        path: format!("{IDENTITIES_ROOT}/nick-pub.toml"),
        record: Some(nick_pub()),
    }]))
    .expect("ids should list");

    assert_eq!(identities.len(), 1);
    assert_eq!(identities[0].id, "nick-pub");
}

#[test]
fn host_issues_name_each_broken_field() {
    let mut host = offgridholdout();
    host.host.id = "bad id".to_string();
    host.host.address = "  ".to_string();
    host.services[0].service_type = "".to_string();
    let report = validate_host_record(&host);
    let codes: Vec<&str> = report.errors.iter().map(|issue| issue.code).collect();
    assert_eq!(codes, vec!["invalid_id", "missing_host_address", "missing_service_type"]);
    assert_eq!(report.errors[1].message, "host address is required");
    assert_eq!(report.errors[1].path.as_deref(), Some("host.address"));
    assert!(!report.valid);
}

#[test]
fn unsupported_trust_message_names_the_state() {
    let mut host = offgridholdout();
    host.services[0].trust = "maybe".to_string();
    let report = validate_host_record(&host);
    assert_eq!(report.errors.len(), 1);
    assert_eq!(report.errors[0].message, "unsupported trust state: maybe");
    assert_eq!(report.errors[0].path.as_deref(), Some("services.trust"));
}

#[test]
fn trust_states_are_the_five_known_ones() {
    for state in ["unknown", "observed", "trusted", "changed", "blocked"] {
        assert!(supported_trust_state(state));
    }
    assert!(!supported_trust_state("Trusted"));
    assert!(!supported_trust_state(""));
}

#[test]
fn identity_keys_and_certificates_are_checked() {
    let mut identity = nick_pub();
    identity.ssh_keys[0].public_key = "rsa AAAA".to_string();
    identity.ssh_keys[0].private_key_ref = "/home/nick/.ssh/id".to_string();
    identity.certificates.push(CertificateRecord {
        id: "gemini".to_string(),
        certificate_type: "tls".to_string(),
        fingerprint: "md5:abc".to_string(),
        private_key_ref: "workspace-secret:gemini".to_string(),
        expires: None,
    });
    let report = validate_identity_record(&identity);
    let codes: Vec<&str> = report.errors.iter().map(|issue| issue.code).collect();
    assert_eq!(codes, vec!["invalid_public_key", "invalid_secret_reference"]);
    assert_eq!(
        report.errors[0].message,
        "SSH key nick-ed25519 does not look like a public key"
    );
    assert_eq!(
        report.errors[1].message,
        "ssh_keys.private_key_ref must use workspace-secret: reference"
    );
    assert_eq!(report.warnings.len(), 1);
    assert_eq!(report.warnings[0].code, "unusual_certificate_fingerprint");
    assert_eq!(
        report.warnings[0].message,
        "certificate gemini fingerprint does not start with sha256:"
    );
}

#[test]
fn private_key_markers_are_recognised() {
    assert!(contains_private_key_material("x BEGIN RSA PRIVATE KEY y"));
    assert!(contains_private_key_material("BEGIN EC PRIVATE KEY"));
    assert!(contains_private_key_material(&format!("-----{}-----", ["BEGIN", "PRIVATE", "KEY"].join(" "))));
    assert!(!contains_private_key_material("BEGIN PUBLIC KEY"));
}

#[test]
fn listing_orders_by_id_and_skips_unparsed_files() {
    let mut second = offgridholdout();
    second.host.id = "alpha".to_string();
    let hosts = list_hosts(Ok(vec![
        HostFile { path: "hosts/z.toml".to_string(), record: Some(offgridholdout()) },
        HostFile { path: "hosts/broken.toml".to_string(), record: None },
        HostFile { path: "hosts/a.toml".to_string(), record: Some(second) },
    ]))
    .expect("hosts should list");
    let ids: Vec<&str> = hosts.iter().map(|h| h.id.as_str()).collect();
    assert_eq!(ids, vec!["alpha", "offgridholdout"]);
    assert_eq!(hosts[0].path, "hosts/a.toml");
}

#[test]
fn listing_hands_back_a_directory_failure() {
    let result = list_hosts(Err(HostIdentityError::NotDirectory("hosts".to_string())));
    assert!(matches!(result, Err(HostIdentityError::NotDirectory(p)) if p == "hosts"));
    assert_eq!(
        HostIdentityError::NotDirectory("hosts".to_string()).message(),
        "directory path is not a directory: hosts"
    );
}

#[test]
fn listing_keeps_file_order_among_equal_ids() {
    let hosts = list_hosts(Ok(vec![
        HostFile { path: "hosts/second.toml".to_string(), record: Some(offgridholdout()) },
        HostFile { path: "hosts/first.toml".to_string(), record: Some(offgridholdout()) },
    ]))
    .expect("hosts should list");
    let paths: Vec<&str> = hosts.iter().map(|h| h.path.as_str()).collect();
    assert_eq!(paths, vec!["hosts/second.toml", "hosts/first.toml"]);
}

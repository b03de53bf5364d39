use ultra_core::skill::package::verify_signed_package;
use ultra_core::skill::runtime::{host_call_verdict, SkillRuntimeConfig};
use ultra_core::skill::{check_host_call_allowed, validate_capabilities, HostCall, SkillError, SkillManifest};

/// Builds a manifest from its JSON text.
fn parse_manifest(raw: &str) -> SkillManifest {
    let v: serde_json::Value = serde_json::from_str(raw).expect("manifest should parse");
    SkillManifest {
        name: v["name"].as_str().unwrap().to_owned(),
        version: v["version"].as_str().unwrap().to_owned(),
        entrypoint: v["entrypoint"].as_str().unwrap().to_owned(),
        capabilities: v["capabilities"]
            .as_array()
            .unwrap()
            .iter()
            .map(|c| c.as_str().unwrap().to_owned())
            .collect(),
    }
}

fn manifest(caps: &[&str]) -> SkillManifest {
    SkillManifest {
        name: "demo".to_owned(),
        version: "0.1.0".to_owned(),
        entrypoint: "main".to_owned(),
        capabilities: caps.iter().map(|c| c.to_string()).collect(),
    }
}

#[test]
fn parser_and_validator_work() {
    let raw = r#"{"name":"demo","version":"0.1.0","entrypoint":"main","capabilities":["fs.read:/tmp"]}"#;
    let manifest = parse_manifest(raw);
    validate_capabilities(&manifest).expect("capability should be valid");
    check_host_call_allowed(&manifest, HostCall::FsRead).expect("fs.read should be allowed");
}

#[test]
fn invalid_capability_rejected() {
    let raw = r#"{"name":"demo","version":"0.1.0","entrypoint":"main","capabilities":["shell.exec"]}"#;
    let manifest = parse_manifest(raw);
    let err = validate_capabilities(&manifest).expect_err("unknown capability should fail");
    assert!(err.message().contains("unknown capability"));
}

#[test]
fn first_unknown_capability_is_reported() {
    let m = manifest(&["net.outbound", "gpu.use:0", "shell.exec"]);
    match validate_capabilities(&m) {
        Err(SkillError::UnknownCapability(c)) => assert_eq!(c, "gpu.use:0"),
        other => panic!("unexpected {other:?}"),
    }
    assert!(validate_capabilities(&manifest(&[])).is_ok());
}

#[test]
fn missing_capability_names_the_need() {
    let m = manifest(&["fs.read:/tmp", "fs.writer"]);
    assert!(check_host_call_allowed(&m, HostCall::FsRead).is_ok());
    match check_host_call_allowed(&m, HostCall::FsWrite) {
        Err(e) => assert_eq!(e.message(), "missing required capability: fs.write"),
        Ok(()) => panic!("fs.write must be refused"),
    }
}

#[test]
fn host_call_verdicts_and_logs() {
    let m = manifest(&["browser.control"]);
    let (code, log) = host_call_verdict(&m, HostCall::BrowserControl);
    assert_eq!(code, 0);
    assert_eq!(log, "allowed host call: BrowserControl");
    let (code, log) = host_call_verdict(&m, HostCall::NetOutbound);
    assert_eq!(code, -1);
    assert_eq!(log, "denied host call: NetOutbound reason=missing required capability: net.outbound");
}

#[test]
fn package_signature_is_checked() {
    let wasm = b"\0asm".to_vec();
    let sig = " CD5D4935A48C0672CB06407BB443BC0087AFF947C6B864BAC886982C73B3027F\n";
    let ok = verify_signed_package(manifest(&[]), "p/skill.wasm".into(), wasm.clone(), "p".into(), sig);
    let pkg = ok.expect("signature matches");
    assert_eq!(pkg.wasm_bytes, wasm);
    assert_eq!(pkg.wasm_path, std::path::PathBuf::from("p/skill.wasm"));
    let bad = verify_signed_package(manifest(&[]), "p/skill.wasm".into(), wasm, "p".into(), "00");
    match bad {
        Err(SkillError::Package(m)) => assert_eq!(m, "signature mismatch for skill.wasm"),
        other => panic!("unexpected {other:?}"),
    }
}

#[test]
fn runtime_defaults() {
    let c = SkillRuntimeConfig::default();
    assert_eq!(c.memory_limit_bytes, 16 * 1024 * 1024);
    assert_eq!(c.timeout_secs, 10);
}

//! Signed skill packages: a manifest, a wasm module and the module's SHA-256.
use std::path::PathBuf;
use vstd::prelude::*;

use crate::digest::{lemma_hex_lower_normalized, sha256, sha256_hex, sha256_hex_spec};
use crate::skill::SkillManifest;
use crate::skill::SkillError;
use crate::text::{lowercase_text, lowercased, trim_text, trimmed};

verus! {

/// Filesystem paths, carried through unread.
#[verifier::external_type_specification]
#[verifier::external_body]
pub struct ExPathBuf(PathBuf);

/// `PathBuf`'s `clone`; nothing is stated of the copy, which the library only carries.
pub assume_specification[ <PathBuf as Clone>::clone ](p: &PathBuf) -> PathBuf;

/// A loaded skill package whose module matched its signature.
#[derive(Debug, Clone)]
pub struct SkillPackage {
    pub manifest: SkillManifest,
    pub wasm_path: PathBuf,
    pub wasm_bytes: Vec<u8>,
    pub package_dir: PathBuf,
}

/// Assembles the package when the expected and the actual signature agree.
pub fn package_if_signature_matches(
    manifest: SkillManifest,
    wasm_path: PathBuf,
    wasm_bytes: Vec<u8>,
    package_dir: PathBuf,
    expected: &String,
    actual: &String,
) -> (r: Result<SkillPackage, SkillError>)
    ensures
        r is Ok <==> expected@ == actual@,
        r matches Ok(p) ==> p.manifest == manifest && p.wasm_path == wasm_path && p.wasm_bytes
            == wasm_bytes && p.package_dir == package_dir,
        r matches Err(e) ==> (e matches SkillError::Package(m) && m@
            == "signature mismatch for skill.wasm"@),
{
    if *expected != *actual {
        return Err(SkillError::Package("signature mismatch for skill.wasm".to_owned()));
    }
    Ok(SkillPackage { manifest, wasm_path, wasm_bytes, package_dir })
}

/// Checks a package read from disk: the signature file's text, trimmed and
/// lowercased, must be the lowercase hex SHA-256 of the module bytes.
pub fn verify_signed_package(
    manifest: SkillManifest,
    wasm_path: PathBuf,
    wasm_bytes: Vec<u8>,
    package_dir: PathBuf,
    signature_text: &str,
) -> (r: Result<SkillPackage, SkillError>)
    ensures
        r is Ok <==> lowercased(trimmed(signature_text@)) == sha256_hex_spec(wasm_bytes@),
        r matches Ok(p) ==> p.manifest == manifest && p.wasm_path == wasm_path && p.wasm_bytes
            == wasm_bytes && p.package_dir == package_dir,
        r matches Err(e) ==> (e matches SkillError::Package(m) && m@
            == "signature mismatch for skill.wasm"@),
{
    let trimmed_text = trim_text(signature_text);
    let expected = lowercase_text(trimmed_text.as_str());
    let actual = sha256_hex(wasm_bytes.as_slice());
    package_if_signature_matches(manifest, wasm_path, wasm_bytes, package_dir, &expected, &actual)
}

/// A package whose signature file holds the lowercase hex SHA-256 of its
/// module passes the signature check.
pub proof fn law_digest_signature_verifies(wasm_bytes: Seq<u8>)
    ensures
        lowercased(trimmed(sha256_hex_spec(wasm_bytes))) == sha256_hex_spec(wasm_bytes),
{
    lemma_hex_lower_normalized(sha256(wasm_bytes));
}

} // verus!

use easy_workflow::certificate::{decode_text, Extension, LeafCertificate};
use easy_workflow::identity::{
    classify, classify_decoded, common_name, extract, find_extension, role, CommonName,
    IdentityOutcome, PeerIdentity, Role, OID_ROLE,
};

/// A certificate issued to the subject `O=Easy Workflow, CN=alice`, with a
/// critical basic-constraints extension followed by the role extension, whose
/// value is the five bytes of `admin`.
fn alice_certificate() -> Vec<u8> {
    vec![
        0x30, 0x82, 0x01, 0x57, 0x30, 0x81, 0xfe, 0xa0, 0x03, 0x02, 0x01, 0x02, 0x02, 0x02, 0x10, 0x01,
        0x30, 0x0a, 0x06, 0x08, 0x2a, 0x86, 0x48, 0xce, 0x3d, 0x04, 0x03, 0x02, 0x30, 0x1b, 0x31, 0x19,
        0x30, 0x17, 0x06, 0x03, 0x55, 0x04, 0x03, 0x0c, 0x10, 0x45, 0x61, 0x73, 0x79, 0x20, 0x57, 0x6f,
        0x72, 0x6b, 0x66, 0x6c, 0x6f, 0x77, 0x20, 0x43, 0x41, 0x30, 0x1e, 0x17, 0x0d, 0x32, 0x35, 0x30,
        0x31, 0x30, 0x31, 0x30, 0x30, 0x30, 0x30, 0x30, 0x30, 0x5a, 0x17, 0x0d, 0x33, 0x35, 0x30, 0x31,
        0x30, 0x31, 0x30, 0x30, 0x30, 0x30, 0x30, 0x30, 0x5a, 0x30, 0x28, 0x31, 0x16, 0x30, 0x14, 0x06,
        0x03, 0x55, 0x04, 0x0a, 0x0c, 0x0d, 0x45, 0x61, 0x73, 0x79, 0x20, 0x57, 0x6f, 0x72, 0x6b, 0x66,
        0x6c, 0x6f, 0x77, 0x31, 0x0e, 0x30, 0x0c, 0x06, 0x03, 0x55, 0x04, 0x03, 0x0c, 0x05, 0x61, 0x6c,
        0x69, 0x63, 0x65, 0x30, 0x59, 0x30, 0x13, 0x06, 0x07, 0x2a, 0x86, 0x48, 0xce, 0x3d, 0x02, 0x01,
        0x06, 0x08, 0x2a, 0x86, 0x48, 0xce, 0x3d, 0x03, 0x01, 0x07, 0x03, 0x42, 0x00, 0x04, 0x88, 0x2c,
        0xe8, 0xae, 0xf5, 0x62, 0x7a, 0xb2, 0x81, 0x41, 0x54, 0xc9, 0x67, 0x02, 0xcb, 0x23, 0xd9, 0xeb,
        0x23, 0x37, 0x0e, 0x10, 0x0f, 0x44, 0x72, 0x26, 0xdc, 0x11, 0x42, 0x95, 0xa8, 0xbf, 0xf7, 0x6a,
        0xc0, 0x52, 0x94, 0x7c, 0x15, 0xae, 0xfe, 0xd5, 0x2a, 0x75, 0xcd, 0x41, 0xa7, 0x4e, 0xe4, 0xac,
        0x7c, 0x64, 0x5d, 0xd9, 0x2a, 0xcb, 0x29, 0xe0, 0xee, 0xfd, 0xdf, 0xc4, 0x47, 0x2f, 0xa3, 0x25,
        0x30, 0x23, 0x30, 0x0c, 0x06, 0x03, 0x55, 0x1d, 0x13, 0x01, 0x01, 0xff, 0x04, 0x02, 0x30, 0x00,
        0x30, 0x13, 0x06, 0x0a, 0x2b, 0x06, 0x01, 0x04, 0x01, 0xe0, 0x39, 0x01, 0x01, 0x01, 0x04, 0x05,
        0x61, 0x64, 0x6d, 0x69, 0x6e, 0x30, 0x0a, 0x06, 0x08, 0x2a, 0x86, 0x48, 0xce, 0x3d, 0x04, 0x03,
        0x02, 0x03, 0x48, 0x00, 0x30, 0x45, 0x02, 0x20, 0x52, 0xe3, 0x95, 0xab, 0xdd, 0x09, 0x03, 0x26,
        0x69, 0x22, 0x60, 0x73, 0x09, 0x89, 0x60, 0xed, 0xe5, 0x10, 0xf9, 0xde, 0x7a, 0x36, 0x76, 0xf1,
        0x7c, 0x03, 0x2e, 0x38, 0xd1, 0x05, 0xe4, 0x52, 0x02, 0x21, 0x00, 0xa4, 0xff, 0x65, 0xf6, 0x73,
        0x02, 0x59, 0xe5, 0xc7, 0xf2, 0x15, 0x6b, 0x1c, 0x70, 0xd4, 0xba, 0x6f, 0xca, 0x0d, 0x21, 0x70,
        0x45, 0xcd, 0x3e, 0xf2, 0x80, 0x8c, 0x9e, 0xfd, 0xfa, 0x21, 0x27,
    ]
}

const TAG_UTF8_STRING: u8 = 0x0c;
const TAG_PRINTABLE_STRING: u8 = 0x13;
const TAG_TELETEX_STRING: u8 = 0x14;
const COMMON_NAME: [u64; 4] = [2, 5, 4, 3];
const ORGANIZATION: [u64; 4] = [2, 5, 4, 10];
const ROLE: [u64; 10] = [1, 3, 6, 1, 4, 1, 12345, 1, 1, 1];
const OTHER: [u64; 10] = [1, 3, 6, 1, 4, 1, 12345, 1, 1, 2];

/// One DER element: tag, length, content.
fn element(tag: u8, content: &[u8]) -> Vec<u8> {
    let mut out: Vec<u8> = vec![tag];
    if content.len() < 128 {
        out.push(u8::try_from(content.len()).unwrap());
    } else {
        let length: Vec<u8> = content
            .len()
            .to_be_bytes()
            .iter()
            .copied()
            .skip_while(|b| *b == 0)
            .collect();
        out.push(0x80 | u8::try_from(length.len()).unwrap());
        out.extend_from_slice(&length);
    }
    out.extend_from_slice(content);
    out
}

fn sequence(parts: &[Vec<u8>]) -> Vec<u8> {
    element(0x30, &parts.concat())
}

fn object_identifier(arcs: &[u64]) -> Vec<u8> {
    let mut content: Vec<u8> = vec![u8::try_from(arcs[0] * 40 + arcs[1]).unwrap()];
    for arc in &arcs[2..] {
        let mut groups: Vec<u8> = vec![u8::try_from(arc & 0x7f).unwrap()];
        let mut rest: u64 = arc >> 7;
        while rest > 0 {
            groups.push(0x80 | u8::try_from(rest & 0x7f).unwrap());
            rest >>= 7;
        }
        groups.reverse();
        content.extend_from_slice(&groups);
    }
    element(0x06, &content)
}

/// A distinguished name with one attribute per relative name.
fn name(attributes: &[(&[u64], u8, &[u8])]) -> Vec<u8> {
    let parts: Vec<Vec<u8>> = attributes
        .iter()
        .map(|(kind, tag, text)| {
            element(0x31, &sequence(&[object_identifier(kind), element(*tag, text)]))
        })
        .collect();
    sequence(&parts)
}

fn extension(kind: &[u64], value: &[u8]) -> Vec<u8> {
    sequence(&[object_identifier(kind), element(0x04, value)])
}

/// An unsigned-looking version 3 certificate with the given subject and
/// extensions. Decoding does not check the signature.
fn certificate(subject: &[(&[u64], u8, &[u8])], extensions: &[Vec<u8>]) -> Vec<u8> {
    let algorithm: Vec<u8> =
        sequence(&[object_identifier(&[1, 2, 840, 113549, 1, 1, 11]), element(0x05, &[])]);
    let key_algorithm: Vec<u8> =
        sequence(&[object_identifier(&[1, 2, 840, 113549, 1, 1, 1]), element(0x05, &[])]);
    let mut fields: Vec<Vec<u8>> = vec![
        element(0xa0, &element(0x02, &[2])),
        element(0x02, &[1]),
        algorithm.clone(),
        name(&[(&COMMON_NAME, TAG_UTF8_STRING, b"issuer")]),
        sequence(&[element(0x17, b"250101000000Z"), element(0x17, b"350101000000Z")]),
        name(subject),
        sequence(&[key_algorithm, element(0x03, &[0, 1, 2, 3, 4])]),
    ];
    if !extensions.is_empty() {
        fields.push(element(0xa3, &sequence(extensions)));
    }
    sequence(&[sequence(&fields), algorithm, element(0x03, &[0, 9, 8, 7, 6])])
}

fn identity(common_name: &str, role: &str) -> PeerIdentity {
    PeerIdentity { common_name: common_name.to_string(), role: role.to_string() }
}

fn decoded(common_names: Vec<Option<&str>>, extensions: Vec<(&str, &[u8])>) -> LeafCertificate {
    LeafCertificate {
        common_names: common_names.into_iter().map(|n| n.map(|s| s.to_string())).collect(),
        extensions: extensions
            .into_iter()
            .map(|(oid, value)| Extension { oid: oid.to_string(), value: value.to_vec() })
            .collect(),
    }
}

#[test]
fn leaf_with_name_and_role() {
    let chain: Vec<Vec<u8>> = vec![alice_certificate()];
    assert_eq!(extract(Some(&chain)), identity("alice", "admin"));
}

#[test]
fn built_leaf_with_name_and_role() {
    let leaf: Vec<u8> = certificate(
        &[(&COMMON_NAME, TAG_UTF8_STRING, b"alice")],
        &[extension(&ROLE, b"admin")],
    );
    assert_eq!(extract(Some(&[leaf])), identity("alice", "admin"));
}

#[test]
fn absent_chain() {
    assert_eq!(extract(None), identity("No peer certificates", "Unknown role"));
    assert_eq!(
        classify(None, OID_ROLE),
        IdentityOutcome { common_name: CommonName::NoPeerCertificates, role: Role::UnknownRole }
    );
}

#[test]
fn empty_chain() {
    let chain: Vec<Vec<u8>> = Vec::new();
    assert_eq!(extract(Some(&chain)), identity("No certificate found", "Unknown role"));
    assert_eq!(
        classify(Some(&chain), OID_ROLE),
        IdentityOutcome { common_name: CommonName::NoCertificateFound, role: Role::UnknownRole }
    );
}

#[test]
fn leaf_of_arbitrary_bytes() {
    let failed: PeerIdentity = identity("Failed to parse certificate", "Unknown role");
    let noise: Vec<u8> = vec![0x8f, 0x13, 0xa7, 0x00, 0x5c, 0xe2, 0x41, 0x99, 0x30, 0x07];
    assert_eq!(extract(Some(&[noise])), failed);
    assert_eq!(extract(Some(&[Vec::new()])), failed);
    assert_eq!(extract(Some(&[vec![0x30]])), failed);
    assert_eq!(extract(Some(&[vec![0x30, 0x00]])), failed);
    assert_eq!(extract(Some(&[b"-----BEGIN CERTIFICATE-----".to_vec()])), failed);
}

#[test]
fn truncated_leaf() {
    let whole: Vec<u8> = alice_certificate();
    let failed: PeerIdentity = identity("Failed to parse certificate", "Unknown role");
    for keep in [1usize, 4, 60, 200, whole.len() - 1] {
        assert_eq!(extract(Some(&[whole[..keep].to_vec()])), failed);
    }
    assert_eq!(
        classify(Some(&[whole[..100].to_vec()]), OID_ROLE),
        IdentityOutcome { common_name: CommonName::ParseFailed, role: Role::UnknownRole }
    );
}

#[test]
fn every_prefix_of_a_certificate_is_handled() {
    let whole: Vec<u8> = alice_certificate();
    for keep in 0..whole.len() {
        let got: PeerIdentity = extract(Some(&[whole[..keep].to_vec()]));
        assert_eq!(got, identity("Failed to parse certificate", "Unknown role"));
    }
}

#[test]
fn bytes_after_the_certificate_are_ignored() {
    let mut leaf: Vec<u8> = alice_certificate();
    leaf.extend_from_slice(&[0xde, 0xad, 0xbe, 0xef]);
    assert_eq!(extract(Some(&[leaf])), identity("alice", "admin"));
}

#[test]
fn leaf_without_role_extension() {
    let leaf: Vec<u8> = certificate(&[(&COMMON_NAME, TAG_UTF8_STRING, b"bob")], &[]);
    assert_eq!(extract(Some(&[leaf])), identity("bob", "No role found"));
    let other: Vec<u8> = certificate(
        &[(&COMMON_NAME, TAG_PRINTABLE_STRING, b"bob")],
        &[extension(&OTHER, b"admin")],
    );
    assert_eq!(extract(Some(&[other])), identity("bob", "No role found"));
}

#[test]
fn leaf_without_common_name() {
    let leaf: Vec<u8> = certificate(
        &[(&ORGANIZATION, TAG_UTF8_STRING, b"Easy Workflow")],
        &[extension(&ROLE, b"operator")],
    );
    assert_eq!(extract(Some(&[leaf])), identity("Unknown", "operator"));
    let bare: Vec<u8> = certificate(&[], &[]);
    assert_eq!(extract(Some(&[bare])), identity("Unknown", "No role found"));
}

#[test]
fn common_name_that_is_not_text() {
    let leaf: Vec<u8> = certificate(
        &[(&COMMON_NAME, TAG_TELETEX_STRING, b"alice")],
        &[extension(&ROLE, b"admin")],
    );
    assert_eq!(extract(Some(&[leaf])), identity("Unknown", "admin"));
    let broken: Vec<u8> = certificate(&[(&COMMON_NAME, TAG_UTF8_STRING, &[0x61, 0xff, 0x62])], &[]);
    assert_eq!(extract(Some(&[broken])), identity("Unknown", "No role found"));
}

#[test]
fn first_common_name_decides() {
    let two: Vec<u8> = certificate(
        &[
            (&COMMON_NAME, TAG_UTF8_STRING, b"first"),
            (&ORGANIZATION, TAG_UTF8_STRING, b"org"),
            (&COMMON_NAME, TAG_UTF8_STRING, b"second"),
        ],
        &[],
    );
    assert_eq!(extract(Some(&[two])).common_name, "first");
    let hidden: Vec<u8> = certificate(
        &[
            (&COMMON_NAME, TAG_TELETEX_STRING, b"first"),
            (&COMMON_NAME, TAG_UTF8_STRING, b"second"),
        ],
        &[],
    );
    assert_eq!(extract(Some(&[hidden])).common_name, "Unknown");
}

#[test]
fn role_that_is_not_utf8() {
    let leaf: Vec<u8> = certificate(
        &[(&COMMON_NAME, TAG_UTF8_STRING, b"alice")],
        &[extension(&ROLE, &[0x61, 0x64, 0xc3, 0x28])],
    );
    assert_eq!(extract(Some(&[leaf])), identity("alice", "No role found"));
}

#[test]
fn role_among_other_extensions() {
    let leaf: Vec<u8> = certificate(
        &[(&COMMON_NAME, TAG_UTF8_STRING, b"carol")],
        &[extension(&OTHER, b"guest"), extension(&ROLE, "r\u{f4}le \u{2713}".as_bytes())],
    );
    assert_eq!(extract(Some(&[leaf])), identity("carol", "r\u{f4}le \u{2713}"));
}

#[test]
fn empty_role_is_a_role() {
    let leaf: Vec<u8> =
        certificate(&[(&COMMON_NAME, TAG_UTF8_STRING, b"")], &[extension(&ROLE, b"")]);
    assert_eq!(
        classify(Some(&[leaf]), OID_ROLE),
        IdentityOutcome {
            common_name: CommonName::Present(String::new()),
            role: Role::Present(String::new()),
        }
    );
}

#[test]
fn only_the_leaf_counts() {
    let good: Vec<u8> = alice_certificate();
    let bad: Vec<u8> = vec![1, 2, 3];
    assert_eq!(extract(Some(&[good.clone(), bad.clone()])), identity("alice", "admin"));
    assert_eq!(
        extract(Some(&[bad, good])),
        identity("Failed to parse certificate", "Unknown role")
    );
}

#[test]
fn role_under_another_identifier() {
    let chain: Vec<Vec<u8>> = vec![certificate(
        &[(&COMMON_NAME, TAG_UTF8_STRING, b"dave")],
        &[extension(&OTHER, b"auditor"), extension(&ROLE, b"admin")],
    )];
    let outcome: IdentityOutcome = classify(Some(&chain), "1.3.6.1.4.1.12345.1.1.2");
    assert_eq!(outcome.role, Role::Present("auditor".to_string()));
    assert_eq!(outcome.common_name, CommonName::Present("dave".to_string()));
    assert_eq!(classify(Some(&chain), "1.3.6.1.4.1.12345.1.1").role, Role::NoRoleFound);
}

#[test]
fn role_identifier_is_fixed() {
    assert_eq!(OID_ROLE, "1.3.6.1.4.1.12345.1.1.1");
}

#[test]
fn decoded_certificate_without_decoding() {
    let outcome: IdentityOutcome = classify_decoded(None, OID_ROLE);
    assert_eq!(outcome.common_name, CommonName::ParseFailed);
    assert_eq!(outcome.role, Role::UnknownRole);
    assert_eq!(outcome.to_identity(), identity("Failed to parse certificate", "Unknown role"));
}

#[test]
fn decoded_certificate_first_role_extension_decides() {
    let cert: LeafCertificate = decoded(
        vec![Some("erin")],
        vec![("2.5.29.19", &[0x30, 0x00]), (OID_ROLE, b"admin"), (OID_ROLE, b"guest")],
    );
    assert_eq!(find_extension(&cert, OID_ROLE), Some(1));
    assert_eq!(find_extension(&cert, "2.5.29.19"), Some(0));
    assert_eq!(find_extension(&cert, "2.5.29.15"), None);
    assert_eq!(role(&cert, OID_ROLE), Role::Present("admin".to_string()));
    let shadowed: LeafCertificate =
        decoded(vec![Some("erin")], vec![(OID_ROLE, &[0xff]), (OID_ROLE, b"guest")]);
    assert_eq!(role(&shadowed, OID_ROLE), Role::NoRoleFound);
    assert_eq!(
        classify_decoded(Some(shadowed), OID_ROLE).to_identity(),
        identity("erin", "No role found")
    );
}

#[test]
fn decoded_certificate_common_name() {
    assert_eq!(common_name(&decoded(vec![], vec![])), CommonName::Unknown);
    assert_eq!(common_name(&decoded(vec![None, Some("late")], vec![])), CommonName::Unknown);
    assert_eq!(
        common_name(&decoded(vec![Some("early"), None], vec![])),
        CommonName::Present("early".to_string())
    );
}

#[test]
fn a_name_equal_to_a_fixed_text_stays_a_name() {
    let cert: LeafCertificate = decoded(vec![Some("Unknown")], vec![(OID_ROLE, b"No role found")]);
    let outcome: IdentityOutcome = classify_decoded(Some(cert), OID_ROLE);
    assert_eq!(outcome.common_name, CommonName::Present("Unknown".to_string()));
    assert_ne!(outcome.common_name, CommonName::Unknown);
    assert_eq!(outcome.role, Role::Present("No role found".to_string()));
    assert_ne!(outcome.role, Role::NoRoleFound);
}

#[test]
fn fixed_texts() {
    assert_eq!(CommonName::Present("x".to_string()).to_text(), "x");
    assert_eq!(CommonName::NoPeerCertificates.to_text(), "No peer certificates");
    assert_eq!(CommonName::NoCertificateFound.to_text(), "No certificate found");
    assert_eq!(CommonName::ParseFailed.to_text(), "Failed to parse certificate");
    assert_eq!(CommonName::Unknown.to_text(), "Unknown");
    assert_eq!(Role::Present("y".to_string()).to_text(), "y");
    assert_eq!(Role::UnknownRole.to_text(), "Unknown role");
    assert_eq!(Role::NoRoleFound.to_text(), "No role found");
}

#[test]
fn text_of_bytes() {
    assert_eq!(decode_text(b"admin"), Some("admin".to_string()));
    assert_eq!(decode_text(b""), Some(String::new()));
    assert_eq!(decode_text(&[0xe2, 0x9c, 0x93]), Some("\u{2713}".to_string()));
    assert_eq!(decode_text(&[0xe2, 0x9c]), None);
    assert_eq!(decode_text(&[0xc0, 0xaf]), None);
    assert_eq!(decode_text(&[0xed, 0xa0, 0x80]), None);
    assert_eq!(decode_text(&[0x80]), None);
}

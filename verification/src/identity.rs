//! Derivation of a caller's authorization identity from its certificate
//! chain.
//!
//! The derivation is total: every chain, present or not, decodable or not,
//! maps to an identity. What could not be read is recorded as a distinct
//! outcome, and turned into a fixed text only where an identity is handed
//! out as two strings.

use crate::certificate::{
    decode_certificate, decode_text, decoded_view, utf8_text, x509_decoding, ExtensionView,
    LeafCertificate, LeafCertificateView,
};
use vstd::prelude::*;

verus! {

/// Identifier of the certificate extension that carries the caller's role.
pub const OID_ROLE: &'static str = "1.3.6.1.4.1.12345.1.1.1";

/// The Common Name of a caller, or the reason why there is none.
#[derive(Debug, Clone, PartialEq, Eq)]
pub enum CommonName {
    /// The text of the first Common Name attribute of the subject.
    Present(String),
    /// The connection carried no certificate chain.
    NoPeerCertificates,
    /// The connection carried a chain without any certificate.
    NoCertificateFound,
    /// The leaf certificate did not decode.
    ParseFailed,
    /// The subject has no Common Name, or its first one is not text.
    Unknown,
}

/// Mathematical model of a [`CommonName`].
pub ghost enum CommonNameView {
    Present(Seq<char>),
    NoPeerCertificates,
    NoCertificateFound,
    ParseFailed,
    Unknown,
}

impl CommonNameView {
    /// The text under which the outcome is handed out.
    pub open spec fn text(self) -> Seq<char> {
        match self {
            CommonNameView::Present(name) => name,
            CommonNameView::NoPeerCertificates => "No peer certificates"@,
            CommonNameView::NoCertificateFound => "No certificate found"@,
            CommonNameView::ParseFailed => "Failed to parse certificate"@,
            CommonNameView::Unknown => "Unknown"@,
        }
    }
}

impl View for CommonName {
    type V = CommonNameView;

    open spec fn view(&self) -> CommonNameView {
        match self {
            CommonName::Present(name) => CommonNameView::Present(name@),
            CommonName::NoPeerCertificates => CommonNameView::NoPeerCertificates,
            CommonName::NoCertificateFound => CommonNameView::NoCertificateFound,
            CommonName::ParseFailed => CommonNameView::ParseFailed,
            CommonName::Unknown => CommonNameView::Unknown,
        }
    }
}

impl CommonName {
    /// The text under which the outcome is handed out: the name itself, or
    /// the fixed text that stands for the reason of its absence.
    pub fn to_text(&self) -> (text: String)
        ensures
            text@ == self@.text(),
    {
        match self {
            CommonName::Present(name) => name.clone(),
            CommonName::NoPeerCertificates => "No peer certificates".to_owned(),
            CommonName::NoCertificateFound => "No certificate found".to_owned(),
            CommonName::ParseFailed => "Failed to parse certificate".to_owned(),
            CommonName::Unknown => "Unknown".to_owned(),
        }
    }
}

/// The role of a caller, or the reason why there is none.
#[derive(Debug, Clone, PartialEq, Eq)]
pub enum Role {
    /// The text held by the role extension of the leaf certificate.
    Present(String),
    /// No certificate was decoded, so nothing is known of a role.
    UnknownRole,
    /// The certificate has no role extension, or its value is not UTF-8.
    NoRoleFound,
}

/// Mathematical model of a [`Role`].
pub ghost enum RoleView {
    Present(Seq<char>),
    UnknownRole,
    NoRoleFound,
}

impl RoleView {
    /// The text under which the outcome is handed out.
    pub open spec fn text(self) -> Seq<char> {
        match self {
            RoleView::Present(role) => role,
            RoleView::UnknownRole => "Unknown role"@,
            RoleView::NoRoleFound => "No role found"@,
        }
    }
}

impl View for Role {
    type V = RoleView;

    open spec fn view(&self) -> RoleView {
        match self {
            Role::Present(role) => RoleView::Present(role@),
            Role::UnknownRole => RoleView::UnknownRole,
            Role::NoRoleFound => RoleView::NoRoleFound,
        }
    }
}

impl Role {
    /// The text under which the outcome is handed out: the role itself, or
    /// the fixed text that stands for the reason of its absence.
    pub fn to_text(&self) -> (text: String)
        ensures
            text@ == self@.text(),
    {
        match self {
            Role::Present(role) => role.clone(),
            Role::UnknownRole => "Unknown role".to_owned(),
            Role::NoRoleFound => "No role found".to_owned(),
        }
    }
}

/// An identity as it was derived: a name and a role, each present or absent
/// for a stated reason.
#[derive(Debug, Clone, PartialEq, Eq)]
pub struct IdentityOutcome {
    pub common_name: CommonName,
    pub role: Role,
}

/// Mathematical model of an [`IdentityOutcome`].
pub ghost struct IdentityOutcomeView {
    pub common_name: CommonNameView,
    pub role: RoleView,
}

impl View for IdentityOutcome {
    type V = IdentityOutcomeView;

    open spec fn view(&self) -> IdentityOutcomeView {
        IdentityOutcomeView { common_name: self.common_name@, role: self.role@ }
    }
}

/// The authorization identity of a caller. Both fields always hold a text:
/// a value read from the certificate, or the fixed text of an absence.
#[derive(Debug, Clone, PartialEq, Eq)]
pub struct PeerIdentity {
    pub common_name: String,
    pub role: String,
}

/// Mathematical model of a [`PeerIdentity`].
pub ghost struct PeerIdentityView {
    pub common_name: Seq<char>,
    pub role: Seq<char>,
}

impl View for PeerIdentity {
    type V = PeerIdentityView;

    open spec fn view(&self) -> PeerIdentityView {
        PeerIdentityView { common_name: self.common_name@, role: self.role@ }
    }
}

impl IdentityOutcomeView {
    /// The identity handed out for this outcome.
    pub open spec fn identity(self) -> PeerIdentityView {
        PeerIdentityView { common_name: self.common_name.text(), role: self.role.text() }
    }

    /// Whether name and role agree on how far the derivation got: without a
    /// decoded certificate both are absent for that reason, and with one
    /// neither is.
    pub open spec fn coherent(self) -> bool {
        let undecoded = self.common_name is NoPeerCertificates
            || self.common_name is NoCertificateFound || self.common_name is ParseFailed;
        undecoded <==> self.role is UnknownRole
    }
}

impl IdentityOutcome {
    /// Hands the outcome out as two texts.
    pub fn to_identity(&self) -> (identity: PeerIdentity)
        ensures
            identity@ == self@.identity(),
    {
        PeerIdentity { common_name: self.common_name.to_text(), role: self.role.to_text() }
    }
}

/// The Common Name of a decoded certificate: the text of the first Common
/// Name attribute of its subject.
pub open spec fn common_name_of(cert: LeafCertificateView) -> CommonNameView {
    if cert.common_names.len() > 0 && cert.common_names[0] is Some {
        CommonNameView::Present(cert.common_names[0]->0)
    } else {
        CommonNameView::Unknown
    }
}

/// Whether `at` is the position of the first extension identified by `oid`.
pub open spec fn is_first_extension(extensions: Seq<ExtensionView>, oid: Seq<char>, at: int) -> bool {
    &&& 0 <= at < extensions.len()
    &&& extensions[at].oid == oid
    &&& forall|before: int| 0 <= before < at ==> (#[trigger] extensions[before]).oid != oid
}

/// Whether some extension is identified by `oid`.
pub open spec fn has_extension(extensions: Seq<ExtensionView>, oid: Seq<char>) -> bool {
    exists|at: int| 0 <= at < extensions.len() && (#[trigger] extensions[at]).oid == oid
}

/// The role that a decoded certificate conveys under the extension `oid`:
/// the value of the first such extension, read as UTF-8 text.
pub open spec fn role_of(cert: LeafCertificateView, oid: Seq<char>) -> RoleView {
    if has_extension(cert.extensions, oid) {
        let at = choose|at: int| is_first_extension(cert.extensions, oid, at);
        match utf8_text(cert.extensions[at].value) {
            Some(role) => RoleView::Present(role),
            None => RoleView::NoRoleFound,
        }
    } else {
        RoleView::NoRoleFound
    }
}

/// The identity derived from the outcome of decoding the leaf certificate.
pub open spec fn outcome_of_decoding(
    decoded: Option<LeafCertificateView>,
    oid: Seq<char>,
) -> IdentityOutcomeView {
    match decoded {
        Some(cert) => IdentityOutcomeView {
            common_name: common_name_of(cert),
            role: role_of(cert, oid),
        },
        None => IdentityOutcomeView {
            common_name: CommonNameView::ParseFailed,
            role: RoleView::UnknownRole,
        },
    }
}

/// The identity derived from a certificate chain, leaf first, under the
/// role extension `oid`.
pub open spec fn outcome_of_chain(chain: Option<Seq<Seq<u8>>>, oid: Seq<char>) -> IdentityOutcomeView {
    match chain {
        None => IdentityOutcomeView {
            common_name: CommonNameView::NoPeerCertificates,
            role: RoleView::UnknownRole,
        },
        Some(certs) => if certs.len() == 0 {
            IdentityOutcomeView {
                common_name: CommonNameView::NoCertificateFound,
                role: RoleView::UnknownRole,
            }
        } else {
            outcome_of_decoding(x509_decoding(certs[0]), oid)
        },
    }
}

/// Model of a certificate chain as it is handed in: absent, or the encoded
/// certificates in order.
pub open spec fn chain_view(chain: Option<&[Vec<u8>]>) -> Option<Seq<Seq<u8>>> {
    match chain {
        Some(certs) => Some(Seq::new(certs@.len(), |i: int| certs@[i]@)),
        None => None,
    }
}

/// At most one position is that of the first extension identified by `oid`.
pub proof fn lemma_first_extension_unique(
    extensions: Seq<ExtensionView>,
    oid: Seq<char>,
    at: int,
    other: int,
)
    requires
        is_first_extension(extensions, oid, at),
        is_first_extension(extensions, oid, other),
    ensures
        at == other,
{
    if at < other {
        assert(extensions[at].oid != oid);
    } else if other < at {
        assert(extensions[other].oid != oid);
    }
}

/// Reads the Common Name of a decoded certificate.
pub fn common_name(cert: &LeafCertificate) -> (name: CommonName)
    ensures
        name@ == common_name_of(cert@),
{
    if cert.common_names.len() == 0 {
        CommonName::Unknown
    } else {
        match &cert.common_names[0] {
            Some(text) => CommonName::Present(text.clone()),
            None => CommonName::Unknown,
        }
    }
}

/// Finds the first extension identified by `oid`.
pub fn find_extension(cert: &LeafCertificate, oid: &str) -> (found: Option<usize>)
    ensures
        found is Some <==> has_extension(cert@.extensions, oid@),
        found matches Some(at) ==> is_first_extension(cert@.extensions, oid@, at as int),
{
    let wanted = oid.to_owned();
    let mut at: usize = 0;
    while at < cert.extensions.len()
        invariant
            at <= cert.extensions.len(),
            wanted@ == oid@,
            forall|before: int| 0 <= before < at ==> (#[trigger] cert@.extensions[before]).oid != oid@,
        decreases cert.extensions.len() - at,
    {
        if cert.extensions[at].oid == wanted {
            assert(cert@.extensions[at as int].oid == oid@);
            return Some(at);
        }
        at += 1;
    }
    None
}

/// Reads the role that a decoded certificate conveys under the extension
/// `oid`.
pub fn role(cert: &LeafCertificate, oid: &str) -> (role: Role)
    ensures
        role@ == role_of(cert@, oid@),
{
    match find_extension(cert, oid) {
        Some(at) => {
            proof {
                let chosen = choose|c: int| is_first_extension(cert@.extensions, oid@, c);
                lemma_first_extension_unique(cert@.extensions, oid@, at as int, chosen);
            }
            match decode_text(cert.extensions[at].value.as_slice()) {
                Some(text) => Role::Present(text),
                None => Role::NoRoleFound,
            }
        },
        None => Role::NoRoleFound,
    }
}

/// Derives the identity from the outcome of decoding the leaf certificate
/// (`None` where it did not decode), under the role extension `oid`.
pub fn classify_decoded(decoded: Option<LeafCertificate>, oid: &str) -> (outcome: IdentityOutcome)
    ensures
        outcome@ == outcome_of_decoding(decoded_view(decoded), oid@),
{
    match decoded {
        Some(cert) => IdentityOutcome { common_name: common_name(&cert), role: role(&cert, oid) },
        None => IdentityOutcome { common_name: CommonName::ParseFailed, role: Role::UnknownRole },
    }
}

/// Derives the identity of a caller from its certificate chain, leaf first,
/// under the role extension `oid`. Never fails: what cannot be read is an
/// outcome of its own.
pub fn classify(chain: Option<&[Vec<u8>]>, oid: &str) -> (outcome: IdentityOutcome)
    ensures
        outcome@ == outcome_of_chain(chain_view(chain), oid@),
{
    match chain {
        None => IdentityOutcome {
            common_name: CommonName::NoPeerCertificates,
            role: Role::UnknownRole,
        },
        Some(certs) => {
            if certs.len() == 0 {
                IdentityOutcome {
                    common_name: CommonName::NoCertificateFound,
                    role: Role::UnknownRole,
                }
            } else {
                classify_decoded(decode_certificate(certs[0].as_slice()), oid)
            }
        },
    }
}

/// Derives the identity of a caller from its certificate chain, leaf first,
/// with the role read from the extension [`OID_ROLE`].
pub fn extract(chain: Option<&[Vec<u8>]>) -> (identity: PeerIdentity)
    ensures
        identity@ == outcome_of_chain(chain_view(chain), OID_ROLE@).identity(),
{
    classify(chain, OID_ROLE).to_identity()
}

/// Whatever the chain, name and role agree on how far the derivation got:
/// the role is absent for want of a certificate exactly when the name is.
pub proof fn law_outcome_coherent(chain: Option<Seq<Seq<u8>>>, oid: Seq<char>)
    ensures
        outcome_of_chain(chain, oid).coherent(),
{
}

/// Only the leaf of a chain bears on the identity: two chains that start
/// with the same certificate give the same one.
pub proof fn law_only_leaf_counts(chain: Seq<Seq<u8>>, other: Seq<Seq<u8>>, oid: Seq<char>)
    requires
        chain.len() > 0,
        other.len() > 0,
        chain[0] == other[0],
    ensures
        outcome_of_chain(Some(chain), oid) == outcome_of_chain(Some(other), oid),
{
}

/// A leaf that does not decode fails no call: the identity then holds the
/// fixed texts of a failed parse, whatever the bytes are.
pub proof fn law_undecodable_leaf(chain: Seq<Seq<u8>>, oid: Seq<char>)
    requires
        chain.len() > 0,
        x509_decoding(chain[0]) is None,
    ensures
        outcome_of_chain(Some(chain), oid).identity() == (PeerIdentityView {
            common_name: "Failed to parse certificate"@,
            role: "Unknown role"@,
        }),
{
}

/// A certificate without the role extension conveys no role, and its Common
/// Name is read all the same: the name does not depend on the extensions.
pub proof fn law_missing_role_extension(cert: LeafCertificateView, oid: Seq<char>)
    requires
        !has_extension(cert.extensions, oid),
    ensures
        outcome_of_decoding(Some(cert), oid).role == RoleView::NoRoleFound,
        outcome_of_decoding(Some(cert), oid).identity().role == "No role found"@,
        outcome_of_decoding(Some(cert), oid).common_name == common_name_of(
            LeafCertificateView { common_names: cert.common_names, extensions: Seq::empty() },
        ),
{
}

/// A certificate whose first Common Name is a text and whose first role
/// extension holds UTF-8 gives that name and the text of that value.
pub proof fn law_name_and_role_present(
    cert: LeafCertificateView,
    oid: Seq<char>,
    name: Seq<char>,
    at: int,
)
    requires
        cert.common_names.len() > 0,
        cert.common_names[0] == Some(name),
        is_first_extension(cert.extensions, oid, at),
        vstd::utf8::valid_utf8(cert.extensions[at].value),
    ensures
        outcome_of_decoding(Some(cert), oid).identity() == (PeerIdentityView {
            common_name: name,
            role: vstd::utf8::decode_utf8(cert.extensions[at].value),
        }),
{
    let chosen = choose|c: int| is_first_extension(cert.extensions, oid, c);
    lemma_first_extension_unique(cert.extensions, oid, at, chosen);
}

/// A role extension whose value is not UTF-8 conveys no role, also where a
/// later extension of the same identifier holds one.
pub proof fn law_undecodable_role(cert: LeafCertificateView, oid: Seq<char>, at: int)
    requires
        is_first_extension(cert.extensions, oid, at),
        !vstd::utf8::valid_utf8(cert.extensions[at].value),
    ensures
        role_of(cert, oid) == RoleView::NoRoleFound,
{
    let chosen = choose|c: int| is_first_extension(cert.extensions, oid, c);
    lemma_first_extension_unique(cert.extensions, oid, at, chosen);
}

} // verus!

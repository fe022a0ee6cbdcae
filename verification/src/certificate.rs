//! A decoded leaf certificate, reduced to the attributes the gateway reads.

use vstd::prelude::*;
use vstd::string::StringSliceAdditionalSpecFns;
use vstd::utf8::*;

verus! {

/// One certificate extension: its identifier in dotted-decimal notation and
/// the raw content of its value.
#[derive(Debug, Clone, PartialEq, Eq)]
pub struct Extension {
    pub oid: String,
    pub value: Vec<u8>,
}

/// Mathematical model of an [`Extension`].
pub ghost struct ExtensionView {
    pub oid: Seq<char>,
    pub value: Seq<u8>,
}

impl View for Extension {
    type V = ExtensionView;

    open spec fn view(&self) -> ExtensionView {
        ExtensionView { oid: self.oid@, value: self.value@ }
    }
}

/// What the gateway reads from a decoded X.509 certificate.
///
/// `common_names` holds one entry per Common Name attribute of the subject,
/// in the order of the certificate: the attribute's text, or `None` where the
/// attribute does not hold decodable text. `extensions` holds the
/// certificate's extensions in order.
#[derive(Debug, Clone, PartialEq, Eq)]
pub struct LeafCertificate {
    pub common_names: Vec<Option<String>>,
    pub extensions: Vec<Extension>,
}

/// Mathematical model of a [`LeafCertificate`].
pub ghost struct LeafCertificateView {
    pub common_names: Seq<Option<Seq<char>>>,
    pub extensions: Seq<ExtensionView>,
}

/// Model of an optional text.
pub open spec fn text_view(text: Option<String>) -> Option<Seq<char>> {
    match text {
        Some(s) => Some(s@),
        None => None,
    }
}

impl View for LeafCertificate {
    type V = LeafCertificateView;

    open spec fn view(&self) -> LeafCertificateView {
        LeafCertificateView {
            common_names: Seq::new(
                self.common_names@.len(),
                |i: int| text_view(self.common_names@[i]),
            ),
            extensions: Seq::new(self.extensions@.len(), |i: int| self.extensions@[i]@),
        }
    }
}

/// Model of the outcome of a decoding attempt.
pub open spec fn decoded_view(decoded: Option<LeafCertificate>) -> Option<LeafCertificateView> {
    match decoded {
        Some(cert) => Some(cert@),
        None => None,
    }
}

/// The outcome of decoding `der` as a DER-encoded X.509 certificate: the
/// attributes of the certificate, or `None` where the bytes do not decode.
pub uninterp spec fn x509_decoding(der: Seq<u8>) -> Option<LeafCertificateView>;

/// Decodes a DER-encoded X.509 certificate.
///
/// Trusted: calls `x509_parser::parse_x509_certificate` and, where it
/// succeeds, copies out of the parsed certificate the text of each Common
/// Name attribute of the subject (`X509Name::iter_common_name`,
/// `AttributeTypeAndValue::as_str`) and the identifier and raw value of each
/// extension (`TbsCertificate::extensions`, the `Display` form of `Oid`).
/// The contract claims only that the outcome is a function of the bytes,
/// which it names [`x509_decoding`]. Bytes after the certificate are ignored
/// by the parser.
#[verifier::external_body]
pub(crate) fn decode_certificate(der: &[u8]) -> (decoded: Option<LeafCertificate>)
    ensures
        decoded_view(decoded) == x509_decoding(der@),
{
    match x509_parser::parse_x509_certificate(der) {
        Ok((_, cert)) => Some(LeafCertificate {
            common_names: cert.subject().iter_common_name()
                .map(|attr| attr.as_str().ok().map(|s| s.to_string())).collect(),
            extensions: cert.extensions().iter()
                .map(|ext| Extension { oid: ext.oid.to_string(), value: ext.value.to_vec() })
                .collect(),
        }),
        Err(_) => None,
    }
}

/// The error of `core::str::from_utf8`, carried through and never read.
#[verifier::external_type_specification]
#[verifier::external_body]
pub struct ExUtf8Error(core::str::Utf8Error);

/// `core::str::from_utf8` succeeds exactly on well-formed UTF-8, and the text
/// it returns is encoded by the bytes it was given.
pub assume_specification[ core::str::from_utf8 ](bytes: &[u8]) -> (text: Result<
    &str,
    core::str::Utf8Error,
>)
    ensures
        text is Ok <==> valid_utf8(bytes@),
        text matches Ok(s) ==> s.spec_bytes() == bytes@,
;

/// The text that `bytes` encode in UTF-8, or `None` where they are not
/// well-formed UTF-8.
pub open spec fn utf8_text(bytes: Seq<u8>) -> Option<Seq<char>> {
    if valid_utf8(bytes) {
        Some(decode_utf8(bytes))
    } else {
        None
    }
}

/// Decodes `bytes` as UTF-8 text.
pub fn decode_text(bytes: &[u8]) -> (text: Option<String>)
    ensures
        text_view(text) == utf8_text(bytes@),
{
    match core::str::from_utf8(bytes) {
        Ok(s) => {
            proof {
                encode_utf8_decode_utf8(s@);
            }
            Some(s.to_owned())
        },
        Err(_) => None,
    }
}

} // verus!

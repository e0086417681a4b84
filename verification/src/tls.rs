//! The TLS library: its types that are carried through, and what it decides.

use rustls::client::verify_server_name;
use rustls::pki_types::{CertificateDer, IpAddr, ServerName};
use rustls::server::ParsedCertificate;
use vstd::prelude::*;

verus! {

/// The cryptography that a TLS endpoint uses.
#[verifier::external_type_specification]
#[verifier::external_body]
pub struct ExCryptoProvider(rustls::crypto::CryptoProvider);

/// An error of the TLS library.
#[verifier::external_type_specification]
#[verifier::external_body]
pub struct ExTlsError(rustls::Error);

/// How a client names a server.
#[derive(Debug, PartialEq, Eq)]
pub enum HostName {
    /// By a DNS name.
    Dns(String),
    /// By the octets of an IP address.
    Address(Vec<u8>),
}

/// The name of a server as plain values.
#[verifier::ext_equal]
pub enum HostNameView {
    Dns(Seq<char>),
    Address(Seq<u8>),
}

impl View for HostName {
    type V = HostNameView;

    open spec fn view(&self) -> HostNameView {
        match self {
            HostName::Dns(name) => HostNameView::Dns(name@),
            HostName::Address(octets) => HostNameView::Address(octets@),
        }
    }
}

/// The view of a server name that may be missing.
pub open spec fn optional_host_name(name: Option<HostName>) -> Option<HostNameView> {
    match name {
        Some(name) => Some(name@),
        None => None,
    }
}

/// Whether a character is a decimal digit.
pub open spec fn is_digit(c: char) -> bool {
    '0' as u32 <= c as u32 <= '9' as u32
}

/// Whether a character may stand anywhere in a label of a DNS name.
pub open spec fn is_label_char(c: char) -> bool {
    ||| is_digit(c)
    ||| 'a' as u32 <= c as u32 <= 'z' as u32
    ||| 'A' as u32 <= c as u32 <= 'Z' as u32
    ||| c == '_'
}

/// Whether a name ends in a dot, and so stands for itself under every search domain.
pub open spec fn is_absolute(text: Seq<char>) -> bool {
    text.len() > 0 && text.last() == '.'
}

/// A name without the dot at its end.
pub open spec fn relative(text: Seq<char>) -> Seq<char> {
    if is_absolute(text) {
        text.drop_last()
    } else {
        text
    }
}

/// Whether a text is a DNS name: labels with a dot between them, and perhaps one at the end, of
/// at most 253 characters together. A label has 1 to 63 letters, digits, underscores and hyphens,
/// with no hyphen at either end, and the last label is not a number.
pub open spec fn is_dns_name(text: Seq<char>) -> bool {
    let labels = relative(text);
    &&& labels.len() > 0
    &&& text.len() <= 253
    &&& forall|i: int|
        0 <= i < labels.len() ==> {
            ||| is_label_char(#[trigger] labels[i])
            ||| {
                &&& labels[i] == '-' || labels[i] == '.'
                &&& 0 < i < labels.len() - 1
                &&& labels[i] == '-' ==> labels[i - 1] != '.' && labels[i + 1] != '.'
                &&& labels[i] == '.' ==> labels[i + 1] != '.'
            }
        }
    &&& forall|i: int|
        0 <= i < labels.len() - 63 ==> #[trigger] labels.subrange(i, i + 64).contains('.')
    &&& exists|i: int|
        {
            &&& 0 <= i < labels.len()
            &&& !is_digit(#[trigger] labels[i])
            &&& !labels.skip(i).contains('.')
        }
}

/// The octets of the IP address that `text` is, if it is one.
pub uninterp spec fn ip_octets(text: Seq<char>) -> Option<Seq<u8>>;

/// The server that `text` names, if it names one, where `address` is the address that it is.
pub open spec fn dns_name_or(text: Seq<char>, address: Option<Seq<u8>>) -> Option<HostNameView> {
    if is_dns_name(text) {
        Some(HostNameView::Dns(text))
    } else {
        match address {
            Some(octets) => Some(HostNameView::Address(octets)),
            None => None,
        }
    }
}

/// The server that `text` names, if it names one.
pub open spec fn host_name(text: Seq<char>) -> Option<HostNameView> {
    dns_name_or(text, ip_octets(text))
}

/// `rustls::pki_types::ServerName::try_from`, with the name or the octets taken over. Claimed of
/// it: a DNS name is kept as it is; whether another text is an IP address, and which, is a
/// function of the text; and nothing else is a server name.
#[verifier::external_body]
pub(crate) fn read_host_name(text: &str) -> (name: Option<HostName>)
    ensures
        optional_host_name(name) == dns_name_or(text@, ip_octets(text@)),
{
    match ServerName::try_from(text).ok()? {
        ServerName::DnsName(name) => Some(HostName::Dns(name.as_ref().to_owned())),
        ServerName::IpAddress(IpAddr::V4(ip)) => Some(HostName::Address(ip.as_ref().to_vec())),
        ServerName::IpAddress(IpAddr::V6(ip)) => Some(HostName::Address(ip.as_ref().to_vec())),
        _ => None,
    }
}

/// A character, in lower case if it is an ASCII letter.
pub open spec fn lower_case(c: char) -> char {
    if 'A' as u32 <= c as u32 <= 'Z' as u32 {
        (c as u32 + 32) as char
    } else {
        c
    }
}

/// Whether two texts are the same but for the case of ASCII letters.
pub open spec fn same_ignoring_case(a: Seq<char>, b: Seq<char>) -> bool {
    a.len() == b.len() && forall|i: int|
        0 <= i < a.len() ==> lower_case(#[trigger] a[i]) == lower_case(b[i])
}

/// Whether a text is a wildcard: an asterisk in the place of one label, before a DNS name of at
/// least two.
pub open spec fn is_wildcard(text: Seq<char>) -> bool {
    &&& 2 < text.len() <= 253
    &&& text[0] == '*'
    &&& text[1] == '.'
    &&& is_dns_name(text.skip(2))
    &&& !is_absolute(text.skip(2))
    &&& text.skip(2).contains('.')
}

/// Whether a DNS name consists of one label before `rest`, but for the case of ASCII letters.
pub open spec fn is_one_label_before(name: Seq<char>, rest: Seq<char>) -> bool {
    exists|n: int|
        {
            &&& 0 < n < name.len()
            &&& #[trigger] name[n] == '.'
            &&& !name.take(n).contains('.')
            &&& same_ignoring_case(name.skip(n + 1), rest)
        }
}

/// Whether a certificate whose only alternative name is made of `subject` is for the server that a
/// client asked for. A subject that is an address is for that address. A DNS name is for itself,
/// and a wildcard for the names that it stands for. Any other subject, and one that ends in a
/// dot, is for no server.
pub open spec fn covers(subject: Seq<char>, asked: HostNameView) -> bool {
    match asked {
        HostNameView::Address(_) => host_name(subject) == Some(asked),
        HostNameView::Dns(name) => if is_dns_name(subject) {
            !is_absolute(subject) && same_ignoring_case(subject, relative(name))
        } else {
            is_wildcard(subject) && is_one_label_before(relative(name), subject.skip(2))
        },
    }
}

/// What the TLS library says to the certificate in `der` for the server that `name` names.
pub uninterp spec fn server_name_verdict(der: Seq<u8>, name: Seq<char>) -> Result<
    (),
    rustls::Error,
>;

/// `rustls::client::verify_server_name`, on the certificate that `ParsedCertificate::try_from`
/// makes of `der` and the server name in `name`. Claimed of it: the result, with the error in it,
/// is a function of the bytes and the name.
#[verifier::external_body]
pub(crate) fn check_server_name(der: &[u8], name: &str) -> (verdict: Result<(), rustls::Error>)
    requires
        host_name(name@) is Some,
    ensures
        verdict == server_name_verdict(der@, name@),
{
    let der = CertificateDer::from(der);
    let certificate = ParsedCertificate::try_from(&der)?;
    let name = ServerName::try_from(name).map_err(|_| rustls::Error::UnsupportedNameType)?;
    verify_server_name(&certificate, &name)
}

} // verus!

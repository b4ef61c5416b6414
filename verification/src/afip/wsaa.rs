//! WSAA — Web Service de Autenticación y Autorización.
//!
//! Flow: build a Ticket de Requerimiento de Acceso (TRA), sign it as a PKCS#7 /
//! CMS message with the ARCA-issued certificate, send it to `loginCms`, and
//! receive a `token` + `sign` pair valid for ~12h. The pair is cached and
//! reused until it is close to expiring.
use base64::Engine;
use vstd::prelude::*;

use crate::afip::cert::pkey_public;
use crate::afip::error::AfipError;
use crate::afip::wsfe::{opt_seq, reply_nodes};
use crate::afip::xml::{check_soap_fault, fault_message, first_text, first_text_in, has_element_in, parsed_xml};
use crate::text::{decimal, push_decimal, push_i64, signed_decimal, string_of};

verus! {

/// Access credentials returned by WSAA.
#[derive(Debug)]
pub struct Credentials {
    pub token: String,
    pub sign: String,
    /// RFC 3339 expiration timestamp as returned by ARCA.
    pub expiration: String,
    /// Service the credentials are scoped to (e.g. `wsfe`).
    pub service: String,
}

// ---------------------------------------------------------------------------
// Validity
// ---------------------------------------------------------------------------

/// The instant (seconds since the Unix epoch, nanoseconds) that an RFC 3339
/// timestamp denotes, `None` when it is not RFC 3339.
pub uninterp spec fn rfc3339_instant(s: Seq<char>) -> Option<(i64, u32)>;

/// `chrono::DateTime::parse_from_rfc3339`, read as the instant it denotes
/// (`timestamp`, `timestamp_subsec_nanos`). The contract names the result:
/// the same text always gives the same instant; which instant is left to
/// chrono.
#[verifier::external_body]
fn parse_rfc3339(s: &str) -> (r: Option<(i64, u32)>)
    ensures
        r == rfc3339_instant(s@),
{
    chrono::DateTime::parse_from_rfc3339(s).ok().map(|d| (d.timestamp(), d.timestamp_subsec_nanos()))
}

/// Instant `a` is later than instant `b` (seconds, then nanoseconds).
pub open spec fn later(a: (int, int), b: (int, int)) -> bool {
    a.0 > b.0 || (a.0 == b.0 && a.1 > b.1)
}

/// The credentials serve `service` and, at instant `now`, expire more than
/// five minutes later.
pub open spec fn valid_at_spec(c: Credentials, service: Seq<char>, now: (i64, u32)) -> bool {
    c.service@ == service && match rfc3339_instant(c.expiration@) {
        Some(exp) => later((exp.0 - 300, exp.1 as int), (now.0 as int, now.1 as int)),
        None => false,
    }
}

impl Credentials {
    /// Whether the credentials are still usable at `now` with a safety margin
    /// (renewed within 5 minutes of expiry).
    pub fn valid_at(&self, service: &str, now: (i64, u32)) -> (r: bool)
        ensures
            r == valid_at_spec(*self, service@, now),
    {
        if !crate::text::str_eq(self.service.as_str(), service) {
            return false;
        }
        match parse_rfc3339(self.expiration.as_str()) {
            Some((secs, nanos)) => {
                let limit = secs as i128 - 300;
                limit > now.0 as i128 || (limit == now.0 as i128 && nanos > now.1)
            },
            None => false,
        }
    }
}

/// Credentials good at some instant are good at every earlier one: a
/// credential check never turns from invalid to valid as time passes.
pub proof fn law_validity_only_expires(c: Credentials, service: Seq<char>, now: (i64, u32), earlier: (i64, u32))
    requires
        valid_at_spec(c, service, now),
        !later((earlier.0 as int, earlier.1 as int), (now.0 as int, now.1 as int)),
    ensures
        valid_at_spec(c, service, earlier),
{
}

/// Credentials scoped to one service are never used for another.
pub proof fn law_validity_needs_service(c: Credentials, service: Seq<char>, now: (i64, u32))
    requires
        c.service@ != service,
    ensures
        !valid_at_spec(c, service, now),
{
}

// ---------------------------------------------------------------------------
// Login ticket request
// ---------------------------------------------------------------------------

/// The largest instant chrono represents (end of year 262142, UTC).
pub const MAX_INSTANT: i64 = 8_210_266_876_799;

/// The start of the second day of chrono's first year (-262143, UTC): from
/// there on, the time in UTC−03:00 is still within chrono's range.
pub const MIN_INSTANT: i64 = -8_334_601_228_800;

/// The time format of the login ticket: no fractional seconds (WSAA rejects
/// them), with the UTC offset.
pub const TRA_TIME_FORMAT: &'static str = "%Y-%m-%dT%H:%M:%S%:z";

/// The format of a date as the number WSFE takes: `YYYYMMDD`.
pub const DATE_NUMBER_FORMAT: &'static str = "%Y%m%d";

/// Argentina's time is UTC−03:00 all year (no daylight saving): three
/// hours west of UTC, in seconds.
pub const AR_UTC_OFFSET_WEST: i32 = 3 * 3600;

/// The text of instant `secs` in the time `west_secs` seconds west of UTC,
/// in the chrono `pattern`.
pub uninterp spec fn local_time_text(secs: i64, west_secs: i32, pattern: Seq<char>) -> Seq<char>;

/// `chrono::DateTime::from_timestamp(secs, 0)` in the offset
/// `FixedOffset::west_opt(west_secs)`, formatted with `pattern`. The contract
/// names the result; the text is left to chrono. `requires` keeps `secs`
/// within chrono's range, the offset west of UTC by less than a day (the
/// range `west_opt` accepts, and one that keeps the local time in chrono's
/// range) and `pattern` to the ticket's time or the date number, for which
/// formatting cannot fail. chrono documents each field of those formats with
/// a fixed width but the year, which has at most six digits and a sign: the
/// text has at most 28 characters.
#[verifier::external_body]
pub(crate) fn format_local_time(secs: i64, west_secs: i32, pattern: &str) -> (r: String)
    requires
        MIN_INSTANT <= secs <= MAX_INSTANT,
        0 <= west_secs < 86_400,
        pattern@ == TRA_TIME_FORMAT@ || pattern@ == DATE_NUMBER_FORMAT@,
    ensures
        r@ == local_time_text(secs, west_secs, pattern@),
        r@.len() <= 28,
{
    let offset = chrono::FixedOffset::west_opt(west_secs).expect("offset within a day");
    let t = chrono::DateTime::from_timestamp(secs, 0).expect("timestamp in range");
    t.with_timezone(&offset).format(pattern).to_string()
}

/// The login ticket up to the service name: identified by `now`, valid from
/// ten minutes before to ten minutes after, in Argentina's time.
pub open spec fn tra_head(now: i64) -> Seq<char> {
    "<?xml version=\"1.0\" encoding=\"UTF-8\"?>\n<loginTicketRequest version=\"1.0\">\n  <header>\n    <uniqueId>"@
        + signed_decimal(now as int)
        + "</uniqueId>\n    <generationTime>"@
        + local_time_text((now - 600) as i64, AR_UTC_OFFSET_WEST, TRA_TIME_FORMAT@)
        + "</generationTime>\n    <expirationTime>"@
        + local_time_text((now + 600) as i64, AR_UTC_OFFSET_WEST, TRA_TIME_FORMAT@)
        + "</expirationTime>\n  </header>\n  <service>"@
}

/// The login ticket after the service name.
pub open spec fn tra_tail() -> Seq<char> {
    "</service>\n</loginTicketRequest>"@
}

/// The login ticket request for `service` made at instant `now`.
pub open spec fn tra_doc(service: Seq<char>, now: i64) -> Seq<char> {
    tra_head(now) + service + tra_tail()
}

/// An upper bound on the UTF-8 bytes of a login ticket besides the service
/// name: its fixed text, identifier and two times (at most 319 characters),
/// each character counted at the four bytes UTF-8 may take.
pub const TICKET_OVERHEAD: usize = 1276;

/// Build the TRA XML for `service` at instant `now` (seconds since the Unix
/// epoch).
pub fn build_tra_at(service: &str, now: i64) -> (r: String)
    requires
        MIN_INSTANT + 600 <= now <= MAX_INSTANT - 600,
    ensures
        r@ == tra_doc(service@, now),
        vstd::utf8::encode_utf8(r@).len() <= vstd::utf8::encode_utf8(service@).len()
            + TICKET_OVERHEAD,
{
    let gen = format_local_time(now - 600, AR_UTC_OFFSET_WEST, TRA_TIME_FORMAT);
    let exp = format_local_time(now + 600, AR_UTC_OFFSET_WEST, TRA_TIME_FORMAT);
    let mut out = string_of("<?xml version=\"1.0\" encoding=\"UTF-8\"?>\n<loginTicketRequest version=\"1.0\">\n  <header>\n    <uniqueId>");
    push_i64(&mut out, now);
    out.append("</uniqueId>\n    <generationTime>");
    out.append(gen.as_str());
    out.append("</generationTime>\n    <expirationTime>");
    out.append(exp.as_str());
    out.append("</expirationTime>\n  </header>\n  <service>");
    out.append(service);
    out.append("</service>\n</loginTicketRequest>");
    proof {
        reveal_strlit("<?xml version=\"1.0\" encoding=\"UTF-8\"?>\n<loginTicketRequest version=\"1.0\">\n  <header>\n    <uniqueId>");
        reveal_strlit("</uniqueId>\n    <generationTime>");
        reveal_strlit("</generationTime>\n    <expirationTime>");
        reveal_strlit("</expirationTime>\n  </header>\n  <service>");
        reveal_strlit("</service>\n</loginTicketRequest>");
        if now < 0 {
            crate::text::lemma_decimal_u64_len((-now) as u64);
        } else {
            crate::text::lemma_decimal_u64_len(now as u64);
        }
        if now < 0 {
            assert(((-now) as u64) as nat == (-now) as nat);
        }
        assert(signed_decimal(now as int).len() <= 21);
        assert(gen@.len() <= 28 && exp@.len() <= 28);
        let head = tra_head(now);
        let tail = tra_tail();
        assert(head.len() + tail.len() <= 319);
        crate::text::lemma_utf8_concat(head + service@, tail);
        crate::text::lemma_utf8_concat(head, service@);
        crate::text::lemma_utf8_len_bound(head);
        crate::text::lemma_utf8_len_bound(tail);
        assert(out@ == head + service@ + tail);
    }
    out
}

/// The SOAP envelope for `loginCms`.
pub open spec fn login_cms_doc(cms: Seq<char>) -> Seq<char> {
    "<?xml version=\"1.0\" encoding=\"utf-8\"?>\n<soapenv:Envelope xmlns:soapenv=\"http://schemas.xmlsoap.org/soap/envelope/\" xmlns:wsaa=\"http://wsaa.view.sua.dvadac.desein.afip.gov\">\n  <soapenv:Header/>\n  <soapenv:Body>\n    <wsaa:loginCms>\n      <wsaa:in0>"@
        + cms
        + "</wsaa:in0>\n    </wsaa:loginCms>\n  </soapenv:Body>\n</soapenv:Envelope>"@
}

/// SOAP envelope for `loginCms`.
pub fn login_cms_envelope(cms_base64: &str) -> (r: String)
    ensures
        r@ == login_cms_doc(cms_base64@),
{
    let mut out = string_of("<?xml version=\"1.0\" encoding=\"utf-8\"?>\n<soapenv:Envelope xmlns:soapenv=\"http://schemas.xmlsoap.org/soap/envelope/\" xmlns:wsaa=\"http://wsaa.view.sua.dvadac.desein.afip.gov\">\n  <soapenv:Header/>\n  <soapenv:Body>\n    <wsaa:loginCms>\n      <wsaa:in0>");
    out.append(cms_base64);
    out.append("</wsaa:in0>\n    </wsaa:loginCms>\n  </soapenv:Body>\n</soapenv:Envelope>");
    out
}

// ---------------------------------------------------------------------------
// Signing the ticket
// ---------------------------------------------------------------------------

#[verifier::external_type_specification]
#[verifier::external_body]
pub struct ExX509(openssl::x509::X509);

#[verifier::external_type_specification]
#[verifier::external_body]
#[verifier::reject_recursive_types(T)]
pub struct ExPKey<T>(openssl::pkey::PKey<T>);

#[verifier::external_type_specification]
#[verifier::external_body]
pub struct ExPrivate(openssl::pkey::Private);

/// Whether `pem` holds a PEM certificate that OpenSSL reads (with the right
/// passphrase, should the block be encrypted).
pub uninterp spec fn pem_certificate_reads(pem: Seq<u8>) -> bool;

/// Whether `pem` holds a PEM private key that OpenSSL reads (with the right
/// passphrase, should the key be encrypted).
pub uninterp spec fn pem_private_key_reads(pem: Seq<u8>) -> bool;

/// The DER encoding of a certificate.
pub uninterp spec fn x509_der(c: openssl::x509::X509) -> Seq<u8>;

/// The DER encoding of the certificate that a PEM holds; `None` when it
/// holds none.
pub uninterp spec fn pem_certificate_der(pem: Seq<u8>) -> Option<Seq<u8>>;

/// The public half (DER SubjectPublicKeyInfo) of the private key that a PEM
/// holds; `None` when it holds none.
pub uninterp spec fn pem_private_key_public(pem: Seq<u8>) -> Option<Seq<u8>>;

/// The signer of DER bytes of a PKCS#7 SignedData with one signer: the DER
/// of the certificate it names and the public half of the key that made its
/// signature; `None` when the bytes are not one.
pub uninterp spec fn pkcs7_signer(der: Seq<u8>) -> Option<(Seq<u8>, Seq<u8>)>;

/// The content that DER bytes of a PKCS#7 SignedData carry; `None` when the
/// bytes are not one or carry no content (a detached signature).
pub uninterp spec fn pkcs7_signed_content(der: Seq<u8>) -> Option<Seq<u8>>;

/// The character of the standard base64 alphabet (RFC 4648) for a 6-bit
/// value.
pub open spec fn base64_digit(v: int) -> char {
    if v < 26 {
        ('A' as int + v) as char
    } else if v < 52 {
        ('a' as int + v - 26) as char
    } else if v < 62 {
        ('0' as int + v - 52) as char
    } else if v == 62 {
        '+'
    } else {
        '/'
    }
}

/// The standard base64 encoding (RFC 4648, with `=` padding) of `bytes`:
/// each group of three bytes becomes four characters of six bits each; a
/// final group of two or one bytes becomes three or two characters and one
/// or two `=`.
pub open spec fn base64_standard(bytes: Seq<u8>) -> Seq<char>
    decreases bytes.len(),
{
    if bytes.len() == 0 {
        seq![]
    } else if bytes.len() == 1 {
        let b0 = bytes[0] as int;
        seq![base64_digit(b0 / 4), base64_digit((b0 % 4) * 16), '=', '=']
    } else if bytes.len() == 2 {
        let b0 = bytes[0] as int;
        let b1 = bytes[1] as int;
        seq![
            base64_digit(b0 / 4),
            base64_digit((b0 % 4) * 16 + b1 / 16),
            base64_digit((b1 % 16) * 4),
            '=',
        ]
    } else {
        let b0 = bytes[0] as int;
        let b1 = bytes[1] as int;
        let b2 = bytes[2] as int;
        seq![
            base64_digit(b0 / 4),
            base64_digit((b0 % 4) * 16 + b1 / 16),
            base64_digit((b1 % 16) * 4 + b2 / 64),
            base64_digit(b2 % 64),
        ] + base64_standard(bytes.skip(3))
    }
}

/// `PKCS7_BINARY`: the content is signed as given, without the MIME
/// canonicalization (CRLF line ends) applied otherwise.
pub const PKCS7_BINARY: i32 = 0x80;

/// `X509::from_pem`. OpenSSL reads the bytes through a memory BIO, which
/// takes lengths that fit in a C `int`. No passphrase callback is given, so
/// for an encrypted block OpenSSL may ask on the terminal: only that a
/// certificate comes back from bytes that hold one, and that it is the one
/// they hold, is stated.
#[verifier::external_body]
fn certificate_from_pem(pem: &[u8]) -> (r: Result<openssl::x509::X509, openssl::error::ErrorStack>)
    requires
        pem@.len() <= i32::MAX,
    ensures
        r matches Ok(c) ==> pem_certificate_reads(pem@) && pem_certificate_der(pem@) == Some(
            x509_der(c),
        ),
{
    openssl::x509::X509::from_pem(pem)
}

/// `PKey::private_key_from_pem`. As for certificates: lengths that fit in a
/// C `int`, and only that a key comes back from bytes that hold one is
/// stated, and that it is the one they hold (an encrypted key may be
/// unlocked from the terminal).
#[verifier::external_body]
fn private_key_from_pem(pem: &[u8]) -> (r: Result<
    openssl::pkey::PKey<openssl::pkey::Private>,
    openssl::error::ErrorStack,
>)
    requires
        pem@.len() <= i32::MAX,
    ensures
        r matches Ok(k) ==> pem_private_key_reads(pem@) && pem_private_key_public(pem@) == Some(
            pkey_public(k),
        ),
{
    openssl::pkey::PKey::private_key_from_pem(pem)
}

/// `Pkcs7::sign` over `input` with the certificates `extra_certs` added
/// (converted to the `Stack` it takes) and the flags `flag_bits`, and the
/// result's `to_der`. The input goes through a memory BIO, which takes
/// lengths that fit in a C `int`. Signed with exactly `PKCS7_BINARY`
/// (attached, not canonicalized), the DER carries `input` as its content.
/// Its one signer is `cert` with `key`. The signature bytes, which depend
/// on the signing time, are not stated.
#[verifier::external_body]
fn pkcs7_sign_der(
    cert: &openssl::x509::X509,
    key: &openssl::pkey::PKey<openssl::pkey::Private>,
    extra_certs: Vec<openssl::x509::X509>,
    input: &[u8],
    flag_bits: i32,
) -> (r: Result<Vec<u8>, openssl::error::ErrorStack>)
    requires
        input@.len() <= i32::MAX,
    ensures
        flag_bits == PKCS7_BINARY ==> (r matches Ok(der) ==> pkcs7_signed_content(der@) == Some(
            input@,
        )),
        r matches Ok(der) ==> pkcs7_signer(der@) == Some((x509_der(*cert), pkey_public(*key))),
{
    let mut certs: openssl::stack::Stack<openssl::x509::X509> = openssl::stack::Stack::new()?;
    for c in extra_certs {
        certs.push(c)?;
    }
    let flags = openssl::pkcs7::Pkcs7Flags::from_bits_retain(flag_bits);
    openssl::pkcs7::Pkcs7::sign(cert, key, &certs, input, flags)?.to_der()
}

/// `base64::engine::general_purpose::STANDARD.encode`: the standard
/// alphabet with padding, as `base64_standard` writes it out.
#[verifier::external_body]
fn base64_encode(bytes: &[u8]) -> (r: String)
    ensures
        r@ == base64_standard(bytes@),
{
    base64::engine::general_purpose::STANDARD.encode(bytes)
}

/// The SignedData `der` was signed with the certificate that `cert_pem`
/// holds and the private key that `key_pem` holds.
pub open spec fn signed_by(der: Seq<u8>, cert_pem: Seq<u8>, key_pem: Seq<u8>) -> bool {
    &&& pem_certificate_der(cert_pem) is Some
    &&& pem_private_key_public(key_pem) is Some
    &&& pkcs7_signer(der) == Some(
        (pem_certificate_der(cert_pem)->0, pem_private_key_public(key_pem)->0),
    )
}

/// Sign the TRA as a PKCS#7 / CMS message with the certificate and key
/// given (no extra certificates, content attached and signed as given) and
/// return it base64-encoded.
pub fn sign_tra(cert_pem: &[u8], key_pem: &[u8], tra: &str) -> (r: Result<String, AfipError>)
    requires
        cert_pem@.len() <= i32::MAX,
        key_pem@.len() <= i32::MAX,
        vstd::utf8::encode_utf8(tra@).len() <= i32::MAX,
    ensures
        !pem_certificate_reads(cert_pem@) ==> r matches Err(AfipError::OpenSsl(_)),
        pem_certificate_reads(cert_pem@) && !pem_private_key_reads(key_pem@) ==> r matches Err(
            AfipError::OpenSsl(_),
        ),
        r matches Ok(s) ==> exists|der: Seq<u8>|
            s@ == base64_standard(der) && pkcs7_signed_content(der) == Some(
                vstd::utf8::encode_utf8(tra@),
            ) && signed_by(der, cert_pem@, key_pem@),
        r matches Err(e) ==> e is OpenSsl,
{
    let cert = match certificate_from_pem(cert_pem) {
        Ok(c) => c,
        Err(e) => return Err(AfipError::OpenSsl(e)),
    };
    let pkey = match private_key_from_pem(key_pem) {
        Ok(k) => k,
        Err(e) => return Err(AfipError::OpenSsl(e)),
    };
    let der = match pkcs7_sign_der(&cert, &pkey, Vec::new(), tra.as_bytes(), PKCS7_BINARY) {
        Ok(d) => d,
        Err(e) => return Err(AfipError::OpenSsl(e)),
    };
    let s = base64_encode(der.as_slice());
    assert(s@ == base64_standard(der@));
    Ok(s)
}

/// The `loginCms` request for `service` at instant `now`: the ticket,
/// signed and wrapped in the SOAP envelope. The signed content is the
/// ticket for that service and instant.
pub fn login_request(service: &str, now: i64, cert_pem: &[u8], key_pem: &[u8]) -> (r: Result<String, AfipError>)
    requires
        MIN_INSTANT + 600 <= now <= MAX_INSTANT - 600,
        cert_pem@.len() <= i32::MAX,
        key_pem@.len() <= i32::MAX,
        vstd::utf8::encode_utf8(service@).len() + TICKET_OVERHEAD <= i32::MAX,
    ensures
        !pem_certificate_reads(cert_pem@) ==> r matches Err(AfipError::OpenSsl(_)),
        pem_certificate_reads(cert_pem@) && !pem_private_key_reads(key_pem@) ==> r matches Err(
            AfipError::OpenSsl(_),
        ),
        r matches Ok(s) ==> exists|der: Seq<u8>|
            s@ == login_cms_doc(base64_standard(der)) && pkcs7_signed_content(der) == Some(
                vstd::utf8::encode_utf8(tra_doc(service@, now)),
            ) && signed_by(der, cert_pem@, key_pem@),
        r matches Err(e) ==> e is OpenSsl,
{
    let tra = build_tra_at(service, now);
    let cms = sign_tra(cert_pem, key_pem, tra.as_str())?;
    Ok(login_cms_envelope(cms.as_str()))
}

// ---------------------------------------------------------------------------
// Reading the login reply
// ---------------------------------------------------------------------------

/// What a `loginCms` reply means: a SOAP fault, or the credentials carried
/// by the (escaped) `loginTicketResponse` inside `loginCmsReturn`.
pub open spec fn login_outcome(body: Seq<char>, service: Seq<char>, r: Result<Credentials, AfipError>) -> bool {
    match parsed_xml(body) {
        None => r matches Err(AfipError::Xml(_)),
        Some(ns) => if has_element_in(ns, "Fault"@) {
            r matches Err(AfipError::SoapFault { service: s, message: m }) && s@ == "WSAA"@ && m@
                == fault_message(ns)
        } else {
            match first_text_in(ns, "loginCmsReturn"@) {
                None => r matches Err(AfipError::MissingField(f)) && f@ == "loginCmsReturn"@,
                Some(inner) => {
                    let ins = reply_nodes(inner);
                    match (
                        first_text_in(ins, "token"@),
                        first_text_in(ins, "sign"@),
                        first_text_in(ins, "expirationTime"@),
                    ) {
                        (None, _, _) => r matches Err(AfipError::MissingField(f)) && f@ == "token"@,
                        (Some(_), None, _) => r matches Err(AfipError::MissingField(f)) && f@
                            == "sign"@,
                        (Some(_), Some(_), None) => r matches Err(AfipError::MissingField(f)) && f@
                            == "expirationTime"@,
                        (Some(t), Some(sg), Some(e)) => r matches Ok(c) && c.token@ == t && c.sign@
                            == sg && c.expiration@ == e && c.service@ == service,
                    }
                },
            }
        },
    }
}

fn text_of(xml: &str, local: &str) -> (r: Option<String>)
    ensures
        opt_seq(r) == first_text_in(reply_nodes(xml@), local@),
{
    first_text(xml, local)
}

/// Reads the `loginCms` reply into credentials for `service`.
pub fn read_login_response(body: &str, service: &str) -> (r: Result<Credentials, AfipError>)
    ensures
        login_outcome(body@, service@, r),
{
    check_soap_fault(body, "WSAA")?;
    let inner = match text_of(body, "loginCmsReturn") {
        Some(i) => i,
        None => return Err(AfipError::MissingField("loginCmsReturn")),
    };
    let token = match text_of(inner.as_str(), "token") {
        Some(t) => t,
        None => return Err(AfipError::MissingField("token")),
    };
    let sign = match text_of(inner.as_str(), "sign") {
        Some(s) => s,
        None => return Err(AfipError::MissingField("sign")),
    };
    let expiration = match text_of(inner.as_str(), "expirationTime") {
        Some(e) => e,
        None => return Err(AfipError::MissingField("expirationTime")),
    };
    Ok(Credentials { token, sign, expiration, service: string_of(service) })
}

} // verus!

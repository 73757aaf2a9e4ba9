use vstd::prelude::*;

use crate::cursor::{be16, be32, ByteCursor};
use crate::errors::{CellError, FormatError, ProtocolError};
use crate::variable_cell::{
    var_payload, var_rest, variable_cell_parses, variable_decode_err, variable_command_of_byte,
    VariableCell, VariableCommand,
};

verus! {

/// Certificate types a CERTS cell entry may carry. Types 1-3 frame DER
/// bodies for the external X.509 parser; types 4-7 frame the Tor-custom
/// sub-format.
#[derive(Clone, Copy, Debug, PartialEq, Eq, Structural)]
pub enum CertType {
    LinkKeyRSA1024,
    RSA1024IdentitySelfSigned,
    RSA1024AUTHENTICATECellLinkCertificate,
    Ed25519SigningKey,
    TLSLinkCertificate,
    Ed25519AuthenticateCellKey,
    Ed25519Identity,
}

/// The certificate type a wire byte stands for, if any.
pub open spec fn cert_type_of_byte(b: u8) -> Option<CertType> {
    match b {
        1u8 => Some(CertType::LinkKeyRSA1024),
        2u8 => Some(CertType::RSA1024IdentitySelfSigned),
        3u8 => Some(CertType::RSA1024AUTHENTICATECellLinkCertificate),
        4u8 => Some(CertType::Ed25519SigningKey),
        5u8 => Some(CertType::TLSLinkCertificate),
        6u8 => Some(CertType::Ed25519AuthenticateCellKey),
        7u8 => Some(CertType::Ed25519Identity),
        _ => None,
    }
}

/// Whether entries of this certificate type hold a DER body for the
/// external X.509 parser.
pub open spec fn is_x509_type(t: CertType) -> bool {
    match t {
        CertType::LinkKeyRSA1024 => true,
        CertType::RSA1024IdentitySelfSigned => true,
        CertType::RSA1024AUTHENTICATECellLinkCertificate => true,
        _ => false,
    }
}

impl CertType {
    /// Maps a cert-type byte to its type, or `UnknownCertType` for any byte
    /// outside the defined set.
    pub fn from_u8(b: u8) -> (r: Result<CertType, FormatError>)
        ensures
            match r {
                Ok(t) => cert_type_of_byte(b) == Some(t),
                Err(e) => cert_type_of_byte(b) is None && e == FormatError::UnknownCertType,
            },
    {
        match b {
            1u8 => Ok(CertType::LinkKeyRSA1024),
            2u8 => Ok(CertType::RSA1024IdentitySelfSigned),
            3u8 => Ok(CertType::RSA1024AUTHENTICATECellLinkCertificate),
            4u8 => Ok(CertType::Ed25519SigningKey),
            5u8 => Ok(CertType::TLSLinkCertificate),
            6u8 => Ok(CertType::Ed25519AuthenticateCellKey),
            7u8 => Ok(CertType::Ed25519Identity),
            _ => Err(FormatError::UnknownCertType),
        }
    }
}

/// Extension types of the Tor-custom certificate sub-format.
#[derive(Clone, Copy, Debug, PartialEq, Eq, Structural)]
pub enum CertExtType {
    SignedWithEd25519Key,
    RSAEd25519Cross,
}

/// The extension type a wire byte stands for, if any.
pub open spec fn ext_type_of_byte(b: u8) -> Option<CertExtType> {
    match b {
        4u8 => Some(CertExtType::SignedWithEd25519Key),
        7u8 => Some(CertExtType::RSAEd25519Cross),
        _ => None,
    }
}

impl CertExtType {
    /// Maps an extension-type byte to its type, or `UnknownExtensionType`
    /// for any other byte.
    pub fn from_u8(b: u8) -> (r: Result<CertExtType, FormatError>)
        ensures
            match r {
                Ok(t) => ext_type_of_byte(b) == Some(t),
                Err(e) => ext_type_of_byte(b) is None && e == FormatError::UnknownExtensionType,
            },
    {
        match b {
            4u8 => Ok(CertExtType::SignedWithEd25519Key),
            7u8 => Ok(CertExtType::RSAEd25519Cross),
            _ => Err(FormatError::UnknownExtensionType),
        }
    }
}

/// A signed-with-ed25519-key extension: the affects-validation flag and the
/// first 32 bytes of the body.
#[derive(Clone, Debug)]
pub struct SignedWithEd25519KeyExtension {
    pub affects_validation: bool,
    pub key: Vec<u8>,
}

/// An RSA-ed25519 cross-certificate extension: 32-byte ed25519 key, opaque
/// 32-bit expiration, and a signature bounded by an 8-bit length prefix.
#[derive(Clone, Debug)]
pub struct RSAEd25519Cross {
    pub ed25519_key: Vec<u8>,
    pub expiration_date: u32,
    pub signature: Vec<u8>,
}

/// One certificate extension: exactly one of the two defined forms.
#[derive(Clone, Debug)]
pub enum CertExtension {
    SignedWithEd25519Key(SignedWithEd25519KeyExtension),
    RSAEd25519Cross(RSAEd25519Cross),
}

/// Mathematical image of one parsed extension.
pub enum CertExtensionModel {
    SignedWithEd25519Key { affects_validation: bool, key: Seq<u8> },
    RSAEd25519Cross { ed25519_key: Seq<u8>, expiration_date: u32, signature: Seq<u8> },
}

impl View for CertExtension {
    type V = CertExtensionModel;

    open spec fn view(&self) -> CertExtensionModel {
        match self {
            CertExtension::SignedWithEd25519Key(e) => CertExtensionModel::SignedWithEd25519Key {
                affects_validation: e.affects_validation,
                key: e.key@,
            },
            CertExtension::RSAEd25519Cross(e) => CertExtensionModel::RSAEd25519Cross {
                ed25519_key: e.ed25519_key@,
                expiration_date: e.expiration_date,
                signature: e.signature@,
            },
        }
    }
}

/// A certificate in the Tor-custom sub-format. The expiration is carried as
/// an opaque 32-bit value; no signature or chain-of-trust checking happens
/// here.
#[derive(Clone, Debug)]
pub struct TorCustomFormatCert {
    pub cert_type: u8,
    pub expiration_date: u32,
    pub cert_key_type: CertType,
    pub certified_key: Vec<u8>,
    pub extensions: Vec<CertExtension>,
    pub signature: Vec<u8>,
}

/// Mathematical image of a parsed Tor-custom certificate.
pub struct TorCertModel {
    pub cert_type: u8,
    pub expiration_date: u32,
    pub cert_key_type: CertType,
    pub certified_key: Seq<u8>,
    pub extensions: Seq<CertExtensionModel>,
    pub signature: Seq<u8>,
}

impl View for TorCustomFormatCert {
    type V = TorCertModel;

    open spec fn view(&self) -> TorCertModel {
        TorCertModel {
            cert_type: self.cert_type,
            expiration_date: self.expiration_date,
            cert_key_type: self.cert_key_type,
            certified_key: self.certified_key@,
            extensions: self.extensions@.map_values(|e: CertExtension| e@),
            signature: self.signature@,
        }
    }
}

impl TorCustomFormatCert {
    /// Structural invariant: a 32-byte certified key and a 64-byte signature.
    pub open spec fn wf(&self) -> bool {
        &&& self.certified_key@.len() == 32
        &&& self.signature@.len() == 64
    }
}

/// One entry of a certificate chain: a DER body left to the external X.509
/// parser, or a decoded Tor-custom certificate. Exactly one form is ever
/// populated.
#[derive(Clone, Debug)]
pub enum Cert {
    X509 { cert_type: CertType, der: Vec<u8> },
    TorFormat { cert_type: CertType, cert: TorCustomFormatCert },
}

/// Mathematical image of one chain entry.
pub enum CertModel {
    X509 { cert_type: CertType, der: Seq<u8> },
    TorFormat { cert_type: CertType, cert: TorCertModel },
}

impl View for Cert {
    type V = CertModel;

    open spec fn view(&self) -> CertModel {
        match self {
            Cert::X509 { cert_type, der } => CertModel::X509 {
                cert_type: *cert_type,
                der: der@,
            },
            Cert::TorFormat { cert_type, cert } => CertModel::TorFormat {
                cert_type: *cert_type,
                cert: cert@,
            },
        }
    }
}

/// The image of a whole chain.
pub open spec fn certs_model(s: Seq<Cert>) -> Seq<CertModel> {
    s.map_values(|c: Cert| c@)
}

/// The decoded CERTS cell: the certificate chain, in payload order.
#[derive(Clone, Debug)]
pub struct CertsCell {
    pub certs: Vec<Cert>,
}

// ---------------------------------------------------------------------------
// Specification-level parser. Each function mirrors the wire grammar one
// field at a time and names the error each malformed shape yields, so the
// executable parser below is pinned to it exactly.
// ---------------------------------------------------------------------------

/// Parses one signed-with-ed25519-key extension body: its first 32 bytes are
/// the key; the flags byte already read supplies affects-validation.
pub open spec fn spec_parse_signed_ext(body: Seq<u8>, av: bool) -> Result<
    CertExtensionModel,
    FormatError,
> {
    if body.len() < 32 {
        Err(FormatError::Truncated)
    } else {
        Ok(CertExtensionModel::SignedWithEd25519Key { affects_validation: av, key: body.take(32) })
    }
}

/// Parses one RSA-ed25519 cross-certificate body: 32-byte key, 4-byte
/// big-endian expiration, one length byte, then that many signature bytes.
pub open spec fn spec_parse_cross_ext(body: Seq<u8>) -> Result<CertExtensionModel, FormatError> {
    if body.len() < 37 {
        Err(FormatError::Truncated)
    } else if body.len() < 37 + body[36] {
        Err(FormatError::Truncated)
    } else {
        Ok(CertExtensionModel::RSAEd25519Cross {
            ed25519_key: body.take(32),
            expiration_date: be32(body[32], body[33], body[34], body[35]),
            signature: body.subrange(37, 37 + body[36]),
        })
    }
}

/// Parses one framed extension: 2-byte length, type byte, flags byte, body.
/// The type byte is judged as soon as it is read, then the flags byte, then
/// the body. A flags byte other than 0 or 1 sets an unreserved bit and is
/// refused.
pub open spec fn spec_parse_extension(bytes: Seq<u8>) -> Result<
    (CertExtensionModel, Seq<u8>),
    FormatError,
> {
    if bytes.len() < 3 {
        Err(FormatError::Truncated)
    } else if ext_type_of_byte(bytes[2]) is None {
        Err(FormatError::UnknownExtensionType)
    } else if bytes.len() < 4 {
        Err(FormatError::Truncated)
    } else if bytes[3] != 0 && bytes[3] != 1 {
        Err(FormatError::InvalidExtensionFlags)
    } else if bytes.len() < 4 + be16(bytes[0], bytes[1]) {
        Err(FormatError::Truncated)
    } else {
        let body = bytes.subrange(4, 4 + be16(bytes[0], bytes[1]));
        let rest = bytes.skip(4 + be16(bytes[0], bytes[1]));
        let parsed = if ext_type_of_byte(bytes[2]) == Some(CertExtType::SignedWithEd25519Key) {
            spec_parse_signed_ext(body, bytes[3] == 1)
        } else {
            spec_parse_cross_ext(body)
        };
        match parsed {
            Ok(e) => Ok((e, rest)),
            Err(err) => Err(err),
        }
    }
}

/// Parses `m` consecutive framed extensions.
pub open spec fn spec_parse_extensions(bytes: Seq<u8>, m: nat) -> Result<
    (Seq<CertExtensionModel>, Seq<u8>),
    FormatError,
>
    decreases m,
{
    if m == 0 {
        Ok((Seq::empty(), bytes))
    } else {
        match spec_parse_extension(bytes) {
            Ok((e, rest)) => match spec_parse_extensions(rest, (m - 1) as nat) {
                Ok((es, rest2)) => Ok((seq![e] + es, rest2)),
                Err(err) => Err(err),
            },
            Err(err) => Err(err),
        }
    }
}

/// Parses one Tor-custom certificate body in strict field order: version
/// (must be 1), inner type byte, expiration, signing-key type, 32-byte key,
/// extension count and extensions, trailing 64-byte signature. Bytes after
/// the signature are left to the caller.
pub open spec fn spec_parse_tor_cert(bytes: Seq<u8>) -> Result<
    (TorCertModel, Seq<u8>),
    FormatError,
> {
    if bytes.len() < 1 {
        Err(FormatError::Truncated)
    } else if bytes[0] != 1 {
        Err(FormatError::InvalidCertVersion)
    } else if bytes.len() < 7 {
        Err(FormatError::Truncated)
    } else if cert_type_of_byte(bytes[6]) is None {
        Err(FormatError::UnknownCertType)
    } else if bytes.len() < 40 {
        Err(FormatError::Truncated)
    } else {
        match spec_parse_extensions(bytes.skip(40), bytes[39] as nat) {
            Ok((es, rest)) => if rest.len() < 64 {
                Err(FormatError::Truncated)
            } else {
                Ok(
                    (
                        TorCertModel {
                            cert_type: bytes[1],
                            expiration_date: be32(bytes[2], bytes[3], bytes[4], bytes[5]),
                            cert_key_type: cert_type_of_byte(bytes[6])->Some_0,
                            certified_key: bytes.subrange(7, 39),
                            extensions: es,
                            signature: rest.take(64),
                        },
                        rest.skip(64),
                    ),
                )
            },
            Err(err) => Err(err),
        }
    }
}

/// Parses one chain entry: a type byte, a 2-byte length, and that many body
/// bytes, the body handed to the X.509 side or decoded as a Tor-custom
/// certificate. Body bytes beyond a Tor-custom certificate are ignored, as
/// the length field owns them.
pub open spec fn spec_parse_cert_entry(bytes: Seq<u8>) -> Result<(CertModel, Seq<u8>), FormatError> {
    if bytes.len() < 1 {
        Err(FormatError::Truncated)
    } else if cert_type_of_byte(bytes[0]) is None {
        Err(FormatError::UnknownCertType)
    } else if bytes.len() < 3 {
        Err(FormatError::Truncated)
    } else if bytes.len() < 3 + be16(bytes[1], bytes[2]) {
        Err(FormatError::Truncated)
    } else {
        let t = cert_type_of_byte(bytes[0])->Some_0;
        let body = bytes.subrange(3, 3 + be16(bytes[1], bytes[2]));
        let rest = bytes.skip(3 + be16(bytes[1], bytes[2]));
        if is_x509_type(t) {
            Ok((CertModel::X509 { cert_type: t, der: body }, rest))
        } else {
            match spec_parse_tor_cert(body) {
                Ok((m, _tail)) => Ok((CertModel::TorFormat { cert_type: t, cert: m }, rest)),
                Err(err) => Err(err),
            }
        }
    }
}

/// Parses `n` consecutive chain entries.
pub open spec fn spec_parse_cert_entries(bytes: Seq<u8>, n: nat) -> Result<
    (Seq<CertModel>, Seq<u8>),
    FormatError,
>
    decreases n,
{
    if n == 0 {
        Ok((Seq::empty(), bytes))
    } else {
        match spec_parse_cert_entry(bytes) {
            Ok((c, rest)) => match spec_parse_cert_entries(rest, (n - 1) as nat) {
                Ok((cs, rest2)) => Ok((seq![c] + cs, rest2)),
                Err(err) => Err(err),
            },
            Err(err) => Err(err),
        }
    }
}

/// Parses a whole CERTS payload: one count byte, then that many entries.
/// A count of zero yields the empty chain. Bytes after the last entry are
/// ignored.
pub open spec fn spec_parse_certs_payload(p: Seq<u8>) -> Result<Seq<CertModel>, FormatError> {
    if p.len() < 1 {
        Err(FormatError::Truncated)
    } else {
        match spec_parse_cert_entries(p.skip(1), p[0] as nat) {
            Ok((cs, _rest)) => Ok(cs),
            Err(err) => Err(err),
        }
    }
}

// ---------------------------------------------------------------------------
// Executable parser, each function proved equal to its spec counterpart.
// ---------------------------------------------------------------------------

/// Parses a signed-with-ed25519-key extension body, whose first 32 bytes are
/// the key; the already-read flags byte supplies `affects_validation`.
pub fn parse_signed_with_ed25519_key(body: &Vec<u8>, affects_validation: bool) -> (r: Result<
    SignedWithEd25519KeyExtension,
    FormatError,
>)
    ensures
        match r {
            Ok(e) => spec_parse_signed_ext(body@, affects_validation) == Ok::<
                CertExtensionModel,
                FormatError,
            >(
                CertExtension::SignedWithEd25519Key(e)@,
            ),
            Err(err) => spec_parse_signed_ext(body@, affects_validation) == Err::<
                CertExtensionModel,
                FormatError,
            >(err),
        },
{
    let mut rdr = ByteCursor::new(crate::fixed_cell::clone_bytes(body));
    let key = match rdr.read_bytes(32) {
        Ok(v) => v,
        Err(e) => {
            return Err(e);
        },
    };
    Ok(SignedWithEd25519KeyExtension { affects_validation, key })
}

/// Parses an RSA-ed25519 cross-certificate extension body.
pub fn parse_ed25519_cross(body: &Vec<u8>) -> (r: Result<RSAEd25519Cross, FormatError>)
    ensures
        match r {
            Ok(e) => spec_parse_cross_ext(body@) == Ok::<CertExtensionModel, FormatError>(
                CertExtension::RSAEd25519Cross(e)@,
            ),
            Err(err) => spec_parse_cross_ext(body@) == Err::<CertExtensionModel, FormatError>(err),
        },
{
    let mut rdr = ByteCursor::new(crate::fixed_cell::clone_bytes(body));
    let ed25519_key = match rdr.read_bytes(32) {
        Ok(v) => v,
        Err(e) => {
            return Err(e);
        },
    };
    let expiration_date = match rdr.read_u32_be() {
        Ok(v) => v,
        Err(e) => {
            return Err(e);
        },
    };
    let sig_len = match rdr.read_byte() {
        Ok(v) => v,
        Err(e) => {
            return Err(e);
        },
    };
    let signature = match rdr.read_bytes(sig_len as usize) {
        Ok(v) => v,
        Err(e) => {
            return Err(e);
        },
    };
    proof {
        assert(ed25519_key@ =~= body@.take(32));
        assert(signature@ =~= body@.subrange(37, 37 + body@[36]));
    }
    Ok(RSAEd25519Cross { ed25519_key, expiration_date, signature })
}

/// Reads one framed extension from the byte source.
pub fn read_extension(rdr: &mut ByteCursor) -> (r: Result<CertExtension, FormatError>)
    requires
        old(rdr).wf(),
    ensures
        final(rdr).wf(),
        match r {
            Ok(e) => spec_parse_extension(old(rdr).remaining_bytes()) == Ok::<
                (CertExtensionModel, Seq<u8>),
                FormatError,
            >((e@, final(rdr).remaining_bytes())),
            Err(err) => spec_parse_extension(old(rdr).remaining_bytes()) == Err::<
                (CertExtensionModel, Seq<u8>),
                FormatError,
            >(err),
        },
{
    let ext_length = match rdr.read_u16_be() {
        Ok(v) => v,
        Err(e) => {
            return Err(e);
        },
    };
    let ext_type_byte = match rdr.read_byte() {
        Ok(v) => v,
        Err(e) => {
            return Err(e);
        },
    };
    let ext_type = match CertExtType::from_u8(ext_type_byte) {
        Ok(t) => t,
        Err(e) => {
            return Err(e);
        },
    };
    let flags = match rdr.read_byte() {
        Ok(v) => v,
        Err(e) => {
            return Err(e);
        },
    };
    if flags != 0 && flags != 1 {
        return Err(FormatError::InvalidExtensionFlags);
    }
    let affects_validation = flags == 1;
    let body = match rdr.read_bytes(ext_length as usize) {
        Ok(v) => v,
        Err(e) => {
            return Err(e);
        },
    };
    proof {
        let bytes = old(rdr).remaining_bytes();
        assert(ext_length == be16(bytes[0], bytes[1]));
        assert(body@ =~= bytes.subrange(4, 4 + be16(bytes[0], bytes[1])));
        assert(rdr.remaining_bytes() =~= bytes.skip(4 + be16(bytes[0], bytes[1])));
    }
    match ext_type {
        CertExtType::SignedWithEd25519Key => {
            match parse_signed_with_ed25519_key(&body, affects_validation) {
                Ok(e) => Ok(CertExtension::SignedWithEd25519Key(e)),
                Err(err) => Err(err),
            }
        },
        CertExtType::RSAEd25519Cross => {
            match parse_ed25519_cross(&body) {
                Ok(e) => Ok(CertExtension::RSAEd25519Cross(e)),
                Err(err) => Err(err),
            }
        },
    }
}

/// Reads `m` framed extensions from the byte source, in order.
pub fn read_extensions(rdr: &mut ByteCursor, m: u8) -> (r: Result<Vec<CertExtension>, FormatError>)
    requires
        old(rdr).wf(),
    ensures
        final(rdr).wf(),
        match r {
            Ok(v) => spec_parse_extensions(old(rdr).remaining_bytes(), m as nat) == Ok::<
                (Seq<CertExtensionModel>, Seq<u8>),
                FormatError,
            >((v@.map_values(|e: CertExtension| e@), final(rdr).remaining_bytes())),
            Err(err) => spec_parse_extensions(old(rdr).remaining_bytes(), m as nat) == Err::<
                (Seq<CertExtensionModel>, Seq<u8>),
                FormatError,
            >(err),
        },
    decreases m,
{
    if m == 0 {
        let v: Vec<CertExtension> = Vec::new();
        proof {
            assert(v@.map_values(|e: CertExtension| e@) =~= Seq::<CertExtensionModel>::empty());
        }
        Ok(v)
    } else {
        let e = match read_extension(rdr) {
            Ok(e) => e,
            Err(err) => {
                return Err(err);
            },
        };
        let mut rest = match read_extensions(rdr, m - 1) {
            Ok(v) => v,
            Err(err) => {
                return Err(err);
            },
        };
        let ghost tail = rest@;
        rest.insert(0, e);
        proof {
            assert(rest@ =~= seq![e] + tail);
            assert(rest@.map_values(|x: CertExtension| x@) =~= seq![e@] + tail.map_values(
                |x: CertExtension| x@,
            ));
        }
        Ok(rest)
    }
}

impl TorCustomFormatCert {
    /// Reads one Tor-custom certificate from the byte source, leaving any
    /// bytes after its signature unread.
    pub fn from_reader(rdr: &mut ByteCursor) -> (r: Result<TorCustomFormatCert, FormatError>)
        requires
            old(rdr).wf(),
        ensures
            final(rdr).wf(),
            match r {
                Ok(c) => c.wf() && spec_parse_tor_cert(old(rdr).remaining_bytes()) == Ok::<
                    (TorCertModel, Seq<u8>),
                    FormatError,
                >((c@, final(rdr).remaining_bytes())),
                Err(err) => spec_parse_tor_cert(old(rdr).remaining_bytes()) == Err::<
                    (TorCertModel, Seq<u8>),
                    FormatError,
                >(err),
            },
    {
        let version = match rdr.read_byte() {
            Ok(v) => v,
            Err(e) => {
                return Err(e);
            },
        };
        if version != 0x1 {
            return Err(FormatError::InvalidCertVersion);
        }
        let cert_type = match rdr.read_byte() {
            Ok(v) => v,
            Err(e) => {
                return Err(e);
            },
        };
        let expiration_date = match rdr.read_u32_be() {
            Ok(v) => v,
            Err(e) => {
                return Err(e);
            },
        };
        let key_type_byte = match rdr.read_byte() {
            Ok(v) => v,
            Err(e) => {
                return Err(e);
            },
        };
        let cert_key_type = match CertType::from_u8(key_type_byte) {
            Ok(t) => t,
            Err(e) => {
                return Err(e);
            },
        };
        let certified_key = match rdr.read_bytes(32) {
            Ok(v) => v,
            Err(e) => {
                return Err(e);
            },
        };
        let num_extensions = match rdr.read_byte() {
            Ok(v) => v,
            Err(e) => {
                return Err(e);
            },
        };
        proof {
            let bytes = old(rdr).remaining_bytes();
            assert(rdr.remaining_bytes() =~= bytes.skip(40));
            assert(num_extensions == bytes[39]);
            assert(certified_key@ =~= bytes.subrange(7, 39));
        }
        let extensions = match read_extensions(rdr, num_extensions) {
            Ok(v) => v,
            Err(e) => {
                return Err(e);
            },
        };
        let signature = match rdr.read_bytes(64) {
            Ok(v) => v,
            Err(e) => {
                return Err(e);
            },
        };
        let c = TorCustomFormatCert {
            cert_type,
            expiration_date,
            cert_key_type,
            certified_key,
            extensions,
            signature,
        };
        Ok(c)
    }
}

/// Reads one chain entry from the byte source.
pub fn read_cert_entry(rdr: &mut ByteCursor) -> (r: Result<Cert, FormatError>)
    requires
        old(rdr).wf(),
    ensures
        final(rdr).wf(),
        match r {
            Ok(c) => spec_parse_cert_entry(old(rdr).remaining_bytes()) == Ok::<
                (CertModel, Seq<u8>),
                FormatError,
            >((c@, final(rdr).remaining_bytes())),
            Err(err) => spec_parse_cert_entry(old(rdr).remaining_bytes()) == Err::<
                (CertModel, Seq<u8>),
                FormatError,
            >(err),
        },
{
    let type_byte = match rdr.read_byte() {
        Ok(v) => v,
        Err(e) => {
            return Err(e);
        },
    };
    let cert_type = match CertType::from_u8(type_byte) {
        Ok(t) => t,
        Err(e) => {
            return Err(e);
        },
    };
    let cert_len = match rdr.read_u16_be() {
        Ok(v) => v,
        Err(e) => {
            return Err(e);
        },
    };
    let body = match rdr.read_bytes(cert_len as usize) {
        Ok(v) => v,
        Err(e) => {
            return Err(e);
        },
    };
    proof {
        let bytes = old(rdr).remaining_bytes();
        assert(cert_len == be16(bytes[1], bytes[2]));
        assert(body@ =~= bytes.subrange(3, 3 + be16(bytes[1], bytes[2])));
        assert(rdr.remaining_bytes() =~= bytes.skip(3 + be16(bytes[1], bytes[2])));
    }
    let is_x509 = match cert_type {
        CertType::LinkKeyRSA1024 => true,
        CertType::RSA1024IdentitySelfSigned => true,
        CertType::RSA1024AUTHENTICATECellLinkCertificate => true,
        _ => false,
    };
    if is_x509 {
        // The DER body is held for the external X.509 parsing collaborator;
        // no structure of it is read here.
        Ok(Cert::X509 { cert_type, der: body })
    } else {
        let mut inner = ByteCursor::new(body);
        match TorCustomFormatCert::from_reader(&mut inner) {
            Ok(c) => Ok(Cert::TorFormat { cert_type, cert: c }),
            Err(e) => Err(e),
        }
    }
}

/// Reads `n` chain entries from the byte source, in order.
pub fn read_cert_entries(rdr: &mut ByteCursor, n: u8) -> (r: Result<Vec<Cert>, FormatError>)
    requires
        old(rdr).wf(),
    ensures
        final(rdr).wf(),
        match r {
            Ok(v) => spec_parse_cert_entries(old(rdr).remaining_bytes(), n as nat) == Ok::<
                (Seq<CertModel>, Seq<u8>),
                FormatError,
            >((certs_model(v@), final(rdr).remaining_bytes())),
            Err(err) => spec_parse_cert_entries(old(rdr).remaining_bytes(), n as nat) == Err::<
                (Seq<CertModel>, Seq<u8>),
                FormatError,
            >(err),
        },
    decreases n,
{
    if n == 0 {
        let v: Vec<Cert> = Vec::new();
        proof {
            assert(certs_model(v@) =~= Seq::<CertModel>::empty());
        }
        Ok(v)
    } else {
        let c = match read_cert_entry(rdr) {
            Ok(c) => c,
            Err(err) => {
                return Err(err);
            },
        };
        let mut rest = match read_cert_entries(rdr, n - 1) {
            Ok(v) => v,
            Err(err) => {
                return Err(err);
            },
        };
        let ghost tail = rest@;
        rest.insert(0, c);
        proof {
            assert(rest@ =~= seq![c] + tail);
            assert(certs_model(rest@) =~= seq![c@] + certs_model(tail));
        }
        Ok(rest)
    }
}

impl CertsCell {
    /// Parses a CERTS payload: one count byte, then that many entries. A
    /// count of zero yields an empty chain; declared entry lengths that
    /// overrun the payload fail with `Truncated`.
    pub fn parse(payload: Vec<u8>) -> (r: Result<CertsCell, FormatError>)
        ensures
            match r {
                Ok(cc) => spec_parse_certs_payload(payload@) == Ok::<Seq<CertModel>, FormatError>(
                    certs_model(cc.certs@),
                ),
                Err(err) => spec_parse_certs_payload(payload@) == Err::<
                    Seq<CertModel>,
                    FormatError,
                >(err),
            },
    {
        let ghost p = payload@;
        let mut rdr = ByteCursor::new(payload);
        let num_certs = match rdr.read_byte() {
            Ok(v) => v,
            Err(e) => {
                return Err(e);
            },
        };
        let certs = match read_cert_entries(&mut rdr, num_certs) {
            Ok(v) => v,
            Err(e) => {
                return Err(e);
            },
        };
        Ok(CertsCell { certs })
    }

    /// Reads a whole CERTS cell from the byte source: a variable cell with
    /// the 4-byte circuit-id width, whose command must be Certs, and whose
    /// payload parses as a certificate chain.
    pub fn from_reader(rdr: &mut ByteCursor) -> (r: Result<CertsCell, CellError>)
        requires
            old(rdr).wf(),
        ensures
            final(rdr).wf(),
            match r {
                Ok(cc) => {
                    &&& variable_cell_parses(old(rdr).remaining_bytes(), false)
                    &&& variable_command_of_byte(old(rdr).remaining_bytes()[4]) == Some(
                        VariableCommand::Certs,
                    )
                    &&& spec_parse_certs_payload(var_payload(old(rdr).remaining_bytes(), false))
                        == Ok::<Seq<CertModel>, FormatError>(certs_model(cc.certs@))
                    &&& final(rdr).remaining_bytes() == var_rest(
                        old(rdr).remaining_bytes(),
                        false,
                    )
                },
                Err(CellError::Format(e)) => {
                    ||| (!variable_cell_parses(old(rdr).remaining_bytes(), false) && e
                        == variable_decode_err(old(rdr).remaining_bytes(), false))
                    ||| (variable_cell_parses(old(rdr).remaining_bytes(), false)
                        && variable_command_of_byte(old(rdr).remaining_bytes()[4]) == Some(
                        VariableCommand::Certs,
                    ) && spec_parse_certs_payload(var_payload(old(rdr).remaining_bytes(), false))
                        == Err::<Seq<CertModel>, FormatError>(e))
                },
                Err(CellError::Protocol(pe)) => {
                    &&& pe == ProtocolError::UnexpectedCellType
                    &&& variable_cell_parses(old(rdr).remaining_bytes(), false)
                    &&& variable_command_of_byte(old(rdr).remaining_bytes()[4]) != Some(
                        VariableCommand::Certs,
                    )
                },
            },
    {
        let cell = match VariableCell::from_reader(rdr, false) {
            Ok(c) => c,
            Err(e) => {
                return Err(CellError::Format(e));
            },
        };
        if !matches!(cell.command, VariableCommand::Certs) {
            return Err(CellError::Protocol(ProtocolError::UnexpectedCellType));
        }
        match CertsCell::parse(cell.payload) {
            Ok(cc) => Ok(cc),
            Err(e) => Err(CellError::Format(e)),
        }
    }
}

} // verus!

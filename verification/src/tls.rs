//! The TLS side of the listener: from PEM files to an acceptor.

use rustls::crypto::CryptoProvider;
use rustls::pki_types::{CertificateDer, PrivateKeyDer};
use rustls::ServerConfig;
use std::sync::Arc;
use tokio_rustls::TlsAcceptor;
use vstd::prelude::*;

verus! {

/// A DER-encoded certificate.
#[verifier::external_type_specification]
#[verifier::external_body]
pub struct ExCertificateDer<'a>(rustls::pki_types::CertificateDer<'a>);

/// A DER-encoded private key.
#[verifier::external_type_specification]
#[verifier::external_body]
pub struct ExPrivateKeyDer<'a>(rustls::pki_types::PrivateKeyDer<'a>);

/// A set of cryptographic primitives for `rustls`.
#[verifier::external_type_specification]
#[verifier::external_body]
pub struct ExCryptoProvider(rustls::crypto::CryptoProvider);

/// The configuration of a `rustls` server.
#[verifier::external_type_specification]
#[verifier::external_body]
pub struct ExServerConfig(rustls::ServerConfig);

/// The error of `rustls`.
#[verifier::external_type_specification]
#[verifier::external_body]
pub struct ExTlsError(rustls::Error);

/// The acceptor of `tokio_rustls`.
#[verifier::external_type_specification]
#[verifier::external_body]
pub struct ExTlsAcceptor(tokio_rustls::TlsAcceptor);

/// Why no acceptor could be built.
#[derive(Debug)]
pub enum TlsSetupError {
    /// The certificate file could not be read or is not valid PEM.
    Certificates(std::io::Error),
    /// The key file could not be read or is not valid PEM.
    PrivateKey(std::io::Error),
    /// The key file holds no private key.
    NoPrivateKey,
    /// The certificates and the key do not make a server configuration.
    ServerConfig(rustls::Error),
}

/// What a server presents itself with.
pub struct TlsIdentity {
    /// The certificate chain, the server's own certificate first.
    pub chain: Vec<CertificateDer<'static>>,
    /// The key of the server's own certificate.
    pub key: PrivateKeyDer<'static>,
}

/// A version of the TLS protocol.
pub enum TlsVersion {
    V1_2,
    V1_3,
}

/// What a server was set up with.
pub struct TlsSetup {
    pub provider: CryptoProvider,
    /// The protocol versions that are enabled.
    pub versions: Set<TlsVersion>,
    pub chain: Seq<CertificateDer<'static>>,
    pub key: PrivateKeyDer<'static>,
    /// Whether clients are asked for a certificate.
    pub client_auth: bool,
}

/// What reading a file came to: its bytes up to the end, or those up to a failure and the failure.
#[derive(Debug)]
pub struct FileContent {
    pub bytes: Vec<u8>,
    pub failure: Option<std::io::Error>,
}

/// Reads a file's content over again, ending as the file did. A failure is met once, and the end after
/// it.
struct FileReader {
    content: FileContent,
    /// How many bytes have been read.
    pos: usize,
}

impl FileReader {
    /// The bytes still to be read.
    pub closed spec fn rest(self) -> Seq<u8> {
        if self.pos < self.content.bytes@.len() {
            self.content.bytes@.skip(self.pos as int)
        } else {
            Seq::empty()
        }
    }

    /// The failure that follows them, if any.
    pub closed spec fn failure(self) -> Option<std::io::Error> {
        self.content.failure
    }

    /// A reader at the start.
    fn new(content: FileContent) -> (reader: FileReader)
        ensures
            reader.rest() == content.bytes@,
            reader.failure() == content.failure,
    {
        FileReader { content, pos: 0 }
    }

    /// How many bytes are still to be read.
    fn left(&self) -> (left: usize)
        ensures
            left == self.rest().len(),
            left > 0 ==> left == self.content.bytes@.len() - self.pos,
            self.pos + left <= usize::MAX,
    {
        if self.pos < self.content.bytes.len() {
            self.content.bytes.len() - self.pos
        } else {
            0
        }
    }
}

impl std::io::Read for FileReader {
    fn read(&mut self, buf: &mut [u8]) -> (read: std::io::Result<usize>)
        ensures
            old(self).rest().len() > 0 ==> {
                &&& read is Ok
                &&& read->Ok_0 == vstd::math::min(
                    old(self).rest().len() as int,
                    old(buf)@.len() as int,
                )
                &&& final(buf)@ == old(self).rest().take(read->Ok_0 as int) + old(buf)@.skip(
                    read->Ok_0 as int,
                )
                &&& final(self).rest() == old(self).rest().skip(read->Ok_0 as int)
                &&& final(self).failure() == old(self).failure()
            },
            old(self).rest().len() == 0 ==> {
                &&& read == match old(self).failure() {
                    Some(e) => Err(e),
                    None => Ok(0usize),
                }
                &&& final(buf)@ == old(buf)@
                &&& final(self).rest() == old(self).rest()
                &&& final(self).failure() is None
            },
    {
        let left: usize = self.left();
        if left == 0 {
            return match self.content.failure.take() {
                Some(e) => Err(e),
                None => Ok(0),
            };
        }
        let len: usize = if left < buf.len() {
            left
        } else {
            buf.len()
        };
        let mut i: usize = 0;
        while i < len
            invariant
                i <= len <= left,
                len <= buf@.len(),
                left == self.content.bytes@.len() - self.pos,
                self.pos + left <= usize::MAX,
                *self == *old(self),
                buf@.len() == old(buf)@.len(),
                buf@ =~= self.rest().take(i as int) + old(buf)@.skip(i as int),
            decreases len - i,
        {
            buf[i] = self.content.bytes[self.pos + i];
            i += 1;
        }
        self.pos = self.pos + len;
        Ok(len)
    }
}

impl std::io::BufRead for FileReader {
    fn fill_buf(&mut self) -> (buf: std::io::Result<&[u8]>)
        ensures
            final(self).rest() == old(self).rest(),
            old(self).rest().len() > 0 ==> {
                &&& buf is Ok
                &&& buf->Ok_0@ == old(self).rest()
                &&& final(self).failure() == old(self).failure()
            },
            old(self).rest().len() == 0 ==> {
                &&& match old(self).failure() {
                    Some(e) => buf is Err && buf->Err_0 == e,
                    None => buf is Ok && buf->Ok_0@.len() == 0,
                }
                &&& final(self).failure() is None
            },
    {
        if self.left() > 0 {
            let bytes = self.content.bytes.as_slice();
            return Ok(vstd::slice::slice_subrange(bytes, self.pos, bytes.len()));
        }
        match self.content.failure.take() {
            Some(e) => Err(e),
            None => Ok(&[]),
        }
    }

    fn consume(&mut self, amount: usize)
        ensures
            amount <= old(self).rest().len() ==> final(self).rest() == old(self).rest().skip(
                amount as int,
            ),
            amount > old(self).rest().len() ==> final(self).rest().len() == 0,
            final(self).failure() == old(self).failure(),
    {
        let left: usize = self.left();
        if left > 0 {
            self.pos = self.pos + if amount < left {
                amount
            } else {
                left
            };
        }
    }
}

/// The certificates in a PEM text that is followed by its end or by a failure to read on, in their
/// order, or the first error met on the way, as `rustls_pemfile::certs` yields them.
pub uninterp spec fn pem_certificates(pem: Seq<u8>, failure: Option<std::io::Error>) -> Result<
    Seq<CertificateDer<'static>>,
    std::io::Error,
>;

/// The first private key in a PEM text that is followed by its end or by a failure to read on, or
/// the error met before it, as `rustls_pemfile::private_key` yields it.
pub uninterp spec fn pem_private_key(pem: Seq<u8>, failure: Option<std::io::Error>) -> Result<
    Option<PrivateKeyDer<'static>>,
    std::io::Error,
>;

/// What a server configuration was set up with.
pub uninterp spec fn config_setup(config: ServerConfig) -> TlsSetup;

/// What an acceptor was set up with.
pub uninterp spec fn acceptor_setup(acceptor: TlsAcceptor) -> TlsSetup;

/// Calls `rustls_pemfile::certs` and collects what it yields, up to the first error.
///
/// Claimed: the outcome is settled by the bytes that are left to read and by the failure that
/// follows them, if any.
#[verifier::external_body]
fn parse_certificates(mut reader: FileReader) -> (parsed: Result<
    Vec<CertificateDer<'static>>,
    std::io::Error,
>)
    ensures
        match parsed {
            Ok(chain) => pem_certificates(reader.rest(), reader.failure()) == Ok::<
                _,
                std::io::Error,
            >(chain@),
            Err(e) => pem_certificates(reader.rest(), reader.failure()) == Err::<
                Seq<CertificateDer<'static>>,
                _,
            >(e),
        },
{
    rustls_pemfile::certs(&mut reader).collect()
}

/// Calls `rustls_pemfile::private_key`.
///
/// Claimed: the outcome is settled by the bytes that are left to read and by the failure that
/// follows them, if any.
#[verifier::external_body]
fn parse_private_key(mut reader: FileReader) -> (parsed: Result<
    Option<PrivateKeyDer<'static>>,
    std::io::Error,
>)
    ensures
        parsed == pem_private_key(reader.rest(), reader.failure()),
{
    rustls_pemfile::private_key(&mut reader)
}

/// Builds a `rustls::ServerConfig`: `builder_with_provider`, the safe default protocol versions,
/// `with_no_client_auth`, `with_single_cert`.
///
/// Claimed: a configuration that comes out uses the provider, enables TLS 1.2 and TLS 1.3, presents
/// the chain with the key, and asks clients for no certificate. Whether one comes out is left open:
/// it is up to the provider, which loads the key and lends the cipher suites.
#[verifier::external_body]
fn single_cert_config(
    provider: Arc<CryptoProvider>,
    chain: Vec<CertificateDer<'static>>,
    key: PrivateKeyDer<'static>,
) -> (config: Result<ServerConfig, rustls::Error>)
    ensures
        config matches Ok(config) ==> config_setup(config) == (TlsSetup {
            provider: *provider,
            versions: set![TlsVersion::V1_2, TlsVersion::V1_3],
            chain: chain@,
            key,
            client_auth: false,
        }),
{
    ServerConfig::builder_with_provider(provider)
        .with_safe_default_protocol_versions()?
        .with_no_client_auth()
        .with_single_cert(chain, key)
}

/// `tokio_rustls::TlsAcceptor::from`. Claimed: the acceptor works with that configuration.
#[verifier::external_body]
fn acceptor_from(config: Arc<ServerConfig>) -> (acceptor: TlsAcceptor)
    ensures
        acceptor_setup(acceptor) == config_setup(*config),
{
    TlsAcceptor::from(config)
}

impl TlsSetupError {
    /// What was being done when it went wrong.
    pub open spec fn spec_context(&self) -> Seq<char> {
        match self {
            TlsSetupError::Certificates(_) => "parsing TLS certificates"@,
            TlsSetupError::PrivateKey(_) => "parsing TLS private key"@,
            TlsSetupError::NoPrivateKey => "no private key found in key file"@,
            TlsSetupError::ServerConfig(_) => "building TLS server config"@,
        }
    }

    /// What was being done when it went wrong.
    pub fn context(&self) -> (context: &'static str)
        ensures
            context@ == self.spec_context(),
            self is Certificates ==> context@ == "parsing TLS certificates"@,
            self is PrivateKey ==> context@ == "parsing TLS private key"@,
            self is NoPrivateKey ==> context@ == "no private key found in key file"@,
            self is ServerConfig ==> context@ == "building TLS server config"@,
    {
        match self {
            TlsSetupError::Certificates(_) => "parsing TLS certificates",
            TlsSetupError::PrivateKey(_) => "parsing TLS private key",
            TlsSetupError::NoPrivateKey => "no private key found in key file",
            TlsSetupError::ServerConfig(_) => "building TLS server config",
        }
    }
}

/// The identity that the two files give, or what is wrong with them. The certificates are looked
/// at first.
pub fn tls_identity(
    chain: Result<Vec<CertificateDer<'static>>, std::io::Error>,
    key: Result<Option<PrivateKeyDer<'static>>, std::io::Error>,
) -> (identity: Result<TlsIdentity, TlsSetupError>)
    ensures
        identity == match (chain, key) {
            (Err(e), _) => Err(TlsSetupError::Certificates(e)),
            (Ok(_), Err(e)) => Err(TlsSetupError::PrivateKey(e)),
            (Ok(_), Ok(None)) => Err(TlsSetupError::NoPrivateKey),
            (Ok(chain), Ok(Some(key))) => Ok(TlsIdentity { chain, key }),
        },
{
    let chain = match chain {
        Ok(chain) => chain,
        Err(e) => return Err(TlsSetupError::Certificates(e)),
    };
    let key = match key {
        Ok(Some(key)) => key,
        Ok(None) => return Err(TlsSetupError::NoPrivateKey),
        Err(e) => return Err(TlsSetupError::PrivateKey(e)),
    };
    Ok(TlsIdentity { chain, key })
}

/// When it was asked for a server that works with `provider` and presents `chain` with `key`,
/// `rustls` answered with `config`.
pub closed spec fn rustls_answers(
    provider: Arc<CryptoProvider>,
    chain: Vec<CertificateDer<'static>>,
    key: PrivateKeyDer<'static>,
    config: Result<ServerConfig, rustls::Error>,
) -> bool {
    call_ensures(single_cert_config, (provider, chain, key), config)
}

/// An answer of `rustls` is what the call came back with, and nothing else is.
proof fn lemma_answer_is_that_of_the_call(
    provider: Arc<CryptoProvider>,
    chain: Vec<CertificateDer<'static>>,
    key: PrivateKeyDer<'static>,
    config: Result<ServerConfig, rustls::Error>,
)
    ensures
        rustls_answers(provider, chain, key, config) <==> call_ensures(
            single_cert_config,
            (provider, chain, key),
            config,
        ),
{
}

/// A configuration that `rustls` answered with is set up with what it was asked for: that provider,
/// TLS 1.2 and TLS 1.3, that chain with that key, and no certificate asked of clients.
pub proof fn answered_configuration_is_the_one_asked_for(
    provider: Arc<CryptoProvider>,
    chain: Vec<CertificateDer<'static>>,
    key: PrivateKeyDer<'static>,
    config: ServerConfig,
)
    requires
        rustls_answers(provider, chain, key, Ok(config)),
    ensures
        config_setup(config).provider == *provider,
        config_setup(config).versions.contains(TlsVersion::V1_2),
        config_setup(config).versions.contains(TlsVersion::V1_3),
        config_setup(config).chain == chain@,
        config_setup(config).key == key,
        !config_setup(config).client_auth,
{
}

/// The acceptor for what `rustls` made of an identity: one with that configuration, or the error
/// that it gave.
pub open spec fn accepts_as(
    acceptor: Result<TlsAcceptor, TlsSetupError>,
    config: Result<ServerConfig, rustls::Error>,
) -> bool {
    match config {
        Ok(config) => acceptor is Ok && acceptor_setup(acceptor->Ok_0) == config_setup(config),
        Err(e) => acceptor == Err::<TlsAcceptor, _>(TlsSetupError::ServerConfig(e)),
    }
}

/// Turns what `rustls` made of an identity into an acceptor.
pub fn acceptor_of(config: Result<ServerConfig, rustls::Error>) -> (acceptor: Result<
    TlsAcceptor,
    TlsSetupError,
>)
    ensures
        accepts_as(acceptor, config),
        config matches Ok(config) ==> acceptor is Ok && acceptor_setup(acceptor->Ok_0)
            == config_setup(config),
        config matches Err(e) ==> acceptor == Err::<TlsAcceptor, _>(TlsSetupError::ServerConfig(e)),
{
    match config {
        Ok(config) => Ok(acceptor_from(Arc::new(config))),
        Err(e) => Err(TlsSetupError::ServerConfig(e)),
    }
}

/// Builds an acceptor from a file of PEM-encoded certificates and one with the key, each given by
/// what reading it came to. A failure to read counts as a failure to parse, where the parser gets
/// that far: it reads the certificates to the end, but no further than the first key.
///
/// An acceptor comes out if and only if both files parse, there is a key, and `rustls` accepts the
/// chain with the key.
pub fn build_tls_acceptor(
    provider: Arc<CryptoProvider>,
    cert_file: FileContent,
    key_file: FileContent,
) -> (acceptor: Result<TlsAcceptor, TlsSetupError>)
    ensures
        match (
            pem_certificates(cert_file.bytes@, cert_file.failure),
            pem_private_key(key_file.bytes@, key_file.failure),
        ) {
            (Err(e), _) => acceptor == Err::<TlsAcceptor, _>(TlsSetupError::Certificates(e)),
            (Ok(_), Err(e)) => acceptor == Err::<TlsAcceptor, _>(TlsSetupError::PrivateKey(e)),
            (Ok(_), Ok(None)) => acceptor == Err::<TlsAcceptor, _>(TlsSetupError::NoPrivateKey),
            (Ok(chain), Ok(Some(key))) => {
                &&& exists|certs: Vec<CertificateDer<'static>>, config|
                    {
                        &&& certs@ == chain
                        &&& #[trigger] rustls_answers(provider, certs, key, config)
                        &&& accepts_as(acceptor, config)
                        &&& acceptor is Ok <==> config is Ok
                        &&& config matches Err(e) ==> acceptor == Err::<TlsAcceptor, _>(
                            TlsSetupError::ServerConfig(e),
                        )
                    }
                &&& acceptor is Ok ==> acceptor_setup(acceptor->Ok_0) == (TlsSetup {
                    provider: *provider,
                    versions: set![TlsVersion::V1_2, TlsVersion::V1_3],
                    chain,
                    key,
                    client_auth: false,
                })
            },
        },
{
    let chain = parse_certificates(FileReader::new(cert_file));
    let key = parse_private_key(FileReader::new(key_file));
    match tls_identity(chain, key) {
        Ok(identity) => {
            let config = single_cert_config(provider, identity.chain, identity.key);
            proof {
                lemma_answer_is_that_of_the_call(provider, identity.chain, identity.key, config);
            }
            acceptor_of(config)
        },
        Err(e) => Err(e),
    }
}

/// What `rustls` says decides: its configuration becomes the acceptor's, its error is handed on as
/// it is, and neither is ever taken for the other.
pub proof fn answer_of_rustls_decides(
    acceptor: Result<TlsAcceptor, TlsSetupError>,
    config: Result<ServerConfig, rustls::Error>,
)
    requires
        accepts_as(acceptor, config),
    ensures
        acceptor is Ok <==> config is Ok,
        config is Ok ==> acceptor_setup(acceptor->Ok_0) == config_setup(config->Ok_0),
        config is Err ==> acceptor->Err_0 is ServerConfig && acceptor->Err_0->ServerConfig_0
            == config->Err_0,
{
}

/// What an error says of the step that failed depends on that step alone, and tells the steps
/// apart.
pub proof fn context_tells_the_steps_apart(a: TlsSetupError, b: TlsSetupError)
    ensures
        a.spec_context() == b.spec_context() <==> {
            ||| a is Certificates && b is Certificates
            ||| a is PrivateKey && b is PrivateKey
            ||| a is NoPrivateKey && b is NoPrivateKey
            ||| a is ServerConfig && b is ServerConfig
        },
{
    reveal_strlit("parsing TLS certificates");
    reveal_strlit("parsing TLS private key");
    reveal_strlit("no private key found in key file");
    reveal_strlit("building TLS server config");
    assert("parsing TLS certificates"@[12] == 'c');
    assert("parsing TLS private key"@[12] == 'p');
    assert("no private key found in key file"@[0] == 'n');
    assert("building TLS server config"@[0] == 'b');
}

} // verus!

//! The TLS server configuration of a virtual host, and how one is made from
//! a certificate file and a key file.

use crate::backend::pem::{
    certs, pem_certs, pem_pkcs8_private_keys, pem_rsa_private_keys, pkcs8_private_keys,
    rsa_private_keys,
};
use tokio_rustls::rustls::{Certificate, PrivateKey, ServerConfig};
use vstd::prelude::*;

verus! {

/// `rustls::ServerConfig`, the configuration that a TLS acceptor is made
/// from. The library has rustls build one and sets the protocols it offers;
/// it reads nothing out of it.
#[verifier::external_type_specification]
#[verifier::external_body]
pub struct ExServerConfig(ServerConfig);

/// `rustls::Error`, with which rustls turns a key down.
#[verifier::external_type_specification]
#[verifier::external_body]
pub struct ExRustlsError(tokio_rustls::rustls::Error);

/// Whether `with_single_cert` gives a configuration for this certificate
/// chain and this private key, both in DER.
pub uninterp spec fn single_cert_accepts(cert_chain: Seq<Seq<u8>>, key_der: Seq<u8>) -> bool;

/// `ServerConfig::builder().with_safe_defaults().with_no_client_auth()
/// .with_single_cert(..)` on the chain and the key: a server configuration
/// with rustls's default suites, groups and versions, without client
/// authentication, that answers every handshake with this chain and key.
/// rustls documents that the call fails if the key is invalid. The contract
/// claims one thing: the call gives `Ok` where `single_cert_accepts` holds
/// of the chain and the key, and `Err` where it does not. To load an ECDSA
/// key rustls draws from the operating system's random source, and is taken
/// to get it.
#[verifier::external_body]
fn single_cert_config(cert_chain: &Vec<Vec<u8>>, key_der: &Vec<u8>) -> (built: Result<
    ServerConfig,
    tokio_rustls::rustls::Error,
>)
    ensures
        built is Ok <==> single_cert_accepts(cert_chain.deep_view(), key_der@),
{
    let chain = cert_chain.iter().map(|der| Certificate(der.clone())).collect();
    ServerConfig::builder().with_safe_defaults().with_no_client_auth().with_single_cert(
        chain,
        PrivateKey(key_der.clone()),
    )
}

/// What the field `alpn_protocols` of a `rustls::ServerConfig` holds: the
/// protocols that the server offers in the handshake, most preferred first.
pub uninterp spec fn offered_protocols(config: ServerConfig) -> Seq<Seq<u8>>;

/// Writes the field `alpn_protocols` of a `rustls::ServerConfig`: after the
/// call the field holds the list that was given.
#[verifier::external_body]
fn set_alpn_protocols(config: &mut ServerConfig, protocols: Vec<Vec<u8>>)
    ensures
        offered_protocols(*final(config)) == protocols.deep_view(),
{
    config.alpn_protocols = protocols;
}

/// Why no TLS server configuration came of a certificate file and a key
/// file.
#[derive(Debug)]
pub enum TlsConfigError {
    /// The certificate file could not be read.
    CertificateFile(std::io::Error),
    /// The certificate text is no PEM, or holds no certificate.
    UnparsableCertificates,
    /// The key file could not be read.
    KeyFile(std::io::Error),
    /// The key text could not be read for PKCS#8 keys.
    UnparsablePkcs8Keys,
    /// The key text could not be read for RSA keys.
    UnparsableRsaKeys,
    /// The key text holds neither a PKCS#8 key nor an RSA key.
    NoPrivateKeys,
    /// rustls accepted none of the keys for the certificate chain.
    NoValidPair,
}

/// The words that go with each error.
pub open spec fn spec_message(error: TlsConfigError) -> Seq<char> {
    match error {
        TlsConfigError::CertificateFile(_) => "Unable to load the certificates"@,
        TlsConfigError::UnparsableCertificates => "Unable to parse the certificates"@,
        TlsConfigError::KeyFile(_) => "Unable to load the certificate keys"@,
        TlsConfigError::UnparsablePkcs8Keys =>
            "Unable to parse the certificates private keys (PKCS8)"@,
        TlsConfigError::UnparsableRsaKeys => "Unable to parse the certificates private keys (RSA)"@,
        TlsConfigError::NoPrivateKeys =>
            "No private keys found - Make sure that they are in PKCS#8/PEM format"@,
        TlsConfigError::NoValidPair => "Unable to find a valid certificate and key"@,
    }
}

impl TlsConfigError {
    /// The error in words. For a file that could not be read this is the
    /// head of the message; the cause is the value that the variant holds.
    pub fn message(&self) -> (text: &'static str)
        ensures
            text@ == spec_message(*self),
    {
        match self {
            TlsConfigError::CertificateFile(_) => "Unable to load the certificates",
            TlsConfigError::UnparsableCertificates => "Unable to parse the certificates",
            TlsConfigError::KeyFile(_) => "Unable to load the certificate keys",
            TlsConfigError::UnparsablePkcs8Keys =>
                "Unable to parse the certificates private keys (PKCS8)",
            TlsConfigError::UnparsableRsaKeys =>
                "Unable to parse the certificates private keys (RSA)",
            TlsConfigError::NoPrivateKeys =>
                "No private keys found - Make sure that they are in PKCS#8/PEM format",
            TlsConfigError::NoValidPair => "Unable to find a valid certificate and key",
        }
    }
}

/// The protocols that every configuration of the library offers: `h2`, then
/// `http/1.1`.
pub open spec fn advertised_protocols() -> Seq<Seq<u8>> {
    seq![
        seq![0x68u8, 0x32u8],
        seq![0x68u8, 0x74u8, 0x74u8, 0x70u8, 0x2fu8, 0x31u8, 0x2eu8, 0x31u8],
    ]
}

/// What a TLS server configuration is made of.
pub struct TlsServerConfigView {
    /// The certificates in DER, the host's own first.
    pub cert_chain: Seq<Seq<u8>>,
    /// The private key in DER.
    pub private_key: Seq<u8>,
    /// The protocols offered in the handshake, most preferred first.
    pub alpn_protocols: Seq<Seq<u8>>,
}

impl TlsServerConfigView {
    /// What holds of every configuration that the library makes: it has a
    /// certificate, rustls accepts its key with its chain, and it offers
    /// `h2` and `http/1.1`, in this order and nothing else.
    pub open spec fn is_valid(self) -> bool {
        &&& self.cert_chain.len() >= 1
        &&& single_cert_accepts(self.cert_chain, self.private_key)
        &&& self.alpn_protocols == advertised_protocols()
    }
}

/// Whether the key at `index` is the first of `keys` that rustls accepts
/// with the chain.
pub open spec fn is_first_accepted(cert_chain: Seq<Seq<u8>>, keys: Seq<Seq<u8>>, index: int) -> bool {
    &&& 0 <= index < keys.len()
    &&& single_cert_accepts(cert_chain, keys[index])
    &&& forall|j: int| 0 <= j < index ==> !single_cert_accepts(cert_chain, #[trigger] keys[j])
}

/// Whether rustls accepts none of `keys` with the chain.
pub open spec fn none_accepted(cert_chain: Seq<Seq<u8>>, keys: Seq<Seq<u8>>) -> bool {
    forall|j: int| 0 <= j < keys.len() ==> !single_cert_accepts(cert_chain, #[trigger] keys[j])
}

/// What a PEM reader made of a text, as the contracts speak of it: the
/// sections in DER, or `None` for its error.
pub open spec fn sections(read: Result<Vec<Vec<u8>>, std::io::Error>) -> Option<Seq<Seq<u8>>> {
    match read {
        Ok(ders) => Some(ders.deep_view()),
        Err(_) => None,
    }
}

/// The certificate chain that comes of what the PEM reader made of the
/// certificate text: its certificates, unless it failed or found none.
pub open spec fn spec_certificate_chain(read: Option<Seq<Seq<u8>>>) -> Result<Seq<Seq<u8>>, TlsConfigError> {
    match read {
        Some(chain) if chain.len() >= 1 => Ok(chain),
        _ => Err(TlsConfigError::UnparsableCertificates),
    }
}

/// The candidate keys that come of what the two PEM readers made of the
/// key text: the PKCS#8 keys, then the RSA keys. A failure of the PKCS#8
/// reader is told before one of the RSA reader, and either before the lack
/// of keys.
pub open spec fn spec_candidate_keys(pkcs8: Option<Seq<Seq<u8>>>, rsa: Option<Seq<Seq<u8>>>) -> Result<
    Seq<Seq<u8>>,
    TlsConfigError,
> {
    match (pkcs8, rsa) {
        (None, _) => Err(TlsConfigError::UnparsablePkcs8Keys),
        (Some(_), None) => Err(TlsConfigError::UnparsableRsaKeys),
        (Some(first), Some(then)) => if first.len() + then.len() == 0 {
            Err(TlsConfigError::NoPrivateKeys)
        } else {
            Ok(first + then)
        },
    }
}

/// The configuration that binds the chain to the first of `keys` that
/// rustls accepts with it.
pub open spec fn spec_bind(cert_chain: Seq<Seq<u8>>, keys: Seq<Seq<u8>>) -> Result<
    TlsServerConfigView,
    TlsConfigError,
> {
    if cert_chain.len() == 0 {
        Err(TlsConfigError::UnparsableCertificates)
    } else if none_accepted(cert_chain, keys) {
        Err(TlsConfigError::NoValidPair)
    } else {
        Ok(
            TlsServerConfigView {
                cert_chain,
                private_key: keys[choose|i: int| is_first_accepted(cert_chain, keys, i)],
                alpn_protocols: advertised_protocols(),
            },
        )
    }
}

/// The configuration that comes of a certificate text and a key text.
pub open spec fn spec_from_pem(cert_pem: Seq<u8>, key_pem: Seq<u8>) -> Result<
    TlsServerConfigView,
    TlsConfigError,
> {
    match spec_certificate_chain(pem_certs(cert_pem)) {
        Err(e) => Err(e),
        Ok(cert_chain) => match spec_candidate_keys(
            pem_pkcs8_private_keys(key_pem),
            pem_rsa_private_keys(key_pem),
        ) {
            Err(e) => Err(e),
            Ok(keys) => spec_bind(cert_chain, keys),
        },
    }
}

/// The configuration that comes of what reading the two files gave. The
/// certificate file is dealt with first, to its end: the key file is looked
/// at once the chain is there.
pub open spec fn spec_from_files(
    certs_file: Result<Vec<u8>, std::io::Error>,
    keys_file: Result<Vec<u8>, std::io::Error>,
) -> Result<TlsServerConfigView, TlsConfigError> {
    match certs_file {
        Err(e) => Err(TlsConfigError::CertificateFile(e)),
        Ok(cert_pem) => match spec_certificate_chain(pem_certs(cert_pem@)) {
            Err(e) => Err(e),
            Ok(_) => match keys_file {
                Err(e) => Err(TlsConfigError::KeyFile(e)),
                Ok(key_pem) => spec_from_pem(cert_pem@, key_pem@),
            },
        },
    }
}

/// Whether `made` is the result that `spec` describes: the same error, or a
/// configuration made of the same values.
pub open spec fn is_outcome(
    made: Result<TlsServerConfig, TlsConfigError>,
    spec: Result<TlsServerConfigView, TlsConfigError>,
) -> bool {
    match made {
        Ok(config) => spec == Ok::<TlsServerConfigView, TlsConfigError>(config@),
        Err(e) => spec == Err::<TlsServerConfigView, TlsConfigError>(e),
    }
}

/// The first accepted key is the only one: whoever knows one index that
/// `is_first_accepted` holds of knows the key that `bound` binds.
pub proof fn lemma_first_accepted_is_bound(
    cert_chain: Seq<Seq<u8>>,
    keys: Seq<Seq<u8>>,
    index: int,
)
    requires
        cert_chain.len() >= 1,
        is_first_accepted(cert_chain, keys, index),
    ensures
        spec_bind(cert_chain, keys) == Ok::<TlsServerConfigView, TlsConfigError>(
            TlsServerConfigView {
                cert_chain,
                private_key: keys[index],
                alpn_protocols: advertised_protocols(),
            },
        ),
{
    let chosen = choose|i: int| is_first_accepted(cert_chain, keys, i);
    assert(chosen == index);
}

/// Where rustls accepts some key of the list, there is a first one that it
/// accepts.
pub proof fn lemma_accepted_has_first(cert_chain: Seq<Seq<u8>>, keys: Seq<Seq<u8>>, index: int)
    requires
        0 <= index < keys.len(),
        single_cert_accepts(cert_chain, keys[index]),
    ensures
        exists|first: int| 0 <= first <= index && is_first_accepted(cert_chain, keys, first),
    decreases index,
{
    if exists|j: int| 0 <= j < index && single_cert_accepts(cert_chain, keys[j]) {
        let j = choose|j: int| 0 <= j < index && single_cert_accepts(cert_chain, keys[j]);
        lemma_accepted_has_first(cert_chain, keys, j);
    } else {
        assert(is_first_accepted(cert_chain, keys, index));
    }
}

/// A configuration that `bound` gives is valid: it holds a certificate and a
/// key that rustls accepts with the chain, and offers `h2`, then `http/1.1`.
pub proof fn lemma_bound_is_valid(cert_chain: Seq<Seq<u8>>, keys: Seq<Seq<u8>>)
    ensures
        spec_bind(cert_chain, keys) matches Ok(config) ==> config.is_valid()
            && config.alpn_protocols == advertised_protocols() && exists|i: int|
            is_first_accepted(cert_chain, keys, i) && config.private_key == keys[i],
{
    if spec_bind(cert_chain, keys) is Ok {
        let j = choose|j: int|
            0 <= j < keys.len() && single_cert_accepts(cert_chain, #[trigger] keys[j]);
        lemma_accepted_has_first(cert_chain, keys, j);
        let first = choose|first: int| is_first_accepted(cert_chain, keys, first);
        lemma_first_accepted_is_bound(cert_chain, keys, first);
    }
}

/// A configuration that comes of two files is valid.
pub proof fn lemma_from_files_is_valid(
    certs_file: Result<Vec<u8>, std::io::Error>,
    keys_file: Result<Vec<u8>, std::io::Error>,
)
    ensures
        spec_from_files(certs_file, keys_file) matches Ok(config) ==> config.is_valid(),
{
    if spec_from_files(certs_file, keys_file) is Ok {
        let cert_chain = spec_certificate_chain(pem_certs(certs_file->Ok_0@))->Ok_0;
        let keys = spec_candidate_keys(
            pem_pkcs8_private_keys(keys_file->Ok_0@),
            pem_rsa_private_keys(keys_file->Ok_0@),
        )->Ok_0;
        lemma_bound_is_valid(cert_chain, keys);
    }
}

/// A key file that holds RSA keys and no PKCS#8 key is enough: where the
/// certificate file gives a chain and rustls accepts one of the RSA keys
/// with it, a configuration is made, and its key is the first RSA key that
/// rustls accepts.
pub proof fn lemma_rsa_keys_alone_suffice(
    certs_file: Result<Vec<u8>, std::io::Error>,
    keys_file: Result<Vec<u8>, std::io::Error>,
    index: int,
)
    requires
        certs_file is Ok,
        spec_certificate_chain(pem_certs(certs_file->Ok_0@)) is Ok,
        keys_file is Ok,
        pem_pkcs8_private_keys(keys_file->Ok_0@) == Some(Seq::<Seq<u8>>::empty()),
        pem_rsa_private_keys(keys_file->Ok_0@) is Some,
        0 <= index < pem_rsa_private_keys(keys_file->Ok_0@)->Some_0.len(),
        single_cert_accepts(
            spec_certificate_chain(pem_certs(certs_file->Ok_0@))->Ok_0,
            pem_rsa_private_keys(keys_file->Ok_0@)->Some_0[index],
        ),
    ensures
        spec_from_files(certs_file, keys_file) matches Ok(config) && exists|first: int|
            is_first_accepted(
                config.cert_chain,
                pem_rsa_private_keys(keys_file->Ok_0@)->Some_0,
                first,
            ) && config.private_key == pem_rsa_private_keys(keys_file->Ok_0@)->Some_0[first],
{
    let cert_chain = spec_certificate_chain(pem_certs(certs_file->Ok_0@))->Ok_0;
    let rsa = pem_rsa_private_keys(keys_file->Ok_0@)->Some_0;
    lemma_accepted_has_first(cert_chain, rsa, index);
    let first = choose|first: int| is_first_accepted(cert_chain, rsa, first);
    lemma_first_accepted_is_bound(cert_chain, rsa, first);
}

/// A TLS server configuration: the certificate chain, the private key and
/// the offered protocols, beside the `rustls::ServerConfig` that a TLS
/// acceptor is made from. Of that configuration the contracts state the
/// protocols it offers, which are those of the record.
pub struct TlsServerConfig {
    cert_chain: Vec<Vec<u8>>,
    private_key: Vec<u8>,
    alpn_protocols: Vec<Vec<u8>>,
    rustls: ServerConfig,
}

impl View for TlsServerConfig {
    type V = TlsServerConfigView;

    closed spec fn view(&self) -> TlsServerConfigView {
        TlsServerConfigView {
            cert_chain: self.cert_chain.deep_view(),
            private_key: self.private_key@,
            alpn_protocols: self.alpn_protocols.deep_view(),
        }
    }
}

/// The list `h2`, `http/1.1`.
fn protocol_list() -> (list: Vec<Vec<u8>>)
    ensures
        list.deep_view() == advertised_protocols(),
{
    let h2: Vec<u8> = vec![0x68u8, 0x32u8];
    let http11: Vec<u8> = vec![0x68u8, 0x74u8, 0x74u8, 0x70u8, 0x2fu8, 0x31u8, 0x2eu8, 0x31u8];
    let list: Vec<Vec<u8>> = vec![h2, http11];
    assert(list.deep_view() =~~= advertised_protocols());
    list
}

impl TlsServerConfig {
    /// Every configuration is valid, wherever it is met, and the
    /// configuration that rustls holds for it offers the protocols of the
    /// record.
    #[verifier::type_invariant]
    pub open spec fn well_formed(self) -> bool {
        &&& self@.is_valid()
        &&& offered_protocols(self.rustls_config()) == self@.alpn_protocols
    }

    /// The certificate chain in DER, the host's own certificate first.
    pub fn cert_chain(&self) -> (chain: &Vec<Vec<u8>>)
        ensures
            chain.deep_view() == self@.cert_chain,
            self@.is_valid(),
    {
        proof {
            use_type_invariant(self);
        }
        &self.cert_chain
    }

    /// The private key in DER.
    pub fn private_key(&self) -> (key: &Vec<u8>)
        ensures
            key@ == self@.private_key,
            self@.is_valid(),
    {
        proof {
            use_type_invariant(self);
        }
        &self.private_key
    }

    /// The protocols offered in the handshake: always `h2`, then `http/1.1`.
    pub fn alpn_protocols(&self) -> (protocols: &Vec<Vec<u8>>)
        ensures
            protocols.deep_view() == advertised_protocols(),
            self@.is_valid(),
    {
        proof {
            use_type_invariant(self);
        }
        &self.alpn_protocols
    }

    /// The configuration as rustls holds it, for the making of an acceptor.
    /// It offers `h2`, then `http/1.1`.
    pub fn server_config(&self) -> (config: &ServerConfig)
        ensures
            *config == self.rustls_config(),
            offered_protocols(*config) == advertised_protocols(),
    {
        proof {
            use_type_invariant(self);
        }
        &self.rustls
    }

    /// The `rustls::ServerConfig` that the record keeps beside its values.
    pub closed spec fn rustls_config(self) -> ServerConfig {
        self.rustls
    }

    /// The chain that comes of what `rustls_pemfile::certs` made of the
    /// certificate text: its certificates, unless the reader failed or found
    /// none.
    pub fn certificate_chain(read: Result<Vec<Vec<u8>>, std::io::Error>) -> (chain: Result<
        Vec<Vec<u8>>,
        TlsConfigError,
    >)
        ensures
            match chain {
                Ok(ders) => spec_certificate_chain(sections(read)) == Ok::<Seq<Seq<u8>>, TlsConfigError>(
                    ders.deep_view(),
                ),
                Err(e) => spec_certificate_chain(sections(read)) == Err::<Seq<Seq<u8>>, TlsConfigError>(e),
            },
    {
        match read {
            Ok(ders) => if ders.len() == 0 {
                Err(TlsConfigError::UnparsableCertificates)
            } else {
                Ok(ders)
            },
            Err(_) => Err(TlsConfigError::UnparsableCertificates),
        }
    }

    /// The candidate keys that come of what `rustls_pemfile` made of the key
    /// text, read once for PKCS#8 keys and once for RSA keys: the former,
    /// then the latter.
    pub fn candidate_keys(
        pkcs8: Result<Vec<Vec<u8>>, std::io::Error>,
        rsa: Result<Vec<Vec<u8>>, std::io::Error>,
    ) -> (keys: Result<Vec<Vec<u8>>, TlsConfigError>)
        ensures
            match keys {
                Ok(all) => spec_candidate_keys(sections(pkcs8), sections(rsa)) == Ok::<
                    Seq<Seq<u8>>,
                    TlsConfigError,
                >(all.deep_view()),
                Err(e) => spec_candidate_keys(sections(pkcs8), sections(rsa)) == Err::<
                    Seq<Seq<u8>>,
                    TlsConfigError,
                >(e),
            },
    {
        match pkcs8 {
            Err(_) => Err(TlsConfigError::UnparsablePkcs8Keys),
            Ok(first) => match rsa {
                Err(_) => Err(TlsConfigError::UnparsableRsaKeys),
                Ok(then) => {
                    let ghost ahead = first.deep_view();
                    let ghost behind = then.deep_view();
                    let mut all = first;
                    let mut rest = then;
                    all.append(&mut rest);
                    assert(all.deep_view() =~= ahead + behind);
                    if all.len() == 0 {
                        Err(TlsConfigError::NoPrivateKeys)
                    } else {
                        Ok(all)
                    }
                },
            },
        }
    }

    /// Binds the chain to the first of `keys` that rustls accepts with it,
    /// and sets the offered protocols. The keys are tried in their order,
    /// and none after the first that is accepted.
    pub fn bind(cert_chain: Vec<Vec<u8>>, keys: Vec<Vec<u8>>) -> (made: Result<
        TlsServerConfig,
        TlsConfigError,
    >)
        ensures
            is_outcome(made, spec_bind(cert_chain.deep_view(), keys.deep_view())),
            made matches Ok(config) ==> config.well_formed(),
    {
        if cert_chain.len() == 0 {
            return Err(TlsConfigError::UnparsableCertificates);
        }
        let ghost chain = cert_chain.deep_view();
        let ghost candidates = keys.deep_view();
        let mut i: usize = 0;
        while i < keys.len()
            invariant
                i <= keys.len(),
                chain == cert_chain.deep_view(),
                candidates == keys.deep_view(),
                chain.len() >= 1,
                forall|j: int| 0 <= j < i ==> !single_cert_accepts(chain, #[trigger] candidates[j]),
            decreases keys.len() - i,
        {
            match single_cert_config(&cert_chain, &keys[i]) {
                Ok(mut rustls) => {
                    proof {
                        assert(candidates[i as int] == keys[i as int]@);
                        lemma_first_accepted_is_bound(chain, candidates, i as int);
                    }
                    let private_key = keys[i].clone();
                    let alpn_protocols = protocol_list();
                    set_alpn_protocols(&mut rustls, protocol_list());
                    return Ok(TlsServerConfig { cert_chain, private_key, alpn_protocols, rustls });
                },
                Err(_) => {
                    assert(candidates[i as int] == keys[i as int]@);
                },
            }
            i += 1;
        }
        Err(TlsConfigError::NoValidPair)
    }

    /// Reads the certificate chain out of a PEM text: its `CERTIFICATE`
    /// sections in their order. A text that is no PEM, or that holds no
    /// certificate, is turned down.
    pub fn parse_certificate_chain(cert_pem: &Vec<u8>) -> (chain: Result<
        Vec<Vec<u8>>,
        TlsConfigError,
    >)
        ensures
            match chain {
                Ok(ders) => spec_certificate_chain(pem_certs(cert_pem@)) == Ok::<Seq<Seq<u8>>, TlsConfigError>(
                    ders.deep_view(),
                ),
                Err(e) => spec_certificate_chain(pem_certs(cert_pem@)) == Err::<Seq<Seq<u8>>, TlsConfigError>(e),
            },
    {
        Self::certificate_chain(certs(cert_pem))
    }

    /// Reads the candidate keys out of a PEM text. The text is read twice
    /// from its start, once for `PRIVATE KEY` sections and once for
    /// `RSA PRIVATE KEY` sections, and the keys of the first reading stand
    /// before those of the second.
    pub fn parse_candidate_keys(key_pem: &Vec<u8>) -> (keys: Result<Vec<Vec<u8>>, TlsConfigError>)
        ensures
            match keys {
                Ok(all) => spec_candidate_keys(
                    pem_pkcs8_private_keys(key_pem@),
                    pem_rsa_private_keys(key_pem@),
                ) == Ok::<Seq<Seq<u8>>, TlsConfigError>(all.deep_view()),
                Err(e) => spec_candidate_keys(
                    pem_pkcs8_private_keys(key_pem@),
                    pem_rsa_private_keys(key_pem@),
                ) == Err::<Seq<Seq<u8>>, TlsConfigError>(e),
            },
    {
        let pkcs8 = pkcs8_private_keys(key_pem);
        let rsa = rsa_private_keys(key_pem);
        Self::candidate_keys(pkcs8, rsa)
    }

    /// The configuration that comes of a certificate text and a key text,
    /// both PEM.
    pub fn from_pem(cert_pem: &Vec<u8>, key_pem: &Vec<u8>) -> (made: Result<
        TlsServerConfig,
        TlsConfigError,
    >)
        ensures
            is_outcome(made, spec_from_pem(cert_pem@, key_pem@)),
            made matches Ok(config) ==> config.well_formed(),
    {
        let cert_chain = match Self::parse_certificate_chain(cert_pem) {
            Ok(chain) => chain,
            Err(e) => {
                return Err(e);
            },
        };
        let keys = match Self::parse_candidate_keys(key_pem) {
            Ok(keys) => keys,
            Err(e) => {
                return Err(e);
            },
        };
        Self::bind(cert_chain, keys)
    }

    /// The configuration that comes of what reading the certificate file and
    /// the key file gave: for each, its bytes or the error of the read.
    pub fn from_files(
        certs_file: Result<Vec<u8>, std::io::Error>,
        keys_file: Result<Vec<u8>, std::io::Error>,
    ) -> (made: Result<TlsServerConfig, TlsConfigError>)
        ensures
            is_outcome(made, spec_from_files(certs_file, keys_file)),
            made matches Ok(config) ==> config.well_formed(),
    {
        let cert_pem = match certs_file {
            Ok(bytes) => bytes,
            Err(e) => {
                return Err(TlsConfigError::CertificateFile(e));
            },
        };
        let cert_chain = match Self::parse_certificate_chain(&cert_pem) {
            Ok(chain) => chain,
            Err(e) => {
                return Err(e);
            },
        };
        let key_pem = match keys_file {
            Ok(bytes) => bytes,
            Err(e) => {
                return Err(TlsConfigError::KeyFile(e));
            },
        };
        let keys = match Self::parse_candidate_keys(&key_pem) {
            Ok(keys) => keys,
            Err(e) => {
                return Err(e);
            },
        };
        Self::bind(cert_chain, keys)
    }
}

} // verus!

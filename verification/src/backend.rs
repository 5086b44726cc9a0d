//! One virtual host: where its requests go, and how it answers over TLS.

pub mod load_balance;
pub mod pem;
pub mod tls_config;
pub mod upstream;
pub mod upstream_opts;

use crate::backend::tls_config::{
    advertised_protocols, spec_from_files, lemma_from_files_is_valid, TlsConfigError,
    TlsServerConfig, TlsServerConfigView,
};
use crate::backend::upstream::Upstream;
use std::collections::HashMap;
use std::path::PathBuf;
use std::sync::{Arc, Mutex};
use vstd::prelude::*;

verus! {

/// `std::sync::Mutex`, the lock around the TLS configuration of a backend.
#[verifier::external_type_specification]
#[verifier::external_body]
#[verifier::reject_recursive_types(T)]
pub struct ExMutex<T: ?Sized>(Mutex<T>);

/// `std::path::PathBuf`, where a file lies. The library keeps the paths of
/// a backend and opens no file.
#[verifier::external_type_specification]
#[verifier::external_body]
pub struct ExPathBuf(PathBuf);

/// What the lock of a store guards: the configuration in force, if one was
/// ever loaded.
type TlsSlot = Option<Arc<TlsServerConfig>>;

/// The place of a backend's TLS configuration: one slot behind a lock. The
/// handshakes read it, a reload writes it, and the lock is held for no more
/// than the copy of a handle or the change of one.
pub struct TlsConfigStore {
    slot: Mutex<TlsSlot>,
}

/// `Mutex::new` around an empty slot.
#[verifier::external_body]
fn empty_slot() -> Mutex<TlsSlot> {
    Mutex::new(None)
}

impl TlsConfigStore {
    /// A store in which no configuration is in force.
    pub fn new() -> TlsConfigStore {
        TlsConfigStore { slot: empty_slot() }
    }

    /// `Mutex::lock`, then a copy of the slot as the guard shows it; the
    /// guard is dropped before the return. `None` says that the lock is
    /// poisoned. What the slot holds is what the last writer left there, so
    /// nothing is claimed of it.
    #[verifier::external_body]
    fn read(&self) -> Option<TlsSlot> {
        match self.slot.lock() {
            Ok(guard) => Some(guard.clone()),
            Err(_) => None,
        }
    }

    /// `Mutex::lock`, then `config` is written into the slot through the
    /// guard and the guard is dropped. `false` says that the lock is
    /// poisoned and the slot was left as it was.
    #[verifier::external_body]
    fn write(&self, config: Arc<TlsServerConfig>) -> bool {
        match self.slot.lock() {
            Ok(mut guard) => {
                *guard = Some(config);
                true
            },
            Err(_) => false,
        }
    }
}

impl Default for TlsConfigStore {
    fn default() -> TlsConfigStore {
        TlsConfigStore::new()
    }
}

/// The routes of one virtual host.
#[derive(Debug, Clone)]
pub struct ReverseProxy {
    /// Where a request goes that no route claims.
    pub default_upstream: Option<Upstream>,
    /// The upstream of each route, by the route's key.
    pub upstream: HashMap<String, Upstream>,
}

/// One virtual host: its names, its routes, the files of its TLS identity,
/// and the TLS configuration in force.
pub struct Backend {
    /// The name of the application behind the host.
    pub app_name: String,
    /// The host name that clients ask for.
    pub server_name: String,
    /// Where the requests of the host go.
    pub reverse_proxy: ReverseProxy,
    /// The file of the certificate chain.
    pub tls_cert_path: Option<PathBuf>,
    /// The file of the private key.
    pub tls_cert_key_path: Option<PathBuf>,
    /// Whether plain requests are sent on to HTTPS.
    pub https_redirection: Option<bool>,
    /// The TLS configuration in force. Only a reload writes it and only the
    /// accessor reads it.
    pub server_config: TlsConfigStore,
}

/// What a reload hands to the store: the configuration where one was made,
/// and nothing where none was.
pub open spec fn handed_to_store<C>(made: Result<C, TlsConfigError>) -> Option<C> {
    match made {
        Ok(config) => Some(config),
        Err(_) => None,
    }
}

/// What the slot holds once the store has taken what a reload handed to it,
/// where it held `before`: the configuration handed over, and `before` where
/// nothing was handed over.
pub open spec fn slot_after<C>(before: Option<C>, handed: Option<C>) -> Option<C> {
    match handed {
        Some(config) => Some(config),
        None => before,
    }
}

/// The values of a configuration that may be there.
pub open spec fn slot_view(slot: Option<Arc<TlsServerConfig>>) -> Option<TlsServerConfigView> {
    match slot {
        Some(config) => Some(config@),
        None => None,
    }
}

/// The values of the configuration that was made, or the error.
pub open spec fn made_view(made: Result<TlsServerConfig, TlsConfigError>) -> Result<
    TlsServerConfigView,
    TlsConfigError,
> {
    match made {
        Ok(config) => Ok(config@),
        Err(e) => Err(e),
    }
}

/// What a reload does with the configuration that was made or the error
/// that came instead: what it hands to the store, and what it tells its
/// caller. A configuration is handed over as it is and the caller is told
/// `Ok`; an error goes to the caller and nothing to the store.
pub fn reload_step(made: Result<TlsServerConfig, TlsConfigError>) -> (step: (
    Option<Arc<TlsServerConfig>>,
    Result<(), TlsConfigError>,
))
    ensures
        match made {
            Ok(config) => step.0 matches Some(held) && *held == config && step.1 is Ok,
            Err(e) => step.0 is None && step.1 == Err::<(), TlsConfigError>(e),
        },
        slot_view(step.0) == handed_to_store(made_view(made)),
{
    match made {
        Ok(config) => (Some(Arc::new(config)), Ok(())),
        Err(e) => (None, Err(e)),
    }
}

impl Backend {
    /// The TLS configuration in force, for a handshake: a handle on it, or
    /// `None` where none was loaded yet or the lock is poisoned. Reloads run
    /// beside the handshakes, so which configuration comes back is not
    /// known; whichever it is, it is valid, and the configuration that
    /// rustls holds for it offers `h2`, then `http/1.1`.
    pub fn get_tls_server_config(&self) -> (held: Option<Arc<TlsServerConfig>>)
        ensures
            held matches Some(config) ==> config.well_formed(),
    {
        TlsConfigStore::in_force(self.server_config.read())
    }

    /// Makes a TLS configuration of what reading the certificate file and
    /// the key file gave, and hands it to the store.
    ///
    /// The configuration is made before the lock is taken, and
    /// `reload_step` says what goes to the store: the configuration where
    /// one came of the files, and nothing where an error did, which is
    /// returned. `Ok` is returned as well where the lock is poisoned and the
    /// store could not take the configuration.
    pub fn update_server_config(
        &self,
        certs_file: Result<Vec<u8>, std::io::Error>,
        keys_file: Result<Vec<u8>, std::io::Error>,
    ) -> (done: Result<(), TlsConfigError>)
        ensures
            match spec_from_files(certs_file, keys_file) {
                Ok(_) => done is Ok,
                Err(e) => done == Err::<(), TlsConfigError>(e),
            },
    {
        let (handed, done) = reload_step(TlsServerConfig::from_files(certs_file, keys_file));
        match handed {
            Some(config) => {
                let _written = self.server_config.write(config);
            },
            None => {},
        }
        done
    }
}

impl TlsConfigStore {
    /// What a handshake is given once the store was read: the configuration
    /// that the slot showed, and `None` where the slot was empty or the lock
    /// was poisoned and nothing could be seen.
    pub fn in_force(seen: Option<Option<Arc<TlsServerConfig>>>) -> (held: Option<
        Arc<TlsServerConfig>,
    >)
        ensures
            held == match seen {
                Some(Some(config)) => Some(config),
                _ => None,
            },
            held matches Some(config) ==> config.well_formed(),
    {
        match seen {
            Some(Some(config)) => {
                proof {
                    use_type_invariant(&*config);
                }
                Some(config)
            },
            _ => None,
        }
    }
}

/// A reload that made a configuration hands it to the store, and a slot
/// that has taken it holds it, whatever it held before; the configuration
/// offers exactly `h2` and `http/1.1`, in this order.
pub proof fn lemma_reload_puts_valid_config_in_force(
    before: Option<TlsServerConfigView>,
    certs_file: Result<Vec<u8>, std::io::Error>,
    keys_file: Result<Vec<u8>, std::io::Error>,
)
    requires
        spec_from_files(certs_file, keys_file) is Ok,
    ensures
        slot_after(before, handed_to_store(spec_from_files(certs_file, keys_file))) == Some(
            spec_from_files(certs_file, keys_file)->Ok_0,
        ),
        spec_from_files(certs_file, keys_file)->Ok_0.alpn_protocols == advertised_protocols(),
        spec_from_files(certs_file, keys_file)->Ok_0.is_valid(),
{
    lemma_from_files_is_valid(certs_file, keys_file);
}

/// A reload that fails hands nothing to the store, and the slot keeps what
/// it held. A certificate file that could not be read is such a failure,
/// and the error of the reload holds the error of the read.
pub proof fn lemma_failed_reload_keeps_slot(
    before: Option<TlsServerConfigView>,
    certs_file: Result<Vec<u8>, std::io::Error>,
    keys_file: Result<Vec<u8>, std::io::Error>,
)
    ensures
        spec_from_files(certs_file, keys_file) is Err ==> handed_to_store(
            spec_from_files(certs_file, keys_file),
        ) is None && slot_after(
            before,
            handed_to_store(spec_from_files(certs_file, keys_file)),
        ) == before,
        certs_file matches Err(e) ==> spec_from_files(certs_file, keys_file) == Err::<
            TlsServerConfigView,
            TlsConfigError,
        >(TlsConfigError::CertificateFile(e)),
{
}

/// Of two reloads that each made a configuration, a slot that has taken
/// both holds the one of the second, whatever it held before the first.
pub proof fn lemma_last_reload_wins(
    before: Option<TlsServerConfigView>,
    first: TlsServerConfigView,
    second: TlsServerConfigView,
)
    ensures
        slot_after(
            slot_after(
                before,
                handed_to_store(Ok::<TlsServerConfigView, TlsConfigError>(first)),
            ),
            handed_to_store(Ok::<TlsServerConfigView, TlsConfigError>(second)),
        ) == Some(second),
{
}

} // verus!

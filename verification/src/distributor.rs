//! The Config Distributor: a single-slot, latest-value snapshot of the TLS
//! configuration built from freshly issued X509 material. Replacement is
//! total — a reader sees either the whole previous snapshot or the whole new
//! one — and a snapshot that fails to build never replaces a working one.

use crate::errors::CertificateParseError;
use crate::x509::CertX509Response;
use vstd::prelude::*;

verus! {

/// The DER document a PEM text encapsulates, or nothing if the text is not a
/// well-formed PEM document. The result is a function of the text alone.
pub uninterp spec fn pem_document(pem: Seq<char>) -> Option<Seq<u8>>;

/// Relies on der::Document::from_pem: decodes one PEM-encapsulated DER
/// document; success and the decoded bytes depend on the input text alone.
#[verifier::external_body]
fn pem_to_der(pem: &str) -> (r: Option<Vec<u8>>)
    ensures
        r is Some <==> pem_document(pem@) is Some,
        r is Some ==> r->0@ == pem_document(pem@)->0,
{
    match der::Document::from_pem(pem) {
        Ok((_, document)) => Some(document.into_vec()),
        Err(_) => None,
    }
}

/// An immutable TLS configuration snapshot: the leaf certificate, the chain
/// and the private key, each as the PEM text the authority issued and as the
/// DER document decoded from it. Consumers only read it; it is superseded,
/// never mutated.
#[derive(Debug, Clone)]
pub struct DistributedTlsConfig {
    pub cert_pem: String,
    pub chain_pem: String,
    pub key_pem: String,
    pub cert_der: Vec<u8>,
    pub chain_der: Vec<u8>,
    pub key_der: Vec<u8>,
}

/// All three PEM texts of the material decode as PEM documents.
pub open spec fn tls_material_parses(m: CertX509Response) -> bool {
    &&& pem_document(m.cert@) is Some
    &&& pem_document(m.cert_chain@) is Some
    &&& pem_document(m.key@) is Some
}

/// `c` is exactly the snapshot built from material `m`.
pub open spec fn tls_config_from(c: DistributedTlsConfig, m: CertX509Response) -> bool {
    &&& c.cert_pem == m.cert
    &&& c.chain_pem == m.cert_chain
    &&& c.key_pem == m.key
    &&& pem_document(m.cert@) == Some(c.cert_der@)
    &&& pem_document(m.cert_chain@) == Some(c.chain_der@)
    &&& pem_document(m.key@) == Some(c.key_der@)
}

/// Build a TLS configuration snapshot from issued material, failing loudly if
/// any of the three PEM texts does not decode.
pub fn build_tls_config(material: &CertX509Response) -> (r: Result<
    DistributedTlsConfig,
    CertificateParseError,
>)
    ensures
        r is Ok <==> tls_material_parses(*material),
        r is Ok ==> tls_config_from(r->Ok_0, *material),
{
    let cert_der = match pem_to_der(material.cert.as_str()) {
        Some(der_bytes) => der_bytes,
        None => {
            return Err(CertificateParseError);
        },
    };
    let chain_der = match pem_to_der(material.cert_chain.as_str()) {
        Some(der_bytes) => der_bytes,
        None => {
            return Err(CertificateParseError);
        },
    };
    let key_der = match pem_to_der(material.key.as_str()) {
        Some(der_bytes) => der_bytes,
        None => {
            return Err(CertificateParseError);
        },
    };
    Ok(
        DistributedTlsConfig {
            cert_pem: material.cert.clone(),
            chain_pem: material.cert_chain.clone(),
            key_pem: material.key.clone(),
            cert_der,
            chain_der,
            key_der,
        },
    )
}

impl DistributedTlsConfig {
    /// The full PEM chain a hosting server is configured with: the leaf
    /// certificate followed by the chain.
    pub fn full_chain_pem(&self) -> (r: String)
        ensures
            r@ == self.cert_pem@ + "\n"@ + self.chain_pem@,
    {
        let mut s = self.cert_pem.clone();
        s.append("\n");
        s.append(self.chain_pem.as_str());
        s
    }
}

/// The protocol-agnostic integration point: a hosting server that only wants
/// the raw issued material subscribes to snapshots through the distributor
/// and adapts them itself.
#[derive(Debug, Clone, Copy, PartialEq, Eq, Structural)]
pub struct NiocaGeneric;

/// The single-slot, latest-value broadcast. The slot holds nothing until the
/// first successful publication, then always the whole most recently
/// published snapshot. The publication history is kept as ghost state so the
/// slot can be related to what was actually published.
pub struct ConfigDistributor {
    slot: Option<DistributedTlsConfig>,
    history: Ghost<Seq<DistributedTlsConfig>>,
}

impl ConfigDistributor {
    /// The value a reader currently observes.
    pub closed spec fn snapshot(&self) -> Option<DistributedTlsConfig> {
        self.slot
    }

    /// Every snapshot ever published, in order.
    pub closed spec fn published(&self) -> Seq<DistributedTlsConfig> {
        self.history@
    }

    /// The slot is empty before the first publication and afterwards holds
    /// exactly the whole most recently published snapshot.
    pub open spec fn wf(&self) -> bool {
        match self.snapshot() {
            None => self.published().len() == 0,
            Some(c) => self.published().len() > 0 && c == self.published().last(),
        }
    }

    /// An empty distributor: readers see no snapshot yet.
    pub fn new() -> (d: ConfigDistributor)
        ensures
            d.wf(),
            d.snapshot() is None,
            d.published() == Seq::<DistributedTlsConfig>::empty(),
    {
        ConfigDistributor { slot: None, history: Ghost(Seq::empty()) }
    }

    /// Replace the held snapshot as a whole.
    pub fn publish(&mut self, config: DistributedTlsConfig)
        requires
            old(self).wf(),
        ensures
            final(self).wf(),
            final(self).snapshot() == Some(config),
            final(self).published() == old(self).published().push(config),
    {
        proof {
            self.history@ = self.history@.push(config);
        }
        self.slot = Some(config);
    }

    /// Build a snapshot from issued material and publish it, or change
    /// nothing at all: after a build failure the previous snapshot remains
    /// live.
    pub fn publish_material(&mut self, material: &CertX509Response) -> (r: Result<
        (),
        CertificateParseError,
    >)
        requires
            old(self).wf(),
        ensures
            final(self).wf(),
            r is Ok <==> tls_material_parses(*material),
            r is Ok ==> final(self).snapshot() is Some && tls_config_from(
                final(self).snapshot()->0,
                *material,
            ) && final(self).published() == old(self).published().push(
                final(self).snapshot()->0,
            ),
            r is Err ==> *final(self) == *old(self),
    {
        match build_tls_config(material) {
            Ok(config) => {
                self.publish(config);
                Ok(())
            },
            Err(e) => Err(e),
        }
    }

    /// Read the current snapshot.
    pub fn current(&self) -> (r: &Option<DistributedTlsConfig>)
        ensures
            *r == self.snapshot(),
    {
        &self.slot
    }
}

/// A reader never observes a torn snapshot: whenever the distributor holds a
/// value, that value is, in its entirety, the most recently published one —
/// never a mixture of two publications.
pub proof fn lemma_snapshot_never_torn(d: &ConfigDistributor)
    requires
        d.wf(),
        d.snapshot() is Some,
    ensures
        d.snapshot()->0 == d.published().last(),
        d.published().contains(d.snapshot()->0),
{
    assert(d.published()[d.published().len() - 1] == d.published().last());
}

} // verus!

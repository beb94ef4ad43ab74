//! The crypto core: the typed-data domain separator, the write-once MPC
//! signer slot, digest computation over proposal batches, and signature
//! verification against the installed signer.

use vstd::prelude::*;
use vstd::slice::slice_to_vec;
use vstd::string::StringSliceAdditionalSpecFns;
use sha2::Digest;
use crate::error::BridgeError;
use crate::types::{Address, Bytes32, Proposal};

verus! {

/// The 32-byte digest that SHA-256 assigns to the input bytes.
pub uninterp spec fn sha256_of(data: Seq<u8>) -> Seq<u8>;

/// Relies on sha2::Sha256 through the Digest trait: a 32-byte digest that
/// is a function of the input bytes alone.
#[verifier::external_body]
fn sha256(data: &Vec<u8>) -> (r: Bytes32)
    ensures
        r@ == sha256_of(data@),
{
    let digest = sha2::Sha256::digest(data.as_slice());
    let mut bytes = [0u8; 32];
    bytes.copy_from_slice(&digest);
    Bytes32 { bytes }
}

/// The address that ECDSA public-key recovery assigns to a 32-byte digest
/// and a 65-byte signature, or nothing where the signature does not parse
/// or recovery fails; a function of the two alone.
pub uninterp spec fn recovered_signer(digest: Seq<u8>, signature: Seq<u8>) -> Option<Seq<u8>>;

/// Relies on ethers_core::types::Signature: try_from parses a 65-byte
/// r||s||v signature and recover derives the signing address from the
/// digest, deterministically.
#[verifier::external_body]
fn recover_signer(digest: &Bytes32, signature: &Vec<u8>) -> (r: Option<Address>)
    ensures
        (match r {
            Some(a) => recovered_signer(digest@, signature@) == Some(a@),
            None => recovered_signer(digest@, signature@) is None,
        }),
{
    let sig = match ethers_core::types::Signature::try_from(signature.as_slice()) {
        Ok(s) => s,
        Err(_) => {
            return None;
        },
    };
    let hash = ethers_core::types::H256::from_slice(&digest.bytes);
    match sig.recover(ethers_core::types::RecoveryMessage::Hash(hash)) {
        Ok(a) => Some(Address { bytes: a.0 }),
        Err(_) => None,
    }
}

/// Big-endian bytes of a 64-bit nonce.
pub open spec fn be_bytes_u64(n: u64) -> Seq<u8> {
    seq![
        (n >> 56) as u8,
        (n >> 48) as u8,
        (n >> 40) as u8,
        (n >> 32) as u8,
        (n >> 24) as u8,
        (n >> 16) as u8,
        (n >> 8) as u8,
        n as u8,
    ]
}

fn push_be_bytes_u64(out: &mut Vec<u8>, n: u64)
    ensures
        final(out)@ == old(out)@ + be_bytes_u64(n),
{
    out.push(#[verifier::truncate] ((n >> 56) as u8));
    out.push(#[verifier::truncate] ((n >> 48) as u8));
    out.push(#[verifier::truncate] ((n >> 40) as u8));
    out.push(#[verifier::truncate] ((n >> 32) as u8));
    out.push(#[verifier::truncate] ((n >> 24) as u8));
    out.push(#[verifier::truncate] ((n >> 16) as u8));
    out.push(#[verifier::truncate] ((n >> 8) as u8));
    out.push(#[verifier::truncate] (n as u8));
    proof {
        assert(out@ =~= old(out)@ + be_bytes_u64(n));
    }
}

/// Preimage of the domain separator: the EIP-712-style domain type hash
/// text followed by the contract name and version bytes.
pub open spec fn domain_sep_preimage(name: Seq<u8>, version: Seq<u8>) -> Seq<u8> {
    "EIP712Domain(string name,string version)".spec_bytes() + name + version
}

/// Preimage of one proposal: the proposal type hash text, the origin
/// domain (1 byte), the deposit nonce (8 bytes big-endian), the resource
/// id (32 bytes) and the payload.
pub open spec fn proposal_preimage(p: Proposal) -> Seq<u8> {
    "Proposal(uint8 originDomainID,uint64 depositNonce,bytes32 resourceID,bytes data)".spec_bytes()
        + seq![p.origin_domain_id] + be_bytes_u64(p.deposit_nonce) + p.resource_id@ + p.data@
}

/// The digest of one proposal.
pub open spec fn proposal_digest(p: Proposal) -> Seq<u8> {
    sha256_of(proposal_preimage(p))
}

/// Concatenation of the per-proposal digests, in batch order.
pub open spec fn concat_proposal_digests(ps: Seq<Proposal>) -> Seq<u8>
    decreases ps.len(),
{
    if ps.len() == 0 {
        Seq::empty()
    } else {
        concat_proposal_digests(ps.drop_last()) + proposal_digest(ps.last())
    }
}

/// Preimage of the batch hash: the proposals type hash text followed by
/// the concatenated per-proposal digests.
pub open spec fn batch_preimage(ps: Seq<Proposal>) -> Seq<u8> {
    "Proposals(Proposal[] proposals)Proposal(uint8 originDomainID,uint64 depositNonce,bytes32 resourceID,bytes data)".spec_bytes()
        + concat_proposal_digests(ps)
}

/// The final typed-data digest: the domain separator bound to the batch
/// hash.
pub open spec fn typed_data_digest(domain_separator: Seq<u8>, ps: Seq<Proposal>) -> Seq<u8> {
    sha256_of(domain_separator + sha256_of(batch_preimage(ps)))
}

/// Holds the domain separator computed at construction and the installed
/// MPC signer identity; verifies typed-data signatures over batches.
pub struct BridgeCrypto {
    domain_separator: Bytes32,
    mpc_address: Option<Address>,
}

impl BridgeCrypto {
    /// The domain separator bytes.
    pub closed spec fn domain_separator_spec(&self) -> Seq<u8> {
        self.domain_separator@
    }

    /// The installed MPC signer identity, as bytes.
    pub closed spec fn mpc_view(&self) -> Option<Seq<u8>> {
        match self.mpc_address {
            Some(a) => Some(a@),
            None => None,
        }
    }

    /// A core whose domain separator binds the given name and version;
    /// no signer is installed yet.
    pub fn new(name: &str, version: &str) -> (r: BridgeCrypto)
        ensures
            r.domain_separator_spec() == sha256_of(
                domain_sep_preimage(name.spec_bytes(), version.spec_bytes()),
            ),
            r.mpc_view() is None,
    {
        let mut preimage: Vec<u8> = slice_to_vec(
            "EIP712Domain(string name,string version)".as_bytes(),
        );
        let mut name_bytes: Vec<u8> = slice_to_vec(name.as_bytes());
        let mut version_bytes: Vec<u8> = slice_to_vec(version.as_bytes());
        preimage.append(&mut name_bytes);
        preimage.append(&mut version_bytes);
        let domain_separator = sha256(&preimage);
        BridgeCrypto { domain_separator, mpc_address: None }
    }

    /// Installs the signer identity; the coordinator enforces the
    /// write-once rule before calling this.
    pub fn set_mpc_address(&mut self, address: Address)
        ensures
            final(self).mpc_view() == Some(address@),
            final(self).domain_separator_spec() == old(self).domain_separator_spec(),
    {
        self.mpc_address = Some(address);
    }

    /// The installed signer, if any.
    pub fn get_mpc_address(&self) -> (r: Option<Address>)
        ensures
            (match r {
                Some(a) => self.mpc_view() == Some(a@),
                None => self.mpc_view() is None,
            }),
    {
        self.mpc_address
    }

    /// Computes the typed-data digest binding the domain separator to the
    /// ordered array of per-proposal digests.
    pub fn hash_typed_data(&self, proposals: &Vec<Proposal>) -> (r: Result<Bytes32, BridgeError>)
        ensures
            (r matches Ok(d) && d@ == typed_data_digest(self.domain_separator_spec(), proposals@)),
    {
        let mut digests: Vec<u8> = Vec::new();
        let mut i: usize = 0;
        while i < proposals.len()
            invariant
                i <= proposals.len(),
                digests@ == concat_proposal_digests(proposals@.take(i as int)),
            decreases proposals.len() - i,
        {
            let p = &proposals[i];
            let mut preimage: Vec<u8> = slice_to_vec(
                "Proposal(uint8 originDomainID,uint64 depositNonce,bytes32 resourceID,bytes data)".as_bytes(),
            );
            preimage.push(p.origin_domain_id);
            push_be_bytes_u64(&mut preimage, p.deposit_nonce);
            let mut rid: Vec<u8> = slice_to_vec(p.resource_id.bytes.as_slice());
            preimage.append(&mut rid);
            let mut data: Vec<u8> = slice_to_vec(p.data.as_slice());
            preimage.append(&mut data);
            proof {
                assert(preimage@ =~= proposal_preimage(proposals@[i as int]));
            }
            let digest = sha256(&preimage);
            let mut digest_vec: Vec<u8> = slice_to_vec(digest.bytes.as_slice());
            digests.append(&mut digest_vec);
            i += 1;
            proof {
                assert(proposals@.take(i as int).drop_last() =~= proposals@.take(i - 1));
                assert(digests@ =~= concat_proposal_digests(proposals@.take(i as int)));
            }
        }
        proof {
            assert(proposals@.take(proposals@.len() as int) =~= proposals@);
        }
        let mut batch: Vec<u8> = slice_to_vec(
            "Proposals(Proposal[] proposals)Proposal(uint8 originDomainID,uint64 depositNonce,bytes32 resourceID,bytes data)".as_bytes(),
        );
        batch.append(&mut digests);
        proof {
            assert(batch@ =~= batch_preimage(proposals@));
        }
        let batch_hash = sha256(&batch);
        let mut outer: Vec<u8> = slice_to_vec(self.domain_separator.bytes.as_slice());
        let mut batch_hash_vec: Vec<u8> = slice_to_vec(batch_hash.bytes.as_slice());
        outer.append(&mut batch_hash_vec);
        proof {
            assert(outer@ =~= self.domain_separator_spec() + sha256_of(batch_preimage(proposals@)));
        }
        Ok(sha256(&outer))
    }

    /// Verifies a signature over the batch: true exactly when the address
    /// recovered from the typed-data digest is the installed signer.
    /// Fails when no signer has been installed.
    pub fn verify(&self, proposals: &Vec<Proposal>, signature: &Vec<u8>) -> (r: Result<
        bool,
        BridgeError,
    >)
        ensures
            (match self.mpc_view() {
                None => r matches Err(e) && e matches BridgeError::MPCAddressNotSet,
                Some(m) => r matches Ok(v) && v == (recovered_signer(
                    typed_data_digest(self.domain_separator_spec(), proposals@),
                    signature@,
                ) == Some(m)),
            }),
    {
        let mpc_address = match self.get_mpc_address() {
            Some(a) => a,
            None => {
                return Err(BridgeError::MPCAddressNotSet);
            },
        };
        let digest = match self.hash_typed_data(proposals) {
            Ok(d) => d,
            Err(e) => {
                return Err(e);
            },
        };
        match recover_signer(&digest, signature) {
            Some(recovered) => Ok(recovered.eq_bytes(&mpc_address)),
            None => Ok(false),
        }
    }
}

} // verus!

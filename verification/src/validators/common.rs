//! Types that all checks share.

use vstd::prelude::*;

verus! {

/// The network a transaction is meant for.
#[derive(Clone, Copy, Debug, PartialEq, Eq, Structural)]
pub enum NetworkType {
    Mainnet,
    Preview,
    Preprod,
}

/// Who may act: the holder of a key, or a script, each known by its hash.
#[derive(Debug)]
pub enum LocalCredential {
    KeyHash(Vec<u8>),
    ScriptHash(Vec<u8>),
}

/// A credential, with its hash taken by its view.
#[verifier::ext_equal]
pub enum CredentialView {
    KeyHash(Seq<u8>),
    ScriptHash(Seq<u8>),
}

impl View for LocalCredential {
    type V = CredentialView;

    open spec fn view(&self) -> CredentialView {
        match *self {
            LocalCredential::KeyHash(hash) => CredentialView::KeyHash(hash@),
            LocalCredential::ScriptHash(hash) => CredentialView::ScriptHash(hash@),
        }
    }
}

/// The number of bytes in the hash of a key or of a script.
pub const HASH_LENGTH: usize = 28;

impl CredentialView {
    /// The hash.
    pub open spec fn hash(self) -> Seq<u8> {
        match self {
            CredentialView::KeyHash(hash) => hash,
            CredentialView::ScriptHash(hash) => hash,
        }
    }

    /// The hash has the length that the ledger gives it.
    pub open spec fn wf(self) -> bool {
        self.hash().len() == HASH_LENGTH
    }
}

/// Whether two byte strings are the same.
pub fn same_bytes(a: &Vec<u8>, b: &Vec<u8>) -> (same: bool)
    ensures
        same == (a@ == b@),
{
    if a.len() != b.len() {
        return false;
    }
    let mut i: usize = 0;
    while i < a.len()
        invariant
            i <= a@.len(),
            a@.len() == b@.len(),
            forall|j: int| 0 <= j < i ==> a@[j] == b@[j],
        decreases a@.len() - i,
    {
        if a[i] != b[i] {
            return false;
        }
        i = i + 1;
    }
    assert(a@ =~= b@);
    true
}

/// A copy of a byte string.
pub fn copy_bytes(bytes: &Vec<u8>) -> (copy: Vec<u8>)
    ensures
        copy@ == bytes@,
{
    let copy = bytes.clone();
    assert(copy@ =~= bytes@);
    copy
}

impl LocalCredential {
    /// A copy of the credential.
    pub fn copy(&self) -> (copy: LocalCredential)
        ensures
            copy@ == self@,
    {
        match self {
            LocalCredential::KeyHash(hash) => LocalCredential::KeyHash(copy_bytes(hash)),
            LocalCredential::ScriptHash(hash) => LocalCredential::ScriptHash(copy_bytes(hash)),
        }
    }

    /// Whether two credentials are the same.
    pub fn same(&self, other: &LocalCredential) -> (same: bool)
        ensures
            same == (self@ == other@),
    {
        match (self, other) {
            (LocalCredential::KeyHash(a), LocalCredential::KeyHash(b)) => same_bytes(a, b),
            (LocalCredential::ScriptHash(a), LocalCredential::ScriptHash(b)) => same_bytes(a, b),
            _ => false,
        }
    }
}

} // verus!

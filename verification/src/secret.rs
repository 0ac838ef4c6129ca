//! Bytes that are wiped from memory when they are dropped.

use vstd::prelude::*;
use zeroize::Zeroizing;

verus! {

/// A growable byte buffer inside zeroize's `Zeroizing`, which overwrites the
/// buffer when it is dropped. What the buffer holds is `secret@`. No contract
/// speaks of memory that was given back, so none states the overwriting.
#[derive(Debug, PartialEq, Eq)]
#[verifier::external_body]
pub struct SecretBytes {
    bytes: Zeroizing<Vec<u8>>,
}

/// The bytes that a secret holds.
pub uninterp spec fn secret_contents(secret: SecretBytes) -> Seq<u8>;

impl View for SecretBytes {
    type V = Seq<u8>;

    open spec fn view(&self) -> Seq<u8> {
        secret_contents(*self)
    }
}

/// Calls `Zeroizing::new`: the wrapper holds the value that it was given.
#[verifier::external_body]
fn zeroizing_new(bytes: Vec<u8>) -> (secret: SecretBytes)
    ensures
        secret_contents(secret) == bytes@,
{
    SecretBytes { bytes: Zeroizing::new(bytes) }
}

/// Calls `Zeroizing`'s `deref`: the borrowed value is the one inside.
#[verifier::external_body]
fn zeroizing_deref(secret: &SecretBytes) -> (bytes: &Vec<u8>)
    ensures
        bytes@ == secret_contents(*secret),
{
    &secret.bytes
}

/// Calls `Zeroizing`'s `deref_mut`: the borrowed value is the one inside, and
/// what the borrow leaves behind is what the wrapper then holds.
#[verifier::external_body]
fn zeroizing_deref_mut(secret: &mut SecretBytes) -> (bytes: &mut Vec<u8>)
    ensures
        bytes@ == secret_contents(*old(secret)),
        secret_contents(*final(secret)) == final(bytes)@,
{
    &mut secret.bytes
}

impl SecretBytes {
    /// An empty secret.
    pub fn new() -> (secret: Self)
        ensures
            secret@ == Seq::<u8>::empty(),
    {
        zeroizing_new(Vec::new())
    }

    /// The bytes, for reading.
    pub fn as_slice(&self) -> (bytes: &[u8])
        ensures
            bytes@ == self@,
    {
        zeroizing_deref(self).as_slice()
    }

    /// The buffer, for writing in place.
    pub fn bytes_mut(&mut self) -> (bytes: &mut Vec<u8>)
        ensures
            bytes@ == old(self)@,
            final(self)@ == final(bytes)@,
    {
        zeroizing_deref_mut(self)
    }
}

} // verus!

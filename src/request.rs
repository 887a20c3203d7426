//! Building the argument list of a matching request: the requester's key and
//! nonce, then every query entry, then every registry slot, in that order.

use arcium_anchor::ArgBuilder;
use vstd::prelude::*;
use crate::circuit::QUERY_BATCH;
use crate::error::PsiError;
use crate::registry::GlobalState;

verus! {

/// One entry of the argument list handed to the confidential-computation
/// provider.
#[derive(Clone, Copy, Debug)]
pub enum Argument {
    /// The requester's ephemeral x25519 public key, to which the result is
    /// re-encrypted.
    X25519Pubkey([u8; 32]),
    /// The nonce that goes with the public key.
    PlaintextU128(u128),
    /// A secret-shared 64-bit value, as its ciphertext.
    EncryptedU64([u8; 32]),
}

/// Each ciphertext as an encrypted argument, in order.
pub open spec fn encrypted_arguments(items: Seq<[u8; 32]>) -> Seq<Argument> {
    items.map_values(|c: [u8; 32]| Argument::EncryptedU64(c))
}

/// The full argument list: key, nonce, the query entries, then the registry slots.
pub open spec fn psi_arguments(
    pubkey: [u8; 32],
    nonce: u128,
    queries: Seq<[u8; 32]>,
    registry: Seq<[u8; 32]>,
) -> Seq<Argument> {
    seq![Argument::X25519Pubkey(pubkey), Argument::PlaintextU128(nonce)]
        + encrypted_arguments(queries) + encrypted_arguments(registry)
}

/// Appends each ciphertext of `items` as an encrypted argument.
fn push_encrypted(args: &mut Vec<Argument>, items: &[[u8; 32]])
    ensures
        final(args)@ == old(args)@ + encrypted_arguments(items@),
{
    let mut i: usize = 0;
    while i < items.len()
        invariant
            0 <= i <= items@.len(),
            args@ == old(args)@ + encrypted_arguments(items@.subrange(0, i as int)),
        decreases items@.len() - i,
    {
        args.push(Argument::EncryptedU64(items[i]));
        proof {
            assert(items@.subrange(0, i + 1) == items@.subrange(0, i as int).push(
                items@[i as int],
            ));
        }
        i = i + 1;
        assert(args@ =~= old(args)@ + encrypted_arguments(items@.subrange(0, i as int)));
    }
    assert(items@.subrange(0, items@.len() as int) == items@);
}

/// The argument list of a matching request for `user_contacts` against every slot
/// of `registry`. A batch whose length is not the circuit's is refused before
/// anything is built.
pub fn discover_contacts(
    user_contacts: &[[u8; 32]],
    registry: &GlobalState,
    pubkey: [u8; 32],
    nonce: u128,
) -> (r: Result<Vec<Argument>, PsiError>)
    ensures
        user_contacts@.len() != QUERY_BATCH ==> r == Err::<Vec<Argument>, PsiError>(
            PsiError::ShapeMismatch,
        ),
        user_contacts@.len() == QUERY_BATCH ==> r is Ok && r->Ok_0@ == psi_arguments(
            pubkey,
            nonce,
            user_contacts@,
            registry.encrypted_users@,
        ),
{
    if user_contacts.len() != QUERY_BATCH {
        return Err(PsiError::ShapeMismatch);
    }
    let mut args: Vec<Argument> = Vec::new();
    args.push(Argument::X25519Pubkey(pubkey));
    args.push(Argument::PlaintextU128(nonce));
    assert(args@ =~= seq![Argument::X25519Pubkey(pubkey), Argument::PlaintextU128(nonce)]);
    push_encrypted(&mut args, user_contacts);
    push_encrypted(&mut args, registry.encrypted_users.as_slice());
    Ok(args)
}

#[verifier::external_type_specification]
#[verifier::external_body]
pub struct ExArgBuilder(ArgBuilder);

/// The arguments that a provider argument builder holds, in the order they were
/// added.
pub uninterp spec fn builder_arguments(b: ArgBuilder) -> Seq<Argument>;

/// Relies on `arcium_anchor::ArgBuilder::new`: a builder that holds no argument.
#[verifier::external_body]
fn new_builder() -> (b: ArgBuilder)
    ensures
        builder_arguments(b) == Seq::<Argument>::empty(),
{
    ArgBuilder::new()
}

/// Relies on `arcium_anchor::ArgBuilder::x25519_pubkey`: appends the key as one
/// argument. Entries are indexed by a byte, hence the bound.
#[verifier::external_body]
fn builder_add_pubkey(b: ArgBuilder, key: [u8; 32]) -> (r: ArgBuilder)
    requires
        builder_arguments(b).len() < 255,
    ensures
        builder_arguments(r) == builder_arguments(b).push(Argument::X25519Pubkey(key)),
{
    b.x25519_pubkey(key)
}

/// Relies on `arcium_anchor::ArgBuilder::plaintext_u128`: appends the value as one
/// argument. Entries are indexed by a byte, hence the bound.
#[verifier::external_body]
fn builder_add_u128(b: ArgBuilder, value: u128) -> (r: ArgBuilder)
    requires
        builder_arguments(b).len() < 255,
    ensures
        builder_arguments(r) == builder_arguments(b).push(Argument::PlaintextU128(value)),
{
    b.plaintext_u128(value)
}

/// Relies on `arcium_anchor::ArgBuilder::encrypted_u64`: appends the ciphertext as
/// one argument. Entries are indexed by a byte, hence the bound.
#[verifier::external_body]
fn builder_add_encrypted_u64(b: ArgBuilder, ciphertext: [u8; 32]) -> (r: ArgBuilder)
    requires
        builder_arguments(b).len() < 255,
    ensures
        builder_arguments(r) == builder_arguments(b).push(Argument::EncryptedU64(ciphertext)),
{
    b.encrypted_u64(ciphertext)
}

/// A provider argument builder that holds `args`, in order.
pub fn to_arg_builder(args: &[Argument]) -> (b: ArgBuilder)
    requires
        args@.len() < 256,
    ensures
        builder_arguments(b) == args@,
{
    let mut b = new_builder();
    let mut i: usize = 0;
    while i < args.len()
        invariant
            0 <= i <= args@.len(),
            args@.len() < 256,
            builder_arguments(b) == args@.subrange(0, i as int),
        decreases args@.len() - i,
    {
        b = match args[i] {
            Argument::X25519Pubkey(key) => builder_add_pubkey(b, key),
            Argument::PlaintextU128(value) => builder_add_u128(b, value),
            Argument::EncryptedU64(ciphertext) => builder_add_encrypted_u64(b, ciphertext),
        };
        proof {
            assert(args@.subrange(0, i + 1) == args@.subrange(0, i as int).push(args@[i as int]));
        }
        i = i + 1;
    }
    assert(args@.subrange(0, args@.len() as int) == args@);
    b
}

} // verus!

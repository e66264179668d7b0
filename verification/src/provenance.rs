//! Provenance: whether a metadata account is the registry's own record of a
//! token, and which creators that record names.
use vstd::prelude::*;
use crate::address::{
    address_bytes, metadata_address, metadata_address_of, metadata_program, spec_metadata_program,
};
use crate::error::EscrowError;
use crate::identity::Identity;
use anchor_lang::prelude::{AccountInfo, Pubkey};

verus! {

/// A metadata account as it is handed in: its address, the program that
/// owns it, and its bytes.
#[derive(Clone, Debug, PartialEq, Eq)]
pub struct MetadataAccount {
    pub key: Identity,
    pub owner: Identity,
    pub data: Vec<u8>,
}

/// One creator named by a token's metadata. `verified` says that the
/// creator signed for the token.
#[derive(Clone, Copy, Debug, PartialEq, Eq)]
pub struct Creator {
    pub address: Identity,
    pub verified: bool,
}

/// What the protocol reads of a token's metadata: the creators, where the
/// record names any.
#[derive(Clone, Debug, PartialEq, Eq)]
pub struct Metadata {
    pub creators: Option<Vec<Creator>>,
}

impl Creator {
    /// The creator with these bytes and this flag.
    pub fn new(bytes: [u8; 32], verified: bool) -> (creator: Creator)
        ensures
            creator.address@ == bytes@,
            creator.verified == verified,
    {
        Creator { address: Identity::new(bytes), verified }
    }
}

/// The creators as pairs of bytes and flag.
pub open spec fn creators_view(creators: Seq<Creator>) -> Seq<(Seq<u8>, bool)> {
    creators.map_values(|creator: Creator| (creator.address@, creator.verified))
}

/// What a decoded record says of creators, as pairs of bytes and flag: the
/// outer `None` where nothing was decoded, the inner where the record names
/// no creators.
pub open spec fn metadata_view(metadata: Option<Metadata>) -> Option<Option<Seq<(Seq<u8>, bool)>>> {
    match metadata {
        Some(metadata) => Some(
            match metadata.creators {
                Some(creators) => Some(creators_view(creators@)),
                None => None,
            },
        ),
        None => None,
    }
}

/// What `Metadata::from_account_info` of the metadata registry reads from
/// an account's bytes: nothing where it reports an error, else the record's
/// creators, where it names any.
pub uninterp spec fn decoded_creators(data: Seq<u8>) -> Option<Option<Seq<(Seq<u8>, bool)>>>;

/// Calls `Metadata::from_account_info` on an account that holds `data`.
/// Trusted: the result is what the function decodes from the bytes, each
/// creator with its address and its flag, and `None` where it reports an
/// error. The function reads nothing of the account but its bytes. It looks
/// at the first byte before anything else, so the bytes may not be empty.
#[verifier::external_body]
pub(crate) fn decode_metadata(data: &Vec<u8>) -> (metadata: Option<Metadata>)
    requires
        data@.len() > 0,
    ensures
        metadata_view(metadata) == decoded_creators(data@),
{
    let (mut lamports, mut bytes, nobody) = (0u64, data.clone(), Pubkey::default());
    let info = AccountInfo::new(&nobody, false, false, &mut lamports, &mut bytes, &nobody, false, 0);
    match metaplex_token_metadata::state::Metadata::from_account_info(&info) {
        Ok(found) => Some(Metadata {
            creators: found.data.creators.map(|list| {
                list.iter().map(|c| Creator::new(c.address.to_bytes(), c.verified)).collect()
            }),
        }),
        Err(_) => None,
    }
}

/// The account is owned by `registry` and stands at `expected`, the address
/// derived for the token.
pub open spec fn account_matches(
    account: MetadataAccount,
    registry: Seq<u8>,
    expected: Option<(Seq<u8>, u8)>,
) -> bool {
    &&& account.owner@ == registry
    &&& expected matches Some((address, _))
    &&& account.key@ == address
}

/// Accepts the account where it is owned by `registry` and stands at the
/// address in `expected`, and refuses it with `InvalidProvenance` where it
/// does not, or where no address was derived.
pub fn check_metadata_account(
    account: &MetadataAccount,
    registry: &Identity,
    expected: &Option<(Identity, u8)>,
) -> (r: Result<(), EscrowError>)
    ensures
        r is Ok <==> account_matches(*account, registry@, address_bytes(*expected)),
        r is Err ==> r == Err::<(), EscrowError>(EscrowError::InvalidProvenance),
{
    if !account.owner.same(registry) {
        return Err(EscrowError::InvalidProvenance);
    }
    match expected {
        Some((address, _)) => {
            if account.key.same(address) {
                Ok(())
            } else {
                Err(EscrowError::InvalidProvenance)
            }
        },
        None => Err(EscrowError::InvalidProvenance),
    }
}

/// What the registry says of the creators of `mint`, read from `account`:
/// nothing unless the account is the registry's own record of the token and
/// decodes; else its creators, where it names any.
pub open spec fn provenance(account: MetadataAccount, mint: Identity) -> Option<
    Option<Seq<(Seq<u8>, bool)>>,
> {
    match spec_metadata_program() {
        Some(registry) => if account_matches(account, registry, metadata_address_of(mint@, registry))
            && account.data@.len() > 0 {
            decoded_creators(account.data@)
        } else {
            None
        },
        None => None,
    }
}

/// Authenticates a metadata account and reads it. The account must be owned
/// by the metadata registry, stand at the address that the registry derives
/// for `gem_mint`, and hold a record that decodes; else the call fails with
/// `InvalidProvenance`. On success the result holds the record's creators.
pub fn assert_valid_metadata(gem_metadata: &MetadataAccount, gem_mint: &Identity) -> (r: Result<
    Metadata,
    EscrowError,
>)
    ensures
        r is Ok <==> provenance(*gem_metadata, *gem_mint) is Some,
        r matches Ok(metadata) ==> metadata_view(Some(metadata)) == provenance(
            *gem_metadata,
            *gem_mint,
        ),
        r matches Err(e) ==> e == EscrowError::InvalidProvenance,
{
    let registry = match metadata_program() {
        Some(registry) => registry,
        None => {
            return Err(EscrowError::InvalidProvenance);
        },
    };
    let expected = metadata_address(gem_mint, &registry);
    if check_metadata_account(gem_metadata, &registry, &expected).is_err() {
        return Err(EscrowError::InvalidProvenance);
    }
    if gem_metadata.data.len() == 0 {
        return Err(EscrowError::InvalidProvenance);
    }
    match decode_metadata(&gem_metadata.data) {
        Some(metadata) => Ok(metadata),
        None => Err(EscrowError::InvalidProvenance),
    }
}

} // verus!

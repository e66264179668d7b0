//! The whitelist: a token may redeem when one of its creators signed for it
//! and is approved by the escrow.
use vstd::prelude::*;
use crate::error::EscrowError;
use crate::identity::Identity;
use crate::provenance::{creators_view, Creator, Metadata};
use crate::state::EscrowAccount;

verus! {

/// The identities as sequences of bytes.
pub open spec fn identities_view(ids: Seq<Identity>) -> Seq<Seq<u8>> {
    ids.map_values(|id: Identity| id@)
}

/// The creator signed for the token and is one of `approved`.
pub open spec fn approved_creator(creator: (Seq<u8>, bool), approved: Seq<Seq<u8>>) -> bool {
    creator.1 && approved.contains(creator.0)
}

/// At least one of the creators signed for the token and is one of
/// `approved`. A creator that did not sign counts for nothing, whoever it
/// is.
pub open spec fn has_approved_creator(
    creators: Seq<(Seq<u8>, bool)>,
    approved: Seq<Seq<u8>>,
) -> bool {
    exists|i: int| 0 <= i < creators.len() && approved_creator(#[trigger] creators[i], approved)
}

/// At least one of the creators signed for the token and is `whitelist_a`
/// or `whitelist_b`.
pub open spec fn eligible(
    creators: Seq<(Seq<u8>, bool)>,
    whitelist_a: Seq<u8>,
    whitelist_b: Seq<u8>,
) -> bool {
    exists|i: int|
        0 <= i < creators.len() && (#[trigger] creators[i]).1 && (creators[i].0 == whitelist_a
            || creators[i].0 == whitelist_b)
}

/// The creators that a record names: none where it names none.
pub open spec fn listed(creators: Option<Seq<(Seq<u8>, bool)>>) -> Seq<(Seq<u8>, bool)> {
    match creators {
        Some(creators) => creators,
        None => Seq::empty(),
    }
}

/// With two approved identities, "one of the approved" is "the first or the
/// second".
pub proof fn lemma_eligible_is_approved(
    creators: Seq<(Seq<u8>, bool)>,
    whitelist_a: Seq<u8>,
    whitelist_b: Seq<u8>,
)
    ensures
        eligible(creators, whitelist_a, whitelist_b) == has_approved_creator(
            creators,
            seq![whitelist_a, whitelist_b],
        ),
{
    let approved = seq![whitelist_a, whitelist_b];
    if eligible(creators, whitelist_a, whitelist_b) {
        let i = choose|i: int|
            0 <= i < creators.len() && (#[trigger] creators[i]).1 && (creators[i].0 == whitelist_a
                || creators[i].0 == whitelist_b);
        assert(approved[0] == whitelist_a && approved[1] == whitelist_b);
        assert(approved_creator(creators[i], approved));
    }
    if has_approved_creator(creators, approved) {
        let i = choose|i: int|
            0 <= i < creators.len() && approved_creator(#[trigger] creators[i], approved);
        let j = choose|j: int| 0 <= j < approved.len() && approved[j] == creators[i].0;
        assert(creators[i].1 && (creators[i].0 == whitelist_a || creators[i].0 == whitelist_b));
    }
}

/// Whether `address` is one of `approved`.
pub fn is_approved(address: &Identity, approved: &Vec<Identity>) -> (r: bool)
    ensures
        r == identities_view(approved@).contains(address@),
{
    let ghost ids = identities_view(approved@);
    let mut j: usize = 0;
    while j < approved.len()
        invariant
            j <= approved.len(),
            ids == identities_view(approved@),
            forall|k: int| 0 <= k < j ==> ids[k] != address@,
        decreases approved.len() - j,
    {
        if address.same(&approved[j]) {
            assert(ids[j as int] == address@);
            return true;
        }
        j += 1;
    }
    false
}

/// Whether at least one of the creators signed for the token and is one of
/// `approved`.
pub fn any_approved(creators: &Vec<Creator>, approved: &Vec<Identity>) -> (r: bool)
    ensures
        r == has_approved_creator(creators_view(creators@), identities_view(approved@)),
{
    let ghost list = creators_view(creators@);
    let ghost ids = identities_view(approved@);
    let mut i: usize = 0;
    while i < creators.len()
        invariant
            i <= creators.len(),
            list == creators_view(creators@),
            ids == identities_view(approved@),
            forall|k: int| 0 <= k < i ==> !approved_creator(#[trigger] list[k], ids),
        decreases creators.len() - i,
    {
        let creator = &creators[i];
        assert(list[i as int] == (creator.address@, creator.verified));
        if creator.verified && is_approved(&creator.address, approved) {
            assert(approved_creator(list[i as int], ids));
            return true;
        }
        i += 1;
    }
    false
}

/// Whether at least one of the creators signed for the token and is
/// `whitelist_a` or `whitelist_b`.
pub fn is_eligible(creators: &Vec<Creator>, whitelist_a: &Identity, whitelist_b: &Identity) -> (r:
    bool)
    ensures
        r == eligible(creators_view(creators@), whitelist_a@, whitelist_b@),
{
    let approved: Vec<Identity> = vec![*whitelist_a, *whitelist_b];
    proof {
        assert(identities_view(approved@) =~= seq![whitelist_a@, whitelist_b@]);
        lemma_eligible_is_approved(creators_view(creators@), whitelist_a@, whitelist_b@);
    }
    any_approved(creators, &approved)
}

/// The creators that the record names, as pairs of bytes and flag.
pub open spec fn metadata_creators(metadata: Metadata) -> Seq<(Seq<u8>, bool)> {
    match metadata.creators {
        Some(creators) => creators_view(creators@),
        None => Seq::empty(),
    }
}

/// Accepts the token where one of its creators signed for it and is one of
/// the escrow's two whitelisted creators, and refuses it with
/// `CreatorNotWhitelisted` where none is: also where the record names no
/// creators at all.
pub fn assert_creators(metadata_mount: &Metadata, escrow_account: &EscrowAccount) -> (r: Result<
    (),
    EscrowError,
>)
    ensures
        r is Ok <==> eligible(
            metadata_creators(*metadata_mount),
            escrow_account.whitelist_creator_a@,
            escrow_account.whitelist_creator_b@,
        ),
        r is Err ==> r == Err::<(), EscrowError>(EscrowError::CreatorNotWhitelisted),
{
    let found = match &metadata_mount.creators {
        Some(creators) => is_eligible(
            creators,
            &escrow_account.whitelist_creator_a,
            &escrow_account.whitelist_creator_b,
        ),
        None => false,
    };
    if found {
        Ok(())
    } else {
        Err(EscrowError::CreatorNotWhitelisted)
    }
}

} // verus!

//! How the storage layers are opened: the options of the trie store, and
//! what the global state is seeded with when the store holds nothing yet.

use lmdb::DatabaseFlags;
use vstd::prelude::*;

verus! {

/// lmdb's `DatabaseFlags`: the options with which a database is opened.
#[verifier::external_type_specification]
#[verifier::external_body]
pub struct ExDatabaseFlags(DatabaseFlags);

/// The options that are set in the flags, each by its bit.
pub uninterp spec fn options_set(flags: DatabaseFlags) -> Set<u32>;

/// Calls `DatabaseFlags::empty`: the flags in which no option is set.
#[verifier::external_body]
fn empty_flags() -> (flags: DatabaseFlags)
    ensures
        options_set(flags) == Set::<u32>::empty(),
{
    DatabaseFlags::empty()
}

/// How the trie store is opened on its environment.
pub struct TrieStoreOptions {
    /// The name of the database that holds the store; `None` for the one
    /// unnamed database of the environment.
    pub name: Option<String>,
    /// The options of that database.
    pub flags: DatabaseFlags,
}

impl TrieStoreOptions {
    /// The options are the default ones: the unnamed database, with no
    /// option set.
    pub open spec fn is_default(&self) -> bool {
        &&& self.name is None
        &&& options_set(self.flags) == Set::<u32>::empty()
    }
}

/// The options with which the server opens its trie store: the defaults.
pub fn trie_store_options() -> (options: TrieStoreOptions)
    ensures
        options.is_default(),
{
    TrieStoreOptions { name: None, flags: empty_flags() }
}

/// The length of an account address in bytes.
pub const ACCOUNT_ADDRESS_LENGTH: usize = 20;

/// The byte that the seed account's address repeats: zero.
pub const SEED_ADDRESS_BYTE: u8 = 0;

/// The address of the one account that an empty store is seeded with:
/// twenty zero bytes.
pub open spec fn seed_address() -> Seq<u8> {
    Seq::new(ACCOUNT_ADDRESS_LENGTH as nat, |i: int| SEED_ADDRESS_BYTE)
}

/// The addresses of the accounts to seed: the one fixed account for a store
/// without a root, none for a store that has one.
pub open spec fn seed_for(has_root: bool) -> Seq<Seq<u8>> {
    if has_root {
        Seq::empty()
    } else {
        seq![seed_address()]
    }
}

/// What a store holds, by account address, once the given accounts have
/// been added to what it held.
pub open spec fn contents_after_seeding(existing: Set<Seq<u8>>, seed: Seq<Seq<u8>>) -> Set<
    Seq<u8>,
> {
    existing.union(seed.to_set())
}

/// Seeding an empty store that has no root leaves it with the seed account
/// and nothing else; seeding a store that has a root leaves it as it was.
pub proof fn lemma_seeded_once(existing: Set<Seq<u8>>)
    ensures
        existing =~= Set::empty() ==> contents_after_seeding(existing, seed_for(false)) == set![
            seed_address(),
        ],
        contents_after_seeding(existing, seed_for(true)) == existing,
{
    let one = seed_for(false);
    assert(one[0] == seed_address());
    assert(one.to_set() =~= set![seed_address()]);
    assert(seed_for(true).to_set() =~= Set::empty());
}

/// Each address as its bytes.
pub open spec fn addresses_view(addresses: Seq<[u8; 20]>) -> Seq<Seq<u8>> {
    Seq::new(addresses.len(), |i: int| addresses[i]@)
}

/// The address of the seed account.
pub fn seed_account_address() -> (address: [u8; 20])
    ensures
        address@ == seed_address(),
{
    [SEED_ADDRESS_BYTE; 20]
}

/// The accounts to seed the global state with, by address. A store without
/// a root gets the one fixed account and no other; a store that has a root
/// is not seeded again.
pub fn seed_accounts(has_root: bool) -> (addresses: Vec<[u8; 20]>)
    ensures
        addresses_view(addresses@) == seed_for(has_root),
{
    let mut addresses: Vec<[u8; 20]> = Vec::new();
    if !has_root {
        addresses.push(seed_account_address());
    }
    addresses
}

} // verus!

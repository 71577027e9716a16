//! The text that the node prints about its genesis state when it starts:
//! the predeployed contracts, the prefunded accounts, the accounts' seed and
//! the address of the JSON-RPC server.
use vstd::prelude::*;
use crate::felt::{Felt, lower_hex};

verus! {

/// A contract that the genesis state deploys.
#[derive(Clone, Copy, Debug, PartialEq, Eq)]
pub struct GenesisContract {
    pub address: Felt,
    pub class_hash: Felt,
}

/// An account that the genesis state funds.
#[derive(Clone, Copy, Debug, PartialEq, Eq)]
pub struct GenesisAccount {
    pub address: Felt,
    pub class_hash: Felt,
    pub public_key: Felt,
    /// Known only for accounts that the node derived from its seed.
    pub private_key: Option<Felt>,
}

/// `{:#x}` of a field element.
pub open spec fn hex(f: Felt) -> Seq<char> {
    lower_hex(f.bytes@, 1)
}

/// `{:#064x}` of a field element.
pub open spec fn hex_padded(f: Felt) -> Seq<char> {
    lower_hex(f.bytes@, 64)
}

/// The table of predeployed contracts: the fee token, the universal
/// deployer where there is one, and the class of the accounts where there is one.
pub open spec fn genesis_contracts_spec(
    fee_token: GenesisContract,
    universal_deployer: Option<GenesisContract>,
    account_class_hash: Option<Felt>,
) -> Seq<char> {
    "\nPREDEPLOYED CONTRACTS\n==================\n\n| Contract        | Fee Token\n| Address         | "@
        + hex(fee_token.address) + "\n| Class Hash      | "@ + hex_padded(fee_token.class_hash) + "\n"@
        + match universal_deployer {
            Some(udc) => "\n| Contract        | Universal Deployer\n| Address         | "@
                + hex(udc.address) + "\n| Class Hash      | "@ + hex_padded(udc.class_hash) + "\n"@,
            None => Seq::empty(),
        }
        + match account_class_hash {
            Some(hash) => "\n| Contract        | Account Contract\n| Class Hash      | "@
                + hex_padded(hash) + "\n"@,
            None => Seq::empty(),
        }
}

/// The rows of one prefunded account; the private key only where it is known.
pub open spec fn account_spec(account: GenesisAccount) -> Seq<char> {
    match account.private_key {
        Some(pk) => "\n| Account address |  "@ + hex(account.address) + "\n| Private key     |  "@
            + hex(pk) + "\n| Public key      |  "@ + hex(account.public_key) + "\n"@,
        None => "\n| Account address |  "@ + hex(account.address) + "\n| Public key      |  "@
            + hex(account.public_key) + "\n"@,
    }
}

/// The rows of the accounts, in their order.
pub open spec fn accounts_spec(accounts: Seq<GenesisAccount>) -> Seq<char>
    decreases accounts.len(),
{
    if accounts.len() == 0 {
        Seq::empty()
    } else {
        accounts_spec(accounts.drop_last()) + account_spec(accounts.last())
    }
}

/// The list of prefunded accounts under its heading.
pub open spec fn genesis_accounts_spec(accounts: Seq<GenesisAccount>) -> Seq<char> {
    "\n\nPREFUNDED ACCOUNTS\n==================\n"@ + accounts_spec(accounts)
}

/// The seed that the accounts were derived from, under its heading.
pub open spec fn seed_spec(seed: Seq<char>) -> Seq<char> {
    "\n\nACCOUNTS SEED\n=============\n"@ + seed + "\n    \n"@
}

/// The line that announces the JSON-RPC server.
pub open spec fn server_started_spec(url: Seq<char>) -> Seq<char> {
    "\n🚀 JSON-RPC server started: "@ + url + "\n\n\n"@
}

/// The whole introduction that the node prints in text mode.
pub open spec fn intro_spec(
    banner: Seq<char>,
    fee_token: GenesisContract,
    universal_deployer: Option<GenesisContract>,
    accounts: Seq<GenesisAccount>,
    seed: Seq<char>,
    url: Seq<char>,
) -> Seq<char> {
    banner + "\n"@ + genesis_contracts_spec(fee_token, universal_deployer, first_class_hash_spec(accounts))
        + genesis_accounts_spec(accounts) + seed_spec(seed) + server_started_spec(url)
}

/// The class hash of the first account, where there is one.
pub open spec fn first_class_hash_spec(accounts: Seq<GenesisAccount>) -> Option<Felt> {
    if accounts.len() == 0 {
        None
    } else {
        Some(accounts[0].class_hash)
    }
}

/// The rows of two lists of accounts, one after the other, are the rows of
/// the first list followed by those of the second.
pub proof fn lemma_accounts_rows_concatenate(first: Seq<GenesisAccount>, second: Seq<GenesisAccount>)
    ensures
        accounts_spec(first + second) == accounts_spec(first) + accounts_spec(second),
    decreases second.len(),
{
    if second.len() == 0 {
        assert(first + second =~= first);
        assert(accounts_spec(first) + accounts_spec(second) =~= accounts_spec(first));
    } else {
        lemma_accounts_rows_concatenate(first, second.drop_last());
        assert((first + second).drop_last() =~= first + second.drop_last());
        assert((first + second).last() == second.last());
        assert(accounts_spec(first + second) =~= accounts_spec(first) + accounts_spec(second));
    }
}


/// `part` stands somewhere in `whole`, as a run of consecutive characters.
pub open spec fn occurs_in(part: Seq<char>, whole: Seq<char>) -> bool {
    exists|i: int| 0 <= i && i + part.len() <= whole.len() && #[trigger] whole.subrange(i, i + part.len()) == part
}

proof fn lemma_occurs_between(before: Seq<char>, part: Seq<char>, after: Seq<char>)
    ensures
        occurs_in(part, before + part + after),
{
    let whole = before + part + after;
    assert(whole.subrange(before.len() as int, (before.len() + part.len()) as int) =~= part);
}

/// Giving the class of the accounts adds its rows at the end of the table of
/// predeployed contracts, whatever the fee token and the universal deployer;
/// giving none adds nothing.
pub proof fn lemma_account_class_rows_end_the_table(
    fee_token: GenesisContract,
    universal_deployer: Option<GenesisContract>,
    hash: Felt,
)
    ensures
        genesis_contracts_spec(fee_token, universal_deployer, Some(hash)) == genesis_contracts_spec(
            fee_token,
            universal_deployer,
            None,
        ) + "\n| Contract        | Account Contract\n| Class Hash      | "@ + lower_hex(hash.bytes@, 64)
            + "\n"@,
{
    assert(genesis_contracts_spec(fee_token, universal_deployer, Some(hash)) =~= genesis_contracts_spec(
        fee_token,
        universal_deployer,
        None,
    ) + "\n| Contract        | Account Contract\n| Class Hash      | "@ + lower_hex(hash.bytes@, 64)
        + "\n"@);
}

/// Giving a universal deployer adds its rows right after the fee token's,
/// before those of the accounts' class; the fee token's rows open the table.
pub proof fn lemma_universal_deployer_rows_follow_the_fee_token(
    fee_token: GenesisContract,
    deployer: GenesisContract,
    account_class_hash: Option<Felt>,
)
    ensures
        genesis_contracts_spec(fee_token, None, None)
            == "\nPREDEPLOYED CONTRACTS\n==================\n\n| Contract        | Fee Token\n| Address         | "@
            + lower_hex(fee_token.address.bytes@, 1) + "\n| Class Hash      | "@
            + lower_hex(fee_token.class_hash.bytes@, 64) + "\n"@,
        genesis_contracts_spec(fee_token, Some(deployer), account_class_hash) == genesis_contracts_spec(
            fee_token,
            None,
            None,
        ) + "\n| Contract        | Universal Deployer\n| Address         | "@ + lower_hex(deployer.address.bytes@, 1)
            + "\n| Class Hash      | "@ + lower_hex(deployer.class_hash.bytes@, 64) + "\n"@
            + (genesis_contracts_spec(fee_token, None, account_class_hash).subrange(
                genesis_contracts_spec(fee_token, None, None).len() as int,
                genesis_contracts_spec(fee_token, None, account_class_hash).len() as int,
            )),
{
    let base = genesis_contracts_spec(fee_token, None, None);
    let with_class = genesis_contracts_spec(fee_token, None, account_class_hash);
    assert(base =~= "\nPREDEPLOYED CONTRACTS\n==================\n\n| Contract        | Fee Token\n| Address         | "@
        + lower_hex(fee_token.address.bytes@, 1) + "\n| Class Hash      | "@
        + lower_hex(fee_token.class_hash.bytes@, 64) + "\n"@);
    let tail = match account_class_hash {
        Some(h) => "\n| Contract        | Account Contract\n| Class Hash      | "@ + hex_padded(h) + "\n"@,
        None => Seq::<char>::empty(),
    };
    assert(with_class =~= base + tail);
    assert(with_class.subrange(base.len() as int, with_class.len() as int) =~= tail);
    assert(genesis_contracts_spec(fee_token, Some(deployer), account_class_hash) =~= base
        + "\n| Contract        | Universal Deployer\n| Address         | "@ + lower_hex(deployer.address.bytes@, 1)
        + "\n| Class Hash      | "@ + lower_hex(deployer.class_hash.bytes@, 64) + "\n"@ + tail);
}

/// The introduction is the banner, then the table of predeployed contracts
/// for the given fee token, the given universal deployer and the first
/// account's class, then the whole list of accounts, the seed and the
/// server's line.
pub proof fn lemma_intro_is_its_parts(
    banner: Seq<char>,
    fee_token: GenesisContract,
    universal_deployer: Option<GenesisContract>,
    accounts: Seq<GenesisAccount>,
    seed: Seq<char>,
    url: Seq<char>,
)
    ensures
        intro_spec(banner, fee_token, universal_deployer, accounts, seed, url) == banner + "\n"@
            + genesis_contracts_spec(
            fee_token,
            universal_deployer,
            if accounts.len() == 0 {
                None
            } else {
                Some(accounts[0].class_hash)
            },
        ) + "\n\nPREFUNDED ACCOUNTS\n==================\n"@ + accounts_spec(accounts)
            + "\n\nACCOUNTS SEED\n=============\n"@ + seed + "\n    \n"@ + "\n🚀 JSON-RPC server started: "@
            + url + "\n\n\n"@,
{
    assert(intro_spec(banner, fee_token, universal_deployer, accounts, seed, url) =~= banner + "\n"@
        + genesis_contracts_spec(
        fee_token,
        universal_deployer,
        if accounts.len() == 0 {
            None
        } else {
            Some(accounts[0].class_hash)
        },
    ) + "\n\nPREFUNDED ACCOUNTS\n==================\n"@ + accounts_spec(accounts)
        + "\n\nACCOUNTS SEED\n=============\n"@ + seed + "\n    \n"@ + "\n🚀 JSON-RPC server started: "@
        + url + "\n\n\n"@);
}

/// Where a universal deployer is given, the introduction shows its address
/// and its padded class hash.
pub proof fn lemma_intro_shows_the_universal_deployer(
    banner: Seq<char>,
    fee_token: GenesisContract,
    deployer: GenesisContract,
    accounts: Seq<GenesisAccount>,
    seed: Seq<char>,
    url: Seq<char>,
)
    ensures
        occurs_in(
            "\n| Contract        | Universal Deployer\n| Address         | "@ + lower_hex(deployer.address.bytes@, 1)
                + "\n| Class Hash      | "@ + lower_hex(deployer.class_hash.bytes@, 64) + "\n"@,
            intro_spec(banner, fee_token, Some(deployer), accounts, seed, url),
        ),
{
    let rows = "\n| Contract        | Universal Deployer\n| Address         | "@ + lower_hex(deployer.address.bytes@, 1)
        + "\n| Class Hash      | "@ + lower_hex(deployer.class_hash.bytes@, 64) + "\n"@;
    let class = first_class_hash_spec(accounts);
    let before = banner + "\n"@ + genesis_contracts_spec(fee_token, None, None);
    let tail = match class {
        Some(h) => "\n| Contract        | Account Contract\n| Class Hash      | "@ + hex_padded(h) + "\n"@,
        None => Seq::<char>::empty(),
    };
    let after = tail + genesis_accounts_spec(accounts) + seed_spec(seed) + server_started_spec(url);
    assert(intro_spec(banner, fee_token, Some(deployer), accounts, seed, url) =~= before + rows + after);
    lemma_occurs_between(before, rows, after);
}

/// An account's rows: its address, its private key exactly where it is
/// known, and its public key; one account more adds its rows at the end.
pub proof fn lemma_account_rows(accounts: Seq<GenesisAccount>, account: GenesisAccount)
    ensures
        account.private_key matches Some(pk) ==> account_spec(account) == "\n| Account address |  "@
            + lower_hex(account.address.bytes@, 1) + "\n| Private key     |  "@ + lower_hex(pk.bytes@, 1)
            + "\n| Public key      |  "@ + lower_hex(account.public_key.bytes@, 1) + "\n"@,
        account.private_key is None ==> account_spec(account) == "\n| Account address |  "@
            + lower_hex(account.address.bytes@, 1) + "\n| Public key      |  "@
            + lower_hex(account.public_key.bytes@, 1) + "\n"@,
        genesis_accounts_spec(accounts.push(account)) == genesis_accounts_spec(accounts) + account_spec(account),
        genesis_accounts_spec(Seq::empty()) == "\n\nPREFUNDED ACCOUNTS\n==================\n"@,
{
    assert(accounts.push(account).drop_last() =~= accounts);
    assert(genesis_accounts_spec(accounts.push(account)) =~= genesis_accounts_spec(accounts) + account_spec(account));
    assert(genesis_accounts_spec(Seq::empty()) =~= "\n\nPREFUNDED ACCOUNTS\n==================\n"@);
}

/// The rows of the accounts are those before account `k`, then account
/// `k`'s, then those after.
proof fn lemma_accounts_rows_around(accounts: Seq<GenesisAccount>, k: int)
    requires
        0 <= k < accounts.len(),
    ensures
        accounts_spec(accounts) == accounts_spec(accounts.take(k)) + account_spec(accounts[k])
            + accounts_spec(accounts.skip(k + 1)),
{
    let first = accounts.take(k);
    let rest = accounts.skip(k + 1);
    let single = seq![accounts[k]];
    assert(accounts =~= first + (single + rest));
    lemma_accounts_rows_concatenate(first, single + rest);
    lemma_accounts_rows_concatenate(single, rest);
    assert(single.drop_last() =~= Seq::<GenesisAccount>::empty());
    assert(accounts_spec(Seq::<GenesisAccount>::empty()) == Seq::<char>::empty());
    assert(accounts_spec(single) =~= account_spec(accounts[k]));
    assert(accounts_spec(accounts) =~= accounts_spec(first) + account_spec(accounts[k]) + accounts_spec(rest));
}

/// The rows of an account open with its address row.
proof fn lemma_account_rows_open_with_address(account: GenesisAccount)
    ensures
        account_spec(account) == "\n| Account address |  "@ + lower_hex(account.address.bytes@, 1)
            + account_spec(account).subrange(
            ("\n| Account address |  "@ + lower_hex(account.address.bytes@, 1)).len() as int,
            account_spec(account).len() as int,
        ),
{
    let row = "\n| Account address |  "@ + lower_hex(account.address.bytes@, 1);
    let row_rest = match account.private_key {
        Some(pk) => "\n| Private key     |  "@ + hex(pk) + "\n| Public key      |  "@ + hex(account.public_key)
            + "\n"@,
        None => "\n| Public key      |  "@ + hex(account.public_key) + "\n"@,
    };
    assert(account_spec(account) =~= row + row_rest);
    assert(account_spec(account).subrange(row.len() as int, account_spec(account).len() as int) =~= row_rest);
}

/// The introduction lists every account: for each one, its address row.
pub proof fn lemma_intro_lists_every_account(
    banner: Seq<char>,
    fee_token: GenesisContract,
    universal_deployer: Option<GenesisContract>,
    accounts: Seq<GenesisAccount>,
    seed: Seq<char>,
    url: Seq<char>,
    k: int,
)
    requires
        0 <= k < accounts.len(),
    ensures
        occurs_in(
            "\n| Account address |  "@ + lower_hex(accounts[k].address.bytes@, 1),
            intro_spec(banner, fee_token, universal_deployer, accounts, seed, url),
        ),
{
    let row = "\n| Account address |  "@ + lower_hex(accounts[k].address.bytes@, 1);
    let acc = account_spec(accounts[k]);
    let row_rest = acc.subrange(row.len() as int, acc.len() as int);
    lemma_accounts_rows_around(accounts, k);
    lemma_account_rows_open_with_address(accounts[k]);
    let head = banner + "\n"@ + genesis_contracts_spec(fee_token, universal_deployer, first_class_hash_spec(accounts))
        + "\n\nPREFUNDED ACCOUNTS\n==================\n"@;
    let before = head + accounts_spec(accounts.take(k));
    let after = row_rest + accounts_spec(accounts.skip(k + 1)) + seed_spec(seed) + server_started_spec(url);
    let intro = intro_spec(banner, fee_token, universal_deployer, accounts, seed, url);
    assert(intro == head + accounts_spec(accounts) + seed_spec(seed) + server_started_spec(url)) by {
        assert(intro =~= head + accounts_spec(accounts) + seed_spec(seed) + server_started_spec(url));
    }
    assert(intro =~= before + row + after);
    lemma_occurs_between(before, row, after);
}

/// The class hash of the first account, which the table of predeployed
/// contracts shows as the account contract's.
pub fn account_class_hash(accounts: &Vec<GenesisAccount>) -> (r: Option<Felt>)
    ensures
        r == first_class_hash_spec(accounts@),
{
    if accounts.len() == 0 {
        None
    } else {
        Some(accounts[0].class_hash)
    }
}

/// The table of predeployed contracts.
pub fn genesis_contracts_text(
    fee_token: &GenesisContract,
    universal_deployer: &Option<GenesisContract>,
    account_class_hash: Option<Felt>,
) -> (r: String)
    ensures
        r@ == genesis_contracts_spec(*fee_token, *universal_deployer, account_class_hash),
{
    let mut text = String::from_str(
        "\nPREDEPLOYED CONTRACTS\n==================\n\n| Contract        | Fee Token\n| Address         | ",
    );
    text.append(fee_token.address.to_hex().as_str());
    text.append("\n| Class Hash      | ");
    text.append(fee_token.class_hash.to_hex_padded().as_str());
    text.append("\n");
    let ghost head = text@;
    if let Some(udc) = universal_deployer {
        text.append("\n| Contract        | Universal Deployer\n| Address         | ");
        text.append(udc.address.to_hex().as_str());
        text.append("\n| Class Hash      | ");
        text.append(udc.class_hash.to_hex_padded().as_str());
        text.append("\n");
    }
    let ghost middle = text@;
    if let Some(hash) = account_class_hash {
        text.append("\n| Contract        | Account Contract\n| Class Hash      | ");
        text.append(hash.to_hex_padded().as_str());
        text.append("\n");
    }
    assert(text@ =~= genesis_contracts_spec(*fee_token, *universal_deployer, account_class_hash));
    text
}

/// The rows of one prefunded account.
fn account_text(account: &GenesisAccount) -> (r: String)
    ensures
        r@ == account_spec(*account),
{
    let mut text = String::from_str("\n| Account address |  ");
    text.append(account.address.to_hex().as_str());
    if let Some(pk) = &account.private_key {
        text.append("\n| Private key     |  ");
        text.append(pk.to_hex().as_str());
    }
    text.append("\n| Public key      |  ");
    text.append(account.public_key.to_hex().as_str());
    text.append("\n");
    assert(text@ =~= account_spec(*account));
    text
}

/// The list of prefunded accounts.
pub fn genesis_accounts_text(accounts: &Vec<GenesisAccount>) -> (r: String)
    ensures
        r@ == genesis_accounts_spec(accounts@),
{
    let mut rows = String::new();
    let mut i: usize = 0;
    while i < accounts.len()
        invariant
            i <= accounts.len(),
            rows@ == accounts_spec(accounts@.take(i as int)),
        decreases accounts.len() - i,
    {
        let row = account_text(&accounts[i]);
        rows.append(row.as_str());
        i = i + 1;
        assert(accounts@.take(i as int).drop_last() =~= accounts@.take(i - 1));
    }
    assert(accounts@.take(accounts.len() as int) =~= accounts@);
    let mut text = String::from_str("\n\nPREFUNDED ACCOUNTS\n==================\n");
    text.append(rows.as_str());
    text
}

/// The seed of the accounts, under its heading.
pub fn seed_text(seed: &str) -> (r: String)
    ensures
        r@ == seed_spec(seed@),
{
    let mut text = String::from_str("\n\nACCOUNTS SEED\n=============\n");
    text.append(seed);
    text.append("\n    \n");
    text
}

/// The line that announces the JSON-RPC server at `url`.
pub fn server_started_text(url: &str) -> (r: String)
    ensures
        r@ == server_started_spec(url@),
{
    let mut text = String::from_str("\n🚀 JSON-RPC server started: ");
    text.append(url);
    text.append("\n\n\n");
    text
}

/// The introduction that the node prints in text mode: the banner, the
/// predeployed contracts, the prefunded accounts, their seed, and the
/// address of the JSON-RPC server.
pub fn intro_text(
    banner: &str,
    fee_token: &GenesisContract,
    universal_deployer: &Option<GenesisContract>,
    accounts: &Vec<GenesisAccount>,
    seed: &str,
    url: &str,
) -> (r: String)
    ensures
        r@ == intro_spec(banner@, *fee_token, *universal_deployer, accounts@, seed@, url@),
{
    let mut text = String::from_str(banner);
    text.append("\n");
    let class_hash = account_class_hash(accounts);
    text.append(genesis_contracts_text(fee_token, universal_deployer, class_hash).as_str());
    text.append(genesis_accounts_text(accounts).as_str());
    text.append(seed_text(seed).as_str());
    text.append(server_started_text(url).as_str());
    text
}

} // verus!

use vstd::prelude::*;
use vstd::string::StringExecFns;
use crate::account::AccountId;

verus! {

/// Identifier of a token; `U8(1)` and `U16(1)` are different identifiers.
#[derive(Clone, Debug, PartialEq, Eq, PartialOrd, Ord)]
pub enum Id {
    U8(u8),
    U16(u16),
    U32(u32),
    U64(u64),
    U128(u128),
    Bytes(Vec<u8>),
}

/// Event recorded when a token moves; a mint has no `from`, a burn no `to`.
#[derive(Clone, Debug)]
pub struct Transfer {
    pub from: Option<AccountId>,
    pub to: Option<AccountId>,
    pub id: Id,
}

/// The event that records a move of token `id` from `from` to `to`.
pub fn _emit_transfer_event(from: Option<AccountId>, to: Option<AccountId>, id: Id) -> (r: Transfer)
    ensures
        r.from == from,
        r.to == to,
        r.id == id,
{
    Transfer { from, to, id }
}

/// Why the token collection refused a request.
#[derive(Clone, Copy, Debug, PartialEq, Eq, Structural)]
pub enum LedgerError {
    /// The collection already holds its maximum supply.
    CollectionFull,
    /// Only the collection's owner may do this.
    CallerIsNotOwner,
    /// No token has the identifier asked for.
    TokenNotExists,
    /// A token with that identifier already exists.
    TokenExists,
    /// Any other refusal.
    Other,
}

/// Name the collection starts with.
pub const COLLECTION_NAME: &'static str = "Wizard34";

/// Symbol the collection starts with.
pub const COLLECTION_SYMBOL: &'static str = "WZ34";

/// Base of the token URIs the collection starts with.
pub const COLLECTION_BASE_URI: &'static str =
    "https://bafybeibwbgwzqigw7touxmixxvkd3wfcf2rcljgbt75na7rwwnw4ojgljy.ipfs.nftstorage.link/";

/// The character of decimal digit `d`.
pub open spec fn digit_char(d: int) -> char {
    seq!['0', '1', '2', '3', '4', '5', '6', '7', '8', '9'][d]
}

/// The decimal notation of `n`, without leading zeros.
pub open spec fn decimal(n: nat) -> Seq<char>
    decreases n,
{
    if n < 10 {
        seq![digit_char(n as int)]
    } else {
        decimal(n / 10) + seq![digit_char((n % 10) as int)]
    }
}

/// The URI of a token: the collection's base URI, the token's number, `.json`.
pub open spec fn token_uri_of(base: Seq<char>, token_id: u64) -> Seq<char> {
    base + decimal(token_id as nat) + seq!['.', 'j', 's', 'o', 'n']
}

fn digit_str(d: u64) -> (r: &'static str)
    requires
        d < 10,
    ensures
        r@ == seq![digit_char(d as int)],
{
    if d == 0 {
        proof { reveal_strlit("0"); }
        "0"
    } else if d == 1 {
        proof { reveal_strlit("1"); }
        "1"
    } else if d == 2 {
        proof { reveal_strlit("2"); }
        "2"
    } else if d == 3 {
        proof { reveal_strlit("3"); }
        "3"
    } else if d == 4 {
        proof { reveal_strlit("4"); }
        "4"
    } else if d == 5 {
        proof { reveal_strlit("5"); }
        "5"
    } else if d == 6 {
        proof { reveal_strlit("6"); }
        "6"
    } else if d == 7 {
        proof { reveal_strlit("7"); }
        "7"
    } else if d == 8 {
        proof { reveal_strlit("8"); }
        "8"
    } else {
        proof { reveal_strlit("9"); }
        "9"
    }
}

/// The decimal notation of `n`.
pub fn decimal_string(n: u64) -> (r: String)
    ensures
        r@ == decimal(n as nat),
    decreases n,
{
    if n < 10 {
        String::from_str(digit_str(n))
    } else {
        let mut s = decimal_string(n / 10);
        s.append(digit_str(n % 10));
        s
    }
}

/// The parts of the token collection's rules that do not touch its storage.
pub struct Wizard {
    max_supply: u64,
}

impl Wizard {
    /// The most tokens this collection will ever hold.
    pub closed spec fn supply_cap(&self) -> u64 {
        self.max_supply
    }

    /// A collection that holds at most `max_supply` tokens.
    pub fn new(max_supply: u64) -> (r: Wizard)
        ensures
            r.supply_cap() == max_supply,
    {
        Wizard { max_supply }
    }

    /// The most tokens this collection will ever hold.
    pub fn max_supply(&self) -> (r: u64)
        ensures
            r == self.supply_cap(),
    {
        self.max_supply
    }

    /// Whether a mint may go ahead: only the owner mints, and only below the cap.
    pub fn check_mint(&self, caller_is_owner: bool, total_supply: u128) -> (r: Result<(), LedgerError>)
        ensures
            !caller_is_owner ==> r == Err::<(), LedgerError>(LedgerError::CallerIsNotOwner),
            caller_is_owner && total_supply >= self.supply_cap() ==> r == Err::<(), LedgerError>(
                LedgerError::CollectionFull,
            ),
            caller_is_owner && total_supply < self.supply_cap() ==> r == Ok::<(), LedgerError>(()),
    {
        if !caller_is_owner {
            Err(LedgerError::CallerIsNotOwner)
        } else if total_supply >= self.max_supply as u128 {
            Err(LedgerError::CollectionFull)
        } else {
            Ok(())
        }
    }

    /// The URI of token `token_id`, given whether it exists and the base URI.
    pub fn token_uri(&self, token_id: u64, token_exists: bool, base_uri: Option<String>) -> (r: Result<String, LedgerError>)
        requires
            token_exists ==> base_uri is Some,
        ensures
            !token_exists ==> r == Err::<String, LedgerError>(LedgerError::TokenNotExists),
            token_exists ==> r is Ok && r->Ok_0@ == token_uri_of(base_uri->Some_0@, token_id),
    {
        if !token_exists {
            return Err(LedgerError::TokenNotExists);
        }
        match base_uri {
            Some(base) => {
                let mut uri = base;
                let digits = decimal_string(token_id);
                uri.append(digits.as_str());
                proof { reveal_strlit(".json"); }
                uri.append(".json");
                Ok(uri)
            },
            None => Err(LedgerError::TokenNotExists),
        }
    }

    /// The name of token `token_id`: the collection's name, or empty when none is set.
    pub fn token_name(&self, token_exists: bool, name: Option<String>) -> (r: Result<String, LedgerError>)
        ensures
            !token_exists ==> r == Err::<String, LedgerError>(LedgerError::TokenNotExists),
            token_exists ==> r is Ok && r->Ok_0@ == attribute_or_empty(name),
    {
        if !token_exists {
            return Err(LedgerError::TokenNotExists);
        }
        or_empty(name)
    }

    /// The symbol of token `token_id`: the collection's symbol, or empty when none is set.
    pub fn token_symbol(&self, token_exists: bool, symbol: Option<String>) -> (r: Result<String, LedgerError>)
        ensures
            !token_exists ==> r == Err::<String, LedgerError>(LedgerError::TokenNotExists),
            token_exists ==> r is Ok && r->Ok_0@ == attribute_or_empty(symbol),
    {
        if !token_exists {
            return Err(LedgerError::TokenNotExists);
        }
        or_empty(symbol)
    }
}

/// The text of an attribute, empty where it is not set.
pub open spec fn attribute_or_empty(v: Option<String>) -> Seq<char> {
    match v {
        Some(s) => s@,
        None => Seq::empty(),
    }
}

fn or_empty(v: Option<String>) -> (r: Result<String, LedgerError>)
    ensures
        r is Ok && r->Ok_0@ == attribute_or_empty(v),
{
    match v {
        Some(s) => Ok(s),
        None => Ok(String::new()),
    }
}

} // verus!

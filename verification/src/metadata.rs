//! The metadata store: how many decimals an amount has, and the name and the
//! symbol of the token. It is written when the ledger is initialized.

use vstd::prelude::*;
use crate::error::TokenError;

verus! {

/// The metadata of a token, as a mathematical value.
pub struct Metadata {
    /// How many decimals an amount has.
    pub decimal: u32,
    /// The name of the token.
    pub name: Seq<char>,
    /// The symbol of the token.
    pub symbol: Seq<char>,
}

struct MetadataEntry {
    decimal: u32,
    name: String,
    symbol: String,
}

/// The metadata store.
pub struct MetadataStore {
    entry: Option<MetadataEntry>,
}

impl View for MetadataStore {
    type V = Option<Metadata>;

    /// The metadata, once written.
    closed spec fn view(&self) -> Option<Metadata> {
        match self.entry {
            Some(e) => Some(Metadata { decimal: e.decimal, name: e.name@, symbol: e.symbol@ }),
            None => None,
        }
    }
}

impl MetadataStore {
    /// A store in which nothing is written.
    pub fn new() -> (store: MetadataStore)
        ensures
            store@ is None,
    {
        MetadataStore { entry: None }
    }

    /// Writes the metadata, over what was there.
    pub fn write_metadata(&mut self, decimal: u32, name: String, symbol: String)
        ensures
            final(self)@ == Some(Metadata { decimal, name: name@, symbol: symbol@ }),
    {
        self.entry = Some(MetadataEntry { decimal, name, symbol });
    }

    /// The number of decimals; `NotInitialized` while nothing is written.
    pub fn read_decimal(&self) -> (res: Result<u32, TokenError>)
        ensures
            match self@ {
                Some(m) => res == Ok::<u32, TokenError>(m.decimal),
                None => res == Err::<u32, TokenError>(TokenError::NotInitialized),
            },
    {
        match &self.entry {
            Some(e) => Ok(e.decimal),
            None => Err(TokenError::NotInitialized),
        }
    }

    /// The name; `NotInitialized` while nothing is written.
    pub fn read_name(&self) -> (res: Result<String, TokenError>)
        ensures
            match self@ {
                Some(m) => res is Ok && res->Ok_0@ == m.name,
                None => res == Err::<String, TokenError>(TokenError::NotInitialized),
            },
    {
        match &self.entry {
            Some(e) => Ok(e.name.clone()),
            None => Err(TokenError::NotInitialized),
        }
    }

    /// The symbol; `NotInitialized` while nothing is written.
    pub fn read_symbol(&self) -> (res: Result<String, TokenError>)
        ensures
            match self@ {
                Some(m) => res is Ok && res->Ok_0@ == m.symbol,
                None => res == Err::<String, TokenError>(TokenError::NotInitialized),
            },
    {
        match &self.entry {
            Some(e) => Ok(e.symbol.clone()),
            None => Err(TokenError::NotInitialized),
        }
    }
}

} // verus!

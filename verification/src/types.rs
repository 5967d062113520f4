use vstd::prelude::*;

verus! {

/// A price with the moment it belongs to.
#[derive(Copy, Clone, Debug, PartialEq, Eq, Structural)]
pub struct PriceData {
    /// The price, as a fixed-point number.
    pub price: i128,
    /// The moment of the price.
    pub timestamp: u64,
}

/// A short symbolic name: a ticker or a currency code.
#[derive(Debug, PartialEq, Eq)]
pub struct Symbol {
    pub name: String,
}

impl View for Symbol {
    type V = Seq<char>;

    open spec fn view(&self) -> Seq<char> {
        self.name@
    }
}

impl Clone for Symbol {
    fn clone(&self) -> (copy: Symbol)
        ensures
            copy == *self,
    {
        Symbol { name: self.name.clone() }
    }
}

impl Symbol {
    /// The symbol with the given name.
    pub fn new(name: &str) -> (symbol: Symbol)
        ensures
            symbol@ == name@,
    {
        Symbol { name: name.to_owned() }
    }

    /// Whether the symbol has exactly the given name.
    pub fn is_named(&self, name: &str) -> (same: bool)
        ensures
            same == (self@ == name@),
    {
        let other = name.to_owned();
        self.name == other
    }

    /// Whether the symbol is the base currency, in which every price is
    /// expressed and whose own rate is one.
    pub fn is_base_currency(&self) -> (base: bool)
        ensures
            base == is_base_currency_name(self@),
    {
        self.is_named(BASE_CURRENCY)
    }
}

/// The name of the base currency.
pub const BASE_CURRENCY: &'static str = "USD";

/// Whether `name` is the name of the base currency.
pub open spec fn is_base_currency_name(name: Seq<char>) -> bool {
    name == BASE_CURRENCY@
}

/// The identity of an account or a contract on the chain, in its text form.
#[derive(Debug, PartialEq, Eq)]
pub struct Address {
    pub id: String,
}

impl Clone for Address {
    fn clone(&self) -> (copy: Address)
        ensures
            copy == *self,
    {
        Address { id: self.id.clone() }
    }
}

/// What a price is quoted for: a token of the chain, or anything else by
/// its ticker.
#[derive(Clone, Debug, PartialEq, Eq)]
pub enum Asset {
    Stellar(Address),
    Other(Symbol),
}

/// The settings an oracle is set up with.
#[derive(Clone, Debug, PartialEq, Eq)]
pub struct ConfigData {
    /// Who may administer the oracle.
    pub admin: Address,
    /// How long prices are kept, in milliseconds.
    pub period: u64,
    /// The asset in which prices are expressed.
    pub base_asset: Asset,
    /// The number of fractional digits of every fixed-point value.
    pub decimals: u32,
    /// The width of a time bucket, in milliseconds.
    pub resolution: u32,
    /// Where currency rates come from.
    pub fx_oracle_address: Address,
    /// The largest rise of a yield rate between two updates, in percent.
    pub max_yield_deviation_percent: u32,
}

} // verus!

//! Currencies and addresses the custody deals with.

use vstd::prelude::*;

verus! {

/// An ERC-20 token known to the custody.
pub struct Erc20Token {
    pub ticker: String,
    pub name: String,
    pub contract: String,
}

impl Clone for Erc20Token {
    fn clone(&self) -> (r: Self)
        ensures
            r == *self,
    {
        Erc20Token {
            ticker: self.ticker.clone(),
            name: self.name.clone(),
            contract: self.contract.clone(),
        }
    }
}

/// A currency the custody holds.
pub enum Currency {
    BTC,
    ETH,
    ERC20(Erc20Token),
}

/// A Bitcoin address in its textual form.
pub struct BtcAddress {
    pub addr: String,
}

/// An Ethereum account in its textual form.
pub struct EthAccount {
    pub account: String,
}

/// An account holding a given ERC-20 token.
pub struct Erc20 {
    pub token: Erc20Token,
    pub account: EthAccount,
}

/// An address in one of the currencies of the custody.
pub enum CurrencyAddress {
    BTC(BtcAddress),
    ETH(EthAccount),
    ERC20(Erc20),
}

impl Clone for BtcAddress {
    fn clone(&self) -> (r: Self)
        ensures
            r == *self,
    {
        BtcAddress { addr: self.addr.clone() }
    }
}

impl Clone for EthAccount {
    fn clone(&self) -> (r: Self)
        ensures
            r == *self,
    {
        EthAccount { account: self.account.clone() }
    }
}

impl Clone for Erc20 {
    fn clone(&self) -> (r: Self)
        ensures
            r == *self,
    {
        Erc20 { token: self.token.clone(), account: self.account.clone() }
    }
}

impl Clone for CurrencyAddress {
    fn clone(&self) -> (r: Self)
        ensures
            r == *self,
    {
        match self {
            CurrencyAddress::BTC(a) => CurrencyAddress::BTC(a.clone()),
            CurrencyAddress::ETH(a) => CurrencyAddress::ETH(a.clone()),
            CurrencyAddress::ERC20(a) => CurrencyAddress::ERC20(a.clone()),
        }
    }
}

impl CurrencyAddress {
    /// The currency an address belongs to.
    pub open spec fn currency_of(self) -> Currency {
        match self {
            CurrencyAddress::BTC(_) => Currency::BTC,
            CurrencyAddress::ETH(_) => Currency::ETH,
            CurrencyAddress::ERC20(e) => Currency::ERC20(e.token),
        }
    }

    /// The currency of this address.
    pub fn currency(&self) -> (c: Currency)
        ensures
            c == self.currency_of(),
    {
        match self {
            CurrencyAddress::BTC(_) => Currency::BTC,
            CurrencyAddress::ETH(_) => Currency::ETH,
            CurrencyAddress::ERC20(e) => Currency::ERC20(e.token.clone()),
        }
    }

    /// The Bitcoin address with the given text.
    pub fn btc(addr: String) -> (r: CurrencyAddress)
        ensures
            r == (CurrencyAddress::BTC(BtcAddress { addr })),
    {
        CurrencyAddress::BTC(BtcAddress { addr })
    }
}

} // verus!

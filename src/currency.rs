use vstd::prelude::*;

verus! {

/// Identifies an asset of the chain.
#[derive(Clone, Copy, Debug, PartialEq, Eq, Structural, PartialOrd, Ord)]
pub enum NewCurrencyId {
    /// A single token, by its symbol; symbol 0 is the native token.
    Token(u64),
    /// A liquidity pair of two tokens.
    LPToken(u64, u64),
}

impl NewCurrencyId {
    /// The identifier names a single token.
    pub fn is_token(&self) -> (r: bool)
        ensures
            r == self is Token,
    {
        matches!(self, NewCurrencyId::Token(_))
    }

    /// The identifier names a liquidity pair.
    pub fn is_lp_token(&self) -> (r: bool)
        ensures
            r == self is LPToken,
    {
        matches!(self, NewCurrencyId::LPToken(_, _))
    }

    /// The identifier names the native token, `Token(0)`.
    pub fn is_native_token(&self) -> (r: bool)
        ensures
            r == (*self == NewCurrencyId::Token(0)),
    {
        if let NewCurrencyId::Token(symbol) = self {
            *symbol == 0
        } else {
            false
        }
    }

    /// The kind of asset as a number: 0 for a token, 1 for a liquidity pair.
    pub fn type_index(&self) -> (r: u64)
        ensures
            r == (if self is Token { 0u64 } else { 1u64 }),
    {
        match self {
            NewCurrencyId::Token(_) => 0,
            NewCurrencyId::LPToken(_, _) => 1,
        }
    }
}

impl Default for NewCurrencyId {
    /// The native token.
    fn default() -> (r: NewCurrencyId)
        ensures
            r == NewCurrencyId::Token(0),
    {
        NewCurrencyId::Token(0)
    }
}

/// The chain's own parachain id, carried by every asset id it issues.
pub const PARA_CHAIN_ID: u32 = 2000;

/// Asset type of the DEX for a chain's native currency.
pub const NATIVE: u8 = 0;

/// Asset type of the DEX for any other asset of a chain.
pub const LOCAL: u8 = 2;

/// An asset as the DEX names it: the chain that issues it, its type and an
/// index within that chain.
#[derive(Clone, Copy, Debug, PartialEq, Eq, Structural, PartialOrd, Ord)]
pub struct NewZenlinkAssetId {
    pub chain_id: u32,
    pub asset_type: u8,
    pub asset_index: u64,
}

/// The DEX index of a liquidity pair: its type index 1 in bits 8..16 and the
/// two symbols shifted to bits 16 and 24, added modulo 2^64.
pub open spec fn lp_asset_index(symbol0: u64, symbol1: u64) -> u64 {
    ((256 + (symbol0 << 16u64) as int + (symbol1 << 24u64) as int) % (u64::MAX as int + 1)) as u64
}

/// The DEX asset id of a currency id of this chain.
pub open spec fn zenlink_asset_of(currency_id: NewCurrencyId) -> NewZenlinkAssetId {
    match currency_id {
        NewCurrencyId::Token(symbol) => NewZenlinkAssetId {
            chain_id: PARA_CHAIN_ID,
            asset_type: if symbol == 0 { NATIVE } else { LOCAL },
            asset_index: symbol,
        },
        NewCurrencyId::LPToken(symbol0, symbol1) => NewZenlinkAssetId {
            chain_id: PARA_CHAIN_ID,
            asset_type: LOCAL,
            asset_index: lp_asset_index(symbol0, symbol1),
        },
    }
}

/// The currency id that a DEX asset id denotes: only ids of this chain do, with
/// type index 0 (a token, symbol in bits 0..8) or 1 (a pair, symbols in bits
/// 16..24 and 24..32).
pub open spec fn currency_of_zenlink(asset_id: NewZenlinkAssetId) -> Option<NewCurrencyId> {
    let index = asset_id.asset_index;
    if asset_id.chain_id != PARA_CHAIN_ID {
        None
    } else if (index & 0xff00) >> 8u64 == 0 {
        Some(NewCurrencyId::Token(index & 0xff))
    } else if (index & 0xff00) >> 8u64 == 1 {
        Some(NewCurrencyId::LPToken((index & 0xff_0000) >> 16u64, (index & 0xff00_0000) >> 24u64))
    } else {
        None
    }
}

impl TryFrom<NewCurrencyId> for NewZenlinkAssetId {
    type Error = ();

    fn try_from(currency_id: NewCurrencyId) -> (r: Result<NewZenlinkAssetId, ()>) {
        match currency_id {
            NewCurrencyId::Token(symbol) => {
                let asset_type = if symbol == 0 {
                    NATIVE
                } else {
                    LOCAL
                };
                Ok(NewZenlinkAssetId { chain_id: PARA_CHAIN_ID, asset_type, asset_index: symbol })
            },
            NewCurrencyId::LPToken(symbol0, symbol1) => {
                let kind = currency_id.type_index() << 8u64;
                let partial = kind.wrapping_add(symbol0 << 16u64);
                let asset_index = partial.wrapping_add(symbol1 << 24u64);
                proof {
                    let m = u64::MAX as int + 1;
                    assert(1u64 << 8u64 == 256) by (bit_vector);
                    vstd::arithmetic::div_mod::lemma_add_mod_noop(
                        256 + (symbol0 << 16u64) as int,
                        (symbol1 << 24u64) as int,
                        m,
                    );
                    vstd::arithmetic::div_mod::lemma_mod_twice((symbol1 << 24u64) as int, m);
                }
                Ok(NewZenlinkAssetId { chain_id: PARA_CHAIN_ID, asset_type: LOCAL, asset_index })
            },
        }
    }
}

impl vstd::std_specs::convert::TryFromSpecImpl<NewCurrencyId> for NewZenlinkAssetId {
    open spec fn obeys_try_from_spec() -> bool {
        true
    }

    open spec fn try_from_spec(currency_id: NewCurrencyId) -> Result<NewZenlinkAssetId, ()> {
        Ok(zenlink_asset_of(currency_id))
    }
}

impl TryFrom<NewZenlinkAssetId> for NewCurrencyId {
    type Error = ();

    fn try_from(asset_id: NewZenlinkAssetId) -> (r: Result<NewCurrencyId, ()>) {
        if asset_id.chain_id == PARA_CHAIN_ID {
            let type_index = (asset_id.asset_index & 0x0000_0000_0000_ff00) >> 8u64;
            if type_index == 0 {
                let symbol = asset_id.asset_index & 0x0000_0000_0000_00ff;
                Ok(NewCurrencyId::Token(symbol))
            } else if type_index == 1 {
                let symbol0 = (asset_id.asset_index & 0x0000_0000_00ff_0000) >> 16u64;
                let symbol1 = (asset_id.asset_index & 0x0000_0000_ff00_0000) >> 24u64;
                Ok(NewCurrencyId::LPToken(symbol0, symbol1))
            } else {
                Err(())
            }
        } else {
            Err(())
        }
    }
}

impl vstd::std_specs::convert::TryFromSpecImpl<NewZenlinkAssetId> for NewCurrencyId {
    open spec fn obeys_try_from_spec() -> bool {
        true
    }

    open spec fn try_from_spec(asset_id: NewZenlinkAssetId) -> Result<NewCurrencyId, ()> {
        match currency_of_zenlink(asset_id) {
            Some(currency_id) => Ok(currency_id),
            None => Err(()),
        }
    }
}

/// Liquidity-pair ids of the DEX for this chain.
pub struct NewPeaqZenlinkLpGenerate;

impl NewPeaqZenlinkLpGenerate {
    /// The DEX id of the pair of `asset0` and `asset1`: defined only when both
    /// denote single tokens of this chain.
    pub fn generate_lp_asset_id(asset0: NewZenlinkAssetId, asset1: NewZenlinkAssetId) -> (r: Option<
        NewZenlinkAssetId,
    >)
        ensures
            match (currency_of_zenlink(asset0), currency_of_zenlink(asset1)) {
                (Some(NewCurrencyId::Token(symbol0)), Some(NewCurrencyId::Token(symbol1))) => r
                    == Some(zenlink_asset_of(NewCurrencyId::LPToken(symbol0, symbol1))),
                _ => r is None,
            },
    {
        let asset_id0 = match NewCurrencyId::try_from(asset0) {
            Ok(id) => id,
            Err(_) => return None,
        };
        let asset_id1 = match NewCurrencyId::try_from(asset1) {
            Ok(id) => id,
            Err(_) => return None,
        };
        match (asset_id0, asset_id1) {
            (NewCurrencyId::Token(symbol0), NewCurrencyId::Token(symbol1)) => {
                match NewZenlinkAssetId::try_from(NewCurrencyId::LPToken(symbol0, symbol1)) {
                    Ok(id) => Some(id),
                    Err(_) => None,
                }
            },
            (_, _) => None,
        }
    }
}

/// Conversions between plain asset indices of this chain and DEX asset ids.
pub struct PeaqAssetIdZenlinkAssetIdConvertor;

impl PeaqAssetIdZenlinkAssetIdConvertor {
    /// The DEX id of asset index `n` of this chain; index 0 is the native currency.
    pub fn convert(n: u64) -> (r: NewZenlinkAssetId)
        ensures
            r == (NewZenlinkAssetId {
                chain_id: PARA_CHAIN_ID,
                asset_type: if n == 0 { NATIVE } else { LOCAL },
                asset_index: n,
            }),
    {
        let asset_type = if n == 0 {
            NATIVE
        } else {
            LOCAL
        };
        NewZenlinkAssetId { chain_id: PARA_CHAIN_ID, asset_type, asset_index: n }
    }

    /// The asset index of this chain that a DEX id names, if any.
    pub fn convert_back(asset_id: NewZenlinkAssetId) -> (r: Option<u64>)
        ensures
            r == if asset_id.chain_id != PARA_CHAIN_ID {
                None
            } else if asset_id.asset_type == NATIVE {
                Some(0u64)
            } else if asset_id.asset_type == LOCAL {
                Some(asset_id.asset_index)
            } else {
                None
            },
    {
        if asset_id.chain_id == PARA_CHAIN_ID {
            if asset_id.asset_type == NATIVE {
                Some(0)
            } else if asset_id.asset_type == LOCAL {
                Some(asset_id.asset_index)
            } else {
                None
            }
        } else {
            None
        }
    }
}

} // verus!

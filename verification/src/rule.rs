//! Decoding a rule index into its transition table.

use vstd::prelude::*;

verus! {

/// Why a configuration is rejected before any transition runs.
#[derive(Clone, Copy, Debug, PartialEq, Eq, Structural)]
pub enum ConfigError {
    /// The rule index lies outside 0..=255.
    InvalidRule,
    /// Not exactly one execution strategy was selected.
    InvalidStrategy,
    /// The worker pool could not be created.
    PoolUnavailable,
}

/// A decoded transition rule: one outcome bit for each of the eight ordered
/// neighborhoods (left, self, right), `f110` answering (true, true, false)
/// and so on.
#[derive(Clone, Copy, Debug, PartialEq, Eq, Structural)]
pub struct RuleTable {
    pub f111: bool,
    pub f110: bool,
    pub f101: bool,
    pub f100: bool,
    pub f011: bool,
    pub f010: bool,
    pub f001: bool,
    pub f000: bool,
}

/// What a table answers for the neighborhood `neigh` = (left, self, right).
pub open spec fn spec_lookup(t: RuleTable, neigh: (bool, bool, bool)) -> bool {
    match neigh {
        (true, true, true) => t.f111,
        (true, true, false) => t.f110,
        (true, false, true) => t.f101,
        (true, false, false) => t.f100,
        (false, true, true) => t.f011,
        (false, true, false) => t.f010,
        (false, false, true) => t.f001,
        (false, false, false) => t.f000,
    }
}

/// The table that the 8-bit binary expansion of `rule` denotes: the most
/// significant bit answers (1,1,1), the least significant (0,0,0).
pub open spec fn spec_table_of(rule: int) -> RuleTable {
    RuleTable {
        f111: rule / 128 % 2 == 1,
        f110: rule / 64 % 2 == 1,
        f101: rule / 32 % 2 == 1,
        f100: rule / 16 % 2 == 1,
        f011: rule / 8 % 2 == 1,
        f010: rule / 4 % 2 == 1,
        f001: rule / 2 % 2 == 1,
        f000: rule % 2 == 1,
    }
}

/// The eight bits of `x`, most significant first.
pub fn num2bools(x: usize) -> (res: Vec<bool>)
    requires
        x <= 255,
    ensures
        res@.len() == 8,
        res@[0] == (x as int / 128 % 2 == 1),
        res@[1] == (x as int / 64 % 2 == 1),
        res@[2] == (x as int / 32 % 2 == 1),
        res@[3] == (x as int / 16 % 2 == 1),
        res@[4] == (x as int / 8 % 2 == 1),
        res@[5] == (x as int / 4 % 2 == 1),
        res@[6] == (x as int / 2 % 2 == 1),
        res@[7] == (x as int % 2 == 1),
{
    let mut res: Vec<bool> = Vec::new();
    res.push(x / 128 % 2 == 1);
    res.push(x / 64 % 2 == 1);
    res.push(x / 32 % 2 == 1);
    res.push(x / 16 % 2 == 1);
    res.push(x / 8 % 2 == 1);
    res.push(x / 4 % 2 == 1);
    res.push(x / 2 % 2 == 1);
    res.push(x % 2 == 1);
    res
}

impl RuleTable {
    /// The outcome for the neighborhood `neigh` = (left, self, right).
    pub fn lookup(&self, neigh: (bool, bool, bool)) -> (r: bool)
        ensures
            r == spec_lookup(*self, neigh),
    {
        match neigh {
            (true, true, true) => self.f111,
            (true, true, false) => self.f110,
            (true, false, true) => self.f101,
            (true, false, false) => self.f100,
            (false, true, true) => self.f011,
            (false, true, false) => self.f010,
            (false, false, true) => self.f001,
            (false, false, false) => self.f000,
        }
    }

    /// A table from its eight outcome bits, most significant neighborhood
    /// (1,1,1) first.
    pub fn new(bits: &Vec<bool>) -> (r: RuleTable)
        requires
            bits@.len() == 8,
        ensures
            r == (RuleTable {
                f111: bits@[0],
                f110: bits@[1],
                f101: bits@[2],
                f100: bits@[3],
                f011: bits@[4],
                f010: bits@[5],
                f001: bits@[6],
                f000: bits@[7],
            }),
    {
        RuleTable {
            f111: bits[0],
            f110: bits[1],
            f101: bits[2],
            f100: bits[3],
            f011: bits[4],
            f010: bits[5],
            f001: bits[6],
            f000: bits[7],
        }
    }

    /// Decodes a rule index into its table. An index outside 0..=255 is an
    /// invalid configuration, rejected before any transition runs.
    pub fn decode(rule: i64) -> (r: Result<RuleTable, ConfigError>)
        ensures
            r is Ok <==> 0 <= rule <= 255,
            r matches Ok(t) ==> t == spec_table_of(rule as int),
            r matches Err(e) ==> e == ConfigError::InvalidRule,
    {
        if rule < 0 || rule > 255 {
            Err(ConfigError::InvalidRule)
        } else {
            let bits = num2bools(rule as usize);
            Ok(RuleTable::new(&bits))
        }
    }
}

/// The fixed table of rule index 30, written out as a match.
pub fn rule30(neigh: (bool, bool, bool)) -> (r: bool)
    ensures
        r == spec_lookup(spec_table_of(30), neigh),
{
    let t = RuleTable {
        f111: false,
        f110: false,
        f101: false,
        f100: true,
        f011: true,
        f010: true,
        f001: true,
        f000: false,
    };
    proof {
        assert(t == spec_table_of(30));
    }
    t.lookup(neigh)
}

/// Decoding is a pure function of the rule index: two tables decoded from
/// the same index are identical.
pub proof fn lemma_decode_deterministic(rule: int, t1: RuleTable, t2: RuleTable)
    requires
        t1 == spec_table_of(rule),
        t2 == spec_table_of(rule),
    ensures
        t1 == t2,
{
}

} // verus!

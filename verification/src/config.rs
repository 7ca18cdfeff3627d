//! The configuration record of a deployment.

use crate::codec::{lemma_le_u64_round_trip, read_32, read_u64, write_all, write_u64};
use crate::identity::Identity;
use crate::message::le_u64;
use vstd::prelude::*;

verus! {

/// The one configuration record of a deployment. It is filled when the
/// deployment is initialized and changed only by its owner.
#[derive(Clone, Copy, Debug, PartialEq, Eq)]
pub struct Config {
    /// The trusted endpoint through which the remote network is reached.
    pub gateway_program_id: Identity,
    /// The one remote network that this deployment bridges to.
    pub zetachain_chain_id: u64,
    /// The identity that may change the record.
    pub owner: Identity,
    /// The byte with which the record's address is derived again.
    pub bump: u8,
}

/// Number of bytes in a stored record.
pub const CONFIG_LEN: usize = 73;

/// The stored form of a record: the gateway endpoint in thirty-two bytes,
/// the network in eight little-endian bytes, the owner in thirty-two bytes,
/// and the derivation byte.
pub open spec fn config_wire(config: Config) -> Seq<u8> {
    config.gateway_program_id@ + le_u64(config.zetachain_chain_id) + config.owner@
        + seq![config.bump]
}

/// No two records share a stored form.
pub proof fn lemma_config_wire_injective(a: Config, b: Config)
    requires
        config_wire(a) == config_wire(b),
    ensures
        a == b,
{
    let w = config_wire(a);
    let v = config_wire(b);
    assert(a.gateway_program_id@ =~= w.subrange(0, 32));
    assert(b.gateway_program_id@ =~= v.subrange(0, 32));
    assert(le_u64(a.zetachain_chain_id) =~= w.subrange(32, 40));
    assert(le_u64(b.zetachain_chain_id) =~= v.subrange(32, 40));
    assert(a.owner@ =~= w.subrange(40, 72));
    assert(b.owner@ =~= v.subrange(40, 72));
    assert(a.bump == w[72]);
    assert(b.bump == v[72]);
    lemma_le_u64_round_trip(a.zetachain_chain_id);
    lemma_le_u64_round_trip(b.zetachain_chain_id);
    Identity::lemma_equal_iff_same_bytes(a.gateway_program_id, b.gateway_program_id);
    Identity::lemma_equal_iff_same_bytes(a.owner, b.owner);
}

impl Config {
    /// Writes the record in its stored form.
    pub fn to_bytes(&self) -> (r: Vec<u8>)
        ensures
            r@ == config_wire(*self),
            r@.len() == CONFIG_LEN,
    {
        let mut out: Vec<u8> = Vec::new();
        write_all(&mut out, self.gateway_program_id.bytes.as_slice());
        write_u64(&mut out, self.zetachain_chain_id);
        write_all(&mut out, self.owner.bytes.as_slice());
        out.push(self.bump);
        proof {
            lemma_le_u64_round_trip(self.zetachain_chain_id);
        }
        assert(out@ =~= config_wire(*self));
        out
    }

    /// Reads a record from its stored form.
    ///
    /// Succeeds exactly when `bytes` has the length of a stored record, and
    /// then returns the record whose stored form `bytes` is.
    pub fn from_bytes(bytes: &[u8]) -> (r: Option<Config>)
        ensures
            match r {
                Some(config) => config_wire(config) == bytes@,
                None => bytes@.len() != CONFIG_LEN,
            },
    {
        if bytes.len() != CONFIG_LEN {
            return None;
        }
        let config = Config {
            gateway_program_id: Identity::new(read_32(bytes, 0)),
            zetachain_chain_id: read_u64(bytes, 32),
            owner: Identity::new(read_32(bytes, 40)),
            bump: bytes[72],
        };
        proof {
            crate::codec::lemma_le_u64_of_value(bytes@.subrange(32, 40));
            assert(config_wire(config) =~= bytes@);
        }
        Some(config)
    }
}

} // verus!

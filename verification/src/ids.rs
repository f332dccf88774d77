//! Identifiers of transactions, of their outputs and of channels.

use amplify::Wrapper as _;
use bitcoin::hashes::Hash as _;
use vstd::prelude::*;

verus! {

/// A transaction id, in the byte order in which it is hashed.
#[derive(Clone, Copy, Debug, PartialEq, Eq, Hash)]
pub struct Txid {
    pub bytes: [u8; 32],
}

/// An output of a transaction.
#[derive(Clone, Copy, Debug, PartialEq, Eq, Hash)]
pub struct OutPoint {
    pub txid: Txid,
    pub vout: u32,
}

impl OutPoint {
    /// The outpoint that stands for none: a zero id and the largest index.
    pub open spec fn is_null(self) -> bool {
        &&& self.txid.bytes@ == Seq::new(32, |i: int| 0u8)
        &&& self.vout == u32::MAX
    }

    /// The outpoint that stands for none.
    pub fn null() -> (r: OutPoint)
        ensures
            r.is_null(),
    {
        let r = OutPoint { txid: Txid { bytes: [0u8; 32] }, vout: u32::MAX };
        assert(r.txid.bytes@ =~= Seq::new(32, |i: int| 0u8));
        r
    }

    /// The output index as messages carry it: its low sixteen bits.
    pub open spec fn index(self) -> u16 {
        (self.vout % 0x10000) as u16
    }

    /// The output index as messages carry it.
    pub fn output_index(&self) -> (r: u16)
        ensures
            r == self.index(),
    {
        let vout: u32 = self.vout;
        assert(vout as u16 == (vout % 0x10000) as u16) by (bit_vector);
        #[verifier::truncate]
        (vout as u16)
    }
}

/// The id of a channel that is not funded yet.
#[derive(Clone, Copy, Debug, PartialEq, Eq, Hash)]
pub struct TempChannelId {
    pub bytes: [u8; 32],
}

/// The id of a channel.
#[derive(Clone, Copy, Debug, PartialEq, Eq, Hash)]
pub struct ChannelId {
    pub bytes: [u8; 32],
}

/// `txid` with its last two bytes XOR'ed with the output index, high byte first.
pub open spec fn channel_id_bytes(txid: Seq<u8>, vout: u16) -> Seq<u8> {
    txid.update(30, txid[30] ^ ((vout / 256) as u8)).update(31, txid[31] ^ ((vout % 256) as u8))
}

/// Calls `ChannelId::with` of `lnp2p`. The contract claims that it keeps the first
/// thirty bytes of the transaction id, and XOR's the last two with the output index,
/// high byte first.
#[verifier::external_body]
fn channel_id_with(txid: &[u8; 32], vout: u16) -> (r: [u8; 32])
    ensures
        r@ == channel_id_bytes(txid@, vout),
{
    let txid = bitcoin::Txid::from_inner(*txid);
    lnp::p2p::legacy::ChannelId::with(txid, vout).into_inner().into_inner()
}

impl ChannelId {
    /// The id that stands for none: all bytes are zero.
    pub open spec fn is_zero(self) -> bool {
        self.bytes@ == Seq::new(32, |i: int| 0u8)
    }

    /// The id that stands for none.
    pub fn zero() -> (r: ChannelId)
        ensures
            r.is_zero(),
    {
        let r = ChannelId { bytes: [0u8; 32] };
        assert(r.bytes@ =~= Seq::new(32, |i: int| 0u8));
        r
    }

    /// The id of the channel that the given output funds.
    pub fn with(funding_txid: Txid, funding_vout: u16) -> (r: ChannelId)
        ensures
            r.bytes@ == channel_id_bytes(funding_txid.bytes@, funding_vout),
    {
        ChannelId { bytes: channel_id_with(&funding_txid.bytes, funding_vout) }
    }

    /// The same bytes, taken as the id of a channel that is not funded yet.
    pub fn to_temporary(&self) -> (r: TempChannelId)
        ensures
            r.bytes == self.bytes,
    {
        TempChannelId { bytes: self.bytes }
    }
}

/// Taking the output index out of a channel id again gives the id of the funding
/// transaction.
pub proof fn channel_id_determines_txid(txid: Seq<u8>, vout: u16)
    requires
        txid.len() == 32,
    ensures
        channel_id_bytes(channel_id_bytes(txid, vout), vout) == txid,
{
    let a = txid[30];
    let b = txid[31];
    let hi = (vout / 256) as u8;
    let lo = (vout % 256) as u8;
    assert(a ^ hi ^ hi == a) by (bit_vector);
    assert(b ^ lo ^ lo == b) by (bit_vector);
    assert(channel_id_bytes(channel_id_bytes(txid, vout), vout) =~= txid);
}

/// Two outputs of one transaction fund channels of one id only where their indices,
/// as messages carry them, are equal.
pub proof fn channel_id_determines_index(txid: Seq<u8>, vout1: u16, vout2: u16)
    requires
        txid.len() == 32,
        channel_id_bytes(txid, vout1) == channel_id_bytes(txid, vout2),
    ensures
        vout1 == vout2,
{
    let id1 = channel_id_bytes(txid, vout1);
    let id2 = channel_id_bytes(txid, vout2);
    assert(id1[30] == id2[30] && id1[31] == id2[31]);
    let a = txid[30];
    let b = txid[31];
    let hi1 = (vout1 / 256) as u8;
    let hi2 = (vout2 / 256) as u8;
    let lo1 = (vout1 % 256) as u8;
    let lo2 = (vout2 % 256) as u8;
    assert(a ^ hi1 == a ^ hi2 ==> hi1 == hi2) by (bit_vector);
    assert(b ^ lo1 == b ^ lo2 ==> lo1 == lo2) by (bit_vector);
}

} // verus!

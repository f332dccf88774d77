//! The peer messages that set up a channel.

use crate::ids::{ChannelId, TempChannelId, Txid};
use crate::keys::{PublicKey, Signature};
use vstd::prelude::*;

verus! {

/// The features that shape a channel for its whole life.
#[derive(Clone, Copy, Debug, PartialEq, Eq, Hash)]
pub enum ChannelType {
    Basic,
    StaticRemotekey,
    AnchorOutputsStaticRemotekey,
    AnchorsZeroFeeHtlcTxStaticRemotekey,
}

/// A field of a message that the node does not know.
#[derive(Clone, Debug, PartialEq, Eq, Hash)]
pub struct Tlv {
    pub kind: u64,
    pub value: Vec<u8>,
}

/// The first step of setting up a channel: what the sender proposes.
#[derive(Clone, Debug, PartialEq, Eq, Hash)]
pub struct OpenChannel {
    /// The hash of the genesis block of the chain
    pub chain_hash: [u8; 32],
    pub temporary_channel_id: TempChannelId,
    pub funding_satoshis: u64,
    pub push_msat: u64,
    pub dust_limit_satoshis: u64,
    pub max_htlc_value_in_flight_msat: u64,
    pub channel_reserve_satoshis: u64,
    pub htlc_minimum_msat: u64,
    pub feerate_per_kw: u32,
    pub to_self_delay: u16,
    pub max_accepted_htlcs: u16,
    pub funding_pubkey: PublicKey,
    pub revocation_basepoint: PublicKey,
    pub payment_point: PublicKey,
    pub delayed_payment_basepoint: PublicKey,
    pub htlc_basepoint: PublicKey,
    pub first_per_commitment_point: PublicKey,
    pub channel_flags: u8,
    pub shutdown_scriptpubkey: Option<Vec<u8>>,
    pub channel_type: Option<ChannelType>,
    pub unknown_tlvs: Vec<Tlv>,
}

/// The second step: on what terms the receiver accepts.
#[derive(Clone, Debug, PartialEq, Eq, Hash)]
pub struct AcceptChannel {
    pub temporary_channel_id: TempChannelId,
    pub dust_limit_satoshis: u64,
    pub max_htlc_value_in_flight_msat: u64,
    pub channel_reserve_satoshis: u64,
    pub htlc_minimum_msat: u64,
    pub minimum_depth: u32,
    pub to_self_delay: u16,
    pub max_accepted_htlcs: u16,
    pub funding_pubkey: PublicKey,
    pub revocation_basepoint: PublicKey,
    pub payment_point: PublicKey,
    pub delayed_payment_basepoint: PublicKey,
    pub htlc_basepoint: PublicKey,
    pub first_per_commitment_point: PublicKey,
    pub shutdown_scriptpubkey: Option<Vec<u8>>,
    pub channel_type: Option<ChannelType>,
    pub unknown_tlvs: Vec<Tlv>,
}

/// The third step: the output that funds the channel.
#[derive(Clone, Copy, Debug, PartialEq, Eq, Hash)]
pub struct FundingCreated {
    pub temporary_channel_id: TempChannelId,
    pub funding_txid: Txid,
    pub funding_output_index: u16,
    pub signature: Signature,
}

/// The fourth step: the signature that the funder waits for.
#[derive(Clone, Copy, Debug, PartialEq, Eq, Hash)]
pub struct FundingSigned {
    pub channel_id: ChannelId,
    pub signature: Signature,
}

/// The last step: the funding transaction is deep enough.
#[derive(Clone, Copy, Debug, PartialEq, Eq, Hash)]
pub struct FundingLocked {
    pub channel_id: ChannelId,
    pub next_per_commitment_point: PublicKey,
}

/// The messages of the peer protocol. Those of which a channel reads nothing hold their
/// payload as it came.
#[derive(Clone, Debug, PartialEq, Eq, Hash)]
pub enum Messages {
    OpenChannel(OpenChannel),
    AcceptChannel(AcceptChannel),
    FundingCreated(FundingCreated),
    FundingSigned(FundingSigned),
    FundingLocked(FundingLocked),
    UpdateAddHtlc(Vec<u8>),
    CommitmentSigned(Vec<u8>),
    RevokeAndAck(Vec<u8>),
    Other(Vec<u8>),
}

} // verus!

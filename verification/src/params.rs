//! What a channel keeps of the messages that set it up.

use crate::keys::{generator, PublicKey};
use crate::messages::{AcceptChannel, ChannelType, OpenChannel};
use vstd::prelude::*;

verus! {

/// The terms that one side asks of the other.
#[derive(Clone, Copy, Debug, PartialEq, Eq, Hash)]
pub struct PeerParams {
    pub dust_limit_satoshis: u64,
    pub to_self_delay: u16,
    pub htlc_minimum_msat: u64,
    pub max_htlc_value_in_flight_msat: u64,
    pub channel_reserve_satoshis: u64,
    pub max_accepted_htlcs: u16,
}

impl PeerParams {
    /// The terms in an `open_channel` message.
    pub open spec fn spec_of_open_channel(message: OpenChannel) -> PeerParams {
        PeerParams {
            dust_limit_satoshis: message.dust_limit_satoshis,
            to_self_delay: message.to_self_delay,
            htlc_minimum_msat: message.htlc_minimum_msat,
            max_htlc_value_in_flight_msat: message.max_htlc_value_in_flight_msat,
            channel_reserve_satoshis: message.channel_reserve_satoshis,
            max_accepted_htlcs: message.max_accepted_htlcs,
        }
    }

    /// The terms in an `accept_channel` message.
    pub open spec fn spec_of_accept_channel(message: AcceptChannel) -> PeerParams {
        PeerParams {
            dust_limit_satoshis: message.dust_limit_satoshis,
            to_self_delay: message.to_self_delay,
            htlc_minimum_msat: message.htlc_minimum_msat,
            max_htlc_value_in_flight_msat: message.max_htlc_value_in_flight_msat,
            channel_reserve_satoshis: message.channel_reserve_satoshis,
            max_accepted_htlcs: message.max_accepted_htlcs,
        }
    }

    /// The terms asked where nothing else is configured.
    pub open spec fn spec_default() -> PeerParams {
        PeerParams {
            dust_limit_satoshis: 354,
            to_self_delay: 3,
            htlc_minimum_msat: 1,
            max_htlc_value_in_flight_msat: 1_000_000_000,
            channel_reserve_satoshis: 10_000,
            max_accepted_htlcs: 483,
        }
    }

    /// The terms in an `open_channel` message.
    pub fn of_open_channel(message: &OpenChannel) -> (r: PeerParams)
        ensures
            r == PeerParams::spec_of_open_channel(*message),
    {
        PeerParams {
            dust_limit_satoshis: message.dust_limit_satoshis,
            to_self_delay: message.to_self_delay,
            htlc_minimum_msat: message.htlc_minimum_msat,
            max_htlc_value_in_flight_msat: message.max_htlc_value_in_flight_msat,
            channel_reserve_satoshis: message.channel_reserve_satoshis,
            max_accepted_htlcs: message.max_accepted_htlcs,
        }
    }

    /// The terms in an `accept_channel` message.
    pub fn of_accept_channel(message: &AcceptChannel) -> (r: PeerParams)
        ensures
            r == PeerParams::spec_of_accept_channel(*message),
    {
        PeerParams {
            dust_limit_satoshis: message.dust_limit_satoshis,
            to_self_delay: message.to_self_delay,
            htlc_minimum_msat: message.htlc_minimum_msat,
            max_htlc_value_in_flight_msat: message.max_htlc_value_in_flight_msat,
            channel_reserve_satoshis: message.channel_reserve_satoshis,
            max_accepted_htlcs: message.max_accepted_htlcs,
        }
    }
}

impl Default for PeerParams {
    /// The terms asked where nothing else is configured.
    fn default() -> (r: PeerParams)
        ensures
            r == PeerParams::spec_default(),
    {
        PeerParams {
            dust_limit_satoshis: 354,
            to_self_delay: 3,
            htlc_minimum_msat: 1,
            max_htlc_value_in_flight_msat: 1_000_000_000,
            channel_reserve_satoshis: 10_000,
            max_accepted_htlcs: 483,
        }
    }
}

/// The bytes of a script, where there is one.
pub open spec fn script_view(script: Option<Vec<u8>>) -> Option<Seq<u8>> {
    match script {
        Some(bytes) => Some(bytes@),
        None => None,
    }
}

fn copy_script(script: &Option<Vec<u8>>) -> (r: Option<Vec<u8>>)
    ensures
        script_view(r) == script_view(*script),
{
    match script {
        Some(bytes) => {
            let mut copy: Vec<u8> = Vec::new();
            copy.extend_from_slice(bytes.as_slice());
            assert(copy@ =~= bytes@);
            Some(copy)
        },
        None => None,
    }
}

/// The public keys of one side of a channel.
#[derive(Clone, Debug, PartialEq, Eq, Hash)]
pub struct Keyset {
    /// The key in the script of the funding output
    pub funding_pubkey: PublicKey,
    pub revocation_basepoint: PublicKey,
    pub payment_basepoint: PublicKey,
    pub delayed_payment_basepoint: PublicKey,
    pub htlc_basepoint: PublicKey,
    pub first_per_commitment_point: PublicKey,
    pub shutdown_scriptpubkey: Option<Vec<u8>>,
    /// Whether the payment basepoint itself is the key of the remote output
    pub static_remotekey: bool,
}

impl Keyset {
    /// These are the keys in an `open_channel` message.
    pub open spec fn is_of_open_channel(self, message: OpenChannel) -> bool {
        &&& self.funding_pubkey == message.funding_pubkey
        &&& self.revocation_basepoint == message.revocation_basepoint
        &&& self.payment_basepoint == message.payment_point
        &&& self.delayed_payment_basepoint == message.delayed_payment_basepoint
        &&& self.htlc_basepoint == message.htlc_basepoint
        &&& self.first_per_commitment_point == message.first_per_commitment_point
        &&& script_view(self.shutdown_scriptpubkey) == script_view(message.shutdown_scriptpubkey)
        &&& !self.static_remotekey
    }

    /// These are the keys in an `accept_channel` message.
    pub open spec fn is_of_accept_channel(self, message: AcceptChannel) -> bool {
        &&& self.funding_pubkey == message.funding_pubkey
        &&& self.revocation_basepoint == message.revocation_basepoint
        &&& self.payment_basepoint == message.payment_point
        &&& self.delayed_payment_basepoint == message.delayed_payment_basepoint
        &&& self.htlc_basepoint == message.htlc_basepoint
        &&& self.first_per_commitment_point == message.first_per_commitment_point
        &&& script_view(self.shutdown_scriptpubkey) == script_view(message.shutdown_scriptpubkey)
        &&& self.static_remotekey == match message.channel_type {
            Some(channel_type) => channel_type != ChannelType::Basic,
            None => false,
        }
    }

    /// Two sets hold the same keys, the same script and the same flag.
    pub open spec fn same_as(self, other: Keyset) -> bool {
        &&& self.funding_pubkey == other.funding_pubkey
        &&& self.revocation_basepoint == other.revocation_basepoint
        &&& self.payment_basepoint == other.payment_basepoint
        &&& self.delayed_payment_basepoint == other.delayed_payment_basepoint
        &&& self.htlc_basepoint == other.htlc_basepoint
        &&& self.first_per_commitment_point == other.first_per_commitment_point
        &&& script_view(self.shutdown_scriptpubkey) == script_view(other.shutdown_scriptpubkey)
        &&& self.static_remotekey == other.static_remotekey
    }

    /// Every key is the stand-in for a key that is not known.
    pub open spec fn is_dumb(self) -> bool {
        &&& self.funding_pubkey@ == generator()
        &&& self.revocation_basepoint@ == generator()
        &&& self.payment_basepoint@ == generator()
        &&& self.delayed_payment_basepoint@ == generator()
        &&& self.htlc_basepoint@ == generator()
        &&& self.first_per_commitment_point@ == generator()
        &&& self.shutdown_scriptpubkey is None
        &&& !self.static_remotekey
    }

    /// The keys in an `open_channel` message.
    pub fn of_open_channel(message: &OpenChannel) -> (r: Keyset)
        ensures
            r.is_of_open_channel(*message),
    {
        Keyset {
            funding_pubkey: message.funding_pubkey,
            revocation_basepoint: message.revocation_basepoint,
            payment_basepoint: message.payment_point,
            delayed_payment_basepoint: message.delayed_payment_basepoint,
            htlc_basepoint: message.htlc_basepoint,
            first_per_commitment_point: message.first_per_commitment_point,
            shutdown_scriptpubkey: copy_script(&message.shutdown_scriptpubkey),
            static_remotekey: false,
        }
    }

    /// The keys in an `accept_channel` message.
    pub fn of_accept_channel(message: &AcceptChannel) -> (r: Keyset)
        ensures
            r.is_of_accept_channel(*message),
    {
        let static_remotekey: bool = match message.channel_type {
            Some(ChannelType::Basic) => false,
            Some(_) => true,
            None => false,
        };
        Keyset {
            funding_pubkey: message.funding_pubkey,
            revocation_basepoint: message.revocation_basepoint,
            payment_basepoint: message.payment_point,
            delayed_payment_basepoint: message.delayed_payment_basepoint,
            htlc_basepoint: message.htlc_basepoint,
            first_per_commitment_point: message.first_per_commitment_point,
            shutdown_scriptpubkey: copy_script(&message.shutdown_scriptpubkey),
            static_remotekey,
        }
    }

    /// Keys that stand in for those that are not known.
    pub fn dumb() -> (r: Keyset)
        ensures
            r.is_dumb(),
    {
        let key = PublicKey::dumb();
        Keyset {
            funding_pubkey: key,
            revocation_basepoint: key,
            payment_basepoint: key,
            delayed_payment_basepoint: key,
            htlc_basepoint: key,
            first_per_commitment_point: key,
            shutdown_scriptpubkey: None,
            static_remotekey: false,
        }
    }
}

} // verus!

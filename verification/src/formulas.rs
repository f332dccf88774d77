//! What numbers, scripts, texts and ids are, said of what can be read from them.

use crate::bytes::{
    be_value, hex_digit, hex_number, hex_text, lex_le, padded_hex_text, short_hex_text,
};
use crate::funding::{funding_script, multisig_script, p2wsh, script_text};
use crate::ids::{ChannelId, OutPoint};
use crate::keys::sha256_digest;
use crate::notices::{Level, Notice};
use crate::request::Request;
use vstd::prelude::*;

verus! {

/// The number that eight bytes make, the first of them the most significant.
pub proof fn eight_bytes_make_a_number(s: Seq<u8>)
    requires
        s.len() == 8,
    ensures
        be_value(s) == 0x100_0000_0000_0000 * s[0] + 0x1_0000_0000_0000 * s[1] + 0x100_0000_0000
            * s[2] + 0x1_0000_0000 * s[3] + 0x100_0000 * s[4] + 0x1_0000 * s[5] + 0x100 * s[6]
            + s[7],
{
    reveal_with_fuel(be_value, 9);
}

/// Byte strings are ordered by the first byte in which they differ.
pub proof fn first_difference_decides(a: Seq<u8>, b: Seq<u8>, i: int)
    requires
        0 <= i < a.len(),
        i < b.len(),
        forall|j: int| 0 <= j < i ==> a[j] == b[j],
        a[i] < b[i],
    ensures
        lex_le(a, b),
        !lex_le(b, a),
    decreases i,
{
    if i > 0 {
        assert(a[0] == b[0]);
        assert forall|j: int| 0 <= j < i - 1 implies a.drop_first()[j] == b.drop_first()[j] by {
            assert(a[j + 1] == b[j + 1]);
        }
        first_difference_decides(a.drop_first(), b.drop_first(), i - 1);
    }
}

/// The script of a funding output spends to both keys, the one that comes first in the order
/// of byte strings first, and holds nothing else.
pub proof fn multisig_holds_both_keys_in_order(key1: Seq<u8>, key2: Seq<u8>)
    requires
        key1.len() == 33,
        key2.len() == 33,
    ensures
        multisig_script(key1, key2).len() == 71,
        multisig_script(key1, key2)[0] == 0x52,
        multisig_script(key1, key2)[1] == 0x21,
        multisig_script(key1, key2)[35] == 0x21,
        multisig_script(key1, key2)[69] == 0x52,
        multisig_script(key1, key2)[70] == 0xae,
        ({
            let first = multisig_script(key1, key2).subrange(2, 35);
            let second = multisig_script(key1, key2).subrange(36, 69);
            ||| first == key1 && second == key2 && lex_le(key1, key2)
            ||| first == key2 && second == key1 && lex_le(key2, key1)
        }),
{
    let script = multisig_script(key1, key2);
    crate::bytes::lemma_lex_le_total(key1, key2);
    if lex_le(key1, key2) {
        assert(script.subrange(2, 35) =~= key1);
        assert(script.subrange(36, 69) =~= key2);
    } else {
        assert(script.subrange(2, 35) =~= key2);
        assert(script.subrange(36, 69) =~= key1);
    }
}

/// The output script that funds a channel is a version-zero witness program: the digest of the
/// script over both keys.
pub proof fn funding_output_is_a_witness_program(key1: Seq<u8>, key2: Seq<u8>)
    ensures
        funding_script(key1, key2) == p2wsh(multisig_script(key1, key2)),
        funding_script(key1, key2) == seq![0x00u8, 0x20] + sha256_digest(
            multisig_script(key1, key2),
        ),
{
}

/// An output index loses all but its low sixteen bits in a message, and nothing where it has
/// no more.
pub proof fn index_is_the_low_half(outpoint: OutPoint)
    ensures
        (outpoint.vout - outpoint.index()) % 0x10000 == 0,
        outpoint.vout <= 0xffff ==> outpoint.index() == outpoint.vout,
{
}

/// What stands for no channel and for no output is zero throughout, but for the largest index.
pub proof fn blanks_are_zero(id: ChannelId, outpoint: OutPoint)
    ensures
        id.is_zero() <==> forall|i: int| 0 <= i < 32 ==> #[trigger] id.bytes@[i] == 0,
        outpoint.is_null() <==> outpoint.vout == 0xffff_ffff && forall|i: int|
            0 <= i < 32 ==> #[trigger] outpoint.txid.bytes@[i] == 0,
{
    let zero = Seq::new(32, |i: int| 0u8);
    if forall|i: int| 0 <= i < 32 ==> #[trigger] id.bytes@[i] == 0 {
        assert(id.bytes@ =~= zero);
    }
    if forall|i: int| 0 <= i < 32 ==> #[trigger] outpoint.txid.bytes@[i] == 0 {
        assert(outpoint.txid.bytes@ =~= zero);
    }
    if id.is_zero() {
        assert forall|i: int| 0 <= i < 32 implies #[trigger] id.bytes@[i] == 0 by {
            assert(id.bytes@[i] == zero[i]);
        }
    }
    if outpoint.is_null() {
        assert forall|i: int| 0 <= i < 32 implies #[trigger] outpoint.txid.bytes@[i] == 0 by {
            assert(outpoint.txid.bytes@[i] == zero[i]);
        }
    }
}

/// The value of a hexadecimal digit in lower case; other characters have none.
pub open spec fn digit_value(c: char) -> Option<int> {
    if '0' <= c && c <= '9' {
        Some(c as int - '0' as int)
    } else if 'a' <= c && c <= 'f' {
        Some(c as int - 'a' as int + 10)
    } else {
        None
    }
}

/// Every value below sixteen has a digit of its own, and that digit has the value.
pub proof fn digits_read_back(n: int)
    requires
        0 <= n < 16,
    ensures
        digit_value(hex_digit(n)) == Some(n),
{
}

proof fn lemma_hex_chars(s: Seq<u8>, i: int)
    requires
        0 <= i < s.len(),
    ensures
        hex_text(s).len() == 2 * s.len(),
        hex_text(s)[2 * i] == hex_digit(s[i] as int / 16),
        hex_text(s)[2 * i + 1] == hex_digit(s[i] as int % 16),
    decreases s.len(),
{
    let front = s.drop_last();
    if front.len() == 0 {
        assert(hex_text(front).len() == 0);
    } else {
        lemma_hex_chars(front, if i < front.len() { i } else { 0 });
    }
}

/// The number that two hexadecimal digits write.
pub open spec fn pair_value(high: char, low: char) -> Option<int> {
    match (digit_value(high), digit_value(low)) {
        (Some(h), Some(l)) => Some(16 * h + l),
        _ => None,
    }
}

/// The bytes can be read back from their text, two digits for each, the high half first.
pub proof fn hex_reads_back(s: Seq<u8>)
    ensures
        hex_text(s).len() == 2 * s.len(),
        forall|i: int|
            0 <= i < s.len() ==> pair_value(hex_text(s)[2 * i], hex_text(s)[2 * i + 1]) == Some(
                #[trigger] s[i] as int,
            ),
{
    if s.len() > 0 {
        lemma_hex_chars(s, 0);
    }
    assert forall|i: int| 0 <= i < s.len() implies pair_value(
        hex_text(s)[2 * i],
        hex_text(s)[2 * i + 1],
    ) == Some(#[trigger] s[i] as int) by {
        lemma_hex_chars(s, i);
        digits_read_back(s[i] as int / 16);
        digits_read_back(s[i] as int % 16);
    }
}

/// The short text of bytes is the first eight and the last eight characters of their text, with
/// two dots between them.
pub proof fn short_text_is_both_ends(s: Seq<u8>)
    requires
        s.len() >= 4,
    ensures
        short_hex_text(s).len() == 18,
        short_hex_text(s).take(8) == hex_text(s).take(8),
        short_hex_text(s)[8] == '.' && short_hex_text(s)[9] == '.',
        short_hex_text(s).skip(10) == hex_text(s).skip(2 * s.len() - 8),
{
    reveal_strlit("..");
    let first = s.subrange(0, 4);
    let last = s.subrange(s.len() - 4, s.len() as int);
    lemma_hex_chars(s, 0);
    lemma_hex_chars(first, 0);
    lemma_hex_chars(last, 0);
    assert forall|k: int| 0 <= k < 8 implies {
        &&& hex_text(first)[k] == hex_text(s)[k]
        &&& hex_text(last)[k] == hex_text(s)[2 * s.len() - 8 + k]
    } by {
        let i = k / 2;
        lemma_hex_chars(first, i);
        lemma_hex_chars(last, i);
        lemma_hex_chars(s, i);
        lemma_hex_chars(s, s.len() - 4 + i);
        assert(k == 2 * i || k == 2 * i + 1);
    }
    assert(short_hex_text(s).take(8) =~= hex_text(s).take(8));
    assert(short_hex_text(s).skip(10) =~= hex_text(s).skip(2 * s.len() - 8));
}

/// The number that hexadecimal digits write, the first of them the most significant.
pub open spec fn digits_value(s: Seq<char>) -> Option<int>
    decreases s.len(),
{
    if s.len() == 0 {
        Some(0)
    } else {
        match (digits_value(s.drop_last()), digit_value(s.last())) {
            (Some(front), Some(low)) => Some(16 * front + low),
            _ => None,
        }
    }
}

spec fn fits(n: nat, digits: nat) -> bool
    decreases digits,
{
    if digits == 0 {
        n == 0
    } else {
        fits(n / 16, (digits - 1) as nat)
    }
}

proof fn lemma_number_reads_back(n: nat, digits: nat)
    requires
        fits(n, digits),
    ensures
        hex_number(n, digits).len() == digits,
        digits_value(hex_number(n, digits)) == Some(n as int),
    decreases digits,
{
    if digits > 0 {
        lemma_number_reads_back(n / 16, (digits - 1) as nat);
        digits_read_back((n % 16) as int);
        let front = hex_number(n / 16, (digits - 1) as nat);
        assert(hex_number(n, digits).drop_last() =~= front);
        assert(hex_number(n, digits).last() == hex_digit((n % 16) as int));
    }
}

proof fn lemma_leading_zero(n: nat, digits: nat)
    requires
        digits > 0,
        fits(n, digits),
        hex_number(n, digits)[0] == '0',
    ensures
        fits(n, (digits - 1) as nat),
    decreases digits,
{
    let front = hex_number(n / 16, (digits - 1) as nat);
    lemma_number_reads_back(n / 16, (digits - 1) as nat);
    digits_read_back((n % 16) as int);
    if digits == 1 {
        assert(hex_number(n, digits)[0] == hex_digit((n % 16) as int));
        assert(n / 16 == 0);
    } else {
        assert(hex_number(n, digits)[0] == front[0]);
        lemma_leading_zero(n / 16, (digits - 1) as nat);
    }
}

proof fn lemma_widths(n: u64)
    ensures
        fits(n as nat, 14) <==> n < 0x100_0000_0000_0000,
        fits(n as nat, 15) <==> n < 0x1000_0000_0000_0000,
        fits(n as nat, 16),
{
    reveal_with_fuel(fits, 17);
}

/// The obscuring factor can be read back from its text: a prefix, then at least fourteen
/// digits, and no leading zero where there are more.
pub proof fn padded_number_reads_back(n: u64)
    ensures
        padded_hex_text(n).len() >= 16,
        padded_hex_text(n)[0] == '0' && padded_hex_text(n)[1] == 'x',
        digits_value(padded_hex_text(n).skip(2)) == Some(n as int),
        padded_hex_text(n).len() > 16 ==> padded_hex_text(n)[2] != '0',
{
    reveal_strlit("0x");
    lemma_widths(n);
    let digits: nat = if n < 0x100_0000_0000_0000 {
        14
    } else if n < 0x1000_0000_0000_0000 {
        15
    } else {
        16
    };
    lemma_number_reads_back(n as nat, digits);
    assert(padded_hex_text(n).skip(2) =~= hex_number(n as nat, digits));
    if digits > 14 && hex_number(n as nat, digits)[0] == '0' {
        lemma_leading_zero(n as nat, digits);
    }
}

/// What is at fault is logged as an error, what is odd as a warning; three notices are for the
/// one who follows the channel alone, and are not logged.
pub proof fn levels_fit_the_notices(notice: Notice)
    ensures
        notice.spec_level() == Some(Level::Error) <==> (notice is NoFundingAddress
            || notice is UnsupportedRequest),
        notice.spec_level() == Some(Level::Warn) <==> notice is UnexpectedOpenChannel,
        notice.spec_level() == Some(Level::Debug) <==> (notice is UpdatingChannelId
            || notice is FundingAddress),
        notice.spec_level() == Some(Level::Trace) <==> (notice is PreparedFundingCreated
            || notice is PreparedFundingSigned || notice is ObscuringHash
            || notice is ObscuringFactor || notice is GeneratingScript || notice is FundingScript),
        notice.spec_level() is None <==> (notice is AcceptedByPeer || notice is FundingChannel
            || notice is AcceptingFunding),
{
}

/// `text` is `before`, what is named, and `after`.
pub open spec fn frames(
    text: Seq<char>,
    before: Seq<char>,
    named: Seq<char>,
    after: Seq<char>,
) -> bool {
    &&& text.len() == before.len() + named.len() + after.len()
    &&& text.take(before.len() as int) == before
    &&& text.subrange(before.len() as int, before.len() + named.len() as int) == named
    &&& text.skip(before.len() + named.len() as int) == after
}

proof fn lemma_frames(before: Seq<char>, named: Seq<char>, after: Seq<char>)
    ensures
        frames(before + named + after, before, named, after),
        frames(before + named, before, named, seq![]),
{
    let text = before + named + after;
    assert(text.take(before.len() as int) =~= before);
    assert(text.subrange(before.len() as int, before.len() + named.len() as int) =~= named);
    assert(text.skip(before.len() + named.len() as int) =~= after);
    let open = before + named;
    assert(open.take(before.len() as int) =~= before);
    assert(open.subrange(before.len() as int, before.len() + named.len() as int) =~= named);
    assert(open.skip(before.len() + named.len() as int) =~= Seq::<char>::empty());
}

/// Every notice that speaks of an id, a number, a key, a script or an address says it, between
/// the words of its own sentence.
pub proof fn notices_say_what_they_are_about(notice: Notice, name: Seq<char>)
    ensures
        ({
            let text = notice.spec_text(name);
            match notice {
                Notice::AcceptingChannel { temporary_channel_id: id, .. } => frames(
                    text,
                    "Accepting channel with temp id "@,
                    hex_text(id.bytes@),
                    " from remote peer "@ + name,
                ),
                Notice::ChannelAccepted { temporary_channel_id: id, .. } => frames(
                    text,
                    "Channel "@,
                    hex_text(id.bytes@),
                    " was accepted by the remote peer "@ + name,
                ),
                Notice::VerifyingParams(id) => frames(
                    text,
                    "Verifying returned parameters for the channel "@,
                    hex_text(id.bytes@),
                    seq![],
                ),
                Notice::ReadyForFunding(id) => frames(
                    text,
                    "Channel "@,
                    hex_text(id.bytes@),
                    " is ready for funding"@,
                ),
                Notice::FundingStarted(id) => frames(
                    text,
                    "Funding channel "@,
                    hex_text(id.bytes@),
                    seq![],
                ),
                Notice::FundingChannel(id) => frames(
                    text,
                    "Funding channel "@,
                    short_hex_text(id.bytes@),
                    seq![],
                ),
                Notice::FundingCreated(id) => frames(
                    text,
                    "Funding created for channel "@,
                    hex_text(id.bytes@),
                    ". Awaiting for remote node signature."@,
                ),
                Notice::PeerFundingStarted(id) => frames(
                    text,
                    "Accepting channel funding "@,
                    hex_text(id.bytes@),
                    seq![],
                ),
                Notice::AcceptingFunding(id) => frames(
                    text,
                    "Accepting channel funding "@,
                    short_hex_text(id.bytes@),
                    seq![],
                ),
                Notice::FundingSigned(id) => frames(
                    text,
                    "Funding signed for channel "@,
                    hex_text(id.bytes@),
                    ". Awaiting for funding tx mining."@,
                ),
                Notice::ObscuringHash(hash) => frames(
                    text,
                    "Obscuring hash: "@,
                    hex_text(hash@),
                    seq![],
                ),
                Notice::ObscuringFactor(factor) => frames(
                    text,
                    "Obscuring factor: "@,
                    padded_hex_text(factor),
                    seq![],
                ),
                Notice::UpdatingChannelId(id) => frames(
                    text,
                    "Updating channel id to "@,
                    hex_text(id.bytes@),
                    seq![],
                ),
                Notice::ChannelIdSet(id) => frames(
                    text,
                    "Channel ID set to "@,
                    hex_text(id.bytes@),
                    seq![],
                ),
                Notice::GeneratingScript { local, remote } => frames(
                    text,
                    "Generating script pubkey from local "@,
                    hex_text(local@),
                    " and remote "@ + hex_text(remote@),
                ),
                Notice::FundingScript(script) => frames(
                    text,
                    "Funding script: "@,
                    script_text(script@),
                    seq![],
                ),
                Notice::FundingAddress(address) => frames(
                    text,
                    "Funding address: "@,
                    address@,
                    seq![],
                ),
                _ => true,
            }
        }),
{
    let text = notice.spec_text(name);
    match notice {
        Notice::AcceptingChannel { temporary_channel_id: id, .. } => {
            let after = " from remote peer "@ + name;
            lemma_frames("Accepting channel with temp id "@, hex_text(id.bytes@), after);
            assert(text =~= "Accepting channel with temp id "@ + hex_text(id.bytes@) + after);
        },
        Notice::ChannelAccepted { temporary_channel_id: id, .. } => {
            let after = " was accepted by the remote peer "@ + name;
            lemma_frames("Channel "@, hex_text(id.bytes@), after);
            assert(text =~= "Channel "@ + hex_text(id.bytes@) + after);
        },
        Notice::VerifyingParams(id) => {
            let before = "Verifying returned parameters for the channel "@;
            lemma_frames(before, hex_text(id.bytes@), seq![]);
        },
        Notice::ReadyForFunding(id) => {
            lemma_frames("Channel "@, hex_text(id.bytes@), " is ready for funding"@);
        },
        Notice::FundingStarted(id) => {
            lemma_frames("Funding channel "@, hex_text(id.bytes@), seq![]);
        },
        Notice::FundingChannel(id) => {
            lemma_frames("Funding channel "@, short_hex_text(id.bytes@), seq![]);
        },
        Notice::FundingCreated(id) => {
            let after = ". Awaiting for remote node signature."@;
            lemma_frames("Funding created for channel "@, hex_text(id.bytes@), after);
        },
        Notice::PeerFundingStarted(id) => {
            lemma_frames("Accepting channel funding "@, hex_text(id.bytes@), seq![]);
        },
        Notice::AcceptingFunding(id) => {
            lemma_frames("Accepting channel funding "@, short_hex_text(id.bytes@), seq![]);
        },
        Notice::FundingSigned(id) => {
            let after = ". Awaiting for funding tx mining."@;
            lemma_frames("Funding signed for channel "@, hex_text(id.bytes@), after);
        },
        Notice::ObscuringHash(hash) => {
            lemma_frames("Obscuring hash: "@, hex_text(hash@), seq![]);
        },
        Notice::ObscuringFactor(factor) => {
            lemma_frames("Obscuring factor: "@, padded_hex_text(factor), seq![]);
        },
        Notice::UpdatingChannelId(id) => {
            lemma_frames("Updating channel id to "@, hex_text(id.bytes@), seq![]);
        },
        Notice::ChannelIdSet(id) => {
            lemma_frames("Channel ID set to "@, hex_text(id.bytes@), seq![]);
        },
        Notice::GeneratingScript { local, remote } => {
            let before = "Generating script pubkey from local "@;
            let after = " and remote "@ + hex_text(remote@);
            lemma_frames(before, hex_text(local@), after);
            assert(text =~= before + hex_text(local@) + after);
        },
        Notice::FundingScript(script) => {
            lemma_frames("Funding script: "@, script_text(script@), seq![]);
        },
        Notice::FundingAddress(address) => {
            lemma_frames("Funding address: "@, address@, seq![]);
        },
        _ => {},
    }
}

/// Every other notice is a sentence of its own, with the name of what it speaks of where it
/// speaks of something.
pub proof fn other_notices_are_sentences(notice: Notice, name: Seq<char>)
    ensures
        notice is PreparedFundingCreated ==> frames(
            notice.spec_text(name),
            "Prepared funding_created: "@,
            name,
            seq![],
        ),
        notice is PreparedFundingSigned ==> frames(
            notice.spec_text(name),
            "Prepared funding_signed: "@,
            name,
            seq![],
        ),
        notice is UnexpectedOpenChannel ==> frames(
            notice.spec_text(name),
            "Got `open_channel` P2P message from "@,
            name,
            ", which is unexpected: the channel creation was already requested before"@,
        ),
        notice is NoFundingAddress ==> frames(
            notice.spec_text(name),
            "Unable to generate funding address for the current network  "@,
            name,
            seq![],
        ),
        notice is AcceptedByPeer ==> notice.spec_text(name)
            == "Channel was accepted by the remote peer"@,
        notice is ChannelFunded ==> notice.spec_text(name)
            == "Channel funded: both signatures present"@,
        notice is ChannelActive ==> notice.spec_text(name)
            == "Channel active: transaction confirmed"@,
        notice is UnsupportedRequest ==> notice.spec_text(name)
            == "Request is not supported by the CTL interface"@,
{
    lemma_frames("Prepared funding_created: "@, name, seq![]);
    lemma_frames("Prepared funding_signed: "@, name, seq![]);
    lemma_frames(
        "Got `open_channel` P2P message from "@,
        name,
        ", which is unexpected: the channel creation was already requested before"@,
    );
    lemma_frames("Unable to generate funding address for the current network  "@, name, seq![]);
}

/// Requests are numbered in the order in which they are declared.
pub proof fn requests_are_numbered_in_order(request: Request)
    ensures
        request.spec_type() <= 6,
        request is Hello <==> request.spec_type() == 0,
        request is LnpwpMessage <==> request.spec_type() == 1,
        request is Listen <==> request.spec_type() == 2,
        request is ConnectPeer <==> request.spec_type() == 3,
        request is PingPeer <==> request.spec_type() == 4,
        request is OpenChannelWith <==> request.spec_type() == 5,
        request is AcceptChannelFrom <==> request.spec_type() == 6,
{
}

/// A request is printed as a call. The message that it holds is printed in full, and no other
/// argument is.
pub proof fn requests_are_printed_as_calls(request: Request, message: Seq<char>)
    ensures
        request is LnpwpMessage ==> frames(request.spec_text(message), "lnpwp("@, message, ")"@),
        request is Hello ==> request.spec_text(message) == "hello()"@,
        request is Listen || request is ConnectPeer ==> request.spec_text(message) == "connect()"@,
        request is PingPeer ==> request.spec_text(message) == "ping_peer()"@,
        request is OpenChannelWith ==> request.spec_text(message) == "create_channel_with(...)"@,
        request is AcceptChannelFrom ==> request.spec_text(message)
            == "accept_channel_from(...)"@,
{
    lemma_frames("lnpwp("@, message, ")"@);
}

} // verus!

//! Scripts, addresses and ids, and the texts that stand for them.
//!
//! The functions of this module call `bdk::bitcoin`. Their contracts are taken from that crate
//! and are not proved here.
use bdk::bitcoin::bech32::u5;
use bdk::bitcoin::util::address::Payload as BitcoinPayload;
use vstd::prelude::*;

use crate::text::{decimal, decimal_tells_numbers_apart};
use crate::types::{Address, Network, OutPoint, Payload, PayloadView, Script, Txid};

verus! {

/// `OP_DUP OP_HASH160 <20 bytes> OP_EQUALVERIFY OP_CHECKSIG`.
pub open spec fn is_p2pkh(script: Seq<u8>) -> bool {
    &&& script.len() == 25
    &&& script[0] == 0x76
    &&& script[1] == 0xa9
    &&& script[2] == 0x14
    &&& script[23] == 0x88
    &&& script[24] == 0xac
}

/// `OP_HASH160 <20 bytes> OP_EQUAL`.
pub open spec fn is_p2sh(script: Seq<u8>) -> bool {
    &&& script.len() == 23
    &&& script[0] == 0xa9
    &&& script[1] == 0x14
    &&& script[22] == 0x87
}

/// A small number, 0 to 16, and one push of 2 to 40 bytes.
pub open spec fn is_witness_program(script: Seq<u8>) -> bool {
    &&& 4 <= script.len() <= 42
    &&& script[0] == 0 || 0x51 <= script[0] <= 0x60
    &&& script[1] == script.len() - 2
}

/// The opcode that pushes a witness version.
pub open spec fn version_opcode(version: u8) -> u8 {
    if version == 0 {
        0
    } else {
        (0x50 + version) as u8
    }
}

/// What a script pays to, if it has the form of an address.
pub open spec fn script_payload(script: Seq<u8>) -> Option<PayloadView> {
    if is_p2pkh(script) {
        Some(PayloadView::PubkeyHash(script.subrange(3, 23)))
    } else if is_p2sh(script) {
        Some(PayloadView::ScriptHash(script.subrange(2, 22)))
    } else if is_witness_program(script) {
        Some(
            PayloadView::WitnessProgram {
                version: if script[0] == 0 {
                    0
                } else {
                    (script[0] - 0x50) as u8
                },
                program: script.subrange(2, script.len() as int),
            },
        )
    } else {
        None
    }
}

/// The script that pays to a payload.
pub open spec fn payload_script(payload: PayloadView) -> Seq<u8> {
    match payload {
        PayloadView::PubkeyHash(hash) => seq![0x76u8, 0xa9u8, 0x14u8] + hash + seq![0x88u8, 0xacu8],
        PayloadView::ScriptHash(hash) => seq![0xa9u8, 0x14u8] + hash + seq![0x87u8],
        PayloadView::WitnessProgram { version, program } => seq![
            version_opcode(version),
            program.len() as u8,
        ] + program,
    }
}

/// The text of an address: base58 or bech32, as the payload and the network ask for.
pub uninterp spec fn address_text(payload: PayloadView, network: Network) -> Seq<char>;

/// The assembly text of a script.
pub uninterp spec fn asm_text(script: Seq<u8>) -> Seq<char>;

/// The lower case hexadecimal digit of `d`.
pub open spec fn hex_digit(d: int) -> char {
    if d < 10 {
        (48 + d) as char
    } else {
        (87 + d) as char
    }
}

/// The hexadecimal digit number `i` of a transaction id.
pub open spec fn txid_digit(txid: Txid, i: int) -> char {
    let byte = txid.bytes@[31 - i / 2] as int;
    if i % 2 == 0 {
        hex_digit(byte / 16)
    } else {
        hex_digit(byte % 16)
    }
}

/// The text of a transaction id: its bytes from the last to the first, two hexadecimal digits
/// each.
pub open spec fn txid_text(txid: Txid) -> Seq<char> {
    Seq::new(64, |i: int| txid_digit(txid, i))
}

/// The text of a reference to an output: the transaction id, a colon, the output's number.
pub open spec fn outpoint_text(outpoint: OutPoint) -> Seq<char> {
    txid_text(outpoint.txid).push(':') + decimal(outpoint.vout as nat)
}

/// Calls `bitcoin::util::address::Payload::from_script` (`bitcoin::Address::from_script` adds the
/// network it was given, and no more): it recognises the three forms of [`script_payload`] and no
/// others.
#[verifier::external_body]
pub(crate) fn address_from_script(script: &Script, network: Network) -> (address: Option<Address>)
    ensures
        address is Some <==> script_payload(script@) is Some,
        address matches Some(a) ==> {
            &&& Some(a.payload@) == script_payload(script@)
            &&& a.network == network
        },
{
    let script = bdk::bitcoin::Script::from(script.bytes.clone());
    let payload = match BitcoinPayload::from_script(&script)? {
        BitcoinPayload::PubkeyHash(hash) => Payload::PubkeyHash(bdk::bitcoin::hashes::Hash::into_inner(hash)),
        BitcoinPayload::ScriptHash(hash) => Payload::ScriptHash(bdk::bitcoin::hashes::Hash::into_inner(hash)),
        BitcoinPayload::WitnessProgram { version, program } => {
            Payload::WitnessProgram { version: version.to_u8(), program }
        },
    };
    Some(Address { payload, network })
}

/// Calls `bitcoin::util::address::Payload::script_pubkey` (which is all that
/// `bitcoin::Address::script_pubkey` does): the script has the form of [`payload_script`]. It
/// panics on witness versions above 16, which `well_formed` leaves out.
#[verifier::external_body]
pub(crate) fn script_pubkey(address: &Address) -> (script: Script)
    requires
        address.well_formed(),
    ensures
        script@ == payload_script(address.payload@),
{
    let payload = match &address.payload {
        Payload::PubkeyHash(hash) => BitcoinPayload::PubkeyHash(bdk::bitcoin::hashes::Hash::from_inner(*hash)),
        Payload::ScriptHash(hash) => BitcoinPayload::ScriptHash(bdk::bitcoin::hashes::Hash::from_inner(*hash)),
        Payload::WitnessProgram { version, program } => BitcoinPayload::WitnessProgram {
            version: u5::try_from_u8(*version).unwrap(),
            program: program.clone(),
        },
    };
    Script { bytes: payload.script_pubkey().into_bytes() }
}

/// Calls the `Display` impl of `bitcoin::Address`, whose result depends on the payload and the
/// network alone. What the text looks like is not stated.
#[verifier::external_body]
pub(crate) fn address_string(address: &Address) -> (text: String)
    requires
        address.well_formed(),
    ensures
        text@ == address_text(address.payload@, address.network),
{
    let network = match address.network {
        Network::Bitcoin => bdk::bitcoin::Network::Bitcoin,
        Network::Testnet => bdk::bitcoin::Network::Testnet,
        Network::Signet => bdk::bitcoin::Network::Signet,
        Network::Regtest => bdk::bitcoin::Network::Regtest,
    };
    let payload = match &address.payload {
        Payload::PubkeyHash(hash) => BitcoinPayload::PubkeyHash(bdk::bitcoin::hashes::Hash::from_inner(*hash)),
        Payload::ScriptHash(hash) => BitcoinPayload::ScriptHash(bdk::bitcoin::hashes::Hash::from_inner(*hash)),
        Payload::WitnessProgram { version, program } => BitcoinPayload::WitnessProgram {
            version: u5::try_from_u8(*version).unwrap(), program: program.clone(),
        },
    };
    bdk::bitcoin::Address { payload, network }.to_string()
}

/// Calls `bitcoin::Script::bytes_to_asm`, whose result depends on the script's bytes alone. What the text
/// looks like is not stated.
#[verifier::external_body]
pub(crate) fn asm_string(script: &Script) -> (text: String)
    ensures
        text@ == asm_text(script@),
{
    bdk::bitcoin::Script::bytes_to_asm(&script.bytes)
}

/// Calls the `Display` impl of `bitcoin::Txid`, which writes the bytes backwards in hexadecimal.
#[verifier::external_body]
pub(crate) fn txid_string(txid: &Txid) -> (text: String)
    ensures
        text@ == txid_text(*txid),
{
    let txid: bdk::bitcoin::Txid = bdk::bitcoin::hashes::Hash::from_inner(txid.bytes);
    txid.to_string()
}

/// Calls the `Display` impl of `bitcoin::OutPoint`, which writes the id, a colon and the number.
#[verifier::external_body]
pub(crate) fn outpoint_string(outpoint: &OutPoint) -> (text: String)
    ensures
        text@ == outpoint_text(*outpoint),
{
    let txid = bdk::bitcoin::hashes::Hash::from_inner(outpoint.txid.bytes);
    bdk::bitcoin::OutPoint { txid, vout: outpoint.vout }.to_string()
}

/// The script of an address leads back to what the address pays to.
pub proof fn address_script_reads_back(payload: PayloadView)
    requires
        payload.well_formed(),
    ensures
        script_payload(payload_script(payload)) == Some(payload),
{
    let script = payload_script(payload);
    match payload {
        PayloadView::PubkeyHash(hash) => {
            assert(script.subrange(3, 23) =~= hash);
        },
        PayloadView::ScriptHash(hash) => {
            assert(script.subrange(2, 22) =~= hash);
        },
        PayloadView::WitnessProgram { version, program } => {
            assert(script.subrange(2, script.len() as int) =~= program);
        },
    }
}

/// A script that has the form of an address is the script of that address, so no two scripts
/// share an address.
pub proof fn script_address_writes_back(script: Seq<u8>)
    requires
        script_payload(script) is Some,
    ensures
        script_payload(script)->0.well_formed(),
        payload_script(script_payload(script)->0) == script,
{
    assert(payload_script(script_payload(script)->0) =~= script);
}

/// No two transaction ids are written alike.
pub proof fn txid_text_tells_ids_apart(a: Txid, b: Txid)
    requires
        txid_text(a) == txid_text(b),
    ensures
        a == b,
{
    assert forall|k: int| 0 <= k < 32 implies a.bytes[k] == b.bytes[k] by {
        let i = 2 * (31 - k);
        assert(31 - i / 2 == k && i % 2 == 0);
        assert(31 - (i + 1) / 2 == k && (i + 1) % 2 == 1);
        assert(txid_text(a)[i] == txid_digit(a, i));
        assert(txid_text(b)[i] == txid_digit(b, i));
        assert(txid_text(a)[i + 1] == txid_digit(a, i + 1));
        assert(txid_text(b)[i + 1] == txid_digit(b, i + 1));
        lemma_hex_digit(a.bytes[k] as int / 16, b.bytes[k] as int / 16);
        lemma_hex_digit(a.bytes[k] as int % 16, b.bytes[k] as int % 16);
    }
    assert(a.bytes =~= b.bytes);
}

proof fn lemma_hex_digit(a: int, b: int)
    requires
        0 <= a < 16,
        0 <= b < 16,
        hex_digit(a) == hex_digit(b),
    ensures
        a == b,
{
}

/// No two references to outputs are written alike.
pub proof fn outpoint_text_tells_outputs_apart(a: OutPoint, b: OutPoint)
    requires
        outpoint_text(a) == outpoint_text(b),
    ensures
        a == b,
{
    let (ta, tb) = (outpoint_text(a), outpoint_text(b));
    assert(ta.subrange(0, 64) =~= txid_text(a.txid));
    assert(tb.subrange(0, 64) =~= txid_text(b.txid));
    txid_text_tells_ids_apart(a.txid, b.txid);
    assert(ta.subrange(65, ta.len() as int) =~= decimal(a.vout as nat));
    assert(tb.subrange(65, tb.len() as int) =~= decimal(b.vout as nat));
    decimal_tells_numbers_apart(a.vout as nat, b.vout as nat);
}

} // verus!

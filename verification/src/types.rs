//! The wallet's data as plain values.
use vstd::prelude::*;

verus! {

/// The chain on which an address is usable.
#[derive(Clone, Copy, Debug, PartialEq, Eq, Structural)]
pub enum Network {
    Bitcoin,
    Testnet,
    Signet,
    Regtest,
}

/// Which of the wallet's two key chains an output belongs to.
#[derive(Clone, Copy, Debug, PartialEq, Eq, Structural)]
pub enum KeychainKind {
    /// Addresses handed out to be paid to.
    External,
    /// Addresses for the wallet's own change.
    Internal,
}

/// An amount of bitcoin, in satoshi.
#[derive(Clone, Copy, Debug, PartialEq, Eq, Structural)]
pub struct Amount {
    pub sat: u64,
}

impl Amount {
    /// The amount of `sat` satoshi.
    pub fn from_sat(sat: u64) -> (amount: Amount)
        ensures
            amount.sat == sat,
    {
        Amount { sat }
    }

    /// The number of satoshi in the amount.
    pub fn as_sat(self) -> (sat: u64)
        ensures
            sat == self.sat,
    {
        self.sat
    }

    /// The sum, or `None` where it does not fit in 64 bits.
    pub fn checked_add(self, rhs: Amount) -> (sum: Option<Amount>)
        ensures
            sum is Some <==> self.sat + rhs.sat <= u64::MAX,
            sum matches Some(a) ==> a.sat == self.sat + rhs.sat,
    {
        match self.sat.checked_add(rhs.sat) {
            Some(sat) => Some(Amount { sat }),
            None => None,
        }
    }
}

/// A transaction id: the bytes of the hash, in the order in which they were hashed.
#[derive(Clone, Copy, Debug, PartialEq, Eq)]
pub struct Txid {
    pub bytes: [u8; 32],
}

impl Txid {
    /// Whether the two ids are the same.
    pub fn same(&self, other: &Txid) -> (r: bool)
        ensures
            r == (*self == *other),
    {
        let mut i: usize = 0;
        while i < 32
            invariant
                i <= 32,
                forall|j: int| 0 <= j < i ==> self.bytes[j] == other.bytes[j],
            decreases 32 - i,
        {
            if self.bytes[i] != other.bytes[i] {
                return false;
            }
            i += 1;
        }
        assert(self.bytes =~= other.bytes);
        true
    }
}

/// A reference to one output of a transaction.
#[derive(Clone, Copy, Debug, PartialEq, Eq)]
pub struct OutPoint {
    pub txid: Txid,
    pub vout: u32,
}

impl OutPoint {
    /// Whether the two refer to the same output.
    pub fn same(&self, other: &OutPoint) -> (r: bool)
        ensures
            r == (*self == *other),
    {
        self.vout == other.vout && self.txid.same(&other.txid)
    }

    /// Whether `list` holds this reference.
    pub fn is_in(&self, list: &Vec<OutPoint>) -> (r: bool)
        ensures
            r == list@.contains(*self),
    {
        let mut i: usize = 0;
        while i < list.len()
            invariant
                i <= list.len(),
                forall|j: int| 0 <= j < i ==> list@[j] != *self,
            decreases list.len() - i,
        {
            if list[i].same(self) {
                assert(list@[i as int] == *self);
                return true;
            }
            i += 1;
        }
        false
    }
}

/// A script, as its bytes.
#[derive(Debug, PartialEq, Eq)]
pub struct Script {
    pub bytes: Vec<u8>,
}

impl View for Script {
    type V = Seq<u8>;

    open spec fn view(&self) -> Seq<u8> {
        self.bytes@
    }
}

impl Clone for Script {
    fn clone(&self) -> (r: Self)
        ensures
            r@ == self@,
    {
        let bytes = self.bytes.clone();
        assert(bytes@ =~= self.bytes@);
        Script { bytes }
    }
}

impl Script {
    /// Whether the two scripts hold the same bytes.
    pub fn same(&self, other: &Script) -> (r: bool)
        ensures
            r == (self@ == other@),
    {
        if self.bytes.len() != other.bytes.len() {
            return false;
        }
        let mut i: usize = 0;
        while i < self.bytes.len()
            invariant
                i <= self.bytes.len(),
                self.bytes.len() == other.bytes.len(),
                forall|j: int| 0 <= j < i ==> self.bytes@[j] == other.bytes@[j],
            decreases self.bytes.len() - i,
        {
            if self.bytes[i] != other.bytes[i] {
                return false;
            }
            i += 1;
        }
        assert(self@ =~= other@);
        true
    }
}

/// An output of a transaction.
#[derive(Debug, PartialEq, Eq)]
pub struct TxOut {
    /// The value in satoshi.
    pub value: u64,
    /// The script that has to be satisfied to spend the output.
    pub script_pubkey: Script,
}

/// The mathematical value of a [`TxOut`].
pub struct TxOutView {
    pub value: u64,
    pub script_pubkey: Seq<u8>,
}

impl View for TxOut {
    type V = TxOutView;

    open spec fn view(&self) -> TxOutView {
        TxOutView { value: self.value, script_pubkey: self.script_pubkey@ }
    }
}

impl Clone for TxOut {
    fn clone(&self) -> (r: Self)
        ensures
            r@ == self@,
    {
        TxOut { value: self.value, script_pubkey: self.script_pubkey.clone() }
    }
}

/// An unspent output that the wallet owns.
#[derive(Debug, PartialEq, Eq)]
pub struct LocalUtxo {
    pub outpoint: OutPoint,
    pub txout: TxOut,
    pub keychain: KeychainKind,
}

/// The mathematical value of a [`LocalUtxo`].
pub struct LocalUtxoView {
    pub outpoint: OutPoint,
    pub txout: TxOutView,
    pub keychain: KeychainKind,
}

impl View for LocalUtxo {
    type V = LocalUtxoView;

    open spec fn view(&self) -> LocalUtxoView {
        LocalUtxoView { outpoint: self.outpoint, txout: self.txout@, keychain: self.keychain }
    }
}

impl Clone for LocalUtxo {
    fn clone(&self) -> (r: Self)
        ensures
            r@ == self@,
    {
        LocalUtxo { outpoint: self.outpoint, txout: self.txout.clone(), keychain: self.keychain }
    }
}

/// The values of a list of unspent outputs.
pub open spec fn utxo_views(utxos: Seq<LocalUtxo>) -> Seq<LocalUtxoView> {
    utxos.map_values(|u: LocalUtxo| u@)
}

/// The block in which a transaction was confirmed.
#[derive(Clone, Copy, Debug, PartialEq, Eq, Structural)]
pub struct BlockTime {
    pub height: u32,
    /// Seconds since the epoch.
    pub timestamp: u64,
}

/// A transaction, as far as the commands read it: its outputs.
#[derive(Debug, PartialEq, Eq)]
pub struct Transaction {
    pub output: Vec<TxOut>,
}

impl View for Transaction {
    type V = Seq<TxOutView>;

    open spec fn view(&self) -> Seq<TxOutView> {
        self.output@.map_values(|o: TxOut| o@)
    }
}

/// What the wallet knows of a transaction.
#[derive(Debug, PartialEq, Eq)]
pub struct TransactionDetails {
    /// The transaction itself, where it was read along.
    pub transaction: Option<Transaction>,
    pub txid: Txid,
    /// What the wallet received in it, in satoshi.
    pub received: u64,
    /// What the wallet spent in it, in satoshi.
    pub sent: u64,
    /// The fee in satoshi, where it is known.
    pub fee: Option<u64>,
    /// Where it is confirmed, the block.
    pub confirmation_time: Option<BlockTime>,
}

/// The mathematical value of a [`TransactionDetails`].
pub struct TransactionDetailsView {
    pub transaction: Option<Seq<TxOutView>>,
    pub txid: Txid,
    pub received: u64,
    pub sent: u64,
    pub fee: Option<u64>,
    pub confirmation_time: Option<BlockTime>,
}

impl View for TransactionDetails {
    type V = TransactionDetailsView;

    open spec fn view(&self) -> TransactionDetailsView {
        TransactionDetailsView {
            transaction: match self.transaction {
                Some(tx) => Some(tx@),
                None => None,
            },
            txid: self.txid,
            received: self.received,
            sent: self.sent,
            fee: self.fee,
            confirmation_time: self.confirmation_time,
        }
    }
}

/// The values of a list of transactions.
pub open spec fn tx_views(txs: Seq<TransactionDetails>) -> Seq<TransactionDetailsView> {
    txs.map_values(|t: TransactionDetails| t@)
}

/// What an address pays to.
#[derive(Debug, PartialEq, Eq)]
pub enum Payload {
    /// The hash of a public key.
    PubkeyHash([u8; 20]),
    /// The hash of a script.
    ScriptHash([u8; 20]),
    /// A segregated witness program.
    WitnessProgram { version: u8, program: Vec<u8> },
}

/// The mathematical value of a [`Payload`].
pub enum PayloadView {
    PubkeyHash(Seq<u8>),
    ScriptHash(Seq<u8>),
    WitnessProgram { version: u8, program: Seq<u8> },
}

impl PayloadView {
    /// Hashes have 20 bytes, witness versions go up to 16 and witness programs have 2 to 40 bytes.
    pub open spec fn well_formed(self) -> bool {
        match self {
            PayloadView::PubkeyHash(hash) => hash.len() == 20,
            PayloadView::ScriptHash(hash) => hash.len() == 20,
            PayloadView::WitnessProgram { version, program } => {
                version <= 16 && 2 <= program.len() <= 40
            },
        }
    }
}

impl View for Payload {
    type V = PayloadView;

    open spec fn view(&self) -> PayloadView {
        match self {
            Payload::PubkeyHash(hash) => PayloadView::PubkeyHash(hash@),
            Payload::ScriptHash(hash) => PayloadView::ScriptHash(hash@),
            Payload::WitnessProgram { version, program } => PayloadView::WitnessProgram {
                version: *version,
                program: program@,
            },
        }
    }
}

/// A Bitcoin address.
#[derive(Debug, PartialEq, Eq)]
pub struct Address {
    pub payload: Payload,
    pub network: Network,
}

impl Address {
    /// An address that can be written down and paid to.
    pub open spec fn well_formed(self) -> bool {
        self.payload@.well_formed()
    }

    /// Whether the address can be written down and paid to.
    pub fn is_well_formed(&self) -> (r: bool)
        ensures
            r == self.well_formed(),
    {
        match &self.payload {
            Payload::PubkeyHash(_) => true,
            Payload::ScriptHash(_) => true,
            Payload::WitnessProgram { version, program } => {
                *version <= 16 && 2 <= program.len() && program.len() <= 40
            },
        }
    }
}

/// The value of what the wallet knows of a transaction tells each part of it.
pub proof fn details_value_is_the_details(tx: TransactionDetails)
    ensures
        tx@.txid == tx.txid,
        tx@.received == tx.received,
        tx@.sent == tx.sent,
        tx@.fee == tx.fee,
        tx@.confirmation_time == tx.confirmation_time,
        tx@.transaction is Some <==> tx.transaction is Some,
        tx.transaction matches Some(t) ==> {
            &&& tx@.transaction->0.len() == t.output@.len()
            &&& forall|j: int|
                0 <= j < t.output@.len() ==> (#[trigger] tx@.transaction->0[j]).value
                    == t.output@[j].value && tx@.transaction->0[j].script_pubkey
                    == t.output@[j].script_pubkey.bytes@
        },
{
}

/// The value of a list of unspent outputs has each of them in its place, with each of its parts.
pub proof fn utxo_value_is_the_utxo(utxos: Seq<LocalUtxo>, i: int)
    requires
        0 <= i < utxos.len(),
    ensures
        utxo_views(utxos).len() == utxos.len(),
        utxo_views(utxos)[i].outpoint == utxos[i].outpoint,
        utxo_views(utxos)[i].txout.value == utxos[i].txout.value,
        utxo_views(utxos)[i].txout.script_pubkey == utxos[i].txout.script_pubkey.bytes@,
        utxo_views(utxos)[i].keychain == utxos[i].keychain,
{
}

/// The value of a list of transactions has each of them in its place.
pub proof fn details_values_keep_their_places(txs: Seq<TransactionDetails>, i: int)
    requires
        0 <= i < txs.len(),
    ensures
        tx_views(txs).len() == txs.len(),
        tx_views(txs)[i] == txs[i]@,
{
}

} // verus!

//! Unspent outputs, found by the script that they pay to.
use vstd::prelude::*;

use crate::addresses::lemma_filter_picks;
use crate::types::{utxo_views, LocalUtxo, LocalUtxoView, Script};

verus! {

/// The outputs that pay to a script.
pub open spec fn pays_to(script: Seq<u8>) -> spec_fn(LocalUtxoView) -> bool {
    |u: LocalUtxoView| u.txout.script_pubkey == script
}

/// Each script that some output pays to, with the outputs that do, in their order.
pub open spec fn by_script(utxos: Seq<LocalUtxoView>) -> Map<Seq<u8>, Seq<LocalUtxoView>> {
    Map::new(
        |script: Seq<u8>|
            exists|i: int| 0 <= i < utxos.len() && (#[trigger] utxos[i]).txout.script_pubkey == script,
        |script: Seq<u8>| utxos.filter(pays_to(script)),
    )
}

/// A map from scripts to unspent outputs.
pub struct UtxoIndex {
    entries: Vec<(Script, Vec<LocalUtxo>)>,
}

impl View for UtxoIndex {
    type V = Map<Seq<u8>, Seq<LocalUtxoView>>;

    closed spec fn view(&self) -> Map<Seq<u8>, Seq<LocalUtxoView>> {
        Map::new(
            |script: Seq<u8>| self.has(script),
            |script: Seq<u8>| utxo_views(self.entries@[self.place(script)].1@),
        )
    }
}

impl UtxoIndex {
    /// No script has two entries.
    pub closed spec fn well_formed(&self) -> bool {
        forall|i: int, j: int|
            0 <= i < j < self.entries@.len() ==> (#[trigger] self.entries@[i]).0@ != (
            #[trigger] self.entries@[j]).0@
    }

    spec fn has(&self, script: Seq<u8>) -> bool {
        exists|i: int| 0 <= i < self.entries@.len() && (#[trigger] self.entries@[i]).0@ == script
    }

    spec fn place(&self, script: Seq<u8>) -> int {
        choose|i: int| 0 <= i < self.entries@.len() && (#[trigger] self.entries@[i]).0@ == script
    }

    /// A script has its entry at one place alone.
    proof fn lemma_place(&self, script: Seq<u8>, i: int)
        requires
            self.well_formed(),
            0 <= i < self.entries@.len(),
            self.entries@[i].0@ == script,
        ensures
            self.has(script),
            self.place(script) == i,
    {
        assert(self.entries@[self.place(script)].0@ == script);
    }

    /// Setting the entry at `i`, or adding one there, sets what its script is mapped to.
    proof fn lemma_entry_set(&self, after: Self, i: int)
        requires
            self.well_formed(),
            0 <= i <= self.entries@.len(),
            after.entries@.len() == if i < self.entries@.len() {
                self.entries@.len()
            } else {
                self.entries@.len() + 1
            },
            forall|j: int|
                0 <= j < self.entries@.len() && j != i ==> #[trigger] after.entries@[j]
                    == self.entries@[j],
            forall|j: int|
                0 <= j < self.entries@.len() ==> ((#[trigger] self.entries@[j]).0@
                    == after.entries@[i].0@ <==> j == i),
        ensures
            after.well_formed(),
            after@ == self@.insert(after.entries@[i].0@, utxo_views(after.entries@[i].1@)),
    {
        let script = after.entries@[i].0@;
        assert(after.well_formed());
        after.lemma_place(script, i);
        assert forall|s: Seq<u8>| s != script implies #[trigger] after.has(s) == self.has(s) && (
        self.has(s) ==> after.place(s) == self.place(s)) by {
            if self.has(s) {
                after.lemma_place(s, self.place(s));
            }
            if after.has(s) {
                self.lemma_place(s, after.place(s));
            }
        }
        assert(after@ =~= self@.insert(script, utxo_views(after.entries@[i].1@)));
    }

    /// An index with nothing in it.
    pub fn new() -> (index: Self)
        ensures
            index.well_formed(),
            index@ == Map::<Seq<u8>, Seq<LocalUtxoView>>::empty(),
    {
        let index = UtxoIndex { entries: Vec::new() };
        assert(index@ =~= Map::<Seq<u8>, Seq<LocalUtxoView>>::empty());
        index
    }

    /// The place of a script's entry.
    fn find(&self, script: &Script) -> (found: Option<usize>)
        requires
            self.well_formed(),
        ensures
            found is Some <==> self@.contains_key(script@),
            found matches Some(i) ==> {
                &&& i < self.entries@.len()
                &&& self.entries@[i as int].0@ == script@
                &&& self@[script@] == utxo_views(self.entries@[i as int].1@)
            },
    {
        let mut i: usize = 0;
        while i < self.entries.len()
            invariant
                i <= self.entries.len(),
                self.well_formed(),
                forall|j: int| 0 <= j < i ==> (#[trigger] self.entries@[j]).0@ != script@,
            decreases self.entries.len() - i,
        {
            if self.entries[i].0.same(script) {
                proof {
                    self.lemma_place(script@, i as int);
                }
                return Some(i);
            }
            i += 1;
        }
        None
    }

    /// The outputs that pay to a script.
    pub fn get(&self, script: &Script) -> (utxos: Option<&Vec<LocalUtxo>>)
        requires
            self.well_formed(),
        ensures
            utxos is Some <==> self@.contains_key(script@),
            utxos matches Some(v) ==> utxo_views(v@) == self@[script@],
    {
        match self.find(script) {
            Some(i) => Some(&self.entries[i].1),
            None => None,
        }
    }

    /// Adds an output behind those that pay to the same script.
    pub fn add(&mut self, utxo: &LocalUtxo)
        requires
            old(self).well_formed(),
        ensures
            final(self).well_formed(),
            final(self)@ == old(self)@.insert(
                utxo@.txout.script_pubkey,
                (if old(self)@.contains_key(utxo@.txout.script_pubkey) {
                    old(self)@[utxo@.txout.script_pubkey]
                } else {
                    Seq::empty()
                }).push(utxo@),
            ),
    {
        let ghost script = utxo@.txout.script_pubkey;
        let ghost before = *self;
        match self.find(&utxo.txout.script_pubkey) {
            Some(i) => {
                self.entries[i].1.push(utxo.clone());
                proof {
                    assert(utxo_views(self.entries@[i as int].1@) =~= before@[script].push(utxo@));
                    before.lemma_entry_set(*self, i as int);
                }
            },
            None => {
                let one = vec![utxo.clone()];
                self.entries.push((utxo.txout.script_pubkey.clone(), one));
                proof {
                    assert(utxo_views(one@) =~= Seq::<LocalUtxoView>::empty().push(utxo@));
                    before.lemma_entry_set(*self, before.entries@.len() as int);
                }
            },
        }
    }
}

/// One more output goes behind those that pay to the same script.
proof fn lemma_by_script_step(utxos: Seq<LocalUtxoView>, u: LocalUtxoView)
    ensures
        by_script(utxos.push(u)) == by_script(utxos).insert(
            u.txout.script_pubkey,
            (if by_script(utxos).contains_key(u.txout.script_pubkey) {
                by_script(utxos)[u.txout.script_pubkey]
            } else {
                Seq::empty()
            }).push(u),
        ),
{
    let script = u.txout.script_pubkey;
    let more = utxos.push(u);
    reveal(Seq::filter);
    assert(more.drop_last() =~= utxos);
    assert(more[utxos.len() as int] == u);
    assert forall|s: Seq<u8>| #[trigger] by_script(more).contains_key(s) == (by_script(
        utxos,
    ).contains_key(s) || s == script) by {
        if by_script(utxos).contains_key(s) {
            let i = choose|i: int|
                0 <= i < utxos.len() && (#[trigger] utxos[i]).txout.script_pubkey == s;
            assert(more[i].txout.script_pubkey == s);
        }
        if by_script(more).contains_key(s) {
            let i = choose|i: int|
                0 <= i < more.len() && (#[trigger] more[i]).txout.script_pubkey == s;
            if i < utxos.len() {
                assert(utxos[i].txout.script_pubkey == s);
            }
        }
    }
    if !by_script(utxos).contains_key(script) {
        lemma_nothing_pays(utxos, script);
    }
    assert(by_script(more) =~= by_script(utxos).insert(
        script,
        (if by_script(utxos).contains_key(script) {
            by_script(utxos)[script]
        } else {
            Seq::empty()
        }).push(u),
    ));
}

/// A script outside the map is paid to by no output.
pub proof fn lemma_nothing_pays(utxos: Seq<LocalUtxoView>, script: Seq<u8>)
    requires
        !by_script(utxos).contains_key(script),
    ensures
        utxos.filter(pays_to(script)) == Seq::<LocalUtxoView>::empty(),
{
    let kept = utxos.filter(pays_to(script));
    if kept.len() > 0 {
        lemma_kept_is_there(utxos, script);
    }
    assert(kept =~= Seq::empty());
}

proof fn lemma_kept_is_there(utxos: Seq<LocalUtxoView>, script: Seq<u8>)
    requires
        utxos.filter(pays_to(script)).len() > 0,
    ensures
        by_script(utxos).contains_key(script),
    decreases utxos.len(),
{
    reveal(Seq::filter);
    if utxos.len() > 0 {
        if pays_to(script)(utxos.last()) {
            assert(utxos[utxos.len() - 1].txout.script_pubkey == script);
        } else {
            lemma_kept_is_there(utxos.drop_last(), script);
            let i = choose|i: int|
                0 <= i < utxos.drop_last().len() && (
                #[trigger] utxos.drop_last()[i]).txout.script_pubkey == script;
            assert(utxos[i].txout.script_pubkey == script);
        }
    }
}

/// Indexes unspent outputs by the script that they pay to.
pub fn index_utxos(utxos: &Vec<LocalUtxo>) -> (index: UtxoIndex)
    ensures
        index.well_formed(),
        index@ == by_script(utxo_views(utxos@)),
{
    let ghost all = utxo_views(utxos@);
    let mut index = UtxoIndex::new();
    let mut i: usize = 0;
    proof {
        assert(by_script(all.take(0)) =~= Map::<Seq<u8>, Seq<LocalUtxoView>>::empty());
    }
    while i < utxos.len()
        invariant
            i <= utxos.len(),
            all == utxo_views(utxos@),
            index.well_formed(),
            index@ == by_script(all.take(i as int)),
        decreases utxos.len() - i,
    {
        index.add(&utxos[i]);
        proof {
            lemma_by_script_step(all.take(i as int), all[i as int]);
            assert(all.take(i + 1) =~= all.take(i as int).push(all[i as int]));
        }
        i += 1;
    }
    proof {
        assert(all.take(all.len() as int) =~= all);
    }
    index
}

/// What the index gives for a script is the outputs that pay to it, all of them and in their order,
/// and it gives something exactly where there is one. The places of the outputs are returned.
pub proof fn index_finds_what_pays(
    utxos: &Vec<LocalUtxo>,
    index: &UtxoIndex,
    script: &Script,
    found: Option<&Vec<LocalUtxo>>,
) -> (at: Seq<int>)
    requires
        call_ensures(index_utxos, (utxos,), *index),
        call_ensures(UtxoIndex::get, (index, script), found),
    ensures
        found is Some <==> exists|i: int|
            0 <= i < utxos@.len() && (#[trigger] utxos@[i]).txout.script_pubkey.bytes@
                == script.bytes@,
        found matches Some(v) ==> {
            &&& at.len() == v@.len()
            &&& forall|k: int|
                0 <= k < at.len() ==> 0 <= #[trigger] at[k] < utxos@.len() && v@[k]@
                    == utxos@[at[k]]@
            &&& forall|j: int, k: int| 0 <= j < k < at.len() ==> #[trigger] at[j] < #[trigger] at[k]
            &&& forall|i: int|
                0 <= i < utxos@.len() ==> (at.contains(i) <==> (
                #[trigger] utxos@[i]).txout.script_pubkey.bytes@ == script.bytes@)
        },
{
    let all = utxo_views(utxos@);
    let pred = pays_to(script@);
    assert forall|i: int| 0 <= i < utxos@.len() implies {
        &&& #[trigger] all[i] == utxos@[i]@
        &&& all[i].txout.script_pubkey == utxos@[i].txout.script_pubkey.bytes@
    } by {}
    if found is Some {
        let i = choose|i: int|
            0 <= i < all.len() && (#[trigger] all[i]).txout.script_pubkey == script@;
        assert(utxos@[i].txout.script_pubkey.bytes@ == script.bytes@);
    }
    if exists|i: int|
        0 <= i < utxos@.len() && (#[trigger] utxos@[i]).txout.script_pubkey.bytes@
            == script.bytes@ {
        let i = choose|i: int|
            0 <= i < utxos@.len() && (#[trigger] utxos@[i]).txout.script_pubkey.bytes@
                == script.bytes@;
        assert(all[i].txout.script_pubkey == script@);
    }
    let at = lemma_filter_picks(all, pred);
    if let Some(v) = found {
        assert(utxo_views(v@) == all.filter(pred));
        assert forall|k: int| 0 <= k < at.len() implies 0 <= #[trigger] at[k] < utxos@.len()
            && v@[k]@ == utxos@[at[k]]@ by {
            assert(utxo_views(v@)[k] == all[at[k]]);
        }
        assert forall|i: int| 0 <= i < utxos@.len() implies (at.contains(i) <==> (
        #[trigger] utxos@[i]).txout.script_pubkey.bytes@ == script.bytes@) by {
            assert(all[i] == utxos@[i]@);
            if at.contains(i) {
                let k = choose|k: int| 0 <= k < at.len() && at[k] == i;
                assert(pred(all[at[k]]));
            }
        }
    }
    at
}

} // verus!

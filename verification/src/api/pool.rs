//! The model pool: loaded model handles by model name.
//!
//! A lookup, the load after a miss, and the entry of the new handle are
//! three steps. Only the first and the last touch the pool, so a slow load
//! keeps nobody from the handles of other models. Two callers that miss the
//! same name at once both load; the handle that is entered last stays.

use crate::api::error::{ErrorKind, GatewayError};
use crate::discover::{position_of, ModelDiscover};
use crate::engine::{
    EngineBackend, EngineConfig, EngineError, Scalar, EIGHT_TENTHS, ELEVEN_TENTHS, NINE_TENTHS,
};
use crate::model::{model_views, Model};
use crate::text::{concat, same_text};
use vstd::prelude::*;

verus! {

/// One loaded model: its name, the identity of its handle, and the handle.
pub struct PoolEntry<H> {
    pub name: String,
    pub id: u64,
    pub handle: H,
}

/// The pool. Every handle that enters it gets an identity that no handle
/// had before.
pub struct ModelPool<H> {
    entries: Vec<PoolEntry<H>>,
    issued: u64,
}

/// The identities by name of a list of entries, a later entry of a name
/// counting for an earlier one.
pub open spec fn identities<H>(entries: Seq<PoolEntry<H>>) -> Map<Seq<char>, nat>
    decreases entries.len(),
{
    if entries.len() == 0 {
        Map::empty()
    } else {
        identities(entries.drop_last()).insert(entries.last().name@, entries.last().id as nat)
    }
}

/// Whether no two entries have the same name.
pub open spec fn distinct_names<H>(entries: Seq<PoolEntry<H>>) -> bool {
    forall|i: int, j: int|
        0 <= i < j < entries.len() ==> (#[trigger] entries[i]).name@ != (
        #[trigger] entries[j]).name@
}

/// How many entries have the given name.
pub open spec fn entries_named<H>(entries: Seq<PoolEntry<H>>, name: Seq<char>) -> nat
    decreases entries.len(),
{
    if entries.len() == 0 {
        0
    } else {
        entries_named(entries.drop_last(), name) + if entries.last().name@ == name {
            1nat
        } else {
            0nat
        }
    }
}

/// The names of the entries are the names that have an identity.
pub proof fn lemma_identities_domain<H>(entries: Seq<PoolEntry<H>>, name: Seq<char>)
    ensures
        identities(entries).dom().contains(name) <==> exists|i: int|
            0 <= i < entries.len() && (#[trigger] entries[i]).name@ == name,
    decreases entries.len(),
{
    if entries.len() > 0 {
        lemma_identities_domain(entries.drop_last(), name);
        if identities(entries).dom().contains(name) {
            if entries.last().name@ == name {
                assert(entries[entries.len() - 1].name@ == name);
            } else {
                let i = choose|i: int|
                    0 <= i < entries.drop_last().len() && (#[trigger] entries.drop_last()[i]).name@
                        == name;
                assert(entries[i].name@ == name);
            }
        }
        if exists|i: int| 0 <= i < entries.len() && (#[trigger] entries[i]).name@ == name {
            let i = choose|i: int| 0 <= i < entries.len() && (#[trigger] entries[i]).name@ == name;
            if i < entries.len() - 1 {
                assert(entries.drop_last()[i].name@ == name);
            }
        }
    }
}

/// Entries of distinct names stay so without the last of them.
pub proof fn lemma_distinct_without_last<H>(entries: Seq<PoolEntry<H>>)
    requires
        distinct_names(entries),
        entries.len() > 0,
    ensures
        distinct_names(entries.drop_last()),
{
    let shorter = entries.drop_last();
    assert forall|i: int, j: int| 0 <= i < j < shorter.len() implies (#[trigger] shorter[i]).name@
        != (#[trigger] shorter[j]).name@ by {
        assert(entries[i].name@ != entries[j].name@);
    }
}

/// Among entries of distinct names, the identity of a name is that of its
/// entry.
pub proof fn lemma_identity_of_entry<H>(entries: Seq<PoolEntry<H>>, at: int)
    requires
        distinct_names(entries),
        0 <= at < entries.len(),
    ensures
        identities(entries).dom().contains(entries[at].name@),
        identities(entries)[entries[at].name@] == entries[at].id as nat,
    decreases entries.len(),
{
    if at < entries.len() - 1 {
        assert(entries.drop_last()[at] == entries[at]);
        lemma_distinct_without_last(entries);
        lemma_identity_of_entry(entries.drop_last(), at);
        assert(entries[at].name@ != entries[entries.len() - 1].name@);
    }
}

/// Among entries of distinct names, taking one entry out takes its name out
/// of the identities and leaves the others.
pub proof fn lemma_identities_without<H>(entries: Seq<PoolEntry<H>>, at: int)
    requires
        distinct_names(entries),
        0 <= at < entries.len(),
    ensures
        identities(entries.remove(at)) == identities(entries).remove(entries[at].name@),
        distinct_names(entries.remove(at)),
    decreases entries.len(),
{
    let out = entries.remove(at);
    assert(distinct_names(out)) by {
        assert forall|i: int, j: int| 0 <= i < j < out.len() implies (#[trigger] out[i]).name@ != (
        #[trigger] out[j]).name@ by {
            let a = if i < at {
                i
            } else {
                i + 1
            };
            let b = if j < at {
                j
            } else {
                j + 1
            };
            assert(out[i] == entries[a] && out[j] == entries[b]);
            assert(entries[a].name@ != entries[b].name@);
        }
    }
    if at == entries.len() - 1 {
        assert(out =~= entries.drop_last());
        lemma_identities_domain(entries.drop_last(), entries[at].name@);
        if identities(entries.drop_last()).dom().contains(entries[at].name@) {
            let i = choose|i: int|
                0 <= i < entries.drop_last().len() && (#[trigger] entries.drop_last()[i]).name@
                    == entries[at].name@;
            assert(entries[i].name@ != entries[at].name@);
        }
        assert(identities(out) =~= identities(entries).remove(entries[at].name@));
    } else {
        lemma_distinct_without_last(entries);
        assert(entries.drop_last()[at] == entries[at]);
        lemma_identities_without(entries.drop_last(), at);
        assert(out.drop_last() =~= entries.drop_last().remove(at));
        assert(out.last() == entries.last());
        assert(entries[at].name@ != entries[entries.len() - 1].name@);
        assert(identities(out) =~= identities(entries).remove(entries[at].name@));
    }
}

/// Among entries of distinct names each name has one entry or none:
/// one exactly if it has an identity.
pub proof fn lemma_one_entry_per_name<H>(entries: Seq<PoolEntry<H>>, name: Seq<char>)
    requires
        distinct_names(entries),
    ensures
        entries_named(entries, name) == if identities(entries).dom().contains(name) {
            1nat
        } else {
            0nat
        },
    decreases entries.len(),
{
    if entries.len() > 0 {
        lemma_distinct_without_last(entries);
        lemma_one_entry_per_name(entries.drop_last(), name);
        if entries.last().name@ == name {
            lemma_identities_domain(entries.drop_last(), name);
            if identities(entries.drop_last()).dom().contains(name) {
                let i = choose|i: int|
                    0 <= i < entries.drop_last().len() && (#[trigger] entries.drop_last()[i]).name@
                        == name;
                assert(entries[i].name@ != entries[entries.len() - 1].name@);
            }
        }
    }
}

/// Whether `after` holds the entries of `before` that have another name
/// than `name`, and no others.
pub open spec fn others_of<H>(
    before: Seq<PoolEntry<H>>,
    after: Seq<PoolEntry<H>>,
    name: Seq<char>,
) -> bool {
    forall|e: PoolEntry<H>| #[trigger] after.contains(e) <==> before.contains(e) && e.name@ != name
}

/// Among entries of distinct names, taking one entry out leaves the entries
/// of the other names, and no others.
pub proof fn lemma_others_without<H>(entries: Seq<PoolEntry<H>>, at: int)
    requires
        distinct_names(entries),
        0 <= at < entries.len(),
    ensures
        others_of(entries, entries.remove(at), entries[at].name@),
{
    let rest = entries.remove(at);
    let name = entries[at].name@;
    assert forall|e: PoolEntry<H>| #[trigger] rest.contains(e) <==> entries.contains(e) && e.name@
        != name by {
        if rest.contains(e) {
            let k = choose|k: int| 0 <= k < rest.len() && rest[k] == e;
            let from = if k < at {
                k
            } else {
                k + 1
            };
            assert(entries[from] == e);
            assert(entries[from].name@ != entries[at].name@);
        }
        if entries.contains(e) && e.name@ != name {
            let k = choose|k: int| 0 <= k < entries.len() && entries[k] == e;
            let to = if k < at {
                k
            } else {
                k - 1
            };
            assert(rest[to] == e);
        }
    }
}

/// Entries none of which has the name are the entries of the other names.
pub proof fn lemma_others_of_all<H>(entries: Seq<PoolEntry<H>>, name: Seq<char>)
    requires
        !identities(entries).dom().contains(name),
    ensures
        others_of(entries, entries, name),
{
    lemma_identities_domain(entries, name);
    assert forall|e: PoolEntry<H>| #[trigger] entries.contains(e) implies e.name@ != name by {
        let k = choose|k: int| 0 <= k < entries.len() && entries[k] == e;
        assert(entries[k].name@ == e.name@);
    }
}

impl<H> ModelPool<H> {
    /// The entries, in the order in which they came.
    pub closed spec fn entries(&self) -> Seq<PoolEntry<H>> {
        self.entries@
    }

    /// How many identities were handed out so far.
    pub closed spec fn issued(&self) -> nat {
        self.issued as nat
    }

    /// What holds of every pool: no name has two entries, and every
    /// identity in it was handed out.
    pub closed spec fn wf(&self) -> bool {
        &&& distinct_names(self.entries@)
        &&& forall|i: int|
            0 <= i < self.entries@.len() ==> (#[trigger] self.entries@[i]).id < self.issued
    }

    /// The identity of the handle of each name that has one.
    pub open spec fn view(&self) -> Map<Seq<char>, nat> {
        identities(self.entries())
    }

    /// How many entries the name has.
    pub open spec fn count(&self, name: Seq<char>) -> nat {
        entries_named(self.entries(), name)
    }

    /// In every pool each identity was handed out.
    pub proof fn lemma_identities_issued(&self)
        requires
            self.wf(),
        ensures
            identities_issued(self.state()),
    {
        assert forall|name: Seq<char>| #[trigger]
            self.state().identities.dom().contains(name) implies self.state().identities[name]
            < self.state().issued by {
            self.lemma_entries(name);
        }
    }

    /// A pool without entries.
    pub fn new() -> (pool: Self)
        ensures
            pool.wf(),
            pool@ == Map::<Seq<char>, nat>::empty(),
            pool.issued() == 0,
    {
        ModelPool { entries: Vec::new(), issued: 0 }
    }

    /// Every pool has one entry or none for each name, and every identity
    /// in it is below the number of those handed out.
    pub proof fn lemma_entries(&self, name: Seq<char>)
        requires
            self.wf(),
        ensures
            self.count(name) == if self@.dom().contains(name) {
                1nat
            } else {
                0nat
            },
            self@.dom().contains(name) ==> self@[name] < self.issued(),
    {
        lemma_one_entry_per_name(self.entries@, name);
        lemma_identities_domain(self.entries@, name);
        if self@.dom().contains(name) {
            let i = choose|i: int|
                0 <= i < self.entries@.len() && (#[trigger] self.entries@[i]).name@ == name;
            lemma_identity_of_entry(self.entries@, i);
        }
    }

    fn find(&self, model_name: &str) -> (at: Option<usize>)
        requires
            self.wf(),
        ensures
            match at {
                Some(i) => i < self.entries@.len() && self.entries@[i as int].name@ == model_name@,
                None => !self@.dom().contains(model_name@),
            },
    {
        let mut i: usize = 0;
        while i < self.entries.len()
            invariant
                0 <= i <= self.entries.len(),
                forall|k: int| 0 <= k < i ==> (#[trigger] self.entries@[k]).name@ != model_name@,
            decreases self.entries.len() - i,
        {
            if same_text(self.entries[i].name.as_str(), model_name) {
                return Some(i);
            }
            i += 1;
        }
        proof {
            lemma_identities_domain(self.entries@, model_name@);
        }
        None
    }

    /// The entry of the name, if the pool has one. The pool stays as it is.
    pub fn get_model(&self, model_name: &str) -> (found: Option<&PoolEntry<H>>)
        requires
            self.wf(),
        ensures
            found is Some == self@.dom().contains(model_name@),
            found matches Some(entry) ==> {
                &&& entry.name@ == model_name@
                &&& entry.id as nat == self@[model_name@]
                &&& entry.id < self.issued()
                &&& self.entries().contains(*entry)
                &&& forall|other: PoolEntry<H>|
                    #[trigger] self.entries().contains(other) && other.name@ == model_name@
                        ==> other == *entry
            },
    {
        match self.find(model_name) {
            Some(i) => {
                proof {
                    lemma_identity_of_entry(self.entries@, i as int);
                    assert forall|other: PoolEntry<H>|
                        #[trigger] self.entries@.contains(other) && other.name@
                            == model_name@ implies other == self.entries@[i as int] by {
                        let k = choose|k: int|
                            0 <= k < self.entries@.len() && self.entries@[k] == other;
                        if k != i {
                            assert(self.entries@[k].name@ != self.entries@[i as int].name@);
                        }
                    }
                }
                Some(&self.entries[i])
            },
            None => None,
        }
    }

    /// Enters a handle under the name, in place of the handle that the name
    /// had, if it had one. The handle gets the next identity, which is
    /// returned. The new entry is the last: it holds the name, the identity
    /// and the handle that was given, and before it stand the entries that
    /// the other names had. Only where no identity is left does the pool
    /// stay as it is and the handle come back.
    pub fn insert(&mut self, model_name: String, handle: H) -> (outcome: Result<u64, H>)
        requires
            old(self).wf(),
        ensures
            final(self).wf(),
            match outcome {
                Ok(id) => {
                    &&& old(self).issued() < u64::MAX
                    &&& id as nat == old(self).issued()
                    &&& final(self).issued() == old(self).issued() + 1
                    &&& final(self)@ == old(self)@.insert(model_name@, id as nat)
                    &&& final(self).state() == entered(old(self).state(), model_name@)
                    &&& final(self).count(model_name@) == 1
                    &&& final(self).entries().len() > 0
                    &&& final(self).entries().last() == (PoolEntry { name: model_name, id, handle })
                    &&& others_of(
                        old(self).entries(),
                        final(self).entries().drop_last(),
                        model_name@,
                    )
                },
                Err(back) => {
                    &&& old(self).issued() == u64::MAX
                    &&& back == handle
                    &&& final(self).entries() == old(self).entries()
                    &&& final(self).issued() == old(self).issued()
                },
            },
    {
        if self.issued == u64::MAX {
            return Err(handle);
        }
        let ghost name = model_name@;
        match self.find(model_name.as_str()) {
            Some(i) => {
                proof {
                    lemma_identities_without(self.entries@, i as int);
                    lemma_others_without(self.entries@, i as int);
                }
                self.entries.remove(i);
            },
            None => {
                proof {
                    lemma_others_of_all(self.entries@, name);
                }
                assert(self@ =~= old(self)@.remove(name));
            },
        }
        assert(identities(self.entries@) == old(self)@.remove(name));
        assert(others_of(old(self).entries@, self.entries@, name));
        let id = self.issued;
        let ghost before = self.entries@;
        self.entries.push(PoolEntry { name: model_name, id, handle });
        self.issued = self.issued + 1;
        proof {
            assert(self.entries@.drop_last() =~= before);
            assert(self@ =~= old(self)@.insert(name, id as nat));
            lemma_identities_domain(before, name);
            assert(distinct_names(self.entries@)) by {
                assert forall|a: int, b: int| 0 <= a < b < self.entries@.len() implies (
                #[trigger] self.entries@[a]).name@ != (#[trigger] self.entries@[b]).name@ by {
                    assert(self.entries@[a] == before[a]);
                    if b < before.len() {
                        assert(self.entries@[b] == before[b]);
                    }
                }
            }
            assert forall|k: int| 0 <= k < self.entries@.len() implies (
            #[trigger] self.entries@[k]).id < self.issued by {
                if k < before.len() {
                    assert(self.entries@[k] == before[k]);
                    assert(old(self).entries@.contains(before[k]));
                }
            }
            lemma_one_entry_per_name(self.entries@, name);
        }
        Ok(id)
    }

    /// Takes the entry of the name out of the pool, if it has one, and
    /// hands it to the caller: a generation that still uses the handle is
    /// not interrupted, the handle ends with its last user. The entries of
    /// the other names stay.
    pub fn unload_model(&mut self, model_name: &str) -> (removed: Option<PoolEntry<H>>)
        requires
            old(self).wf(),
        ensures
            final(self).wf(),
            final(self)@ == old(self)@.remove(model_name@),
            final(self).issued() == old(self).issued(),
            final(self).state() == unloaded(old(self).state(), model_name@),
            final(self).count(model_name@) == 0,
            removed is Some == old(self)@.dom().contains(model_name@),
            removed matches Some(entry) ==> entry.name@ == model_name@ && entry.id as nat == old(
                self,
            )@[model_name@] && old(self).entries().contains(entry),
            others_of(old(self).entries(), final(self).entries(), model_name@),
    {
        match self.find(model_name) {
            Some(i) => {
                proof {
                    lemma_identities_without(self.entries@, i as int);
                    lemma_identity_of_entry(self.entries@, i as int);
                    lemma_others_without(self.entries@, i as int);
                }
                let entry = self.entries.remove(i);
                proof {
                    assert forall|k: int| 0 <= k < self.entries@.len() implies (
                    #[trigger] self.entries@[k]).id < self.issued by {
                        let from = if k < i {
                            k
                        } else {
                            k + 1
                        };
                        assert(self.entries@[k] == old(self).entries@[from]);
                    }
                    lemma_one_entry_per_name(self.entries@, model_name@);
                }
                Some(entry)
            },
            None => {
                proof {
                    assert(self@ =~= old(self)@.remove(model_name@));
                    lemma_one_entry_per_name(self.entries@, model_name@);
                    lemma_others_of_all(self.entries@, model_name@);
                }
                None
            },
        }
    }

    /// How many models are loaded.
    pub fn len(&self) -> (n: usize)
        ensures
            n == self.entries().len(),
    {
        self.entries.len()
    }
}

/// The settings with which the pool loads a model.
pub open spec fn pool_config() -> EngineConfig {
    EngineConfig {
        n_ctx: 4096,
        n_len: None,
        temperature: Scalar { bits: EIGHT_TENTHS },
        top_k: 40,
        top_p: Scalar { bits: NINE_TENTHS },
        repeat_penalty: Scalar { bits: ELEVEN_TENTHS },
    }
}

/// What the backend is asked to load after a miss.
#[derive(Debug, Clone, PartialEq, Eq)]
pub struct LoadRequest {
    pub model: Model,
    pub config: EngineConfig,
}

/// The message of a miss on a name that the discovery does not know.
pub open spec fn unknown_model_message(name: Seq<char>) -> Seq<char> {
    "Model '"@ + name + "' not found: "@ + ("Model "@ + name + " not found"@)
}

/// The message of a load that failed.
pub open spec fn load_failure_message(name: Seq<char>, cause: Seq<char>) -> Seq<char> {
    "Failed to load model '"@ + name + "': "@ + cause
}

/// After a miss: what is to be loaded. The name is looked up in the
/// discovery list; a name that is not there is a failure of the kind
/// `NotFound`, and nothing is loaded.
pub fn load_request(discover: &ModelDiscover, model_name: &str) -> (request: Result<
    LoadRequest,
    GatewayError,
>)
    ensures
        match request {
            Ok(r) => {
                &&& position_of(model_views(discover.models()), model_name@)
                    < discover.models().len()
                &&& r.model == discover.models()[position_of(
                    model_views(discover.models()),
                    model_name@,
                )]
                &&& r.config == pool_config()
            },
            Err(e) => {
                &&& position_of(model_views(discover.models()), model_name@)
                    == discover.models().len()
                &&& e.kind == ErrorKind::NotFound
                &&& e.message@ == unknown_model_message(model_name@)
            },
        },
{
    match discover.find_model(model_name) {
        Ok(model) => Ok(
            LoadRequest {
                model,
                config: EngineConfig {
                    n_ctx: 4096,
                    n_len: None,
                    temperature: Scalar { bits: EIGHT_TENTHS },
                    top_k: 40,
                    top_p: Scalar { bits: NINE_TENTHS },
                    repeat_penalty: Scalar { bits: ELEVEN_TENTHS },
                },
            },
        ),
        Err(missing) => {
            let mut message = concat("Model '", model_name);
            message.append("' not found: ");
            let cause = missing.message();
            message.append(cause.as_str());
            Err(GatewayError { kind: ErrorKind::NotFound, message })
        },
    }
}

/// The failure of a load: of the kind `Load`, with the backend's message
/// behind the name of the model.
pub fn load_failure(model_name: &str, cause: &str) -> (error: GatewayError)
    ensures
        error.kind == ErrorKind::Load,
        error.message@ == load_failure_message(model_name@, cause@),
{
    let mut message = concat("Failed to load model '", model_name);
    message.append("': ");
    message.append(cause);
    GatewayError { kind: ErrorKind::Load, message }
}

/// The failure of a lock that was left broken.
pub fn lock_failure(cause: &str) -> (error: GatewayError)
    ensures
        error.kind == ErrorKind::Lock,
        error.message@ == cause@,
{
    GatewayError { kind: ErrorKind::Lock, message: cause.to_owned() }
}

/// The message of a load that found no identity for the handle.
pub open spec fn no_identity_message(name: Seq<char>) -> Seq<char> {
    load_failure_message(name, "no handle identity is left"@)
}

/// Whether `answer` is what the backend gave when it was asked to load
/// `model` with the settings of the pool.
pub open spec fn is_answer<B: EngineBackend>(model: Model, answer: Result<B, EngineError>) -> bool {
    call_ensures(B::new, (&pool_config(), &model), answer)
}

/// The handle of a model for a caller that is alone with the pool: the one
/// in the pool where the name has one, else a handle that is loaded for
/// the record of that name and entered. Its identity is returned.
///
/// A name that has a handle costs no load and cannot fail. A name that the
/// discovery does not know fails as `NotFound`. For a name that it knows
/// the backend is asked once, for the record of that name and with the
/// settings of the pool, and decides: its handle is entered under a new
/// identity, as the last entry, or its failure is passed on as `Load`,
/// with its own message behind the name. A failure leaves the pool as it
/// was.
pub fn get_or_load<B: EngineBackend>(
    pool: &mut ModelPool<B>,
    discover: &ModelDiscover,
    model_name: &str,
) -> (handle: Result<u64, GatewayError>)
    requires
        old(pool).wf(),
    ensures
        final(pool).wf(),
        old(pool)@.dom().contains(model_name@) ==> {
            &&& handle matches Ok(id)
            &&& id as nat == old(pool)@[model_name@]
            &&& final(pool).entries() == old(pool).entries()
            &&& final(pool).issued() == old(pool).issued()
        },
        !old(pool)@.dom().contains(model_name@) ==> match handle {
            Ok(id) => {
                &&& position_of(model_views(discover.models()), model_name@)
                    < discover.models().len()
                &&& id as nat == old(pool).issued()
                &&& final(pool)@ == old(pool)@.insert(model_name@, id as nat)
                &&& final(pool).issued() == old(pool).issued() + 1
                &&& final(pool).entries().len() > 0
                &&& final(pool).entries().last().name@ == model_name@
                &&& final(pool).entries().last().id == id
                &&& is_answer::<B>(
                    discover.models()[position_of(model_views(discover.models()), model_name@)],
                    Ok(final(pool).entries().last().handle),
                )
                &&& others_of(
                    old(pool).entries(),
                    final(pool).entries().drop_last(),
                    model_name@,
                )
            },
            Err(error) => {
                &&& final(pool).entries() == old(pool).entries()
                &&& final(pool).issued() == old(pool).issued()
                &&& error.kind == if position_of(model_views(discover.models()), model_name@)
                    == discover.models().len() {
                    ErrorKind::NotFound
                } else {
                    ErrorKind::Load
                }
                &&& error.kind == ErrorKind::NotFound ==> error.message@ == unknown_model_message(
                    model_name@,
                )
                &&& error.kind == ErrorKind::Load ==> {
                    ||| exists|failure: EngineError| #[trigger]
                        is_answer::<B>(
                            discover.models()[position_of(
                                model_views(discover.models()),
                                model_name@,
                            )],
                            Err(failure),
                        ) && error.message@ == load_failure_message(
                            model_name@,
                            failure.message@,
                        )
                    ||| old(pool).issued() == u64::MAX && error.message@ == no_identity_message(
                        model_name@,
                    )
                }
            },
        },
{
    match pool.get_model(model_name) {
        Some(entry) => {
            return Ok(entry.id);
        },
        None => {},
    }
    let request = match load_request(discover, model_name) {
        Ok(request) => request,
        Err(error) => {
            return Err(error);
        },
    };
    let ghost model = request.model;
    match B::new(&request.config, &request.model) {
        Ok(engine) => {
            assert(is_answer::<B>(model, Ok(engine)));
            match pool.insert(model_name.to_owned(), engine) {
                Ok(id) => Ok(id),
                Err(_) => Err(load_failure(model_name, "no handle identity is left")),
            }
        },
        Err(error) => {
            assert(is_answer::<B>(model, Err(error)));
            Err(load_failure(model_name, error.message.as_str()))
        },
    }
}

/// What the pool is, for the laws below: the identity of the handle of each
/// name, and how many identities were handed out.
pub struct PoolState {
    pub identities: Map<Seq<char>, nat>,
    pub issued: nat,
}

impl<H> ModelPool<H> {
    /// The state of the pool.
    pub open spec fn state(&self) -> PoolState {
        PoolState { identities: self@, issued: self.issued() }
    }
}

/// The state after a handle was entered under the name.
pub open spec fn entered(pool: PoolState, name: Seq<char>) -> PoolState {
    PoolState { identities: pool.identities.insert(name, pool.issued), issued: pool.issued + 1 }
}

/// The state after the name was unloaded.
pub open spec fn unloaded(pool: PoolState, name: Seq<char>) -> PoolState {
    PoolState { identities: pool.identities.remove(name), issued: pool.issued }
}

/// Whether every identity in the pool was handed out.
pub open spec fn identities_issued(pool: PoolState) -> bool {
    forall|name: Seq<char>| #[trigger]
        pool.identities.dom().contains(name) ==> pool.identities[name] < pool.issued
}

/// After a model was unloaded, the next handle of its name has an identity
/// that no handle had before: none that is in the pool, and none that ever
/// left it.
pub proof fn lemma_reload_is_fresh(pool: PoolState, name: Seq<char>, earlier: nat)
    requires
        identities_issued(pool),
        earlier < pool.issued,
    ensures
        !unloaded(pool, name).identities.dom().contains(name),
        entered(unloaded(pool, name), name).identities[name] != earlier,
        entered(unloaded(pool, name), name).identities[name] == pool.issued,
        identities_issued(entered(unloaded(pool, name), name)),
{
}

/// Where a caller of `get_model` for one name stands.
pub enum CallPhase {
    /// It has not looked into the pool yet.
    Waiting,
    /// It missed and loads the model.
    Loading,
    /// It has its handle.
    Served,
}

/// What a caller does next.
pub enum RaceStep {
    /// The caller looks the name up.
    Lookup(int),
    /// The caller enters the handle that it loaded.
    Enter(int),
}

/// Callers of `get_model` for one name, at some moment.
pub struct Race {
    pub pool: PoolState,
    pub phases: Seq<CallPhase>,
    pub loads: nat,
}

/// The race after one step. A caller that looks the name up is served at
/// once where the pool has the name and starts a load where it has not; a
/// caller that loaded enters its handle. A step that a caller cannot take
/// changes nothing.
pub open spec fn race_step(race: Race, name: Seq<char>, step: RaceStep) -> Race {
    match step {
        RaceStep::Lookup(c) => if 0 <= c < race.phases.len() && race.phases[c] is Waiting {
            if race.pool.identities.dom().contains(name) {
                Race { phases: race.phases.update(c, CallPhase::Served), ..race }
            } else {
                Race {
                    phases: race.phases.update(c, CallPhase::Loading),
                    loads: race.loads + 1,
                    ..race
                }
            }
        } else {
            race
        },
        RaceStep::Enter(c) => if 0 <= c < race.phases.len() && race.phases[c] is Loading {
            Race {
                pool: entered(race.pool, name),
                phases: race.phases.update(c, CallPhase::Served),
                ..race
            }
        } else {
            race
        },
    }
}

/// The race after the steps, in order.
pub open spec fn race_run(race: Race, name: Seq<char>, steps: Seq<RaceStep>) -> Race
    decreases steps.len(),
{
    if steps.len() == 0 {
        race
    } else {
        race_step(race_run(race, name, steps.drop_last()), name, steps.last())
    }
}

/// The race of `callers` callers before any of them has moved.
pub open spec fn race_start(pool: PoolState, callers: nat) -> Race {
    Race { pool, phases: Seq::new(callers, |c: int| CallPhase::Waiting), loads: 0 }
}

/// How many callers have looked the name up.
pub open spec fn started(phases: Seq<CallPhase>) -> nat
    decreases phases.len(),
{
    if phases.len() == 0 {
        0
    } else {
        started(phases.drop_last()) + if phases.last() is Waiting {
            0nat
        } else {
            1nat
        }
    }
}

/// Whether every caller has its handle.
pub open spec fn all_served(phases: Seq<CallPhase>) -> bool {
    forall|c: int| 0 <= c < phases.len() ==> #[trigger] phases[c] is Served
}

proof fn lemma_started_bound(phases: Seq<CallPhase>)
    ensures
        started(phases) <= phases.len(),
    decreases phases.len(),
{
    if phases.len() > 0 {
        lemma_started_bound(phases.drop_last());
    }
}

proof fn lemma_started_none(callers: nat)
    ensures
        started(Seq::new(callers, |c: int| CallPhase::Waiting)) == 0,
    decreases callers,
{
    if callers > 0 {
        lemma_started_none((callers - 1) as nat);
        assert(Seq::new(callers, |c: int| CallPhase::Waiting).drop_last() =~= Seq::new(
            (callers - 1) as nat,
            |c: int| CallPhase::Waiting,
        ));
    }
}

proof fn lemma_started_update(phases: Seq<CallPhase>, c: int, phase: CallPhase)
    requires
        0 <= c < phases.len(),
    ensures
        started(phases.update(c, phase)) + if phases[c] is Waiting {
            0nat
        } else {
            1nat
        } == started(phases) + if phase is Waiting {
            0nat
        } else {
            1nat
        },
    decreases phases.len(),
{
    if c == phases.len() - 1 {
        assert(phases.update(c, phase).drop_last() =~= phases.drop_last());
    } else {
        lemma_started_update(phases.drop_last(), c, phase);
        assert(phases.update(c, phase).drop_last() =~= phases.drop_last().update(c, phase));
    }
}

/// What holds at every moment of a race: no more loads than callers that
/// have looked the name up, and the name in the pool as soon as one caller
/// has its handle.
pub open spec fn race_inv(race: Race, name: Seq<char>, callers: nat) -> bool {
    &&& race.phases.len() == callers
    &&& race.loads <= started(race.phases)
    &&& (exists|c: int| 0 <= c < race.phases.len() && #[trigger] race.phases[c] is Served)
        ==> race.pool.identities.dom().contains(name)
}

proof fn lemma_race_step(race: Race, name: Seq<char>, callers: nat, step: RaceStep)
    requires
        race_inv(race, name, callers),
    ensures
        race_inv(race_step(race, name, step), name, callers),
{
    let next = race_step(race, name, step);
    match step {
        RaceStep::Lookup(c) => {
            if 0 <= c < race.phases.len() && race.phases[c] is Waiting {
                if race.pool.identities.dom().contains(name) {
                    lemma_started_update(race.phases, c, CallPhase::Served);
                } else {
                    lemma_started_update(race.phases, c, CallPhase::Loading);
                    if exists|d: int|
                        0 <= d < next.phases.len() && #[trigger] next.phases[d] is Served {
                        let d = choose|d: int|
                            0 <= d < next.phases.len() && #[trigger] next.phases[d] is Served;
                        assert(race.phases[d] is Served);
                    }
                }
            }
        },
        RaceStep::Enter(c) => {
            if 0 <= c < race.phases.len() && race.phases[c] is Loading {
                lemma_started_update(race.phases, c, CallPhase::Served);
            }
        },
    }
}

/// However the lookups and the entries of any number of callers for one
/// name follow each other, there are never more loads than callers; and
/// once every caller has its handle, the pool has the name, under one
/// identity.
pub proof fn lemma_concurrent_first_use(
    pool: PoolState,
    name: Seq<char>,
    callers: nat,
    steps: Seq<RaceStep>,
)
    ensures
        race_run(race_start(pool, callers), name, steps).loads <= callers,
        race_inv(race_run(race_start(pool, callers), name, steps), name, callers),
        callers > 0 && all_served(race_run(race_start(pool, callers), name, steps).phases)
            ==> race_run(race_start(pool, callers), name, steps).pool.identities.dom().contains(
            name,
        ),
    decreases steps.len(),
{
    let start = race_start(pool, callers);
    let end = race_run(start, name, steps);
    if steps.len() == 0 {
        lemma_started_none(callers);
        assert(!(exists|c: int|
            0 <= c < start.phases.len() && #[trigger] start.phases[c] is Served));
    } else {
        lemma_concurrent_first_use(pool, name, callers, steps.drop_last());
        lemma_race_step(race_run(start, name, steps.drop_last()), name, callers, steps.last());
    }
    lemma_started_bound(end.phases);
    if callers > 0 && all_served(end.phases) {
        assert(end.phases[0] is Served);
    }
}

} // verus!

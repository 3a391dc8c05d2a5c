//! Ingesting a downloaded binary index into a repository's metadata store:
//! filter the decoded payload stream to metadata records, key each by its
//! package hash, and group the rows into bounded transactional batches.

use vstd::prelude::*;

verus! {

use crate::repository::Error;
use crate::repository::MetaField;

/// How many rows one transactional batch-write may carry: tuned against the
/// store's parameter-count ceiling.
pub const DB_BATCH_SIZE: usize = 1000;

/// One decoded package metadata record: its display name and the package's
/// own hash field (the identifier derives from it, not from the record).
pub struct MetaRecord {
    pub name: String,
    pub hash: Option<String>,
}

impl MetaRecord {
    pub fn dup(&self) -> (r: MetaRecord)
        ensures
            r == *self,
    {
        MetaRecord {
            name: self.name.clone(),
            hash: match &self.hash {
                Some(h) => Some(h.clone()),
                None => None,
            },
        }
    }
}

/// One decoded unit of the index file; only metadata payloads are ingested.
pub enum Payload {
    Meta { meta: MetaRecord },
    /// Any other payload kind, skipped by the ingestion.
    Other,
}

/// One store row: a package record keyed by the identifier derived from its
/// hash field, stable across re-syncs with unchanged content.
pub struct StoreRow {
    pub id: String,
    pub meta: MetaRecord,
}

impl StoreRow {
    pub fn dup(&self) -> (r: StoreRow)
        ensures
            r == *self,
    {
        StoreRow { id: self.id.clone(), meta: self.meta.dup() }
    }
}

/// The metadata records of a payload sequence, in order.
pub open spec fn metas(s: Seq<Payload>) -> Seq<MetaRecord>
    decreases s.len(),
{
    if s.len() == 0 {
        Seq::empty()
    } else {
        match s.last() {
            Payload::Meta { meta } => metas(s.drop_last()).push(meta),
            Payload::Other => metas(s.drop_last()),
        }
    }
}

/// Every record carries its package hash.
pub open spec fn all_hashed(s: Seq<MetaRecord>) -> bool {
    forall|i: int| 0 <= i < s.len() ==> (#[trigger] s[i].hash) is Some
}

/// The store row of one record.
pub open spec fn spec_row(m: MetaRecord) -> StoreRow
    recommends
        m.hash is Some,
{
    StoreRow {
        id: match m.hash {
            Some(h) => h,
            None => m.name,
        },
        meta: m,
    }
}

/// The keyed rows of a record sequence, in order.
pub open spec fn keyed(s: Seq<MetaRecord>) -> Seq<StoreRow> {
    Seq::new(s.len(), |i: int| spec_row(s[i]))
}

/// The rows of a batch sequence, concatenated in insert order.
pub open spec fn flat(bs: Seq<Seq<StoreRow>>) -> Seq<StoreRow>
    decreases bs.len(),
{
    if bs.len() == 0 {
        Seq::empty()
    } else {
        flat(bs.drop_last()) + bs.last()
    }
}

proof fn lemma_metas_take_step(s: Seq<Payload>, i: int)
    requires
        1 <= i <= s.len(),
    ensures
        metas(s.take(i)) == (match s[i - 1] {
            Payload::Meta { meta } => metas(s.take(i - 1)).push(meta),
            Payload::Other => metas(s.take(i - 1)),
        }),
{
    assert(s.take(i).drop_last() =~= s.take(i - 1));
    assert(s.take(i).last() == s[i - 1]);
}

proof fn lemma_metas_app(a: Seq<Payload>, b: Seq<Payload>)
    ensures
        metas(a + b) == metas(a) + metas(b),
    decreases b.len(),
{
    if b.len() == 0 {
        assert(a + b =~= a);
        assert(metas(a) + metas(b) =~= metas(a));
    } else {
        lemma_metas_app(a, b.drop_last());
        assert((a + b).drop_last() =~= a + b.drop_last());
        assert((a + b).last() == b.last());
        match b.last() {
            Payload::Meta { meta } => {
                assert(metas(a + b) == metas(a) + metas(b.drop_last()).push(meta));
                assert(metas(b) == metas(b.drop_last()).push(meta));
                assert(metas(a) + metas(b.drop_last()).push(meta) =~= metas(a) + metas(b));
            },
            Payload::Other => {
                assert(metas(b) == metas(b.drop_last()));
            },
        }
    }
}

/// Key every metadata payload by its package hash, preserving stream order.
/// A metadata payload lacking the hash field fails the whole refresh —
/// propagated, never skipped.
pub fn key_payloads(payloads: &Vec<Payload>) -> (r: Result<Vec<StoreRow>, Error>)
    ensures
        all_hashed(metas(payloads@)) ==> (r matches Ok(rows) && rows@ == keyed(
            metas(payloads@),
        )),
        !all_hashed(metas(payloads@)) ==> (r matches Err(Error::MissingMetaField(
            MetaField::PackageHash,
        ))),
{
    let s = Ghost(payloads@);
    let n = payloads.len();
    let mut rows: Vec<StoreRow> = Vec::new();
    let mut i: usize = 0;
    while i < n
        invariant
            i <= n,
            n == s@.len(),
            s@ == payloads@,
            all_hashed(metas(s@.take(i as int))),
            rows@ == keyed(metas(s@.take(i as int))),
        decreases n - i,
    {
        match &payloads[i] {
            Payload::Meta { meta } => {
                match &meta.hash {
                    Some(h) => {
                        rows.push(StoreRow { id: h.clone(), meta: meta.dup() });
                        proof {
                            lemma_metas_take_step(s@, i + 1);
                            assert(metas(s@.take(i + 1)) == metas(s@.take(i as int)).push(
                                *meta,
                            ));
                            assert(rows@ =~= keyed(metas(s@.take(i + 1))));
                        }
                    },
                    None => {
                        proof {
                            lemma_metas_take_step(s@, i + 1);
                            let pre = metas(s@.take(i + 1));
                            let k = metas(s@.take(i as int)).len() as int;
                            assert(pre[k].hash is None);
                            assert(s@ =~= s@.take(i + 1) + s@.skip(i + 1));
                            lemma_metas_app(s@.take(i + 1), s@.skip(i + 1));
                            assert(metas(s@)[k].hash is None);
                            assert(!all_hashed(metas(s@)));
                        }
                        return Err(Error::MissingMetaField(MetaField::PackageHash));
                    },
                }
            },
            Payload::Other => {
                proof {
                    lemma_metas_take_step(s@, i + 1);
                    assert(rows@ =~= keyed(metas(s@.take(i + 1))));
                }
            },
        }
        i = i + 1;
    }
    proof {
        assert(s@.take(n as int) =~= s@);
    }
    Ok(rows)
}

/// Group rows into insert batches: every batch but the last holds exactly
/// `batch_size` rows, the last is non-empty and no larger, and their
/// concatenation is exactly the input order.
pub fn chunk_rows(rows: &Vec<StoreRow>, batch_size: usize) -> (r: Vec<Vec<StoreRow>>)
    requires
        batch_size >= 1,
    ensures
        flat(r@.map_values(|b: Vec<StoreRow>| b@)) == rows@,
        forall|i: int| 0 <= i < r@.len() ==> 1 <= (#[trigger] r@[i])@.len() <= batch_size,
        forall|i: int| 0 <= i < r@.len() - 1 ==> (#[trigger] r@[i])@.len() == batch_size,
{
    let n = rows.len();
    let mut out: Vec<Vec<StoreRow>> = Vec::new();
    let mut i: usize = 0;
    while i < n
        invariant
            batch_size >= 1,
            i <= n,
            n == rows@.len(),
            flat(out@.map_values(|b: Vec<StoreRow>| b@)) == rows@.take(i as int),
            forall|k: int| 0 <= k < out@.len() ==> 1 <= (#[trigger] out@[k])@.len()
                <= batch_size,
            i < n ==> forall|k: int| 0 <= k < out@.len() ==> (#[trigger] out@[k])@.len()
                == batch_size,
            forall|k: int| 0 <= k < out@.len() - 1 ==> (#[trigger] out@[k])@.len() == batch_size,
        decreases n - i,
    {
        let ghost start = i as int;
        let mut cur: Vec<StoreRow> = Vec::new();
        let mut j: usize = 0;
        while j < batch_size && i < n
            invariant
                j <= batch_size,
                i <= n,
                n == rows@.len(),
                0 <= start <= i as int,
                j == i - start,
                cur@ == rows@.subrange(start, i as int),
            decreases n - i,
        {
            cur.push(rows[i].dup());
            i = i + 1;
            j = j + 1;
            proof {
                assert(cur@ =~= rows@.subrange(start, i as int));
            }
        }
        let ghost old_out = out@;
        out.push(cur);
        proof {
            assert(out@.map_values(|b: Vec<StoreRow>| b@).drop_last() =~= old_out.map_values(
                |b: Vec<StoreRow>| b@,
            ));
            assert(flat(out@.map_values(|b: Vec<StoreRow>| b@)) == rows@.take(start)
                + rows@.subrange(start, i as int));
            assert(rows@.take(start) + rows@.subrange(start, i as int) =~= rows@.take(
                i as int,
            ));
        }
    }
    proof {
        assert(rows@.take(n as int) =~= rows@);
    }
    out
}

/// Whether a payload is a metadata record lacking the hash it must be keyed
/// by.
pub open spec fn payload_unkeyed(p: Payload) -> bool {
    match p {
        Payload::Meta { meta } => meta.hash is None,
        Payload::Other => false,
    }
}

/// Streams decoded payloads into bounded insert batches: the driver pushes
/// one payload at a time in stream order and writes each emitted batch before
/// decoding further, so the whole index is never materialized in memory.
pub struct BatchStream {
    batch_size: usize,
    cur: Vec<StoreRow>,
    seen: Ghost<Seq<Payload>>,
    emitted: Ghost<Seq<StoreRow>>,
}

impl BatchStream {
    /// The payloads accepted so far, in order.
    pub closed spec fn seen(self) -> Seq<Payload> {
        self.seen@
    }

    /// The rows already handed out in full batches, in order.
    pub closed spec fn emitted(self) -> Seq<StoreRow> {
        self.emitted@
    }

    /// The rows keyed but not yet handed out.
    pub closed spec fn pending(self) -> Seq<StoreRow> {
        self.cur@
    }

    pub closed spec fn size(self) -> nat {
        self.batch_size as nat
    }

    /// Every accepted metadata payload carried its hash; the emitted and
    /// pending rows together are exactly the keyed records of the accepted
    /// payloads; and less than one full batch is pending.
    pub open spec fn wf(self) -> bool {
        &&& self.size() >= 1
        &&& all_hashed(metas(self.seen()))
        &&& self.emitted() + self.pending() == keyed(metas(self.seen()))
        &&& self.pending().len() < self.size()
    }

    pub fn new(batch_size: usize) -> (r: BatchStream)
        requires
            batch_size >= 1,
        ensures
            r.wf(),
            r.size() == batch_size,
            r.seen() == Seq::<Payload>::empty(),
            r.emitted() == Seq::<StoreRow>::empty(),
    {
        let r = BatchStream {
            batch_size,
            cur: Vec::new(),
            seen: Ghost(Seq::empty()),
            emitted: Ghost(Seq::empty()),
        };
        proof {
            assert(r.emitted() + r.pending() =~= keyed(metas(r.seen())));
        }
        r
    }

    /// Accept the next payload of the stream. The moment a batch is full it
    /// comes back to be written; a metadata payload without its hash fails
    /// the whole refresh and leaves the stream unchanged.
    pub fn push(&mut self, payload: &Payload) -> (r: Result<Option<Vec<StoreRow>>, Error>)
        requires
            old(self).wf(),
        ensures
            final(self).wf(),
            final(self).size() == old(self).size(),
            payload_unkeyed(*payload) ==> (r matches Err(Error::MissingMetaField(
                MetaField::PackageHash,
            )) && *final(self) == *old(self)),
            !payload_unkeyed(*payload) ==> (r matches Ok(b)
                && final(self).seen() == old(self).seen().push(*payload)
                && (b matches Some(full) ==> full@.len() == old(self).size()
                    && final(self).emitted() == old(self).emitted() + full@)
                && (b is None ==> final(self).emitted() == old(self).emitted())),
    {
        let ghost s1 = self.seen@;
        match payload {
            Payload::Meta { meta } => {
                match &meta.hash {
                    Some(h) => {
                        self.cur.push(StoreRow { id: h.clone(), meta: meta.dup() });
                        self.seen = Ghost(self.seen@.push(Payload::Meta { meta: *meta }));
                        proof {
                            let s2 = self.seen@;
                            assert(s2.drop_last() =~= s1);
                            assert(metas(s2) == metas(s1).push(*meta));
                            assert(keyed(metas(s2)) =~= keyed(metas(s1)).push(spec_row(*meta)));
                            assert(self.emitted@ + self.cur@ =~= keyed(metas(s2)));
                        }
                        if self.cur.len() == self.batch_size {
                            let mut full: Vec<StoreRow> = Vec::new();
                            core::mem::swap(&mut full, &mut self.cur);
                            self.emitted = Ghost(self.emitted@ + full@);
                            proof {
                                assert(self.emitted@ + self.cur@ =~= self.emitted@);
                            }
                            Ok(Some(full))
                        } else {
                            Ok(None)
                        }
                    },
                    None => Err(Error::MissingMetaField(MetaField::PackageHash)),
                }
            },
            Payload::Other => {
                self.seen = Ghost(self.seen@.push(Payload::Other));
                proof {
                    let s2 = self.seen@;
                    assert(s2.drop_last() =~= s1);
                    assert(metas(s2) == metas(s1));
                }
                Ok(None)
            },
        }
    }

    /// The remainder once the stream is exhausted: less than one batch of
    /// rows, in order; together with what was emitted it is exactly the keyed
    /// record sequence of the whole stream.
    pub fn finish(self) -> (r: Option<Vec<StoreRow>>)
        requires
            self.wf(),
        ensures
            r matches Some(b) ==> 1 <= b@.len() < self.size() && self.emitted() + b@ == keyed(
                metas(self.seen()),
            ),
            r is None ==> self.emitted() == keyed(metas(self.seen())),
    {
        if self.cur.len() == 0 {
            proof {
                assert(self.emitted() =~= self.emitted() + self.pending());
            }
            None
        } else {
            Some(self.cur)
        }
    }
}

/// The whole ingestion plan for one downloaded and decoded index: filter to
/// metadata payloads, key each by its package hash, and group into
/// transactional batches no larger than `batch_size`.
pub fn plan_batches(payloads: &Vec<Payload>, batch_size: usize) -> (r: Result<
    Vec<Vec<StoreRow>>,
    Error,
>)
    requires
        batch_size >= 1,
    ensures
        all_hashed(metas(payloads@)) ==> (r matches Ok(batches) && flat(
            batches@.map_values(|b: Vec<StoreRow>| b@),
        ) == keyed(metas(payloads@)) && (forall|i: int|
            0 <= i < batches@.len() ==> 1 <= (#[trigger] batches@[i])@.len() <= batch_size)
            && (forall|i: int|
            0 <= i < batches@.len() - 1 ==> (#[trigger] batches@[i])@.len() == batch_size)),
        !all_hashed(metas(payloads@)) ==> (r matches Err(Error::MissingMetaField(
            MetaField::PackageHash,
        ))),
{
    match key_payloads(payloads) {
        Ok(rows) => Ok(chunk_rows(&rows, batch_size)),
        Err(e) => Err(e),
    }
}

/// What the metadata store holds after a refresh: the wipe empties it and the
/// planned batches are inserted in order, so whatever `prior` held is gone.
pub open spec fn store_after_refresh(prior: Seq<StoreRow>, batches: Seq<Seq<StoreRow>>) -> Seq<
    StoreRow,
> {
    flat(batches)
}

/// The payload-level reading of the replacement: when the ingestion plan of a
/// fully keyed index carries no record declaring hash `h`, the refreshed
/// store holds no row under identifier `h` — in particular, a package a prior
/// sync stored but the new index omits is gone.
pub proof fn lemma_refresh_omits_unlisted(
    payloads: Seq<Payload>,
    batches: Seq<Seq<StoreRow>>,
    prior: Seq<StoreRow>,
    h: Seq<char>,
)
    requires
        all_hashed(metas(payloads)),
        flat(batches) == keyed(metas(payloads)),
        forall|i: int|
            0 <= i < metas(payloads).len() ==> ((#[trigger] metas(payloads)[i]).hash matches Some(
                x,
            ) && x@ != h),
    ensures
        forall|k: int|
            0 <= k < store_after_refresh(prior, batches).len() ==> (#[trigger] store_after_refresh(
                prior,
                batches,
            )[k]).id@ != h,
{
    assert forall|k: int|
        0 <= k < store_after_refresh(prior, batches).len() implies (#[trigger] store_after_refresh(
        prior,
        batches,
    )[k]).id@ != h by {
        assert(store_after_refresh(prior, batches)[k] == spec_row(metas(payloads)[k]));
    }
}

proof fn lemma_flat_index(bs: Seq<Seq<StoreRow>>, k: int)
    requires
        0 <= k < flat(bs).len(),
    ensures
        exists|i: int, j: int|
            0 <= i < bs.len() && 0 <= j < bs[i].len() && flat(bs)[k] == bs[i][j],
    decreases bs.len(),
{
    let head = flat(bs.drop_last());
    if k < head.len() {
        lemma_flat_index(bs.drop_last(), k);
        let (i, j) = choose|i: int, j: int|
            0 <= i < bs.drop_last().len() && 0 <= j < bs.drop_last()[i].len() && head[k]
                == bs.drop_last()[i][j];
        assert(0 <= i < bs.len() && 0 <= j < bs[i].len() && flat(bs)[k] == bs[i][j]);
    } else {
        let i = bs.len() - 1;
        let j = k - head.len();
        assert(0 <= i < bs.len() && 0 <= j < bs[i].len() && flat(bs)[k] == bs[i][j]);
    }
}

/// Refresh replaces, never merges: a package identifier that no batch of the
/// new index carries is absent from the store afterward, whatever the store
/// held before the wipe.
pub proof fn lemma_refresh_replaces(
    prior: Seq<StoreRow>,
    batches: Seq<Seq<StoreRow>>,
    id: Seq<char>,
)
    requires
        forall|i: int, j: int|
            0 <= i < batches.len() && 0 <= j < batches[i].len() ==> (#[trigger] batches[i][j]).id@
                != id,
    ensures
        forall|k: int|
            0 <= k < store_after_refresh(prior, batches).len() ==> (#[trigger] store_after_refresh(
                prior,
                batches,
            )[k]).id@ != id,
{
    assert forall|k: int|
        0 <= k < store_after_refresh(prior, batches).len() implies (#[trigger] store_after_refresh(
        prior,
        batches,
    )[k]).id@ != id by {
        lemma_flat_index(batches, k);
    }
}

} // verus!

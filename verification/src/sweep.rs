//! The janitor's sweep of expired files: who may start one, that only one
//! runs at a time, and the bookkeeping of each batch.
use vstd::prelude::*;
use vstd::string::*;
use vstd::utf8::{decode_utf8, encode_utf8};
use crate::text::bytes_equal_constant_time;

verus! {

/// Expired files fetched per batch.
pub const BATCH_SIZE: i64 = 500;

/// Whether the bearer token of a sweep request is the maintenance token,
/// compared in constant time.
pub fn authorize_sweep(token: &str, maintenance_token: &str) -> (r: bool)
    ensures
        r == (token@ == maintenance_token@),
{
    let r = bytes_equal_constant_time(token.as_bytes(), maintenance_token.as_bytes());
    proof {
        vstd::utf8::encode_utf8_decode_utf8(token@);
        vstd::utf8::encode_utf8_decode_utf8(maintenance_token@);
    }
    r
}

/// How a sweep request is answered.
#[derive(Clone, Copy, Debug, PartialEq, Eq, Structural)]
pub enum SweepReply {
    /// Wrong or missing maintenance token.
    Unauthorized,
    /// A sweep is already running.
    AlreadyRunning,
    /// A sweep was started in the background.
    Started,
}

/// Whether a sweep is running.
pub struct SweepGate {
    running: bool,
}

impl SweepGate {
    /// A sweep is running.
    pub closed spec fn is_running(&self) -> bool {
        self.running
    }

    /// No sweep running.
    pub fn new() -> (g: Self)
        ensures
            !g.is_running(),
    {
        SweepGate { running: false }
    }

    /// Answers a sweep request: unauthorized without the right token, refused
    /// while a sweep runs, else started; only a started sweep changes the
    /// state, to running.
    pub fn request(&mut self, authorized: bool) -> (reply: SweepReply)
        ensures
            reply == sweep_reply(old(self).is_running(), authorized),
            final(self).is_running() == (old(self).is_running() || reply == SweepReply::Started),
    {
        if !authorized {
            SweepReply::Unauthorized
        } else if self.running {
            SweepReply::AlreadyRunning
        } else {
            self.running = true;
            SweepReply::Started
        }
    }

    /// The running sweep ended, however it ended.
    pub fn finish(&mut self)
        ensures
            !final(self).is_running(),
    {
        self.running = false;
    }

    /// Whether a sweep is running.
    pub fn running(&self) -> (r: bool)
        ensures
            r == self.is_running(),
    {
        self.running
    }
}

/// The answer to a sweep request, given whether a sweep runs and whether
/// the token was right.
pub open spec fn sweep_reply(running: bool, authorized: bool) -> SweepReply {
    if !authorized {
        SweepReply::Unauthorized
    } else if running {
        SweepReply::AlreadyRunning
    } else {
        SweepReply::Started
    }
}

/// Two sweeps never run at once: while one runs, no request starts another.
pub proof fn lemma_one_sweep_at_a_time(authorized: bool)
    ensures
        sweep_reply(true, authorized) != SweepReply::Started,
{
}

/// Only the right token starts a sweep.
pub proof fn lemma_only_maintenance_token_starts(running: bool)
    ensures
        sweep_reply(running, false) == SweepReply::Unauthorized,
{
}

/// The ids of the batch rows whose storage keys were deleted, in batch order.
pub open spec fn deleted_ids_spec(batch: Seq<(String, String)>, deleted_keys: Seq<String>) -> Seq<String>
    decreases batch.len(),
{
    if batch.len() == 0 {
        Seq::empty()
    } else {
        let rest = deleted_ids_spec(batch.drop_last(), deleted_keys);
        if key_deleted(batch.last().1, deleted_keys) {
            rest.push(batch.last().0)
        } else {
            rest
        }
    }
}

/// `key` is among the deleted keys.
pub open spec fn key_deleted(key: String, deleted_keys: Seq<String>) -> bool {
    exists|i: int| 0 <= i < deleted_keys.len() && #[trigger] deleted_keys[i]@ == key@
}

/// The ids of a batch are never more than its rows.
pub proof fn lemma_deleted_ids_len(batch: Seq<(String, String)>, deleted_keys: Seq<String>)
    ensures
        deleted_ids_spec(batch, deleted_keys).len() <= batch.len(),
    decreases batch.len(),
{
    if batch.len() > 0 {
        lemma_deleted_ids_len(batch.drop_last(), deleted_keys);
    }
}

fn contains_key(keys: &Vec<String>, key: &String) -> (r: bool)
    ensures
        r == key_deleted(*key, keys@),
{
    let mut i: usize = 0;
    while i < keys.len()
        invariant
            i <= keys@.len(),
            forall|j: int| 0 <= j < i ==> keys@[j]@ != key@,
        decreases keys.len() - i,
    {
        if keys[i] == *key {
            assert(keys@[i as int]@ == key@);
            return true;
        }
        i = i + 1;
    }
    false
}

/// The ids of the batch rows (id, storage key) whose keys storage reports
/// as deleted, in batch order.
pub fn deleted_ids(batch: &Vec<(String, String)>, deleted_keys: &Vec<String>) -> (r: Vec<String>)
    ensures
        r@ == deleted_ids_spec(batch@, deleted_keys@),
{
    let mut r: Vec<String> = Vec::new();
    let mut i: usize = 0;
    while i < batch.len()
        invariant
            i <= batch@.len(),
            r@ == deleted_ids_spec(batch@.take(i as int), deleted_keys@),
        decreases batch.len() - i,
    {
        assert(batch@.take(i + 1).drop_last() =~= batch@.take(i as int));
        if contains_key(deleted_keys, &batch[i].1) {
            r.push(batch[i].0.clone());
        }
        i = i + 1;
    }
    assert(batch@.take(batch@.len() as int) =~= batch@);
    r
}

/// What to do next in a sweep.
#[derive(Clone, Debug)]
pub enum SweepStep {
    /// Delete these file rows, whose bytes are gone, then fetch the next batch.
    DeleteRows(Vec<String>),
    /// Done: no expired files are left, or none of a batch could be deleted.
    Finish,
}

/// The counts of a sweep so far.
pub struct SweepRun {
    deleted: u64,
    failed: u64,
}

impl SweepRun {
    /// Files deleted so far.
    pub closed spec fn deleted_count(&self) -> nat {
        self.deleted as nat
    }

    /// Files whose bytes could not be deleted so far.
    pub closed spec fn failed_count(&self) -> nat {
        self.failed as nat
    }

    /// Nothing counted yet.
    pub fn new() -> (r: Self)
        ensures
            r.deleted_count() == 0,
            r.failed_count() == 0,
    {
        SweepRun { deleted: 0, failed: 0 }
    }

    /// Takes a batch of expired files (id, storage key) and the keys storage
    /// deleted from it: an empty batch ends the sweep; otherwise the files
    /// whose bytes remain count as failed, and the rows of the others are to
    /// be deleted, unless there are none, which ends the sweep.
    pub fn on_batch(&mut self, batch: &Vec<(String, String)>, deleted_keys: &Vec<String>) -> (step: SweepStep)
        requires
            old(self).failed_count() + batch@.len() <= u64::MAX,
        ensures
            final(self).deleted_count() == old(self).deleted_count(),
            final(self).failed_count() == old(self).failed_count() + batch@.len() - deleted_ids_spec(
                batch@,
                deleted_keys@,
            ).len(),
            batch@.len() == 0 ==> step is Finish,
            batch@.len() > 0 && deleted_ids_spec(batch@, deleted_keys@).len() == 0 ==> step is Finish,
            deleted_ids_spec(batch@, deleted_keys@).len() > 0 ==> (step matches SweepStep::DeleteRows(ids)
                && ids@ == deleted_ids_spec(batch@, deleted_keys@)),
    {
        if batch.len() == 0 {
            assert(deleted_ids_spec(batch@, deleted_keys@) =~= Seq::<String>::empty());
            return SweepStep::Finish;
        }
        let ids = deleted_ids(batch, deleted_keys);
        proof {
            lemma_deleted_ids_len(batch@, deleted_keys@);
        }
        self.failed = self.failed + (batch.len() - ids.len()) as u64;
        if ids.len() == 0 {
            SweepStep::Finish
        } else {
            SweepStep::DeleteRows(ids)
        }
    }

    /// Counts the rows that were deleted.
    pub fn on_rows_deleted(&mut self, rows: u64)
        requires
            old(self).deleted_count() + rows <= u64::MAX,
        ensures
            final(self).deleted_count() == old(self).deleted_count() + rows,
            final(self).failed_count() == old(self).failed_count(),
    {
        self.deleted = self.deleted + rows;
    }

    /// The counts: (deleted, failed).
    pub fn counts(&self) -> (r: (u64, u64))
        ensures
            r.0 == self.deleted_count(),
            r.1 == self.failed_count(),
    {
        (self.deleted, self.failed)
    }
}

} // verus!


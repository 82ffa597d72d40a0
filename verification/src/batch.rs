//! The download loop over a model of the output directory: each fetched body
//! is written to a file named after its entry's title, a failed fetch is
//! reported and skipped, and no failure stops the batch.

use vstd::prelude::*;

use crate::config::Config;
use crate::config::file_name_spec;
use crate::config::output_file_name;

verus! {

/// A model of the output directory: the log of writes made to it. Its view
/// is the map from each file name to the bytes most recently written under
/// that name.
pub struct Directory {
    writes: Vec<(String, Vec<u8>)>,
}

/// The map a write log leaves behind: each write in turn binds its name to
/// its bytes, so a later write under the same name wins.
spec fn write_log_map(s: Seq<(String, Vec<u8>)>) -> Map<Seq<char>, Seq<u8>>
    decreases s.len(),
{
    if s.len() == 0 {
        Map::empty()
    } else {
        write_log_map(s.drop_last()).insert(s.last().0@, s.last().1@)
    }
}

impl View for Directory {
    type V = Map<Seq<char>, Seq<u8>>;

    closed spec fn view(&self) -> Map<Seq<char>, Seq<u8>> {
        write_log_map(self.writes@)
    }
}

impl Directory {
    /// An empty directory.
    pub fn new() -> (d: Directory)
        ensures
            d@ == Map::<Seq<char>, Seq<u8>>::empty(),
    {
        Directory { writes: Vec::new() }
    }

    /// Writes `bytes` under `name`, replacing whatever the name held before.
    pub fn write(&mut self, name: String, bytes: Vec<u8>)
        ensures
            final(self)@ == old(self)@.insert(name@, bytes@),
    {
        proof {
            assert(old(self).writes@.push((name, bytes)).drop_last() =~= old(self).writes@);
        }
        self.writes.push((name, bytes));
    }

    /// The bytes currently held under `name`, if any file of that name was
    /// written.
    pub fn read(&self, name: &String) -> (r: Option<&Vec<u8>>)
        ensures
            match r {
                Some(b) => self@.contains_key(name@) && self@[name@] == b@,
                None => !self@.contains_key(name@),
            },
    {
        let n = self.writes.len();
        let mut i: usize = n;
        proof {
            assert(self.writes@.take(n as int) =~= self.writes@);
        }
        while i > 0
            invariant
                i <= n,
                n == self.writes@.len(),
                self@.contains_key(name@) <==> write_log_map(
                    self.writes@.take(i as int),
                ).contains_key(name@),
                self@.contains_key(name@) ==> self@[name@] == write_log_map(
                    self.writes@.take(i as int),
                )[name@],
            decreases i,
        {
            proof {
                assert(self.writes@.take(i as int).drop_last() =~= self.writes@.take(i - 1));
                assert(self.writes@.take(i as int).last() == self.writes@[i - 1]);
            }
            let p = &self.writes[i - 1];
            if p.0 == *name {
                return Some(&p.1);
            }
            i -= 1;
        }
        None
    }
}

/// What the HTTP GET for an entry came back with: the response body, or the
/// message of a transport failure.
#[derive(Debug)]
pub enum FetchResult {
    Body(Vec<u8>),
    Failed(String),
}

/// What one entry's attempt is reported as: the file name it was saved
/// under, or the failure message.
#[derive(Debug)]
pub enum Outcome {
    Saved(String),
    Failed(String),
}

/// The directory map after one entry's attempt: a fetched body is written
/// under the entry's file name, a failed fetch changes nothing.
pub open spec fn saved_map(
    m: Map<Seq<char>, Seq<u8>>,
    c: Config,
    f: FetchResult,
) -> Map<Seq<char>, Seq<u8>> {
    if f is Body {
        m.insert(file_name_spec(c.title@), f->Body_0@)
    } else {
        m
    }
}

/// The outcome reported for an entry follows its fetch alone: a body is
/// saved under the entry's file name, a failure is reported with its
/// message.
pub open spec fn outcome_matches(c: Config, f: FetchResult, o: Outcome) -> bool {
    &&& f is Body ==> o is Saved && o->Saved_0@ == file_name_spec(c.title@)
    &&& f is Failed ==> o is Failed && o->Failed_0@ == f->Failed_0@
}

/// One entry's fetch-and-save step: a fetched body is written to the
/// directory under the entry's derived file name (overwriting any earlier
/// file of that name); a failed fetch leaves the directory unchanged.
pub fn fetch_and_save(dir: &mut Directory, entry: &Config, fetched: FetchResult) -> (r: Outcome)
    ensures
        final(dir)@ == saved_map(old(dir)@, *entry, fetched),
        outcome_matches(*entry, fetched, r),
{
    match fetched {
        FetchResult::Body(bytes) => {
            let name = output_file_name(entry.title.as_str());
            let reported = name.clone();
            dir.write(name, bytes);
            Outcome::Saved(reported)
        },
        FetchResult::Failed(m) => Outcome::Failed(m),
    }
}

/// The directory map after a whole batch, entry by entry in order.
pub open spec fn batch_map(
    m: Map<Seq<char>, Seq<u8>>,
    cs: Seq<Config>,
    fs: Seq<FetchResult>,
) -> Map<Seq<char>, Seq<u8>>
    decreases cs.len(),
{
    if cs.len() == 0 {
        m
    } else {
        saved_map(batch_map(m, cs.drop_last(), fs.drop_last()), cs.last(), fs.last())
    }
}

/// Runs the whole batch: every entry is attempted, strictly in order, and a
/// failure on one entry never stops the rest. Returns one outcome per entry,
/// each determined by that entry's own fetch alone.
pub fn run_batch(dir: &mut Directory, configs: &Vec<Config>, fetches: Vec<FetchResult>) -> (r: Vec<
    Outcome,
>)
    requires
        fetches@.len() == configs@.len(),
    ensures
        final(dir)@ == batch_map(old(dir)@, configs@, fetches@),
        r@.len() == configs@.len(),
        forall|i: int|
            0 <= i < configs@.len() ==> outcome_matches(configs@[i], fetches@[i], #[trigger] r@[i]),
{
    let ghost all_fetches = fetches@;
    let n = configs.len();
    let mut rest = fetches;
    let mut out: Vec<Outcome> = Vec::new();
    let mut i: usize = 0;
    proof {
        assert(all_fetches.skip(0) =~= all_fetches);
        assert(configs@.take(0) =~= Seq::<Config>::empty());
        assert(all_fetches.take(0) =~= Seq::<FetchResult>::empty());
    }
    while i < n
        invariant
            n == configs@.len(),
            all_fetches.len() == n,
            i <= n,
            rest@ == all_fetches.skip(i as int),
            out@.len() == i,
            forall|k: int|
                0 <= k < i ==> outcome_matches(configs@[k], all_fetches[k], #[trigger] out@[k]),
            dir@ == batch_map(old(dir)@, configs@.take(i as int), all_fetches.take(i as int)),
        decreases n - i,
    {
        proof {
            assert(all_fetches.skip(i as int)[0] == all_fetches[i as int]);
        }
        let f = rest.remove(0);
        let o = fetch_and_save(dir, &configs[i], f);
        out.push(o);
        proof {
            assert(rest@ =~= all_fetches.skip(i + 1));
            assert(configs@.take(i + 1).drop_last() =~= configs@.take(i as int));
            assert(all_fetches.take(i + 1).drop_last() =~= all_fetches.take(i as int));
            assert(configs@.take(i + 1).last() == configs@[i as int]);
            assert(all_fetches.take(i + 1).last() == all_fetches[i as int]);
        }
        i += 1;
    }
    proof {
        assert(configs@.take(n as int) =~= configs@);
        assert(all_fetches.take(n as int) =~= all_fetches);
    }
    out
}

/// Law: when two entries carry the same title and both fetches succeed, the
/// second save overwrites the first — the directory keeps only the second
/// body.
pub proof fn lemma_last_write_wins(
    m: Map<Seq<char>, Seq<u8>>,
    a: Config,
    b: Config,
    fa: FetchResult,
    fb: FetchResult,
)
    requires
        a.title@ == b.title@,
        fa is Body,
        fb is Body,
    ensures
        saved_map(saved_map(m, a, fa), b, fb) == saved_map(m, b, fb),
{
    assert(saved_map(saved_map(m, a, fa), b, fb) =~= saved_map(m, b, fb));
}

/// Law: an entry whose fetch failed contributes nothing to the batch — the
/// directory ends exactly as it would have without that entry, so the other
/// entries' outputs are written all the same.
pub proof fn lemma_failed_fetch_ignored(
    m: Map<Seq<char>, Seq<u8>>,
    cs: Seq<Config>,
    fs: Seq<FetchResult>,
    j: int,
)
    requires
        fs.len() == cs.len(),
        0 <= j < cs.len(),
        fs[j] is Failed,
    ensures
        batch_map(m, cs, fs) == batch_map(m, cs.remove(j), fs.remove(j)),
    decreases cs.len(),
{
    if j == cs.len() - 1 {
        assert(cs.remove(j) =~= cs.drop_last());
        assert(fs.remove(j) =~= fs.drop_last());
    } else {
        assert(fs.drop_last()[j] == fs[j]);
        lemma_failed_fetch_ignored(m, cs.drop_last(), fs.drop_last(), j);
        assert(cs.remove(j).drop_last() =~= cs.drop_last().remove(j));
        assert(fs.remove(j).drop_last() =~= fs.drop_last().remove(j));
        assert(cs.remove(j).last() == cs.last());
        assert(fs.remove(j).last() == fs.last());
    }
}

} // verus!

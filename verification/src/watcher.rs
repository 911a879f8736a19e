//! Finding the replay saved after a match: among the files of the replay
//! folder, the newest `.replay` file written after a baseline a little before
//! the end of the match; and when the wait for one is over.
use vstd::prelude::*;

use crate::text::chars_of;

verus! {

/// How long before the end of a match the baseline lies, in seconds.
pub const REPLAY_LOOKBACK_SECS: u64 = 5;

/// How long to wait between two looks at the replay folder, in seconds.
pub const POLL_INTERVAL_SECS: u64 = 2;

/// Nanoseconds in a second.
pub const NANOS_PER_SEC: u64 = 1_000_000_000;

/// The position of the last `'.'` of a text, or -1 when it has none.
pub open spec fn last_dot(s: Seq<char>) -> int
    decreases s.len(),
{
    if s.len() == 0 {
        -1
    } else if s.last() == '.' {
        s.len() - 1
    } else {
        last_dot(s.drop_last())
    }
}

/// The extension of a file name as `Path::extension` of std finds it: the text
/// after the last `'.'`, when there is one that is not the first character
/// (so `.replay` has none), and none for `..`.
pub open spec fn extension_text(name: Seq<char>) -> Option<Seq<char>> {
    if name == seq!['.', '.'] || last_dot(name) <= 0 {
        None
    } else {
        Some(name.skip(last_dot(name) + 1))
    }
}

/// Whether a file name is that of a replay: its extension is `replay`.
pub open spec fn is_replay_name_text(name: Seq<char>) -> bool {
    extension_text(name) == Some("replay"@)
}

proof fn lemma_last_dot_range(s: Seq<char>)
    ensures
        -1 <= last_dot(s) < s.len(),
        last_dot(s) >= 0 ==> s[last_dot(s)] == '.',
        forall|i: int| last_dot(s) < i < s.len() ==> s[i] != '.',
    decreases s.len(),
{
    if s.len() > 0 && s.last() != '.' {
        lemma_last_dot_range(s.drop_last());
        assert forall|i: int| last_dot(s) < i < s.len() implies s[i] != '.' by {
            if i < s.len() - 1 {
                assert(s.drop_last()[i] == s[i]);
            }
        }
    }
}

proof fn lemma_last_dot_unique(s: Seq<char>, k: int)
    requires
        -1 <= k < s.len(),
        k >= 0 ==> s[k] == '.',
        forall|i: int| k < i < s.len() ==> s[i] != '.',
    ensures
        last_dot(s) == k,
    decreases s.len(),
{
    if s.len() > 0 && k < s.len() - 1 {
        assert(s.last() != '.');
        lemma_last_dot_unique(s.drop_last(), k);
    }
}

/// Whether `name` is the file name of a replay.
pub fn is_replay_name(name: &str) -> (r: bool)
    ensures
        r == is_replay_name_text(name@),
{
    let cs = chars_of(name);
    let n = cs.len();
    if n == 2 && cs[0] == '.' && cs[1] == '.' {
        assert(name@ =~= seq!['.', '.']);
        return false;
    }
    // find the last '.'
    let mut i: usize = n;
    let mut found = false;
    while i > 0
        invariant_except_break
            !found,
        invariant
            cs@ == name@,
            n == cs@.len(),
            i <= n,
            forall|j: int| i <= j < n ==> cs@[j] != '.',
        ensures
            cs@ == name@,
            i <= n,
            forall|j: int| i <= j < n ==> cs@[j] != '.',
            found ==> 0 < i && cs@[i - 1] == '.',
            !found ==> i == 0,
        decreases i,
    {
        if cs[i - 1] == '.' {
            found = true;
            break;
        }
        i = i - 1;
    }
    proof {
        if found {
            lemma_last_dot_unique(name@, i - 1);
        } else {
            lemma_last_dot_unique(name@, -1);
        }
    }
    if !found || i == 1 {
        return false;
    }
    // compare the rest with "replay"
    let ext_len = n - i;
    if ext_len != 6 {
        proof {
            reveal_strlit("replay");
            assert(name@.skip(last_dot(name@) + 1).len() != 6);
        }
        return false;
    }
    let r = cs[i] == 'r' && cs[i + 1] == 'e' && cs[i + 2] == 'p' && cs[i + 3] == 'l' && cs[i + 4]
        == 'a' && cs[i + 5] == 'y';
    proof {
        reveal_strlit("replay");
        let ext = name@.skip(i as int);
        if r {
            assert(ext =~= "replay"@);
        } else {
            assert(ext != "replay"@) by {
                if ext == "replay"@ {
                    assert(ext[0] == 'r' && ext[1] == 'e' && ext[2] == 'p' && ext[3] == 'l'
                        && ext[4] == 'a' && ext[5] == 'y');
                }
            }
        }
    }
    r
}

/// When a file was written, as far as the folder listing could tell.
#[derive(Debug, Clone)]
pub enum Stamp {
    /// Its creation time (or, where that is not kept, its modification time),
    /// in nanoseconds since the Unix epoch.
    Known(i128),
    /// The file's metadata could not be read; the file is passed over.
    NoMetadata,
    /// Neither time could be read from its metadata; the look fails.
    NoTime,
}

/// One file of the replay folder.
#[derive(Debug, Clone)]
pub struct Candidate {
    /// The file's name.
    pub name: String,
    pub stamp: Stamp,
}

/// Whether a file is a replay written after `since`.
pub open spec fn qualifies(c: Candidate, since: i128) -> bool {
    &&& is_replay_name_text(c.name@)
    &&& c.stamp matches Stamp::Known(t) && t > since
}

/// The time of a file whose time is known.
pub open spec fn stamp_time(c: Candidate) -> i128 {
    match c.stamp {
        Stamp::Known(t) => t,
        _ => 0,
    }
}

/// Whether the look fails at file `i`: the first replay whose time cannot be
/// read.
pub open spec fn fails_at(files: Seq<Candidate>, i: int) -> bool {
    &&& 0 <= i < files.len()
    &&& is_replay_name_text(files[i].name@)
    &&& files[i].stamp is NoTime
    &&& forall|j: int| 0 <= j < i ==> !(is_replay_name_text(#[trigger] files[j].name@) && files[j].stamp is NoTime)
}

/// Whether file `i` is the one a look picks: a replay written after `since`,
/// no other such file is newer, and every earlier such file is older.
pub open spec fn newest_at(files: Seq<Candidate>, since: i128, i: int) -> bool {
    &&& 0 <= i < files.len()
    &&& qualifies(files[i], since)
    &&& forall|j: int|
        0 <= j < files.len() && qualifies(#[trigger] files[j], since) ==> stamp_time(files[j])
            <= stamp_time(files[i])
    &&& forall|j: int|
        0 <= j < i && qualifies(#[trigger] files[j], since) ==> stamp_time(files[j]) < stamp_time(
            files[i],
        )
}

/// The outcome of one look at the replay folder.
pub open spec fn look_outcome(files: Seq<Candidate>, since: i128, r: Result<Option<usize>, usize>) -> bool {
    match r {
        Err(i) => fails_at(files, i as int),
        Ok(Some(i)) => (forall|j: int| 0 <= j < files.len() ==> !(is_replay_name_text(
            #[trigger] files[j].name@) && files[j].stamp is NoTime)) && newest_at(files, since, i as int),
        Ok(None) => (forall|j: int| 0 <= j < files.len() ==> !(is_replay_name_text(
            #[trigger] files[j].name@) && files[j].stamp is NoTime)) && forall|j: int|
            0 <= j < files.len() ==> !qualifies(#[trigger] files[j], since),
    }
}

/// Picks, from one listing of the replay folder, the replay to upload: the
/// newest replay written after `since` (the first listed of equally new
/// ones), none when there is no such file, and the position of the first
/// replay whose time cannot be read when there is one.
pub fn pick_newest(files: &Vec<Candidate>, since: i128) -> (r: Result<Option<usize>, usize>)
    ensures
        look_outcome(files@, since, r),
{
    let mut best: Option<usize> = None;
    let mut best_t: i128 = 0;
    let mut i: usize = 0;
    while i < files.len()
        invariant
            i <= files@.len(),
            forall|j: int| 0 <= j < i ==> !(is_replay_name_text(#[trigger] files@[j].name@)
                && files@[j].stamp is NoTime),
            best matches Some(b) ==> b < i && qualifies(files@[b as int], since) && best_t
                == stamp_time(files@[b as int]),
            best is None ==> forall|j: int| 0 <= j < i ==> !qualifies(#[trigger] files@[j], since),
            best matches Some(b) ==> forall|j: int|
                0 <= j < i && qualifies(#[trigger] files@[j], since) ==> stamp_time(files@[j])
                    <= best_t,
            best matches Some(b) ==> forall|j: int|
                0 <= j < b && qualifies(#[trigger] files@[j], since) ==> stamp_time(files@[j])
                    < best_t,
        decreases files@.len() - i,
    {
        let f = &files[i];
        if is_replay_name(f.name.as_str()) {
            match &f.stamp {
                Stamp::NoMetadata => {},
                Stamp::NoTime => {
                    return Err(i);
                },
                Stamp::Known(t) => {
                    if *t > since {
                        match best {
                            None => {
                                best = Some(i);
                                best_t = *t;
                            },
                            Some(_) => {
                                if *t > best_t {
                                    best = Some(i);
                                    best_t = *t;
                                }
                            },
                        }
                    }
                },
            }
        }
        i = i + 1;
    }
    Ok(best)
}

/// The baseline for the replay of a match that ended at `now` (nanoseconds
/// since the Unix epoch): five seconds earlier.
pub fn replay_baseline(now: i128) -> (since: i128)
    requires
        now >= i128::MIN + REPLAY_LOOKBACK_SECS * NANOS_PER_SEC,
    ensures
        since == now - REPLAY_LOOKBACK_SECS * NANOS_PER_SEC,
        since == now - 5_000_000_000,
{
    now - (REPLAY_LOOKBACK_SECS as i128) * (NANOS_PER_SEC as i128)
}

/// Whether the wait is over: `elapsed` nanoseconds have passed since it began
/// and the deadline lies `timeout_secs` seconds after its beginning.
pub fn wait_is_over(elapsed: u128, timeout_secs: u64) -> (r: bool)
    ensures
        r == (elapsed >= timeout_secs * NANOS_PER_SEC),
        r == (elapsed >= timeout_secs * 1_000_000_000),
{
    let t = timeout_secs as u128;
    assert(t * 1_000_000_000 <= u64::MAX * 1_000_000_000) by (nonlinear_arith)
        requires
            t <= u64::MAX,
    ;
    elapsed >= t * (NANOS_PER_SEC as u128)
}

/// A file is a replay exactly when its name is some name of at least one
/// character followed by `.replay`.
pub proof fn replay_names_end_in_dot_replay(name: Seq<char>)
    ensures
        is_replay_name_text(name) <==> (name.len() >= 8 && name.skip(name.len() - 7) == ".replay"@),
{
    reveal_strlit("replay");
    reveal_strlit(".replay");
    let dr = ".replay"@;
    let r = "replay"@;
    assert(dr.len() == 7 && r.len() == 6);
    assert(dr[0] == '.');
    assert(forall|m: int| 0 <= m < 6 ==> #[trigger] r[m] == dr[m + 1]);
    lemma_last_dot_range(name);
    let k = last_dot(name);
    if name.len() >= 8 && name.skip(name.len() - 7) == ".replay"@ {
        let i = name.len() - 7;
        assert(name[i] == name.skip(i)[0]);
        assert forall|j: int| i < j < name.len() implies name[j] != '.' by {
            assert(name[j] == name.skip(i)[j - i]);
        }
        lemma_last_dot_unique(name, i);
        assert forall|m: int| 0 <= m < 6 implies #[trigger] name.skip(i + 1)[m] == r[m] by {
            assert(name.skip(i + 1)[m] == name.skip(i)[m + 1]);
        }
        assert(name.skip(i + 1) =~= r);
        assert(name != seq!['.', '.']);
    }
    if is_replay_name_text(name) {
        assert(name != seq!['.', '.']);
        assert(k > 0);
        assert(name.skip(k + 1) == r);
        assert(name.skip(k + 1).len() == name.len() - (k + 1));
        assert(name.len() == k + 7);
        assert forall|m: int| 0 <= m < 7 implies #[trigger] name.skip(k)[m] == dr[m] by {
            if m > 0 {
                assert(name.skip(k)[m] == name.skip(k + 1)[m - 1]);
            }
        }
        assert(name.skip(name.len() - 7) =~= dr);
    }
}

/// The file a look picks is a replay written after the baseline and no file
/// is newer; a look finds nothing exactly when no replay was written after
/// the baseline; a look fails only on a replay whose time cannot be read.
pub proof fn picked_replay_is_the_newest(files: Seq<Candidate>, since: i128, r: Result<Option<usize>, usize>)
    requires
        look_outcome(files, since, r),
    ensures
        r is Ok && r->Ok_0 is Some ==> ({
            let i = r->Ok_0->Some_0 as int;
            &&& 0 <= i < files.len()
            &&& is_replay_name_text(files[i].name@)
            &&& files[i].stamp is Known
            &&& stamp_time(files[i]) > since
            &&& forall|j: int|
                0 <= j < files.len() && is_replay_name_text(#[trigger] files[j].name@)
                    && files[j].stamp is Known && stamp_time(files[j]) > since ==> stamp_time(
                    files[j],
                ) <= stamp_time(files[i])
        }),
        r is Ok && r->Ok_0 is None ==> forall|j: int|
            0 <= j < files.len() && is_replay_name_text(#[trigger] files[j].name@)
                && files[j].stamp is Known ==> stamp_time(files[j]) <= since,
        r is Err ==> ({
            let i = r->Err_0 as int;
            &&& 0 <= i < files.len()
            &&& is_replay_name_text(files[i].name@)
            &&& files[i].stamp is NoTime
        }),
{
    match r {
        Ok(Some(i)) => {
            assert forall|j: int|
                0 <= j < files.len() && is_replay_name_text(#[trigger] files[j].name@)
                    && files[j].stamp is Known && stamp_time(files[j]) > since implies stamp_time(
                files[j],
            ) <= stamp_time(files[i as int]) by {
                assert(qualifies(files[j], since));
            }
        },
        Ok(None) => {
            assert forall|j: int|
                0 <= j < files.len() && is_replay_name_text(#[trigger] files[j].name@)
                    && files[j].stamp is Known implies stamp_time(files[j]) <= since by {
                assert(!qualifies(files[j], since));
            }
        },
        _ => {},
    }
}

} // verus!

//! Change deduplication: a file counts as changed only when its size or its
//! modification time differs from what was seen last.

use vstd::prelude::*;

verus! {

/// What a stat of the signal file tells: its size in bytes and its
/// modification time in nanoseconds since the Unix epoch (negative before it).
#[derive(Debug, Clone, Copy, PartialEq, Eq, Structural)]
pub struct FileMetadata {
    pub size: u64,
    pub modified: i128,
}

/// Whether a stat shows a change against what was seen last. A failed stat
/// never does; a first successful one always does.
pub open spec fn is_change(last: Option<FileMetadata>, stat: Option<FileMetadata>) -> bool {
    stat.is_some() && last != stat
}

/// What is remembered after a stat: the stat where it succeeded, else what
/// was remembered before.
pub open spec fn remembered(last: Option<FileMetadata>, stat: Option<FileMetadata>) -> Option<
    FileMetadata,
> {
    if stat.is_some() {
        stat
    } else {
        last
    }
}

/// The answers to a run of stats, one after the other.
pub open spec fn answers(last: Option<FileMetadata>, stats: Seq<Option<FileMetadata>>) -> Seq<bool>
    decreases stats.len(),
{
    if stats.len() == 0 {
        seq![]
    } else {
        seq![is_change(last, stats[0])] + answers(remembered(last, stats[0]), stats.skip(1))
    }
}

/// What is remembered after a run of stats.
pub open spec fn remembered_after(
    last: Option<FileMetadata>,
    stats: Seq<Option<FileMetadata>>,
) -> Option<FileMetadata>
    decreases stats.len(),
{
    if stats.len() == 0 {
        last
    } else {
        remembered_after(remembered(last, stats[0]), stats.skip(1))
    }
}

/// The last metadata seen of one file.
#[derive(Debug, Clone, Copy, PartialEq, Eq, Structural)]
pub struct Deduplicator {
    pub last: Option<FileMetadata>,
}

impl Deduplicator {
    /// A deduplicator that starts from a baseline: the file's metadata at
    /// setup, or nothing where the file could not be read.
    pub fn new(baseline: Option<FileMetadata>) -> (dedup: Deduplicator)
        ensures
            dedup.last == baseline,
    {
        Deduplicator { last: baseline }
    }

    /// Takes the result of a stat (`None` where it failed) and says whether
    /// the file changed. A change is remembered.
    pub fn should_process(&mut self, stat: Option<FileMetadata>) -> (changed: bool)
        ensures
            changed == is_change(old(self).last, stat),
            final(self).last == remembered(old(self).last, stat),
    {
        match stat {
            None => false,
            Some(current) => {
                let changed = match self.last {
                    Some(previous) => previous.size != current.size || previous.modified
                        != current.modified,
                    None => true,
                };
                if changed {
                    self.last = Some(current);
                }
                changed
            },
        }
    }

    /// Feeds a run of stats through `should_process` and collects the answers.
    pub fn process_all(&mut self, stats: &Vec<Option<FileMetadata>>) -> (out: Vec<bool>)
        ensures
            out@ == answers(old(self).last, stats@),
            final(self).last == remembered_after(old(self).last, stats@),
    {
        let mut out: Vec<bool> = Vec::new();
        let mut i: usize = 0;
        proof {
            assert(stats@.skip(0) =~= stats@);
            assert(out@ + answers(self.last, stats@) =~= answers(self.last, stats@));
        }
        while i < stats.len()
            invariant
                i <= stats.len(),
                out@ + answers(self.last, stats@.skip(i as int)) == answers(
                    old(self).last,
                    stats@,
                ),
                remembered_after(self.last, stats@.skip(i as int)) == remembered_after(
                    old(self).last,
                    stats@,
                ),
            decreases stats.len() - i,
        {
            let ghost before = self.last;
            let ghost rest = stats@.skip(i as int);
            let changed = self.should_process(stats[i]);
            proof {
                assert(rest[0] == stats@[i as int]);
                assert(rest.skip(1) =~= stats@.skip(i + 1));
                assert((out@ + seq![changed]) + answers(self.last, rest.skip(1)) =~= out@
                    + answers(before, rest));
            }
            out.push(changed);
            i += 1;
        }
        proof {
            assert(stats@.skip(i as int).len() == 0);
            assert(out@ + Seq::<bool>::empty() =~= out@);
        }
        out
    }
}

/// A stat that was just seen is no change when it is seen again.
pub proof fn repeated_stat_is_no_change(last: Option<FileMetadata>, stat: Option<FileMetadata>)
    ensures
        !is_change(remembered(last, stat), stat),
{
}

/// Of three stats in a row, the first two alike and the third different, a
/// deduplicator without a baseline reports the first and the third.
pub proof fn same_twice_then_other(first: FileMetadata, other: FileMetadata)
    requires
        first != other,
    ensures
        answers(None, seq![Some(first), Some(first), Some(other)]) == seq![true, false, true],
{
    let stats = seq![Some(first), Some(first), Some(other)];
    let tail1 = stats.skip(1);
    let tail2 = tail1.skip(1);
    let tail3 = tail2.skip(1);
    assert(tail3.len() == 0);
    assert(answers(Some(other), tail3) =~= seq![]);
    assert(answers(Some(first), tail2) =~= seq![true]);
    assert(answers(Some(first), tail1) =~= seq![false, true]);
    assert(answers(None, stats) =~= seq![true, false, true]);
}

} // verus!

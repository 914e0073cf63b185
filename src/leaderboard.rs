use vstd::prelude::*;

use crate::policy::GameMode;

verus! {

/// One finished run as the leaderboard keeps it.
#[derive(Debug, Clone, PartialEq, Eq)]
pub struct LeaderboardEntry {
    pub mode: GameMode,
    pub score: u64,
    pub survival_ticks: u64,
    pub loadout_summary: String,
}

/// Whether `a` ranks strictly ahead of `b` on the board of `mode`: by survival ticks and
/// then score in Challenge, by score alone elsewhere.
pub open spec fn ranks_ahead(mode: GameMode, a: LeaderboardEntry, b: LeaderboardEntry) -> bool {
    match mode {
        GameMode::Challenge => a.survival_ticks > b.survival_ticks || (a.survival_ticks
            == b.survival_ticks && a.score > b.score),
        _ => a.score > b.score,
    }
}

/// No row ranks strictly ahead of a row above it.
pub open spec fn is_ranked(mode: GameMode, rows: Seq<LeaderboardEntry>) -> bool {
    forall|i: int, j: int| 0 <= i < j < rows.len() ==> !ranks_ahead(mode, rows[j], rows[i])
}

/// Where a stable sort places `e` when it is appended to the ranked `rows`: after every
/// row that it does not rank strictly ahead of.
pub open spec fn insert_pos(mode: GameMode, rows: Seq<LeaderboardEntry>, e: LeaderboardEntry) -> nat
    decreases rows.len(),
{
    if rows.len() == 0 {
        0
    } else if ranks_ahead(mode, e, rows.last()) {
        insert_pos(mode, rows.drop_last(), e)
    } else {
        rows.len()
    }
}

/// Ranked history of finished runs, one board per mode.
#[derive(Debug, Clone)]
pub struct Leaderboards {
    practice: Vec<LeaderboardEntry>,
    challenge: Vec<LeaderboardEntry>,
    experimental: Vec<LeaderboardEntry>,
    invincible: Vec<LeaderboardEntry>,
}

fn insert_ranked(rows: &mut Vec<LeaderboardEntry>, entry: LeaderboardEntry)
    requires
        is_ranked(entry.mode, old(rows)@),
    ensures
        final(rows)@ == old(rows)@.insert(insert_pos(entry.mode, old(rows)@, entry) as int, entry),
        is_ranked(entry.mode, final(rows)@),
{
    let ghost mode = entry.mode;
    let mut pos: usize = rows.len();
    assert(rows@.take(pos as int) =~= rows@);
    while pos > 0 && better(&entry, &rows[pos - 1])
        invariant
            pos <= rows@.len(),
            mode == entry.mode,
            insert_pos(mode, rows@, entry) == insert_pos(mode, rows@.take(pos as int), entry),
            forall|j: int| pos <= j < rows@.len() ==> ranks_ahead(mode, entry, rows@[j]),
        decreases pos,
    {
        assert(rows@.take(pos as int).drop_last() =~= rows@.take(pos - 1));
        pos = pos - 1;
    }
    let ghost before = rows@;
    rows.insert(pos, entry);
    assert(is_ranked(mode, rows@)) by {
        assert forall|i: int, j: int| 0 <= i < j < rows@.len() implies !ranks_ahead(mode, rows@[j], rows@[i]) by {
            if i < pos && j > pos {
                assert(rows@[i] == before[i] && rows@[j] == before[j - 1]);
            } else if i < pos && j == pos {
                assert(!ranks_ahead(mode, entry, before[pos - 1]));
                if i < pos - 1 {
                    assert(!ranks_ahead(mode, before[pos - 1], before[i]));
                }
            }
        }
    }
}

/// Whether `a` ranks strictly ahead of `b` on `a`'s board.
fn better(a: &LeaderboardEntry, b: &LeaderboardEntry) -> (r: bool)
    ensures
        r == ranks_ahead(a.mode, *a, *b),
{
    match a.mode {
        GameMode::Challenge => a.survival_ticks > b.survival_ticks || (a.survival_ticks
            == b.survival_ticks && a.score > b.score),
        _ => a.score > b.score,
    }
}

impl Leaderboards {
    /// The ranked rows of one mode.
    pub closed spec fn rows_of(self, mode: GameMode) -> Seq<LeaderboardEntry> {
        match mode {
            GameMode::Practice => self.practice@,
            GameMode::Challenge => self.challenge@,
            GameMode::Experimental => self.experimental@,
            GameMode::Invincible => self.invincible@,
        }
    }

    /// Every board is ranked and holds only entries of its own mode.
    pub open spec fn wf(self) -> bool {
        forall|m: GameMode|
            {
                &&& is_ranked(m, #[trigger] self.rows_of(m))
                &&& forall|i: int| 0 <= i < self.rows_of(m).len() ==> (#[trigger] self.rows_of(m)[i]).mode == m
            }
    }

    /// Empty boards for every mode.
    pub fn new() -> (r: Self)
        ensures
            r.wf(),
            forall|m: GameMode| (#[trigger] r.rows_of(m)).len() == 0,
    {
        Leaderboards {
            practice: Vec::new(),
            challenge: Vec::new(),
            experimental: Vec::new(),
            invincible: Vec::new(),
        }
    }

    /// Adds an entry to its mode's board and re-ranks it stably: the entry goes after every
    /// row it does not rank strictly ahead of.
    pub fn submit(&mut self, entry: LeaderboardEntry)
        requires
            old(self).wf(),
        ensures
            final(self).wf(),
            final(self).rows_of(entry.mode) == old(self).rows_of(entry.mode).insert(
                insert_pos(entry.mode, old(self).rows_of(entry.mode), entry) as int,
                entry,
            ),
            forall|m: GameMode| m != entry.mode ==> #[trigger] final(self).rows_of(m) == old(self).rows_of(m),
    {
        let ghost m = entry.mode;
        let ghost prev = *self;
        let ghost old_rows = self.rows_of(m);
        let ghost p = insert_pos(m, old_rows, entry) as int;
        proof {
            lemma_insert_pos_bound(m, old_rows, entry);
        }
        assert(is_ranked(m, self.rows_of(m)));
        match entry.mode {
            GameMode::Practice => insert_ranked(&mut self.practice, entry),
            GameMode::Challenge => insert_ranked(&mut self.challenge, entry),
            GameMode::Experimental => insert_ranked(&mut self.experimental, entry),
            GameMode::Invincible => insert_ranked(&mut self.invincible, entry),
        }
        assert forall|k: GameMode| #![auto] is_ranked(k, self.rows_of(k)) && forall|i: int|
            0 <= i < self.rows_of(k).len() ==> (#[trigger] self.rows_of(k)[i]).mode == k by {
            if k == m {
                assert forall|i: int| 0 <= i < self.rows_of(k).len() implies (#[trigger] self.rows_of(k)[i]).mode == k by {
                    if i > p {
                        assert(self.rows_of(k)[i] == old_rows[i - 1]);
                    } else if i < p {
                        assert(self.rows_of(k)[i] == old_rows[i]);
                    }
                }
            } else {
                assert(self.rows_of(k) == prev.rows_of(k));
                assert(is_ranked(k, prev.rows_of(k)));
            }
        }
    }

    /// The ranked rows of one mode; empty where no run of that mode has finished.
    pub fn rows(&self, mode: GameMode) -> (r: &[LeaderboardEntry])
        ensures
            r@ == self.rows_of(mode),
    {
        match mode {
            GameMode::Practice => self.practice.as_slice(),
            GameMode::Challenge => self.challenge.as_slice(),
            GameMode::Experimental => self.experimental.as_slice(),
            GameMode::Invincible => self.invincible.as_slice(),
        }
    }
}

impl Default for Leaderboards {
    fn default() -> (r: Self)
        ensures
            r.wf(),
            forall|m: GameMode| (#[trigger] r.rows_of(m)).len() == 0,
    {
        Leaderboards::new()
    }
}

/// On the Challenge board a row never has fewer survival ticks than a row below it, and
/// among equal survival ticks never a lower score; on every other board a row never has a
/// lower score than a row below it.
pub proof fn lemma_board_order(boards: Leaderboards, mode: GameMode, i: int, j: int)
    requires
        boards.wf(),
        0 <= i < j < boards.rows_of(mode).len(),
    ensures
        ({
            let a = boards.rows_of(mode)[i];
            let b = boards.rows_of(mode)[j];
            if mode == GameMode::Challenge {
                a.survival_ticks > b.survival_ticks || (a.survival_ticks == b.survival_ticks
                    && a.score >= b.score)
            } else {
                a.score >= b.score
            }
        }),
{
    assert(is_ranked(mode, boards.rows_of(mode)));
    assert(!ranks_ahead(mode, boards.rows_of(mode)[j], boards.rows_of(mode)[i]));
}

pub(crate) proof fn lemma_insert_pos_bound(mode: GameMode, rows: Seq<LeaderboardEntry>, e: LeaderboardEntry)
    ensures
        insert_pos(mode, rows, e) <= rows.len(),
    decreases rows.len(),
{
    if rows.len() > 0 {
        lemma_insert_pos_bound(mode, rows.drop_last(), e);
    }
}

} // verus!

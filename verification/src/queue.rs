//! The playback queue: which entry is current, and the "play next" region.
//!
//! The play-next region is the run of entries right after the current one that were queued
//! with "play next"; `play_next_queue_len` is its length. It starts right after the current
//! entry (at the head of the queue when there is none) and never reaches past the end.
use vstd::prelude::*;
use crate::models::browse::SongResponse;
use crate::models::playback::PlaybackStatus;
use crate::text::{trim, trim_seq};

verus! {

/// The smaller of two integers.
pub open spec fn min_int(a: int, b: int) -> int {
    if a <= b {
        a
    } else {
        b
    }
}

/// Where the play-next region begins in a queue of `len` entries.
pub open spec fn play_next_start(len: int, current: Option<u32>) -> int {
    match current {
        None => 0,
        Some(c) => min_int(c + 1, len),
    }
}

/// Where the play-next region ends (exclusive) for a recorded length `pnl`.
pub open spec fn play_next_end(len: int, current: Option<u32>, pnl: int) -> int {
    min_int(play_next_start(len, current) + pnl, len)
}

/// The recorded play-next length cut to what fits after the current entry.
pub open spec fn clamped_play_next(len: int, current: Option<u32>, pnl: int) -> int {
    min_int(pnl, len - play_next_start(len, current))
}

/// Entry `i` lies in the play-next region.
pub open spec fn in_play_next(len: int, current: Option<u32>, pnl: int, i: int) -> bool {
    play_next_start(len, current) <= i < play_next_end(len, current, pnl)
}

/// The play-next length after the current entry changes from `prev` to `next`: what is left
/// of the region after the new current entry when that entry was inside it, else nothing.
pub open spec fn adjusted_play_next(len: int, prev: Option<u32>, pnl: int, next: Option<u32>) -> int {
    if pnl == 0 {
        0
    } else if prev == next {
        clamped_play_next(len, next, pnl)
    } else {
        match next {
            None => 0,
            Some(n) => {
                let s = play_next_start(len, prev);
                let e = play_next_end(len, prev, pnl);
                if n < s || n >= e {
                    0
                } else {
                    e - n - 1
                }
            },
        }
    }
}

/// The current index, where there is one, names an entry of the queue.
pub open spec fn index_in_range(len: int, current: Option<u32>) -> bool {
    match current {
        None => true,
        Some(c) => c < len,
    }
}

/// The queue invariant: the current index names an entry, and the play-next region fits
/// between the current entry and the end of the queue.
pub open spec fn queue_wf(len: int, current: Option<u32>, pnl: int) -> bool {
    &&& index_in_range(len, current)
    &&& 0 <= pnl <= len - play_next_start(len, current)
}

/// The queue invariant for a status.
pub open spec fn status_queue_wf(s: PlaybackStatus) -> bool {
    queue_wf(s.queue@.len() as int, s.current_index, s.play_next_queue_len as int)
}

/// The id of the entry at `current`, if it names one.
pub open spec fn song_id_at(q: Seq<SongResponse>, current: Option<u32>) -> Option<String> {
    match current {
        Some(c) => if c < q.len() {
            Some(q[c as int].id)
        } else {
            None
        },
        None => None,
    }
}

/// The current index, kept only where it names an entry.
pub open spec fn index_filtered(len: int, current: Option<u32>) -> Option<u32> {
    match current {
        Some(c) => if c < len {
            Some(c)
        } else {
            None
        },
        None => None,
    }
}

/// Where the play-next region begins in a queue of `queue_len` entries.
pub fn play_next_start_index(queue_len: usize, current_index: Option<u32>) -> (r: usize)
    ensures
        r == play_next_start(queue_len as int, current_index),
{
    match current_index {
        None => 0,
        Some(c) => {
            if (c as usize) < queue_len {
                c as usize + 1
            } else {
                queue_len
            }
        },
    }
}

/// The play-next length `play_next_queue_len` cut to what fits after the current entry.
pub fn clamped_play_next_queue_len(
    queue_len: usize,
    current_index: Option<u32>,
    play_next_queue_len: u32,
) -> (r: u32)
    ensures
        r == clamped_play_next(queue_len as int, current_index, play_next_queue_len as int),
{
    let start = play_next_start_index(queue_len, current_index);
    let max_len = queue_len - start;
    if (play_next_queue_len as usize) <= max_len {
        play_next_queue_len
    } else {
        max_len as u32
    }
}

/// Where the play-next region of `status` ends (exclusive).
pub fn play_next_end_index(status: &PlaybackStatus) -> (r: usize)
    ensures
        r == play_next_end(
            status.queue@.len() as int,
            status.current_index,
            status.play_next_queue_len as int,
        ),
{
    let len = status.queue.len();
    let start = play_next_start_index(len, status.current_index);
    let pnl = status.play_next_queue_len as usize;
    if pnl <= len - start {
        start + pnl
    } else {
        len
    }
}

/// Cuts the recorded play-next length of `status` to what fits.
pub fn clamp_play_next_queue_len(status: &mut PlaybackStatus)
    ensures
        final(status).play_next_queue_len == clamped_play_next(
            old(status).queue@.len() as int,
            old(status).current_index,
            old(status).play_next_queue_len as int,
        ),
        *final(status) == (PlaybackStatus {
            play_next_queue_len: final(status).play_next_queue_len,
            ..*old(status)
        }),
{
    status.play_next_queue_len = clamped_play_next_queue_len(
        status.queue.len(),
        status.current_index,
        status.play_next_queue_len,
    );
}

/// Whether entry `queue_index` lies in the play-next region.
pub fn is_play_next_queue_index(
    queue_len: usize,
    current_index: Option<u32>,
    play_next_queue_len: u32,
    queue_index: usize,
) -> (r: bool)
    ensures
        r == in_play_next(
            queue_len as int,
            current_index,
            play_next_queue_len as int,
            queue_index as int,
        ),
{
    let start = play_next_start_index(queue_len, current_index);
    let pnl = play_next_queue_len as usize;
    let end = if pnl <= queue_len - start {
        start + pnl
    } else {
        queue_len
    };
    queue_index >= start && queue_index < end
}

/// The play-next length after the current entry moves from `previous_current_index` to
/// `next_current_index`.
pub fn adjusted_play_next_queue_len_for_current_change(
    queue_len: usize,
    previous_current_index: Option<u32>,
    previous_play_next_queue_len: u32,
    next_current_index: Option<u32>,
) -> (r: u32)
    ensures
        r == adjusted_play_next(
            queue_len as int,
            previous_current_index,
            previous_play_next_queue_len as int,
            next_current_index,
        ),
{
    if previous_play_next_queue_len == 0 {
        return 0;
    }
    if previous_current_index == next_current_index {
        return clamped_play_next_queue_len(
            queue_len,
            next_current_index,
            previous_play_next_queue_len,
        );
    }
    let previous_start = play_next_start_index(queue_len, previous_current_index);
    let pnl = previous_play_next_queue_len as usize;
    let previous_end = if pnl <= queue_len - previous_start {
        previous_start + pnl
    } else {
        queue_len
    };
    match next_current_index {
        None => 0,
        Some(n) => {
            let next_index = n as usize;
            if next_index < previous_start || next_index >= previous_end {
                0
            } else {
                (previous_end - next_index - 1) as u32
            }
        },
    }
}

/// The error for a current index given with an empty queue.
pub open spec fn index_omitted_message() -> Seq<char> {
    "currentIndex must be omitted when entries is empty."@
}

/// The error for a current index past the end of the queue.
pub open spec fn index_out_of_range_message() -> Seq<char> {
    "currentIndex is out of range for the provided queue entries."@
}

/// Checks that `current_index` names an entry of `entries`, or is absent.
pub fn validate_queue_index(entries: &Vec<SongResponse>, current_index: Option<u32>) -> (r: Result<
    (),
    String,
>)
    ensures
        r is Ok <==> index_in_range(entries@.len() as int, current_index),
        r matches Err(e) ==> e@ == (if entries@.len() == 0 {
            index_omitted_message()
        } else {
            index_out_of_range_message()
        }),
{
    if entries.len() == 0 {
        if current_index.is_some() {
            return Err(String::from_str("currentIndex must be omitted when entries is empty."));
        }
        return Ok(());
    }
    match current_index {
        None => Ok(()),
        Some(c) => {
            if (c as usize) >= entries.len() {
                Err(String::from_str("currentIndex is out of range for the provided queue entries."))
            } else {
                Ok(())
            }
        },
    }
}

/// The id of the entry at `current_index`, if that names an entry.
pub fn current_song_id(entries: &Vec<SongResponse>, current_index: Option<u32>) -> (r: Option<
    String,
>)
    ensures
        r == song_id_at(entries@, current_index),
{
    match current_index {
        Some(c) => {
            if (c as usize) < entries.len() {
                Some(entries[c as usize].id.clone())
            } else {
                None
            }
        },
        None => None,
    }
}

/// The entry at `current_index`, if that names one.
pub fn current_queue_entry(entries: &Vec<SongResponse>, current_index: Option<u32>) -> (r: Option<
    &SongResponse,
>)
    ensures
        match current_index {
            Some(c) => if c < entries@.len() {
                r == Some(&entries@[c as int])
            } else {
                r is None
            },
            None => r is None,
        },
{
    match current_index {
        Some(c) => {
            if (c as usize) < entries.len() {
                Some(&entries[c as usize])
            } else {
                None
            }
        },
        None => None,
    }
}

/// The current song of a status: the entry at its current index, where that names one.
pub fn current_song(status: &PlaybackStatus) -> (r: Option<&SongResponse>)
    ensures
        match status.current_index {
            Some(c) => if c < status.queue@.len() {
                r == Some(&status.queue@[c as int])
            } else {
                r is None
            },
            None => r is None,
        },
{
    current_queue_entry(&status.queue, status.current_index)
}

/// A text with white space trimmed, or none where nothing remains.
pub open spec fn trimmed_opt(v: Seq<char>) -> Option<Seq<char>> {
    if trim_seq(v).len() > 0 {
        Some(trim_seq(v))
    } else {
        None
    }
}

/// `value` trimmed, or none if nothing remains.
pub fn trimmed_text(value: &str) -> (r: Option<String>)
    ensures
        match r {
            Some(s) => trimmed_opt(value@) == Some(s@),
            None => trimmed_opt(value@) is None,
        },
{
    let t = trim(value);
    if t.as_str().unicode_len() == 0 {
        None
    } else {
        Some(t)
    }
}

/// The cover image shown for a song: its display cover, else its own cover, each trimmed.
pub open spec fn display_cover_art(entry: SongResponse) -> Option<Seq<char>> {
    let display = match entry.display_cover_art_id {
        Some(d) => trimmed_opt(d@),
        None => None,
    };
    match display {
        Some(d) => Some(d),
        None => match entry.cover_art_id {
            Some(c) => trimmed_opt(c@),
            None => None,
        },
    }
}

/// The id of the cover image shown for a song.
pub fn display_cover_art_id(entry: &SongResponse) -> (r: Option<String>)
    ensures
        match r {
            Some(s) => display_cover_art(*entry) == Some(s@),
            None => display_cover_art(*entry) is None,
        },
{
    let display = match &entry.display_cover_art_id {
        Some(d) => trimmed_text(d.as_str()),
        None => None,
    };
    match display {
        Some(d) => Some(d),
        None => match &entry.cover_art_id {
            Some(c) => trimmed_text(c.as_str()),
            None => None,
        },
    }
}

// ---------------------------------------------------------------------------------------
// Queue mutations
// ---------------------------------------------------------------------------------------

/// `q` with `songs` placed at position `at`.
pub open spec fn inserted_at(q: Seq<SongResponse>, at: int, songs: Seq<SongResponse>) -> Seq<
    SongResponse,
> {
    q.subrange(0, at) + songs + q.subrange(at, q.len() as int)
}

/// `q` with the entry at `from` taken out and put back at `to`.
pub open spec fn moved(q: Seq<SongResponse>, from: int, to: int) -> Seq<SongResponse> {
    q.remove(from).insert(to, q[from])
}

/// Where the entry at `c` stands after the entry at `from` moves to `to`.
pub open spec fn moved_index(c: int, from: int, to: int) -> int {
    if c == from {
        to
    } else {
        let after_remove = if from < c {
            c - 1
        } else {
            c
        };
        if to <= after_remove {
            after_remove + 1
        } else {
            after_remove
        }
    }
}

/// Where the current entry stands after the entry at `removed` leaves a queue that then has
/// `new_len` entries; a removed current entry is replaced by the one that took its place,
/// or by the new last entry.
pub open spec fn removed_index(current: Option<u32>, removed: int, new_len: int) -> Option<int> {
    match current {
        None => None,
        Some(c) => if new_len == 0 {
            None
        } else if c > removed {
            Some(c - 1)
        } else if c < removed {
            Some(c as int)
        } else {
            Some(min_int(removed, new_len - 1))
        },
    }
}

/// Inserts `songs` into `queue` at `at`.
pub fn insert_songs_at(queue: &mut Vec<SongResponse>, at: usize, songs: Vec<SongResponse>)
    requires
        at <= old(queue)@.len(),
    ensures
        final(queue)@ == inserted_at(old(queue)@, at as int, songs@),
{
    let mut tail = queue.split_off(at);
    let mut songs = songs;
    queue.append(&mut songs);
    queue.append(&mut tail);
}

/// Moves the entry at `from` to `to`.
pub fn move_entry(queue: &mut Vec<SongResponse>, from: usize, to: usize)
    requires
        from < old(queue)@.len(),
        to < old(queue)@.len(),
    ensures
        final(queue)@ == moved(old(queue)@, from as int, to as int),
        final(queue)@.len() == old(queue)@.len(),
{
    let entry = queue.remove(from);
    queue.insert(to, entry);
}

/// Where the entry at `current` stands after the entry at `from` moves to `to`.
pub fn moved_current_index(current: Option<u32>, from: u32, to: u32) -> (r: Option<u32>)
    ensures
        match current {
            None => r is None,
            Some(c) => r == Some(moved_index(c as int, from as int, to as int) as u32)
                && moved_index(c as int, from as int, to as int) <= u32::MAX,
        },
{
    match current {
        None => None,
        Some(c) => {
            if c == from {
                Some(to)
            } else {
                let after_remove = if from < c {
                    c - 1
                } else {
                    c
                };
                if to <= after_remove {
                    Some(after_remove + 1)
                } else {
                    Some(after_remove)
                }
            }
        },
    }
}

/// The entry that was current is still current after a move.
pub proof fn law_move_keeps_current_entry(q: Seq<SongResponse>, from: int, to: int, c: int)
    requires
        0 <= from < q.len(),
        0 <= to < q.len(),
        0 <= c < q.len(),
    ensures
        0 <= moved_index(c, from, to) < q.len(),
        moved(q, from, to)[moved_index(c, from, to)] == q[c],
        moved(q, from, to).len() == q.len(),
{
}

/// The entry that was current is still current after another entry is removed.
pub proof fn law_remove_keeps_current_entry(q: Seq<SongResponse>, removed: int, c: u32)
    requires
        0 <= removed < q.len(),
        c < q.len(),
        c != removed,
    ensures
        removed_index(Some(c), removed, q.len() - 1) matches Some(n) && 0 <= n < q.len() - 1
            && q.remove(removed)[n] == q[c as int],
{
}

/// Inserting after the play-next region leaves every entry up to the region's end in place,
/// the current one among them, and the inserted songs follow right after.
pub proof fn law_insert_keeps_prefix(q: Seq<SongResponse>, at: int, songs: Seq<SongResponse>)
    requires
        0 <= at <= q.len(),
    ensures
        inserted_at(q, at, songs).len() == q.len() + songs.len(),
        forall|i: int| 0 <= i < at ==> inserted_at(q, at, songs)[i] == q[i],
        forall|j: int| 0 <= j < songs.len() ==> inserted_at(q, at, songs)[at + j] == songs[j],
        forall|i: int| at <= i < q.len() ==> inserted_at(q, at, songs)[i + songs.len()] == q[i],
{
}

/// Every play-next length that the adjustments give keeps the queue invariant.
pub proof fn lemma_adjusted_play_next_wf(len: int, prev: Option<u32>, pnl: int, next: Option<u32>)
    requires
        0 <= len,
        0 <= pnl,
        index_in_range(len, next),
    ensures
        queue_wf(len, next, adjusted_play_next(len, prev, pnl, next)),
{
}

/// Clamping keeps the queue invariant.
pub proof fn lemma_clamped_play_next_wf(len: int, current: Option<u32>, pnl: int)
    requires
        0 <= len,
        0 <= pnl,
        index_in_range(len, current),
    ensures
        queue_wf(len, current, clamped_play_next(len, current, pnl)),
        clamped_play_next(len, current, pnl) <= pnl,
{
}

/// Moving from the current entry to the next one while the play-next region is not empty
/// consumes the region's first entry: the region loses exactly one entry.
pub proof fn law_next_consumes_play_next(len: int, current: u32, pnl: int)
    requires
        queue_wf(len, Some(current), pnl),
        pnl > 0,
        current + 1 < len,
        current < u32::MAX,
    ensures
        adjusted_play_next(len, Some(current), pnl, Some((current + 1) as u32)) == pnl - 1,
        queue_wf(len, Some((current + 1) as u32), pnl - 1),
{
}

/// Choosing an entry outside the play-next region, or starting without one, empties the
/// region.
pub proof fn law_leaving_play_next_empties_it(len: int, prev: Option<u32>, pnl: int, next: u32)
    requires
        queue_wf(len, prev, pnl),
        prev != Some(next),
        !in_play_next(len, prev, pnl, next as int),
    ensures
        adjusted_play_next(len, prev, pnl, Some(next)) == 0,
{
}

/// Choosing an entry inside the play-next region makes it current and keeps the region's
/// entries after it as the new region: with the region at `c + 1 .. c + pnl`, choosing entry
/// `n` of it leaves `c + pnl - n` entries to play next.
pub proof fn law_choosing_into_play_next_keeps_the_rest(len: int, c: u32, pnl: int, n: u32)
    requires
        c < len,
        0 < pnl,
        c + pnl < len,
        c < n,
        n <= c + pnl,
    ensures
        adjusted_play_next(len, Some(c), pnl, Some(n)) == c + pnl - n,
{
}

/// Without a current entry the play-next region is the start of the queue; choosing entry
/// `n` of it leaves the `pnl - n - 1` entries after it to play next.
pub proof fn law_first_choice_into_play_next_keeps_the_rest(len: int, pnl: int, n: u32)
    requires
        0 < pnl <= len,
        n < pnl,
    ensures
        adjusted_play_next(len, None, pnl, Some(n)) == pnl - n - 1,
{
}

/// Choosing the current entry again keeps its play-next region.
pub proof fn law_choosing_current_keeps_play_next(len: int, c: u32, pnl: int)
    requires
        c < len,
        0 <= pnl,
        c + pnl < len,
    ensures
        adjusted_play_next(len, Some(c), pnl, Some(c)) == pnl,
{
}

/// Choosing an entry before the current one, or past the play-next region, empties the
/// region.
pub proof fn law_choosing_outside_play_next_empties_it(len: int, c: u32, pnl: int, n: u32)
    requires
        c < len,
        0 <= pnl,
        c + pnl < len,
        n < c || c + pnl < n,
    ensures
        adjusted_play_next(len, Some(c), pnl, Some(n)) == 0,
{
}

/// Removing the current entry `i` from a queue that keeps entries makes the entry that took
/// its place current, or the new last entry where the removed one was last.
pub proof fn law_removed_current_index(removed: u32, new_len: int)
    requires
        0 < new_len,
        removed <= new_len,
    ensures
        removed_index(Some(removed), removed as int, new_len) == Some(
            if removed < new_len {
                removed as int
            } else {
                new_len - 1
            },
        ),
{
}

/// Removing another entry keeps the current entry where it was before it, and moves it one
/// place forward where the removed entry came before it.
pub proof fn law_removed_other_index(c: u32, removed: int, new_len: int)
    requires
        0 <= removed,
        c != removed,
        c <= new_len,
        removed <= new_len,
        0 < new_len,
    ensures
        removed_index(Some(c), removed, new_len) == Some(
            if removed < c {
                c - 1
            } else {
                c as int
            },
        ),
{
}

/// The play-next length is cut to the entries after the current one (after none: the whole
/// queue), and kept where it fits.
pub proof fn law_clamped_play_next_is_what_fits(len: int, current: Option<u32>, pnl: int)
    requires
        0 <= pnl,
        current matches Some(c) ==> c < len,
    ensures
        clamped_play_next(len, current, pnl) == ({
            let room = match current {
                Some(c) => len - c - 1,
                None => len,
            };
            if pnl <= room {
                pnl
            } else {
                room
            }
        }),
{
}

/// The play-next region of a current entry `c` is the `pnl` entries right after it.
pub proof fn law_play_next_region_follows_current(len: int, c: u32, pnl: int, i: int)
    requires
        c < len,
        0 <= pnl,
        c + pnl < len,
    ensures
        in_play_next(len, Some(c), pnl, i) <==> c < i <= c + pnl,
        play_next_end(len, Some(c), pnl) == c + pnl + 1,
{
}

} // verus!

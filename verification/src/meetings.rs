//! Meeting records and the two edits of a list of them: saving a record under
//! its id and deleting the records of an id. Reading and writing the file
//! that holds the list is the caller's business.

use crate::text::{is_blank, is_blank_text};
use vstd::prelude::*;

verus! {

/// One recorded meeting.
#[derive(Clone, Debug, PartialEq, Eq)]
pub struct Meeting {
    pub id: String,
    pub title: String,
    pub date: String,
    pub transcription: String,
    pub target_lang: String,
}

/// Whether `at` is the first position in `meetings` whose record has the id `id`.
pub open spec fn is_first_with_id(meetings: Seq<Meeting>, id: Seq<char>, at: int) -> bool {
    &&& 0 <= at < meetings.len()
    &&& meetings[at].id@ == id
    &&& forall|j: int| 0 <= j < at ==> (#[trigger] meetings[j]).id@ != id
}

/// The first position in `meetings` whose record has the id `id`, if any.
pub open spec fn position_of(meetings: Seq<Meeting>, id: Seq<char>) -> Option<int> {
    if exists|at: int| is_first_with_id(meetings, id, at) {
        Some(choose|at: int| is_first_with_id(meetings, id, at))
    } else {
        None
    }
}

/// `meetings` after `meeting` was saved: in the place of the first record with
/// its id, or at the end if no record has its id.
pub open spec fn saved(meetings: Seq<Meeting>, meeting: Meeting) -> Seq<Meeting> {
    match position_of(meetings, meeting.id@) {
        Some(at) => meetings.update(at, meeting),
        None => meetings.push(meeting),
    }
}

/// The predicate that holds of a record when its id is not `id`.
pub open spec fn has_other_id(id: Seq<char>) -> spec_fn(Meeting) -> bool {
    |meeting: Meeting| meeting.id@ != id
}

/// `meetings` without the records whose id is `id`, the others in their order.
pub open spec fn without_id(meetings: Seq<Meeting>, id: Seq<char>) -> Seq<Meeting> {
    meetings.filter(has_other_id(id))
}

/// The first record with an id is found at one position only.
proof fn lemma_first_is_unique(meetings: Seq<Meeting>, id: Seq<char>, a: int, b: int)
    requires
        is_first_with_id(meetings, id, a),
        is_first_with_id(meetings, id, b),
    ensures
        a == b,
{
    if a < b {
        assert(meetings[a].id@ != id);
    } else if b < a {
        assert(meetings[b].id@ != id);
    }
}

/// After a save the list holds the saved record, and it is no shorter and at
/// most one record longer than before.
pub proof fn lemma_saved_holds_record(meetings: Seq<Meeting>, meeting: Meeting)
    ensures
        saved(meetings, meeting).contains(meeting),
        meetings.len() <= saved(meetings, meeting).len() <= meetings.len() + 1,
{
    let after = saved(meetings, meeting);
    match position_of(meetings, meeting.id@) {
        Some(at) => {
            assert(is_first_with_id(meetings, meeting.id@, at));
            assert(after[at] == meeting);
        },
        None => {
            assert(after[meetings.len() as int] == meeting);
        },
    }
}

/// Saving a record twice is the same as saving it once.
pub proof fn lemma_save_is_idempotent(meetings: Seq<Meeting>, meeting: Meeting)
    ensures
        saved(saved(meetings, meeting), meeting) == saved(meetings, meeting),
{
    let id = meeting.id@;
    let once = saved(meetings, meeting);
    let at = match position_of(meetings, id) {
        Some(at) => {
            assert(is_first_with_id(meetings, id, at));
            at
        },
        None => {
            assert forall|j: int| 0 <= j < meetings.len() implies (#[trigger] meetings[j]).id@
                != id by {
                if meetings[j].id@ == id {
                    lemma_some_first_exists(meetings, id, j);
                }
            }
            meetings.len() as int
        },
    };
    assert(is_first_with_id(once, id, at)) by {
        assert forall|j: int| 0 <= j < at implies (#[trigger] once[j]).id@ != id by {
            assert(once[j] == meetings[j]);
        }
    }
    let again = choose|again: int| is_first_with_id(once, id, again);
    lemma_first_is_unique(once, id, at, again);
    assert(once.update(at, meeting) =~= once);
}

/// Where some record has the id, a first one has it.
proof fn lemma_some_first_exists(meetings: Seq<Meeting>, id: Seq<char>, at: int)
    requires
        0 <= at < meetings.len(),
        meetings[at].id@ == id,
    ensures
        exists|first: int| is_first_with_id(meetings, id, first),
    decreases at,
{
    if exists|j: int| 0 <= j < at && (#[trigger] meetings[j]).id@ == id {
        let j = choose|j: int| 0 <= j < at && (#[trigger] meetings[j]).id@ == id;
        lemma_some_first_exists(meetings, id, j);
    } else {
        assert(is_first_with_id(meetings, id, at));
    }
}

/// After a delete no record with the id is left, and every record with
/// another id is still there.
pub proof fn lemma_without_id_holds_the_others(meetings: Seq<Meeting>, id: Seq<char>)
    ensures
        forall|i: int|
            0 <= i < without_id(meetings, id).len() ==> (#[trigger] without_id(
                meetings,
                id,
            )[i]).id@ != id,
        forall|i: int|
            0 <= i < meetings.len() && meetings[i].id@ != id ==> without_id(meetings, id).contains(
                #[trigger] meetings[i],
            ),
{
    let keep = has_other_id(id);
    assert forall|i: int| 0 <= i < without_id(meetings, id).len() implies (#[trigger] without_id(
        meetings,
        id,
    )[i]).id@ != id by {
        meetings.lemma_filter_pred(keep, i);
    }
    assert forall|i: int| 0 <= i < meetings.len() && meetings[i].id@ != id implies without_id(
        meetings,
        id,
    ).contains(#[trigger] meetings[i]) by {
        meetings.lemma_filter_contains(keep, i);
    }
}

/// Saves `meeting`: replaces the first record that has its id, or appends it
/// if no record has.
pub fn save_meeting(meetings: &mut Vec<Meeting>, meeting: Meeting)
    ensures
        final(meetings)@ == saved(old(meetings)@, meeting),
{
    let mut i: usize = 0;
    while i < meetings.len()
        invariant
            *meetings == *old(meetings),
            i <= meetings@.len(),
            forall|j: int| 0 <= j < i ==> (#[trigger] meetings@[j]).id@ != meeting.id@,
        decreases meetings@.len() - i,
    {
        if meetings[i].id == meeting.id {
            proof {
                assert(is_first_with_id(meetings@, meeting.id@, i as int));
                let found = choose|at: int| is_first_with_id(meetings@, meeting.id@, at);
                lemma_first_is_unique(meetings@, meeting.id@, i as int, found);
            }
            meetings.set(i, meeting);
            return ;
        }
        i += 1;
    }
    meetings.push(meeting);
}

/// Deletes every record whose id is `id` and keeps the others in their order.
pub fn delete_meeting(meetings: &mut Vec<Meeting>, id: &str)
    ensures
        final(meetings)@ == without_id(old(meetings)@, id@),
{
    let wanted = id.to_owned();
    let mut all: Vec<Meeting> = Vec::new();
    all.append(meetings);
    let ghost before = all@;
    let ghost keep = has_other_id(id@);
    let mut kept: Vec<Meeting> = Vec::new();
    for meeting in it: all
        invariant
            it.seq() == before,
            wanted@ == id@,
            keep == has_other_id(id@),
            kept@ == before.take(it.index()).filter(keep),
    {
        proof {
            reveal(Seq::filter);
            let next = before.take(it.index() + 1);
            assert(next.drop_last() =~= before.take(it.index()));
            assert(next.last() == meeting);
        }
        if meeting.id != wanted {
            kept.push(meeting);
        }
    }
    assert(before.take(before.len() as int) =~= before);
    *meetings = kept;
}

/// Whether the text of a records file stands for the empty list: it holds
/// nothing but white space.
pub fn holds_no_records(contents: &str) -> (none: bool)
    ensures
        none == is_blank(contents@),
{
    is_blank_text(contents)
}

} // verus!

//! What holds of the operations on a collection of notes, whatever the
//! collection.

use crate::notes::{has_id, ids_distinct, without_id, written, NoteView};
use vstd::prelude::*;

verus! {

/// Removing by an identifier that no note has leaves the collection as it
/// is: the same notes in the same order.
pub proof fn remove_absent_changes_nothing(notes: Seq<NoteView>, id: Seq<char>)
    requires
        !has_id(notes, id),
    ensures
        without_id(notes, id) == notes,
    decreases notes.len(),
{
    reveal(Seq::filter);
    if notes.len() > 0 {
        let front = notes.drop_last();
        assert(notes.last() == notes[notes.len() - 1]);
        assert(!has_id(front, id)) by {
            if has_id(front, id) {
                let k = choose|k: int| 0 <= k < front.len() && (#[trigger] front[k]).id == id;
                assert(notes[k] == front[k]);
            }
        }
        remove_absent_changes_nothing(front, id);
        assert(front.push(notes.last()) =~= notes);
    }
}

/// In a collection whose identifiers are all different, removing by the
/// identifier of the note at place `k` takes out that note and no other:
/// the collection is shorter by one, and every other note keeps its
/// content and its order.
pub proof fn remove_present_takes_one(notes: Seq<NoteView>, id: Seq<char>, k: int)
    requires
        ids_distinct(notes),
        0 <= k < notes.len(),
        notes[k].id == id,
    ensures
        without_id(notes, id) == notes.remove(k),
        without_id(notes, id).len() == notes.len() - 1,
    decreases notes.len(),
{
    reveal(Seq::filter);
    let front = notes.drop_last();
    let last = notes.last();
    if k == notes.len() - 1 {
        assert(!has_id(front, id)) by {
            if has_id(front, id) {
                let j = choose|j: int| 0 <= j < front.len() && (#[trigger] front[j]).id == id;
                assert(notes[j] == front[j]);
            }
        }
        remove_absent_changes_nothing(front, id);
        assert(notes.remove(k) =~= front);
    } else {
        assert(ids_distinct(front)) by {
            assert forall|i: int, j: int| 0 <= i < j < front.len() implies (#[trigger] front[i]).id
                != (#[trigger] front[j]).id by {
                assert(front[i] == notes[i] && front[j] == notes[j]);
            }
        }
        assert(front[k] == notes[k]);
        remove_present_takes_one(front, id, k);
        assert(last == notes[notes.len() - 1]);
        assert(last.id != id);
        assert(front.remove(k).push(last) =~= notes.remove(k));
    }
}

/// Removing by identifier never breaks the rule that identifiers are all
/// different.
pub proof fn remove_keeps_ids_distinct(notes: Seq<NoteView>, id: Seq<char>)
    requires
        ids_distinct(notes),
    ensures
        ids_distinct(without_id(notes, id)),
    decreases notes.len(),
{
    reveal(Seq::filter);
    if notes.len() > 0 {
        let front = notes.drop_last();
        let last = notes.last();
        assert(ids_distinct(front)) by {
            assert forall|i: int, j: int| 0 <= i < j < front.len() implies (#[trigger] front[i]).id
                != (#[trigger] front[j]).id by {
                assert(front[i] == notes[i] && front[j] == notes[j]);
            }
        }
        remove_keeps_ids_distinct(front, id);
        let kept = without_id(front, id);
        if last.id != id {
            assert forall|i: int, j: int| 0 <= i < j < kept.push(last).len() implies (
            #[trigger] kept.push(last)[i]).id != (#[trigger] kept.push(last)[j]).id by {
                if j == kept.len() {
                    assert(kept.contains(kept[i]));
                    front.lemma_filter_contains_rev(|note: NoteView| note.id != id, kept[i]);
                    let m = choose|m: int| 0 <= m < front.len() && front[m] == kept[i];
                    assert(notes[m] == front[m]);
                    assert(notes[notes.len() - 1] == last);
                } else {
                    assert(kept.push(last)[i] == kept[i]);
                    assert(kept.push(last)[j] == kept[j]);
                }
            }
        }
    }
}

/// A run of writes, one for each text of `texts`: `states` holds the
/// collection before the first write and after each one.
///
/// The last collection is the first one followed by one note for each
/// write, in the order of the writes, each with the text of its write. So
/// a run of `n` writes on an empty store leaves `n` notes in call order.
pub proof fn writes_append_in_call_order(states: Seq<Seq<NoteView>>, texts: Seq<Seq<char>>)
    requires
        states.len() == texts.len() + 1,
        forall|i: int|
            0 <= i < texts.len() ==> written(#[trigger] states[i], states[i + 1], texts[i]),
    ensures
        states.last().len() == states[0].len() + texts.len(),
        states.last().take(states[0].len() as int) == states[0],
        forall|i: int|
            0 <= i < texts.len() ==> (#[trigger] states.last()[states[0].len() + i]).text
                == texts[i],
    decreases texts.len(),
{
    let n = texts.len() as int;
    if n == 0 {
        assert(states.last().take(states[0].len() as int) =~= states[0]);
    } else {
        let earlier = states.drop_last();
        let before = states[n - 1];
        let after = states[n];
        assert(written(states[n - 1], states[n - 1 + 1], texts[n - 1]));
        assert forall|i: int| 0 <= i < texts.drop_last().len() implies written(
            #[trigger] earlier[i],
            earlier[i + 1],
            texts.drop_last()[i],
        ) by {
            assert(written(states[i], states[i + 1], texts[i]));
        }
        writes_append_in_call_order(earlier, texts.drop_last());
        assert(earlier.last() == before);
        assert(earlier[0] == states[0]);
        let base = states[0].len() as int;
        assert(after.drop_last() == before);
        assert(after.take(base) =~= before.take(base));
        assert forall|i: int| 0 <= i < n implies (#[trigger] after[base + i]).text == texts[i] by {
            if i < n - 1 {
                assert(after[base + i] == after.drop_last()[base + i]);
                assert(before[base + i].text == texts.drop_last()[i]);
            }
        }
    }
}

/// A run of writes as in [`writes_append_in_call_order`], in which every
/// write draws an identifier that no stored note has yet: if the
/// identifiers were all different before the run, they are all different
/// after it.
pub proof fn writes_keep_ids_distinct(states: Seq<Seq<NoteView>>, texts: Seq<Seq<char>>)
    requires
        states.len() == texts.len() + 1,
        ids_distinct(states[0]),
        forall|i: int|
            0 <= i < texts.len() ==> written(#[trigger] states[i], states[i + 1], texts[i]),
        forall|i: int|
            0 <= i < texts.len() ==> !has_id(#[trigger] states[i], states[i + 1].last().id),
    ensures
        ids_distinct(states.last()),
    decreases texts.len(),
{
    let n = texts.len() as int;
    if n > 0 {
        let earlier = states.drop_last();
        let before = states[n - 1];
        let after = states[n];
        assert(written(states[n - 1], states[n - 1 + 1], texts[n - 1]));
        assert(!has_id(states[n - 1], states[n - 1 + 1].last().id));
        assert forall|i: int| 0 <= i < texts.drop_last().len() implies written(
            #[trigger] earlier[i],
            earlier[i + 1],
            texts.drop_last()[i],
        ) by {
            assert(written(states[i], states[i + 1], texts[i]));
        }
        assert forall|i: int| 0 <= i < texts.drop_last().len() implies !has_id(
            #[trigger] earlier[i],
            earlier[i + 1].last().id,
        ) by {
            assert(!has_id(states[i], states[i + 1].last().id));
        }
        assert(earlier[0] == states[0]);
        writes_keep_ids_distinct(earlier, texts.drop_last());
        assert(earlier.last() == before);
        assert forall|i: int, j: int| 0 <= i < j < after.len() implies (#[trigger] after[i]).id != (
        #[trigger] after[j]).id by {
            assert(after[i] == after.drop_last()[i]);
            if j < after.len() - 1 {
                assert(after[j] == after.drop_last()[j]);
            } else {
                assert(after[j] == after.last());
                assert(before[i] == after[i]);
            }
        }
    }
}

} // verus!

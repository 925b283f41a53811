//! The artworks the user has opened for a closer look.
//!
//! The selection keeps the order in which artworks were opened and never
//! holds two artworks of the same name. Windows are closed by name, or, where
//! a render pass has collected the positions of all windows closed in it, by
//! those positions at once; either way what stays does not depend on the order
//! in which the closed windows are taken out.

use vstd::prelude::*;
use crate::artwork::{Artwork, ArtworkView};
use crate::text::str_eq;

verus! {

/// No two entries share a name.
pub open spec fn distinct_names(entries: Seq<ArtworkView>) -> bool {
    forall|i: int, j: int| 0 <= i < j < entries.len() ==> entries[i].name != entries[j].name
}

/// Some entry is called `name`.
pub open spec fn has_name(entries: Seq<ArtworkView>, name: Seq<char>) -> bool {
    exists|i: int| 0 <= i < entries.len() && #[trigger] entries[i].name == name
}

/// The number of entries called `name`.
pub open spec fn occurrences(entries: Seq<ArtworkView>, name: Seq<char>) -> nat
    decreases entries.len(),
{
    if entries.len() == 0 {
        0
    } else {
        let here: nat = if entries.last().name == name {
            1
        } else {
            0
        };
        occurrences(entries.drop_last(), name) + here
    }
}

/// The selection after `artwork` was picked: it is added at the end unless an
/// entry of its name is there already.
pub open spec fn with_selected(entries: Seq<ArtworkView>, artwork: ArtworkView) -> Seq<
    ArtworkView,
> {
    if has_name(entries, artwork.name) {
        entries
    } else {
        entries.push(artwork)
    }
}

/// The selection without the entries called `name`, the others in their order.
pub open spec fn without_name(entries: Seq<ArtworkView>, name: Seq<char>) -> Seq<ArtworkView>
    decreases entries.len(),
{
    if entries.len() == 0 {
        entries
    } else if entries.last().name == name {
        without_name(entries.drop_last(), name)
    } else {
        without_name(entries.drop_last(), name).push(entries.last())
    }
}

/// Position `index` is among those scheduled for removal.
pub open spec fn scheduled(closed: Seq<usize>, index: int) -> bool {
    exists|k: int| 0 <= k < closed.len() && #[trigger] closed[k] as int == index
}

/// The selection without the entries at the scheduled positions, the others
/// in their order. Positions are those before anything is removed; one that
/// names no entry, or is listed twice, makes no difference.
pub open spec fn without_indices(entries: Seq<ArtworkView>, closed: Seq<usize>) -> Seq<
    ArtworkView,
>
    decreases entries.len(),
{
    if entries.len() == 0 {
        entries
    } else if scheduled(closed, entries.len() - 1) {
        without_indices(entries.drop_last(), closed)
    } else {
        without_indices(entries.drop_last(), closed).push(entries.last())
    }
}

/// `entry` stands at a position of `entries` that is not scheduled.
pub open spec fn stays(entries: Seq<ArtworkView>, closed: Seq<usize>, entry: ArtworkView) -> bool {
    exists|i: int| 0 <= i < entries.len() && !scheduled(closed, i) && #[trigger] entries[i] == entry
}

/// A pass leaves exactly what stood at the positions that were not
/// scheduled: nothing else is left, nothing of it is lost, and nothing is
/// added.
pub proof fn law_pass_keeps_the_rest(entries: Seq<ArtworkView>, closed: Seq<usize>)
    ensures
        without_indices(entries, closed).len() <= entries.len(),
        forall|k: int|
            0 <= k < without_indices(entries, closed).len() ==> stays(
                entries,
                closed,
                #[trigger] without_indices(entries, closed)[k],
            ),
        forall|i: int|
            0 <= i < entries.len() && !scheduled(closed, i) ==> without_indices(
                entries,
                closed,
            ).contains(#[trigger] entries[i]),
    decreases entries.len(),
{
    if entries.len() > 0 {
        let front = entries.drop_last();
        let rest = without_indices(front, closed);
        let left = without_indices(entries, closed);
        let end = entries.len() - 1;
        law_pass_keeps_the_rest(front, closed);
        assert forall|k: int| 0 <= k < left.len() implies stays(entries, closed, #[trigger] left[k]) by {
            if k < rest.len() {
                assert(stays(front, closed, rest[k]));
                let at = choose|i: int|
                    0 <= i < front.len() && !scheduled(closed, i) && #[trigger] front[i] == rest[k];
                assert(entries[at] == left[k]);
            } else {
                assert(entries[end] == left[k]);
            }
        }
        assert forall|i: int| 0 <= i < entries.len() && !scheduled(closed, i) implies left.contains(
            #[trigger] entries[i],
        ) by {
            if i < end {
                assert(rest.contains(front[i]));
                let at = choose|k: int| 0 <= k < rest.len() && rest[k] == front[i];
                assert(left[at] == entries[i]);
            } else {
                assert(left[left.len() - 1] == entries[i]);
            }
        }
    }
}

/// A pass keeps names distinct.
pub proof fn lemma_pass_keeps_distinct(entries: Seq<ArtworkView>, closed: Seq<usize>)
    requires
        distinct_names(entries),
    ensures
        distinct_names(without_indices(entries, closed)),
    decreases entries.len(),
{
    if entries.len() > 0 {
        let front = entries.drop_last();
        let end = entries.len() - 1;
        assert(distinct_names(front)) by {
            assert forall|i: int, j: int| 0 <= i < j < front.len() implies front[i].name
                != front[j].name by {
                assert(entries[i].name != entries[j].name);
            }
        }
        lemma_pass_keeps_distinct(front, closed);
        law_pass_keeps_the_rest(front, closed);
        if !scheduled(closed, end) {
            let rest = without_indices(front, closed);
            let left = rest.push(entries.last());
            assert forall|i: int, j: int| 0 <= i < j < left.len() implies left[i].name
                != left[j].name by {
                if j == rest.len() {
                    assert(stays(front, closed, rest[i]));
                    let at = choose|k: int|
                        0 <= k < front.len() && !scheduled(closed, k) && #[trigger] front[k]
                            == rest[i];
                    assert(entries[at].name != entries[end].name);
                }
            }
        }
    }
}

/// Closing by name is a pass over the positions that hold the name.
pub proof fn lemma_name_as_positions(
    entries: Seq<ArtworkView>,
    name: Seq<char>,
    closed: Seq<usize>,
)
    requires
        forall|k: int|
            0 <= k < entries.len() ==> (scheduled(closed, k) <==> (#[trigger] entries[k]).name
                == name),
    ensures
        without_indices(entries, closed) == without_name(entries, name),
    decreases entries.len(),
{
    if entries.len() > 0 {
        let front = entries.drop_last();
        assert forall|k: int| 0 <= k < front.len() implies (scheduled(closed, k) <==> (
        #[trigger] front[k]).name == name) by {
            assert(entries[k] == front[k]);
        }
        lemma_name_as_positions(front, name, closed);
        assert(entries[entries.len() - 1] == entries.last());
    }
}

/// Picking the same name twice leaves exactly one entry of that name, and
/// the second pick changes nothing.
pub proof fn law_select_twice(entries: Seq<ArtworkView>, first: ArtworkView, second: ArtworkView)
    requires
        distinct_names(entries),
        first.name == second.name,
    ensures
        with_selected(with_selected(entries, first), second) == with_selected(entries, first),
        occurrences(with_selected(with_selected(entries, first), second), first.name) == 1,
        distinct_names(with_selected(entries, first)),
{
    let once = with_selected(entries, first);
    lemma_selected_has_name(entries, first);
    lemma_selected_distinct(entries, first);
    lemma_occurrences_distinct(once, first.name);
}

/// After a pick the selection holds an entry of the picked name.
pub proof fn lemma_selected_has_name(entries: Seq<ArtworkView>, artwork: ArtworkView)
    ensures
        has_name(with_selected(entries, artwork), artwork.name),
{
    if !has_name(entries, artwork.name) {
        let after = entries.push(artwork);
        assert(after[entries.len() as int].name == artwork.name);
    }
}

/// A pick keeps names distinct.
pub proof fn lemma_selected_distinct(entries: Seq<ArtworkView>, artwork: ArtworkView)
    requires
        distinct_names(entries),
    ensures
        distinct_names(with_selected(entries, artwork)),
{
    if !has_name(entries, artwork.name) {
        let after = entries.push(artwork);
        assert forall|i: int, j: int| 0 <= i < j < after.len() implies after[i].name
            != after[j].name by {
            if j == entries.len() {
                assert(entries[i].name != artwork.name);
            }
        }
    }
}

/// Where names are distinct, a name occurs once if it occurs at all.
pub proof fn lemma_occurrences_distinct(entries: Seq<ArtworkView>, name: Seq<char>)
    requires
        distinct_names(entries),
    ensures
        occurrences(entries, name) == if has_name(entries, name) {
            1nat
        } else {
            0nat
        },
    decreases entries.len(),
{
    if entries.len() > 0 {
        let front = entries.drop_last();
        assert(distinct_names(front)) by {
            assert forall|i: int, j: int| 0 <= i < j < front.len() implies front[i].name
                != front[j].name by {
                assert(entries[i].name != entries[j].name);
            }
        }
        lemma_occurrences_distinct(front, name);
        if entries.last().name == name {
            assert(entries[entries.len() - 1].name == name);
            if has_name(front, name) {
                let at = choose|i: int| 0 <= i < front.len() && #[trigger] front[i].name == name;
                assert(entries[at].name != entries[entries.len() - 1].name);
            }
        } else {
            if has_name(entries, name) {
                let at = choose|i: int|
                    0 <= i < entries.len() && #[trigger] entries[i].name == name;
                assert(front[at].name == name);
            }
            if has_name(front, name) {
                let at = choose|i: int| 0 <= i < front.len() && #[trigger] front[i].name == name;
                assert(entries[at].name == name);
            }
        }
    }
}

/// Closing two windows by name gives the same selection in either order.
pub proof fn law_removal_order(entries: Seq<ArtworkView>, first: Seq<char>, second: Seq<char>)
    ensures
        without_name(without_name(entries, first), second) == without_name(
            without_name(entries, second),
            first,
        ),
    decreases entries.len(),
{
    if entries.len() > 0 {
        let front = entries.drop_last();
        let last = entries.last();
        law_removal_order(front, first, second);
        if last.name != first {
            let kept = without_name(front, first);
            assert(kept.push(last).drop_last() == kept);
        }
        if last.name != second {
            let kept = without_name(front, second);
            assert(kept.push(last).drop_last() == kept);
        }
    }
}

/// Taking out the windows at two positions, the later one first, leaves what
/// a pass that scheduled both positions leaves.
pub proof fn law_reverse_index_removal(entries: Seq<ArtworkView>, low: usize, high: usize)
    requires
        low < high < entries.len(),
    ensures
        entries.remove(high as int).remove(low as int) == without_indices(
            entries,
            seq![low, high],
        ),
        without_indices(entries, seq![low, high]) == without_indices(entries, seq![high, low]),
{
    let both = seq![low, high];
    let swapped = seq![high, low];
    assert forall|index: int| scheduled(both, index) <==> (index == low || index == high) by {
        assert(both[0] == low && both[1] == high);
    }
    assert forall|index: int| scheduled(swapped, index) <==> (index == low || index == high) by {
        assert(swapped[0] == high && swapped[1] == low);
    }
    lemma_without_indices_agree(entries, both, swapped);
    lemma_without_two(entries, both, low as int, high as int, entries.len() as int);
    assert(entries.take(entries.len() as int) == entries);
}

/// Two schedules that name the same positions of a selection leave the same
/// selection.
pub proof fn lemma_without_indices_agree(
    entries: Seq<ArtworkView>,
    closed: Seq<usize>,
    other: Seq<usize>,
)
    requires
        forall|index: int|
            0 <= index < entries.len() ==> (scheduled(closed, index) <==> scheduled(other, index)),
    ensures
        without_indices(entries, closed) == without_indices(entries, other),
    decreases entries.len(),
{
    if entries.len() > 0 {
        lemma_without_indices_agree(entries.drop_last(), closed, other);
    }
}

/// A pass that schedules each of its positions once, and none beyond the
/// end of the selection, leaves as many entries fewer as it scheduled.
pub proof fn law_pass_length(entries: Seq<ArtworkView>, closed: Seq<usize>)
    requires
        forall|k: int| 0 <= k < closed.len() ==> #[trigger] closed[k] < entries.len(),
        forall|k: int, m: int| 0 <= k < m < closed.len() ==> closed[k] != closed[m],
    ensures
        without_indices(entries, closed).len() == entries.len() - closed.len(),
    decreases entries.len(),
{
    if entries.len() == 0 {
        if closed.len() > 0 {
            assert(closed[0] < entries.len());
        }
    } else {
        let front = entries.drop_last();
        let end = entries.len() - 1;
        if scheduled(closed, end) {
            let at = choose|k: int| 0 <= k < closed.len() && #[trigger] closed[k] as int == end;
            let others = closed.remove(at);
            assert forall|k: int| 0 <= k < others.len() implies #[trigger] others[k]
                < front.len() by {
                let from = if k < at { k } else { k + 1 };
                assert(others[k] == closed[from]);
                assert(closed[from] < entries.len());
                if from < at {
                    assert(closed[from] != closed[at]);
                } else {
                    assert(closed[at] != closed[from]);
                }
            }
            assert forall|k: int, m: int| 0 <= k < m < others.len() implies others[k]
                != others[m] by {
                let from_k = if k < at { k } else { k + 1 };
                let from_m = if m < at { m } else { m + 1 };
                assert(closed[from_k] != closed[from_m]);
            }
            assert forall|index: int| 0 <= index < front.len() implies (scheduled(closed, index)
                <==> scheduled(others, index)) by {
                if scheduled(closed, index) {
                    let k = choose|k: int|
                        0 <= k < closed.len() && #[trigger] closed[k] as int == index;
                    let to = if k < at { k } else { k - 1 };
                    assert(others[to] as int == index);
                }
                if scheduled(others, index) {
                    let k = choose|k: int|
                        0 <= k < others.len() && #[trigger] others[k] as int == index;
                    let from = if k < at { k } else { k + 1 };
                    assert(closed[from] as int == index);
                }
            }
            lemma_without_indices_agree(front, closed, others);
            law_pass_length(front, others);
        } else {
            assert forall|k: int| 0 <= k < closed.len() implies #[trigger] closed[k]
                < front.len() by {
                assert(closed[k] < entries.len());
                assert(closed[k] as int != end);
            }
            law_pass_length(front, closed);
        }
    }
}

proof fn lemma_without_two(
    entries: Seq<ArtworkView>,
    closed: Seq<usize>,
    low: int,
    high: int,
    upto: int,
)
    requires
        0 <= low < high < entries.len(),
        0 <= upto <= entries.len(),
        forall|index: int| scheduled(closed, index) <==> (index == low || index == high),
    ensures
        without_indices(entries.take(upto), closed) == if upto <= low {
            entries.take(upto)
        } else if upto <= high {
            entries.take(upto).remove(low)
        } else {
            entries.take(upto).remove(high).remove(low)
        },
    decreases upto,
{
    if upto > 0 {
        let prefix = entries.take(upto);
        lemma_without_two(entries, closed, low, high, upto - 1);
        assert(prefix.drop_last() == entries.take(upto - 1));
        assert(prefix.last() == entries[upto - 1]);
        let before = entries.take(upto - 1);
        if upto - 1 == low {
            assert(prefix.remove(low) == before);
        } else if upto - 1 == high {
            assert(prefix.remove(high).remove(low) == before.remove(low));
        } else if upto - 1 < low {
            assert(before.push(prefix.last()) == prefix);
        } else if upto - 1 < high {
            assert(before.remove(low).push(prefix.last()) == prefix.remove(low));
        } else {
            assert(before.remove(high).remove(low).push(prefix.last()) == prefix.remove(
                high,
            ).remove(low));
        }
    } else {
        assert(entries.take(0).len() == 0);
    }
}

/// The artworks opened for a closer look, in the order they were opened.
#[derive(Debug)]
pub struct SelectedArtworks {
    entries: Vec<Artwork>,
}

impl View for SelectedArtworks {
    type V = Seq<ArtworkView>;

    closed spec fn view(&self) -> Seq<ArtworkView> {
        self.entries.deep_view()
    }
}

impl SelectedArtworks {
    #[verifier::type_invariant]
    spec fn names_are_distinct(&self) -> bool {
        distinct_names(self.entries.deep_view())
    }

    pub fn new() -> (selection: Self)
        ensures
            selection@ == Seq::<ArtworkView>::empty(),
    {
        SelectedArtworks { entries: Vec::new() }
    }

    /// The entries, first opened first.
    pub fn entries(&self) -> (entries: &Vec<Artwork>)
        ensures
            entries.deep_view() == self@,
            distinct_names(self@),
    {
        proof {
            use_type_invariant(self);
        }
        &self.entries
    }

    pub fn len(&self) -> (count: usize)
        ensures
            count == self@.len(),
    {
        self.entries.len()
    }

    /// Whether an artwork called `name` is open.
    pub fn contains(&self, name: &str) -> (found: bool)
        ensures
            found == has_name(self@, name@),
    {
        let mut i: usize = 0;
        while i < self.entries.len()
            invariant
                i <= self.entries.len(),
                forall|k: int| 0 <= k < i ==> (#[trigger] self@[k]).name != name@,
            decreases self.entries.len() - i,
        {
            if str_eq(self.entries[i].name.as_str(), name) {
                assert(self@[i as int].name == name@);
                return true;
            }
            i += 1;
        }
        false
    }

    /// Opens `artwork`, unless an artwork of its name is open already.
    pub fn select(&mut self, artwork: &Artwork)
        ensures
            final(self)@ == with_selected(old(self)@, artwork.deep_view()),
            distinct_names(final(self)@),
    {
        proof {
            use_type_invariant(&*self);
            lemma_selected_distinct(self@, artwork.deep_view());
        }
        if !self.contains(artwork.name.as_str()) {
            let ghost before = self.entries.deep_view();
            let mut entries: Vec<Artwork> = Vec::new();
            core::mem::swap(&mut self.entries, &mut entries);
            entries.push(artwork.clone());
            assert(entries.deep_view() == before.push(artwork.deep_view()));
            self.entries = entries;
        }
    }

    /// Closes the artwork called `name`, if one is open.
    pub fn remove(&mut self, name: &str)
        ensures
            final(self)@ == without_name(old(self)@, name@),
            distinct_names(final(self)@),
    {
        let held = positions_of(&self.entries, name);
        proof {
            lemma_name_as_positions(self@, name@, held@);
        }
        self.remove_closed(&held);
    }

    /// Closes the artworks at the positions in `closed`, which are positions
    /// in the selection as it is before the call.
    pub fn remove_closed(&mut self, closed: &Vec<usize>)
        ensures
            final(self)@ == without_indices(old(self)@, closed@),
            distinct_names(final(self)@),
    {
        proof {
            use_type_invariant(&*self);
            lemma_pass_keeps_distinct(self@, closed@);
        }
        let mut entries: Vec<Artwork> = Vec::new();
        core::mem::swap(&mut self.entries, &mut entries);
        take_out(&mut entries, closed);
        self.entries = entries;
    }
}

/// Takes the entries at the positions in `closed` out of `entries`, the last
/// of them first, so that the positions still to come are not shifted.
fn take_out(entries: &mut Vec<Artwork>, closed: &Vec<usize>)
    ensures
        final(entries).deep_view() == without_indices(old(entries).deep_view(), closed@),
{
    let ghost before = entries.deep_view();
    let mut i: usize = entries.len();
    assert(before.take(i as int) == before);
    assert(entries.deep_view().skip(i as int) == Seq::<ArtworkView>::empty());
    while i > 0
        invariant
            i <= entries.len() <= before.len(),
            entries.deep_view().take(i as int) == before.take(i as int),
            without_indices(before, closed@) == without_indices(before.take(i as int), closed@)
                + entries.deep_view().skip(i as int),
        decreases i,
    {
        let ghost current = entries.deep_view();
        let ghost prefix = before.take(i as int);
        assert(prefix.drop_last() == before.take(i - 1));
        assert(prefix.last() == current.take(i as int)[i - 1]);
        i -= 1;
        if is_scheduled(closed, i) {
            entries.remove(i);
            assert(entries.deep_view() == current.remove(i as int));
            assert(entries.deep_view().skip(i as int) == current.skip(i + 1));
            assert(entries.deep_view().take(i as int) == before.take(i as int));
        } else {
            assert(current.skip(i as int) == seq![current[i as int]] + current.skip(i + 1));
            assert(current.take(i as int) == current.take(i + 1).take(i as int));
            assert(before.take(i as int) == before.take(i + 1).take(i as int));
        }
    }
    assert(before.take(0) == Seq::<ArtworkView>::empty());
    assert(entries.deep_view().skip(0) == entries.deep_view());
}

/// The positions of `entries` that hold an artwork called `name`.
fn positions_of(entries: &Vec<Artwork>, name: &str) -> (held: Vec<usize>)
    ensures
        forall|k: int|
            0 <= k < entries.len() ==> (scheduled(held@, k) <==> (
            #[trigger] entries.deep_view()[k]).name == name@),
{
    let mut held: Vec<usize> = Vec::new();
    let mut i: usize = 0;
    while i < entries.len()
        invariant
            i <= entries.len(),
            forall|m: int| 0 <= m < held.len() ==> #[trigger] held@[m] < i,
            forall|k: int|
                0 <= k < i ==> (scheduled(held@, k) <==> (#[trigger] entries.deep_view()[k]).name
                    == name@),
        decreases entries.len() - i,
    {
        let ghost found = held@;
        if str_eq(entries[i].name.as_str(), name) {
            held.push(i);
            assert(held@[found.len() as int] as int == i);
        }
        assert forall|k: int| 0 <= k <= i implies (scheduled(held@, k) <==> (
        #[trigger] entries.deep_view()[k]).name == name@) by {
            if scheduled(found, k) {
                let at = choose|m: int| 0 <= m < found.len() && #[trigger] found[m] as int == k;
                assert(held@[at] as int == k);
            }
            if scheduled(held@, k) && !scheduled(found, k) {
                let at = choose|m: int| 0 <= m < held@.len() && #[trigger] held@[m] as int == k;
                assert(at == found.len());
            }
        }
        i += 1;
    }
    held
}

/// Whether `index` is among the positions in `closed`.
fn is_scheduled(closed: &Vec<usize>, index: usize) -> (found: bool)
    ensures
        found == scheduled(closed@, index as int),
{
    let mut k: usize = 0;
    while k < closed.len()
        invariant
            k <= closed.len(),
            forall|m: int| 0 <= m < k ==> #[trigger] closed@[m] as int != index,
        decreases closed.len() - k,
    {
        if closed[k] == index {
            assert(closed@[k as int] as int == index);
            return true;
        }
        k += 1;
    }
    false
}

} // verus!

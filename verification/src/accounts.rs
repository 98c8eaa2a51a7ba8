//! How a pass deals with the placements of its layout: each falls into exactly
//! one class, and what is collected keeps the order of the layout.

use vstd::prelude::*;

use crate::action::WindowEvent;
use crate::action::WindowProbe;
use crate::entries::defer_entry;
use crate::entries::visible_tiled_maximized;
use crate::entries::DeferEntry;
use crate::geometry::insets_or_none;
use crate::geometry::queried_insets;
use crate::insets::CacheMaps;
use crate::insets::InsetSource;
use crate::insets::ResolvedInsets;
use crate::pass::Pass;
use crate::pass::PassPhase;
use crate::state::Shared;
use crate::types::WindowId;
use crate::types::WindowPlacement;

verus! {

/// What became of a placement.
#[derive(Clone, Copy, Debug, PartialEq, Eq, Structural)]
pub enum PlacementClass {
    /// Its window is gone or minimized.
    Unfit,
    /// Its window is maximized, and left alone.
    Maximized,
    /// Its window is where it belongs already.
    Unchanged,
    /// Its window is asked to move.
    Requested,
}

/// The places that a class has in a list of classes, in order.
pub open spec fn places_of(classes: Seq<PlacementClass>, class: PlacementClass) -> Seq<int>
    decreases classes.len(),
{
    if classes.len() == 0 {
        Seq::empty()
    } else {
        let earlier = places_of(classes.drop_last(), class);
        if classes.last() == class {
            earlier.push(classes.len() - 1)
        } else {
            earlier
        }
    }
}

/// The places increase strictly and lie below a bound.
pub open spec fn increasing_below(places: Seq<int>, bound: int) -> bool {
    &&& forall|j: int| 0 <= j < places.len() ==> 0 <= #[trigger] places[j] < bound
    &&& forall|j: int, k: int|
        0 <= j < k < places.len() ==> #[trigger] places[j] < #[trigger] places[k]
}

/// The entry is the request for the placement, with whatever insets were found
/// for its window and whether or not its frame was known.
pub open spec fn requests(
    entry: DeferEntry,
    placement: WindowPlacement,
    high_contrast: bool,
    async_position: bool,
    sentinel: i32,
) -> bool {
    exists|resolved: ResolvedInsets, known: bool|
        entry == #[trigger] defer_entry(
            placement,
            resolved,
            high_contrast,
            async_position,
            known,
            sentinel,
        )
}

impl Pass {
    /// How many placements have been dealt with.
    pub open spec fn dealt_with(self) -> int {
        match self.phase {
            PassPhase::Contrast => 0,
            PassPhase::Probing(i) | PassPhase::Framing { index: i, .. } => i as int,
            PassPhase::Recovering(i) | PassPhase::Returning(i) => i + 1,
            _ => self.placements.len() as int,
        }
    }

    /// The classes of the placements dealt with so far: the entries are the
    /// requests for those requested, the windows left alone are those
    /// maximized, each in the order of the layout, and the placements skipped
    /// are those unchanged.
    pub open spec fn sorted_into(self, classes: Seq<PlacementClass>) -> bool {
        let requested = places_of(classes, PlacementClass::Requested);
        let maximized = places_of(classes, PlacementClass::Maximized);
        &&& classes.len() == self.dealt_with()
        &&& self.entries.len() == requested.len()
        &&& forall|j: int|
            0 <= j < requested.len() ==> requests(
                #[trigger] self.entries[j],
                self.placements[requested[j]],
                self.high_contrast,
                self.is_async(),
                self.sentinel,
            )
        &&& self.maximized.len() == maximized.len()
        &&& forall|j: int|
            0 <= j < maximized.len() ==> {
                let placement = self.placements[maximized[j]];
                &&& (#[trigger] self.maximized[j]) == placement.window_id
                &&& visible_tiled_maximized(placement, true)
            }
        &&& self.skipped == places_of(classes, PlacementClass::Unchanged).len()
    }

    /// Every placement dealt with so far falls into one class.
    pub open spec fn accounted(self) -> bool {
        exists|classes: Seq<PlacementClass>| #[trigger] self.sorted_into(classes)
    }
}

/// The places of a class increase strictly, hold that class, and leave none out.
pub proof fn law_places_are_in_order(classes: Seq<PlacementClass>, class: PlacementClass)
    ensures
        ({
            let places = places_of(classes, class);
            &&& increasing_below(places, classes.len() as int)
            &&& forall|j: int| 0 <= j < places.len() ==> classes[#[trigger] places[j]] == class
            &&& forall|i: int|
                0 <= i < classes.len() && #[trigger] classes[i] == class ==> places.contains(i)
        }),
    decreases classes.len(),
{
    broadcast use vstd::seq_lib::lemma_seq_contains_after_push;

    if classes.len() > 0 {
        let rest = classes.drop_last();
        law_places_are_in_order(rest, class);
        let places = places_of(classes, class);
        assert forall|i: int| 0 <= i < classes.len() && #[trigger] classes[i]
            == class implies places.contains(i) by {
            if i < rest.len() {
                assert(rest[i] == class);
            }
        }
    }
}

/// Every place belongs to exactly one class.
proof fn lemma_classes_cover(classes: Seq<PlacementClass>)
    ensures
        places_of(classes, PlacementClass::Unfit).len() + places_of(
            classes,
            PlacementClass::Maximized,
        ).len() + places_of(classes, PlacementClass::Unchanged).len() + places_of(
            classes,
            PlacementClass::Requested,
        ).len() == classes.len(),
    decreases classes.len(),
{
    if classes.len() > 0 {
        lemma_classes_cover(classes.drop_last());
    }
}

/// One more class at the end adds at most one place, the last.
proof fn lemma_places_after_push(
    classes: Seq<PlacementClass>,
    last: PlacementClass,
    class: PlacementClass,
)
    ensures
        places_of(classes.push(last), class) == if last == class {
            places_of(classes, class).push(classes.len() as int)
        } else {
            places_of(classes, class)
        },
{
    assert(classes.push(last).drop_last() =~= classes);
}

/// The pass is accounted for after one more placement of a known class.
proof fn lemma_one_more(
    pass: Pass,
    after: Pass,
    classes: Seq<PlacementClass>,
    last: PlacementClass,
)
    requires
        pass.sorted_into(classes),
        classes.len() < pass.placements.len(),
        after.placements == pass.placements,
        after.high_contrast == pass.high_contrast,
        after.is_async() == pass.is_async(),
        after.sentinel == pass.sentinel,
        after.dealt_with() == classes.len() + 1,
        ({
            let placement = pass.placements[classes.len() as int];
            &&& if last is Requested {
                after.entries.len() == pass.entries.len() + 1 && after.entries.drop_last()
                    == pass.entries && requests(
                    after.entries.last(),
                    placement,
                    pass.high_contrast,
                    pass.is_async(),
                    pass.sentinel,
                )
            } else {
                after.entries == pass.entries
            }
            &&& if last is Maximized {
                after.maximized == pass.maximized.push(placement.window_id)
                    && visible_tiled_maximized(placement, true)
            } else {
                after.maximized == pass.maximized
            }
            &&& after.skipped == pass.skipped + if last is Unchanged {
                1int
            } else {
                0
            }
        }),
    ensures
        after.accounted(),
{
    let more = classes.push(last);
    lemma_places_after_push(classes, last, PlacementClass::Requested);
    lemma_places_after_push(classes, last, PlacementClass::Maximized);
    lemma_places_after_push(classes, last, PlacementClass::Unchanged);
    let requested = places_of(more, PlacementClass::Requested);
    assert forall|j: int| 0 <= j < requested.len() implies requests(
        #[trigger] after.entries[j],
        after.placements[requested[j]],
        after.high_contrast,
        after.is_async(),
        after.sentinel,
    ) by {
        if j < pass.entries.len() {
            assert(after.entries[j] == pass.entries[j]);
        }
    }
    let maximized = places_of(more, PlacementClass::Maximized);
    assert forall|j: int| 0 <= j < maximized.len() implies {
        let placement = after.placements[maximized[j]];
        &&& (#[trigger] after.maximized[j]) == placement.window_id
        &&& visible_tiled_maximized(placement, true)
    } by {
        if j < pass.maximized.len() {
            assert(after.maximized[j] == pass.maximized[j]);
        }
    }
    assert(after.sorted_into(more));
}

/// The added entry of a pass is the request for its placement.
proof fn lemma_added_entry_requests(pass: Pass, index: usize, resolved: ResolvedInsets)
    ensures
        ({
            let after = pass.with_entry(index, resolved);
            after.entries.drop_last() == pass.entries && requests(
                after.entries.last(),
                pass.placements[index as int],
                pass.high_contrast,
                pass.is_async(),
                pass.sentinel,
            )
        }),
{
    assert(pass.with_entry(index, resolved).entries.drop_last() =~= pass.entries);
}

/// A pass that has collected nothing is accounted for while nothing has been
/// dealt with.
proof fn lemma_nothing_yet(pass: Pass)
    requires
        pass.dealt_with() == 0,
        pass.entries.len() == 0,
        pass.maximized.len() == 0,
        pass.skipped == 0,
    ensures
        pass.accounted(),
{
    assert(pass.sorted_into(Seq::empty()));
}

/// A step that deals with no placement keeps the account.
proof fn lemma_as_before(pass: Pass, after: Pass)
    requires
        pass.accounted(),
        after.placements == pass.placements,
        after.entries == pass.entries,
        after.maximized == pass.maximized,
        after.skipped == pass.skipped,
        after.high_contrast == pass.high_contrast,
        after.is_async() == pass.is_async(),
        after.sentinel == pass.sentinel,
        after.dealt_with() == pass.dealt_with(),
    ensures
        after.accounted(),
{
    let classes = choose|classes: Seq<PlacementClass>| #[trigger] pass.sorted_into(classes);
    assert(after.sorted_into(classes));
}

/// A probe keeps the account.
proof fn lemma_probed(pass: Pass, shared: Shared, index: usize, probe: WindowProbe)
    requires
        pass.consistent(),
        pass.accounted(),
        pass.phase == PassPhase::Probing(index),
    ensures
        pass.probed(shared, index, probe).accounted(),
{
    let classes = choose|classes: Seq<PlacementClass>| #[trigger] pass.sorted_into(classes);
    let after = pass.probed(shared, index, probe);
    let placement = pass.placements[index as int];
    if after.phase is Framing {
        lemma_as_before(pass, after);
    } else if probe is Unmanageable {
        lemma_one_more(pass, after, classes, PlacementClass::Unfit);
    } else if visible_tiled_maximized(placement, probe is Zoomed) {
        lemma_one_more(pass, after, classes, PlacementClass::Maximized);
    } else if after.skipped != pass.skipped {
        lemma_one_more(pass, after, classes, PlacementClass::Unchanged);
    } else {
        let resolved = pass.known_insets(shared.insets, placement.window_id)->0;
        lemma_added_entry_requests(pass, index, resolved);
        lemma_one_more(pass, after, classes, PlacementClass::Requested);
    }
}

/// The bounds of a window keep the account.
proof fn lemma_framed(pass: Pass, index: usize, generation: u64, event: WindowEvent)
    requires
        pass.consistent(),
        pass.accounted(),
        pass.phase == (PassPhase::Framing { index, generation }),
    ensures
        pass.framed(index, generation, event).accounted(),
{
    let classes = choose|classes: Seq<PlacementClass>| #[trigger] pass.sorted_into(classes);
    let after = pass.framed(index, generation, event);
    let insets = match event {
        WindowEvent::Frame { frame, visible } => insets_or_none(queried_insets(frame, visible)),
        _ => (0i32, 0i32, 0i32, 0i32),
    };
    let resolved = ResolvedInsets { insets, source: InsetSource::Fresh, generation };
    lemma_added_entry_requests(pass, index, resolved);
    lemma_one_more(pass, after, classes, PlacementClass::Requested);
}

/// A pass starts with nothing dealt with, or with nothing to deal with.
pub proof fn law_a_pass_starts_accounted(
    placements: Seq<WindowPlacement>,
    cache: Option<CacheMaps>,
    nudge_wanted: bool,
    sentinel: i32,
    to_uncloak: Seq<WindowId>,
)
    ensures
        Pass::begun(placements, cache, nudge_wanted, sentinel, to_uncloak).accounted(),
{
    lemma_nothing_yet(Pass::begun(placements, cache, nudge_wanted, sentinel, to_uncloak));
}

/// Over the whole of a pass each placement falls into exactly one class: unfit,
/// maximized, unchanged or requested. The requests and the windows left alone
/// keep the order of the layout. Every answer keeps this.
pub proof fn law_every_placement_falls_into_one_class(
    pass: Pass,
    shared: Shared,
    event: WindowEvent,
    departed: Seq<WindowId>,
)
    requires
        pass.consistent(),
        pass.accounted(),
    ensures
        pass.answered(shared, event, departed).accounted(),
{
    let after = pass.answered(shared, event, departed);
    match pass.phase {
        PassPhase::Contrast => {
            law_no_placement_is_counted_twice(pass);
            lemma_nothing_yet(after);
        },
        PassPhase::Probing(index) => {
            lemma_probed(pass, shared, index, event->Probed_0);
        },
        PassPhase::Framing { index, generation } => {
            lemma_framed(pass, index, generation, event);
        },
        PassPhase::Settling => {
            if pass.retries(shared.suspects) {
                lemma_nothing_yet(after);
            } else {
                lemma_as_before(pass, after);
            }
        },
        _ => {
            lemma_as_before(pass, after);
        },
    }
}

/// No placement is counted twice: the requests, the windows left alone and the
/// placements skipped are together no more than the placements dealt with.
pub proof fn law_no_placement_is_counted_twice(pass: Pass)
    requires
        pass.accounted(),
    ensures
        pass.entries.len() + pass.maximized.len() + pass.skipped <= pass.dealt_with(),
{
    let classes = choose|classes: Seq<PlacementClass>| #[trigger] pass.sorted_into(classes);
    lemma_classes_cover(classes);
}

/// Once the moves are over, the windows moved, those that failed, those left
/// alone and the placements skipped are together no more than the layout has.
pub proof fn law_the_counts_fit_the_layout(pass: Pass)
    requires
        pass.consistent(),
        pass.accounted(),
        pass.batch.stage is Finished,
    ensures
        pass.batch.applied + pass.batch.failed.len() + pass.maximized.len() + pass.skipped
            <= pass.placements.len(),
{
    law_no_placement_is_counted_twice(pass);
}

/// The requests and the windows left alone keep the order of the layout, and no
/// placement gives both.
pub proof fn law_collected_windows_keep_the_order_of_the_layout(
    pass: Pass,
    classes: Seq<PlacementClass>,
)
    requires
        pass.sorted_into(classes),
    ensures
        ({
            let requested = places_of(classes, PlacementClass::Requested);
            let maximized = places_of(classes, PlacementClass::Maximized);
            &&& increasing_below(requested, pass.dealt_with())
            &&& increasing_below(maximized, pass.dealt_with())
            &&& pass.entries.len() == requested.len()
            &&& forall|j: int|
                0 <= j < requested.len() ==> (#[trigger] pass.entries[j]).window_id
                    == pass.placements[requested[j]].window_id
            &&& pass.maximized.len() == maximized.len()
            &&& forall|j: int|
                0 <= j < maximized.len() ==> #[trigger] pass.maximized[j]
                    == pass.placements[maximized[j]].window_id
            &&& forall|j: int, k: int|
                0 <= j < requested.len() && 0 <= k < maximized.len() ==> #[trigger] requested[j]
                    != #[trigger] maximized[k]
        }),
{
    law_places_are_in_order(classes, PlacementClass::Requested);
    law_places_are_in_order(classes, PlacementClass::Maximized);
}

} // verus!

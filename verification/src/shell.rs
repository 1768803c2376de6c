use vstd::prelude::*;
use crate::controller::{query, query_ok};
use crate::monitor::{EnumerationError, Monitor, RawBrightness};

verus! {

/// The brightness slider as the core sees it: an inclusive range, a
/// position, and whether the user may drag it.
#[derive(Clone, Copy, Debug, PartialEq, Eq, Structural)]
pub struct Slider {
    pub enabled: bool,
    pub minimum: u32,
    pub maximum: u32,
    pub position: u32,
}

/// The status line under the slider.
#[derive(Clone, Copy, Debug, PartialEq, Eq, Structural)]
pub enum Status {
    /// Nothing to report; the label is hidden.
    Blank,
    /// Brightness control is unavailable for the current selection.
    CannotControl,
}

/// An unrecoverable invariant violation: the UI handed the core a
/// selection it cannot resolve. The session terminates with a
/// diagnostic rather than attempting recovery.
#[derive(Clone, Copy, Debug, PartialEq, Eq, Structural)]
pub enum FatalError {
    /// A selection was required and none was present.
    NoSelection,
    /// The selected index is not a position in the registry.
    SelectionOutOfBounds,
}

/// What one slider drag-move event leads to.
#[derive(Clone, Copy, Debug, PartialEq, Eq, Structural)]
pub enum DragAction {
    /// Exactly one set-brightness call, with exactly the value the
    /// slider reported for this event.
    Apply { handle: u64, value: u32 },
    /// The slider is disabled: no set-brightness call occurs.
    Ignored,
}

impl Status {
    /// The status label is shown exactly when there is a message.
    pub fn visible(&self) -> (r: bool)
        ensures
            r == (*self != Status::Blank),
    {
        match self {
            Status::Blank => false,
            Status::CannotControl => true,
        }
    }
}

/// The application shell's state: the monitor registry (insertion
/// order = enumeration order = selector display order), the current
/// selection, the slider, and the status line. Owned by the event
/// loop; every transition is a method here.
pub struct Shell {
    pub registry: Vec<Monitor>,
    pub selection: Option<usize>,
    pub slider: Slider,
    pub status: Status,
}

impl Shell {
    /// Well-formedness: the slider's position lies within its range.
    pub open spec fn wf(self) -> bool {
        self.slider.minimum <= self.slider.position <= self.slider.maximum
    }

    /// The state before anything is enumerated: empty registry, no
    /// selection, the slider disabled at the widget's creation range.
    pub fn new() -> (s: Shell)
        ensures
            s.wf(),
            s.registry@.len() == 0,
            s.selection is None,
            s.slider == (Slider { enabled: false, minimum: 0, maximum: 100, position: 50 }),
            s.status == Status::Blank,
    {
        Shell {
            registry: Vec::new(),
            selection: None,
            slider: Slider { enabled: false, minimum: 0, maximum: 100, position: 50 },
            status: Status::Blank,
        }
    }

    /// Registry refresh: on success the contents are replaced
    /// wholesale with the enumerated list, preserving order; on
    /// failure the registry is left empty and the caller surfaces the
    /// error. Either way any previous selection is dropped, the slider
    /// is disabled — range and position untouched — until a probe or a
    /// selection succeeds, and the status line is cleared.
    pub fn refresh(&mut self, enumeration: Result<Vec<Monitor>, EnumerationError>)
        requires
            old(self).wf(),
        ensures
            final(self).wf(),
            enumeration matches Ok(list) ==> final(self).registry@ == list@,
            enumeration is Err ==> final(self).registry@.len() == 0,
            final(self).selection is None,
            final(self).slider == (Slider { enabled: false, ..old(self).slider }),
            final(self).status == Status::Blank,
    {
        match enumeration {
            Ok(list) => {
                self.registry = list;
            }
            Err(_) => {
                self.registry = Vec::new();
            }
        }
        self.selection = None;
        self.slider.enabled = false;
        self.status = Status::Blank;
    }

    /// The selector's display list: one entry per monitor, in registry
    /// order — exactly the description of each.
    pub fn descriptions(&self) -> (r: Vec<String>)
        ensures
            r@.len() == self.registry@.len(),
            forall|i: int| 0 <= i < r@.len() ==> r@[i] == self.registry@[i].description,
    {
        let mut r: Vec<String> = Vec::new();
        let mut i: usize = 0;
        while i < self.registry.len()
            invariant
                i <= self.registry@.len(),
                r@.len() == i,
                forall|j: int| 0 <= j < i ==> r@[j] == self.registry@[j].description,
            decreases self.registry@.len() - i,
        {
            r.push(self.registry[i].description.clone());
            i = i + 1;
        }
        r
    }

    /// How many monitors the registry holds.
    pub fn monitor_count(&self) -> (n: usize)
        ensures
            n == self.registry@.len(),
    {
        self.registry.len()
    }

    /// Registry lookup: the monitor at `index`. An index that is not a
    /// valid position is a programming-invariant violation — the UI
    /// must never request an index it did not just offer — so it is
    /// fatal, not a recoverable runtime error.
    pub fn get(&self, index: usize) -> (r: Result<&Monitor, FatalError>)
        ensures
            r is Ok <==> index < self.registry@.len(),
            r matches Ok(m) ==> *m == self.registry@[index as int],
            r is Err ==> r == Err::<&Monitor, FatalError>(FatalError::SelectionOutOfBounds),
    {
        if index < self.registry.len() {
            Ok(&self.registry[index])
        } else {
            Err(FatalError::SelectionOutOfBounds)
        }
    }

    /// Record the selector's current choice. The widget's event
    /// carries the index; resolving it against the registry happens in
    /// `selected_handle`.
    pub fn set_selection(&mut self, selection: Option<usize>)
        ensures
            *final(self) == (Shell { selection: selection, ..*old(self) }),
    {
        self.selection = selection;
    }

    /// The handle of the monitor the selector points at. No selection
    /// when one is required, or a selection the registry cannot
    /// resolve, is the unrecoverable invariant violation.
    pub fn selected_handle(&self) -> (r: Result<u64, FatalError>)
        ensures
            self.selection is None ==> r == Err::<u64, FatalError>(FatalError::NoSelection),
            self.selection matches Some(i) ==> if i < self.registry@.len() {
                r == Ok::<u64, FatalError>(self.registry@[i as int].handle)
            } else {
                r == Err::<u64, FatalError>(FatalError::SelectionOutOfBounds)
            },
    {
        match self.selection {
            Some(i) => match self.get(i) {
                Ok(m) => Ok(m.handle),
                Err(e) => Err(e),
            },
            None => Err(FatalError::NoSelection),
        }
    }

    /// What `update_monitor_brightness` does to the state, as a
    /// transition on the model.
    pub open spec fn update_spec(self, raw: RawBrightness) -> Shell {
        if query_ok(raw) {
            Shell {
                slider: Slider {
                    enabled: true,
                    minimum: raw.minimum,
                    maximum: raw.maximum,
                    position: raw.current,
                },
                status: Status::Blank,
                ..self
            }
        } else {
            Shell {
                slider: Slider { enabled: false, ..self.slider },
                status: Status::CannotControl,
                ..self
            }
        }
    }

    /// Show the outcome of one brightness read for a monitor: a
    /// successful reading seeds the slider's range and position and
    /// enables it; a failed one disables the slider — leaving its
    /// range and position untouched — and reports that this monitor
    /// cannot be controlled. Returns whether the read succeeded.
    pub fn update_monitor_brightness(&mut self, raw: RawBrightness) -> (supported: bool)
        requires
            old(self).wf(),
        ensures
            final(self).wf(),
            supported == query_ok(raw),
            *final(self) == old(self).update_spec(raw),
            query_ok(raw) ==> final(self).slider == (Slider {
                enabled: true,
                minimum: raw.minimum,
                maximum: raw.maximum,
                position: raw.current,
            }),
            !query_ok(raw) ==> final(self).slider == (Slider { enabled: false, ..old(self).slider })
                && final(self).status == Status::CannotControl,
    {
        match query(raw) {
            Ok(reading) => {
                self.slider = Slider {
                    enabled: true,
                    minimum: reading.minimum,
                    maximum: reading.maximum,
                    position: reading.current,
                };
                self.status = Status::Blank;
                true
            }
            Err(_) => {
                self.slider.enabled = false;
                self.status = Status::CannotControl;
                false
            }
        }
    }

    /// What `probe_step` does to the state.
    pub open spec fn probe_step_spec(self, index: usize, raw: RawBrightness) -> Shell {
        let stepped = self.update_spec(raw);
        if query_ok(raw) {
            Shell { selection: Some(index), ..stepped }
        } else {
            stepped
        }
    }

    /// One step of the startup probe: show the read's outcome for the
    /// monitor at `index` and, when it succeeded, make `index` the
    /// initial selection. Returns whether the probe is over.
    pub fn probe_step(&mut self, index: usize, raw: RawBrightness) -> (supported: bool)
        requires
            old(self).wf(),
            index < old(self).registry@.len(),
        ensures
            final(self).wf(),
            supported == query_ok(raw),
            *final(self) == old(self).probe_step_spec(index, raw),
    {
        let supported = self.update_monitor_brightness(raw);
        if supported {
            self.selection = Some(index);
        }
        supported
    }

    /// Outcome of one slider drag-move event, carrying the position
    /// the slider reported. While the slider is enabled, exactly one
    /// apply action is produced, aimed at the selected monitor, with
    /// exactly the reported value — and the slider keeps that value,
    /// whatever later becomes of the device. While it is disabled, no
    /// apply occurs and nothing changes. An event with no resolvable
    /// selection is the unrecoverable invariant violation.
    pub fn drag_move(&mut self, position: u32) -> (r: Result<DragAction, FatalError>)
        requires
            old(self).wf(),
            old(self).slider.enabled ==> old(self).slider.minimum <= position
                <= old(self).slider.maximum,
        ensures
            final(self).wf(),
            !old(self).slider.enabled ==> r == Ok::<DragAction, FatalError>(DragAction::Ignored)
                && *final(self) == *old(self),
            old(self).slider.enabled ==> match old(self).selection {
                Some(i) => if i < old(self).registry@.len() {
                    r == Ok::<DragAction, FatalError>(DragAction::Apply {
                        handle: old(self).registry@[i as int].handle,
                        value: position,
                    }) && *final(self) == drag_state(*old(self), position)
                } else {
                    r == Err::<DragAction, FatalError>(FatalError::SelectionOutOfBounds)
                        && *final(self) == *old(self)
                },
                None => r == Err::<DragAction, FatalError>(FatalError::NoSelection)
                    && *final(self) == *old(self),
            },
    {
        if !self.slider.enabled {
            return Ok(DragAction::Ignored);
        }
        let handle = match self.selected_handle() {
            Ok(h) => h,
            Err(e) => {
                return Err(e);
            }
        };
        self.slider.position = position;
        Ok(DragAction::Apply { handle, value: position })
    }
}

impl Default for Shell {
    /// The same state `Shell::new` gives.
    fn default() -> (s: Shell)
        ensures
            s.wf(),
            s.registry@.len() == 0,
            s.selection is None,
            s.slider == (Slider { enabled: false, minimum: 0, maximum: 100, position: 50 }),
            s.status == Status::Blank,
    {
        Shell::new()
    }
}

/// Where one in-range drag-move event leaves the state: the slider
/// keeps the reported value; nothing else moves.
pub open spec fn drag_state(s: Shell, position: u32) -> Shell {
    Shell { slider: (Slider { position: position, ..s.slider }), ..s }
}

/// The apply call one drag-move event produces while a selection is
/// present: aimed at the selected monitor, carrying the reported
/// value.
pub open spec fn drag_action(s: Shell, position: u32) -> DragAction {
    match s.selection {
        Some(i) => DragAction::Apply { handle: s.registry@[i as int].handle, value: position },
        None => DragAction::Ignored,
    }
}

/// Folding a sequence of drag-move events over the state: the action
/// each event produces, in order.
pub open spec fn run_drags(s: Shell, positions: Seq<u32>) -> Seq<DragAction>
    decreases positions.len(),
{
    if positions.len() == 0 {
        Seq::<DragAction>::empty()
    } else {
        seq![drag_action(s, positions[0])]
            + run_drags(drag_state(s, positions[0]), positions.drop_first())
    }
}

/// Slider dragging: a sequence of K drag-move events produces exactly
/// K apply calls, in order, each aimed at the selected monitor and
/// carrying exactly the value the slider reported at that event — no
/// debouncing, no coalescing.
pub proof fn lemma_one_apply_per_drag(s: Shell, i: usize, positions: Seq<u32>)
    requires
        s.selection == Some(i),
        i < s.registry@.len(),
    ensures
        run_drags(s, positions).len() == positions.len(),
        forall|j: int| 0 <= j < positions.len() ==> run_drags(s, positions)[j]
            == (DragAction::Apply { handle: s.registry@[i as int].handle, value: positions[j] }),
    decreases positions.len(),
{
    if positions.len() > 0 {
        let stepped = drag_state(s, positions[0]);
        // Dragging moves only the slider's position: the selection and
        // the registry are untouched, so every later event aims at the
        // same monitor.
        lemma_one_apply_per_drag(stepped, i, positions.drop_first());
        assert forall|j: int| 0 <= j < positions.len() implies run_drags(s, positions)[j]
            == (DragAction::Apply {
                handle: s.registry@[i as int].handle,
                value: positions[j],
            }) by {
            if j > 0 {
                assert(run_drags(s, positions)[j]
                    == run_drags(stepped, positions.drop_first())[j - 1]);
                assert(positions.drop_first()[j - 1] == positions[j]);
            }
        }
    }
}

/// The whole startup probe from monitor `i` on: apply `probe_step` to
/// each monitor in enumeration order, stopping at the first
/// successful read.
pub open spec fn run_probe(s: Shell, outcomes: Seq<RawBrightness>, i: int) -> Shell
    decreases outcomes.len() - i,
{
    if i < 0 || i >= outcomes.len() {
        s
    } else if query_ok(outcomes[i]) {
        s.probe_step_spec(i as usize, outcomes[i])
    } else {
        run_probe(s.probe_step_spec(i as usize, outcomes[i]), outcomes, i + 1)
    }
}

/// The first index at or after `i` whose read succeeds.
pub open spec fn first_supported(outcomes: Seq<RawBrightness>, i: int) -> Option<int>
    decreases outcomes.len() - i,
{
    if i < 0 || i >= outcomes.len() {
        None
    } else if query_ok(outcomes[i]) {
        Some(i)
    } else {
        first_supported(outcomes, i + 1)
    }
}

/// Startup probing selects the first monitor, in enumeration order,
/// whose brightness read succeeds: it becomes the initial selection
/// and its reading seeds the slider, while the monitors before it are
/// passed over with no selection made. If no read succeeds, no
/// selection is made and the slider remains disabled, its range and
/// position untouched. The registry is never changed by probing.
pub proof fn lemma_probe_selects_first(s: Shell, outcomes: Seq<RawBrightness>, i: int)
    requires
        0 <= i <= outcomes.len(),
        outcomes.len() <= usize::MAX,
        s.selection is None,
        !s.slider.enabled,
    ensures
        run_probe(s, outcomes, i).registry == s.registry,
        match first_supported(outcomes, i) {
            Some(k) => {
                &&& i <= k < outcomes.len()
                &&& query_ok(outcomes[k])
                &&& forall|j: int| i <= j < k ==> !query_ok(outcomes[j])
                &&& run_probe(s, outcomes, i).selection == Some(k as usize)
                &&& run_probe(s, outcomes, i).slider == (Slider {
                        enabled: true,
                        minimum: outcomes[k].minimum,
                        maximum: outcomes[k].maximum,
                        position: outcomes[k].current,
                    })
                &&& run_probe(s, outcomes, i).status == Status::Blank
            },
            None => {
                &&& forall|j: int| i <= j < outcomes.len() ==> !query_ok(outcomes[j])
                &&& run_probe(s, outcomes, i).selection is None
                &&& !run_probe(s, outcomes, i).slider.enabled
                &&& run_probe(s, outcomes, i).slider.minimum == s.slider.minimum
                &&& run_probe(s, outcomes, i).slider.maximum == s.slider.maximum
                &&& run_probe(s, outcomes, i).slider.position == s.slider.position
            },
        },
    decreases outcomes.len() - i,
{
    if i >= outcomes.len() {
        // No monitors left: the state is unchanged.
    } else if query_ok(outcomes[i]) {
        // The probe stops here and `i` is the first success.
    } else {
        let stepped = s.probe_step_spec(i as usize, outcomes[i]);
        lemma_probe_selects_first(stepped, outcomes, i + 1);
    }
}

} // verus!

use vstd::prelude::*;

use crate::config::CATALOG_MAX_COMPONENTS;

verus! {

/// Fixed capacity of the toggle buffer: three fixed slots (cereal, water,
/// filler quantity) followed by one slot per possible unique component.
pub const TOGGLE_CAPACITY: usize = 3 + CATALOG_MAX_COMPONENTS;

/// One ordered component of a found recipe, paired with its processing
/// method.
#[derive(Clone, PartialEq, Eq, Debug)]
pub struct ComponentEntry {
    pub component: String,
    pub processing: String,
}

/// What the external engine reports when it finds a recipe. The engine may
/// also report no result at all; that is a legitimate outcome, not an
/// error, so callers hand this library an `Option<RecipeResult>`.
#[derive(Clone, PartialEq, Eq, Debug)]
pub struct RecipeResult {
    pub cereal: String,
    pub filler_quantity: usize,
    pub ordered_components: Vec<ComponentEntry>,
}

impl RecipeResult {
    /// The shape bound the engine owes every result: no more ordered
    /// components than any configuration may ask for, so the result always
    /// fits the toggle buffer.
    pub open spec fn valid(self) -> bool {
        self.ordered_components.len() <= CATALOG_MAX_COMPONENTS
    }
}

/// One display label, bound by `present` to the toggle slot of the same
/// position.
#[derive(Clone, PartialEq, Eq, Debug)]
pub enum Label {
    /// The result's cereal choice.
    Cereal(String),
    /// The fixed water slot.
    Water,
    /// The result's filler quantity.
    FillerQuantity(usize),
    /// One ordered component together with its processing method.
    Component(String, String),
}

/// Fixed-capacity sequence of boolean display flags. The capacity is
/// `TOGGLE_CAPACITY` from construction on and never changes; a new generate
/// action resets every flag to false before any result is bound.
pub struct ToggleBuffer {
    flags: Vec<bool>,
}

impl View for ToggleBuffer {
    type V = Seq<bool>;

    closed spec fn view(&self) -> Seq<bool> {
        self.flags@
    }
}

impl ToggleBuffer {
    /// The buffer's one structural invariant: its capacity is fixed.
    pub open spec fn wf(self) -> bool {
        self@.len() == TOGGLE_CAPACITY
    }

    /// Every flag is false.
    pub open spec fn all_clear(self) -> bool {
        forall|i: int| 0 <= i < self@.len() ==> !(#[trigger] self@[i])
    }

    /// Returns a buffer of `TOGGLE_CAPACITY` flags, all false.
    pub fn new() -> (buffer: ToggleBuffer)
        ensures
            buffer.wf(),
            buffer.all_clear(),
    {
        let mut flags: Vec<bool> = Vec::new();
        while flags.len() < TOGGLE_CAPACITY
            invariant
                flags.len() <= TOGGLE_CAPACITY,
                forall|i: int| 0 <= i < flags.len() ==> !(#[trigger] flags@[i]),
            decreases TOGGLE_CAPACITY - flags.len(),
        {
            flags.push(false);
        }
        ToggleBuffer { flags }
    }

    /// Resets every flag to false; the capacity stays fixed.
    pub fn clear(&mut self)
        requires
            old(self).wf(),
        ensures
            final(self).wf(),
            final(self).all_clear(),
    {
        let mut i: usize = 0;
        while i < self.flags.len()
            invariant
                self.flags.len() == TOGGLE_CAPACITY,
                i <= self.flags.len(),
                forall|j: int| 0 <= j < i ==> !(#[trigger] self.flags@[j]),
            decreases self.flags.len() - i,
        {
            self.flags.set(i, false);
            i = i + 1;
        }
    }

    /// Reads the flag at `index`.
    pub fn get(&self, index: usize) -> (value: bool)
        requires
            self.wf(),
            index < TOGGLE_CAPACITY,
        ensures
            value == self@[index as int],
    {
        self.flags[index]
    }

    /// Writes the flag at `index`, leaving every other flag unchanged.
    pub fn set(&mut self, index: usize, value: bool)
        requires
            old(self).wf(),
            index < TOGGLE_CAPACITY,
        ensures
            final(self).wf(),
            final(self)@ == old(self)@.update(index as int, value),
    {
        self.flags.set(index, value);
    }
}

/// Binds an optional result onto the toggle buffer and returns the display
/// labels, each paired with the index of the toggle slot it is bound to.
///
/// The whole buffer is reset to false first, whatever the result's shape,
/// so no stale flag survives from a previous, differently shaped result.
/// An absent result yields an empty label sequence. A present result with
/// `k` ordered components yields exactly `3 + k` labels bound to slots
/// `0..3 + k`: slot 0 the cereal, slot 1 water, slot 2 the filler
/// quantity, and slot `3 + j` the component at position `j`. No slot at or
/// beyond `3 + k` is bound.
pub fn present(result: &Option<RecipeResult>, buffer: &mut ToggleBuffer) -> (labels: Vec<
    (Label, usize),
>)
    requires
        old(buffer).wf(),
        (*result) matches Some(r) ==> r.valid(),
    ensures
        final(buffer).wf(),
        final(buffer).all_clear(),
        labels.len() <= TOGGLE_CAPACITY,
        forall|i: int| 0 <= i < labels.len() ==> #[trigger] labels[i].1 == i,
        (*result) is None ==> labels.len() == 0,
        (*result) matches Some(r) ==> {
            &&& labels.len() == 3 + r.ordered_components.len()
            &&& labels[0].0 == Label::Cereal(r.cereal)
            &&& labels[1].0 == Label::Water
            &&& labels[2].0 == Label::FillerQuantity(r.filler_quantity)
            &&& forall|j: int|
                0 <= j < r.ordered_components.len() ==> #[trigger] labels[3 + j].0
                    == Label::Component(
                    r.ordered_components[j].component,
                    r.ordered_components[j].processing,
                )
        },
{
    buffer.clear();
    let mut labels: Vec<(Label, usize)> = Vec::new();
    match result {
        None => labels,
        Some(r) => {
            labels.push((Label::Cereal(r.cereal.clone()), 0));
            labels.push((Label::Water, 1));
            labels.push((Label::FillerQuantity(r.filler_quantity), 2));
            let mut j: usize = 0;
            while j < r.ordered_components.len()
                invariant
                    r.valid(),
                    j <= r.ordered_components.len(),
                    labels.len() == 3 + j,
                    labels[0].0 == Label::Cereal(r.cereal),
                    labels[1].0 == Label::Water,
                    labels[2].0 == Label::FillerQuantity(r.filler_quantity),
                    forall|i: int| 0 <= i < labels.len() ==> #[trigger] labels[i].1 == i,
                    forall|t: int|
                        0 <= t < j ==> #[trigger] labels[3 + t].0 == Label::Component(
                            r.ordered_components[t].component,
                            r.ordered_components[t].processing,
                        ),
                decreases r.ordered_components.len() - j,
            {
                let entry = &r.ordered_components[j];
                labels.push((Label::Component(entry.component.clone(), entry.processing.clone()), 3 + j));
                j = j + 1;
            }
            labels
        },
    }
}

} // verus!

//! Rows of note events and the fixed-length pattern that holds them.

use vstd::prelude::*;
use crate::pitch::Note;

verus! {

/// Placeholder for a per-row modulation effect; it carries no data yet.
#[derive(Copy, Clone, Debug, PartialEq, Eq, Structural)]
pub struct Effect {}

/// The event payload of one time step: an optional output channel, an
/// optional note, an optional velocity, and an ordered list of effects.
/// Each optional field is independently absent or present; an absent field
/// means unset. Rows are immutable after construction.
#[derive(Clone, Debug, PartialEq)]
pub struct Row {
    channel: Option<u8>,
    note: Option<Note>,
    velocity: Option<u8>,
    effects: Vec<Effect>,
}

impl Row {
    /// The output channel, if one is assigned.
    pub closed spec fn spec_channel(&self) -> Option<u8> {
        self.channel
    }

    /// The note event, if this step carries one.
    pub closed spec fn spec_note(&self) -> Option<Note> {
        self.note
    }

    /// The velocity, if one is specified.
    pub closed spec fn spec_velocity(&self) -> Option<u8> {
        self.velocity
    }

    /// The effects, in the order they are meant to apply.
    pub closed spec fn spec_effects(&self) -> Seq<Effect> {
        self.effects@
    }

    /// Builds a row holding the four fields verbatim; no range is checked.
    pub fn new(
        channel: Option<u8>,
        note: Option<Note>,
        velocity: Option<u8>,
        effects: Vec<Effect>,
    ) -> (r: Row)
        ensures
            r.spec_channel() == channel,
            r.spec_note() == note,
            r.spec_velocity() == velocity,
            r.spec_effects() == effects@,
    {
        Row { channel, note, velocity, effects }
    }

    /// The output channel, if one is assigned.
    pub fn channel(&self) -> (r: Option<u8>)
        ensures
            r == self.spec_channel(),
    {
        self.channel
    }

    /// The note event, if this step carries one.
    pub fn note(&self) -> (r: Option<Note>)
        ensures
            r == self.spec_note(),
    {
        self.note
    }

    /// The velocity, if one is specified.
    pub fn velocity(&self) -> (r: Option<u8>)
        ensures
            r == self.spec_velocity(),
    {
        self.velocity
    }

    /// The effects, in the order they are meant to apply.
    pub fn effects(&self) -> (r: &Vec<Effect>)
        ensures
            r@ == self.spec_effects(),
    {
        &self.effects
    }
}

/// A fixed-length sequence of slots in temporal order, each slot either
/// empty or holding a row. The length is set at construction and never
/// changes; slots are set and cleared individually by index.
pub struct Pattern {
    rows: Vec<Option<Row>>,
}

impl View for Pattern {
    type V = Seq<Option<Row>>;

    /// A pattern is abstractly its slot sequence.
    closed spec fn view(&self) -> Seq<Option<Row>> {
        self.rows@
    }
}

impl Pattern {
    /// Builds a pattern of the given length with every slot empty.
    pub fn new(length: usize) -> (r: Pattern)
        ensures
            r@.len() == length,
            forall|i: int| 0 <= i < length ==> r@[i] is None,
    {
        let mut rows: Vec<Option<Row>> = Vec::new();
        while rows.len() < length
            invariant
                rows@.len() <= length,
                forall|i: int| 0 <= i < rows@.len() ==> rows@[i] is None,
            decreases length - rows@.len(),
        {
            rows.push(None);
        }
        Pattern { rows }
    }

    /// The fixed number of slots.
    pub fn len(&self) -> (r: usize)
        ensures
            r == self@.len(),
    {
        self.rows.len()
    }

    /// The slot at the given index: empty, or the row it holds.
    pub fn get_row(&self, index: usize) -> (r: &Option<Row>)
        requires
            index < self@.len(),
        ensures
            *r == self@[index as int],
    {
        &self.rows[index]
    }

    /// Puts the row into the slot at the given index, replacing whatever the
    /// slot held. An out-of-range index leaves the pattern unchanged: the
    /// row is silently dropped and no error is raised.
    pub fn add_row(&mut self, index: usize, row: Row)
        ensures
            index < old(self)@.len() ==> final(self)@ == old(self)@.update(
                index as int,
                Some(row),
            ),
            index >= old(self)@.len() ==> final(self)@ == old(self)@,
    {
        if index < self.rows.len() {
            self.rows[index] = Some(row);
        }
    }

    /// Clears the slot at the given index back to empty. An out-of-range
    /// index leaves the pattern unchanged.
    pub fn remove_row(&mut self, index: usize)
        ensures
            index < old(self)@.len() ==> final(self)@ == old(self)@.update(
                index as int,
                None::<Row>,
            ),
            index >= old(self)@.len() ==> final(self)@ == old(self)@,
    {
        if index < self.rows.len() {
            self.rows[index] = None;
        }
    }
}

/// Writing the same slot twice keeps only the second row: the last write
/// wins, with no merging of the two.
pub proof fn lemma_add_row_last_write_wins(
    slots: Seq<Option<Row>>,
    index: int,
    first: Row,
    second: Row,
)
    requires
        0 <= index < slots.len(),
    ensures
        slots.update(index, Some(first)).update(index, Some(second)) == slots.update(
            index,
            Some(second),
        ),
{
    assert(slots.update(index, Some(first)).update(index, Some(second)) =~= slots.update(
        index,
        Some(second),
    ));
}

} // verus!

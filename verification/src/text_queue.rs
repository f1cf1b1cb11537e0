//! The queue of text entities that wait for layout, and the decisions of one
//! layout pass: which entities a frame queues, and what becomes of each queued
//! entity once a layout was attempted for it.

use vstd::prelude::*;

verus! {

/// Which text entities a frame adds to the layout queue.
#[derive(Debug, Clone, Copy, PartialEq, Eq, Structural)]
pub enum TextSelection {
    /// Those whose text, node or style changed since the last frame.
    Changed,
    /// Every entity that has both a text and a style.
    AllText,
}

/// What an attempt to lay out one queued entity came to.
#[derive(Debug, Clone, Copy, PartialEq, Eq, Structural)]
pub enum LayoutOutcome {
    /// The entity no longer has the text, style and size components.
    Unavailable,
    /// The text was laid out.
    Laid,
    /// A font of the text is not loaded (yet).
    NoSuchFont,
    /// A glyph could not be added to a newly created font atlas.
    FailedToAddGlyph,
}

/// What to do with a queued entity after its layout attempt.
#[derive(Debug, Clone, Copy, PartialEq, Eq, Structural)]
pub enum LayoutAction {
    /// Nothing: the entity is no longer a text node.
    Skip,
    /// Store the computed size and layout on the entity.
    Store,
    /// Keep the entity queued for the next layout pass.
    Retry,
}

/// The entities a frame queues: all text when the scale factor changed, for
/// every text must then be laid out anew; else only the changed ones.
pub fn text_selection(scale_factor_changed: bool) -> (selection: TextSelection)
    ensures
        selection == (if scale_factor_changed {
            TextSelection::AllText
        } else {
            TextSelection::Changed
        }),
{
    if scale_factor_changed {
        TextSelection::AllText
    } else {
        TextSelection::Changed
    }
}

/// What a layout attempt's outcome calls for.
pub open spec fn layout_action_for(outcome: LayoutOutcome) -> LayoutAction {
    match outcome {
        LayoutOutcome::Unavailable => LayoutAction::Skip,
        LayoutOutcome::Laid => LayoutAction::Store,
        LayoutOutcome::NoSuchFont => LayoutAction::Retry,
        LayoutOutcome::FailedToAddGlyph => LayoutAction::Skip,
    }
}

/// The queue after one entity's layout attempt: the entity joins it again
/// exactly when a font of its text was missing.
pub open spec fn settled<E>(queue: Seq<E>, entity: E, outcome: LayoutOutcome) -> Seq<E> {
    if outcome is NoSuchFont {
        queue.push(entity)
    } else {
        queue
    }
}

/// The queue after the layout attempts of `entities`, in order, with the
/// outcomes `outcomes`.
pub open spec fn settled_all<E>(queue: Seq<E>, entities: Seq<E>, outcomes: Seq<LayoutOutcome>) -> Seq<E>
    decreases entities.len(),
{
    if entities.len() == 0 {
        queue
    } else {
        settled_all(
            settled(queue, entities[0], outcomes[0]),
            entities.drop_first(),
            outcomes.drop_first(),
        )
    }
}

/// Those of `entities` whose outcome (at the same position) is a missing
/// font, in their order.
pub open spec fn missing_font<E>(entities: Seq<E>, outcomes: Seq<LayoutOutcome>) -> Seq<E>
    decreases entities.len(),
{
    if entities.len() == 0 {
        Seq::empty()
    } else if outcomes[0] is NoSuchFont {
        seq![entities[0]] + missing_font(entities.drop_first(), outcomes.drop_first())
    } else {
        missing_font(entities.drop_first(), outcomes.drop_first())
    }
}

/// The text entities that wait for layout, in the order they were queued.
pub struct TextQueue<E> {
    queued: Vec<E>,
}

impl<E> View for TextQueue<E> {
    type V = Seq<E>;

    closed spec fn view(&self) -> Seq<E> {
        self.queued@
    }
}

impl<E> TextQueue<E> {
    /// An empty queue.
    pub fn new() -> (queue: Self)
        ensures
            queue@ == Seq::<E>::empty(),
    {
        TextQueue { queued: Vec::new() }
    }

    /// The number of queued entities.
    pub fn len(&self) -> (n: usize)
        ensures
            n == self@.len(),
    {
        self.queued.len()
    }

    /// Whether no entity waits for layout.
    pub fn is_empty(&self) -> (empty: bool)
        ensures
            empty == (self@.len() == 0),
    {
        self.queued.len() == 0
    }

    /// Queues an entity behind those already queued.
    pub fn push(&mut self, entity: E)
        ensures
            final(self)@ == old(self)@.push(entity),
    {
        self.queued.push(entity);
    }

    /// Queues entities, in their order, behind those already queued.
    pub fn extend(&mut self, entities: Vec<E>)
        ensures
            final(self)@ == old(self)@ + entities@,
    {
        let mut entities = entities;
        self.queued.append(&mut entities);
    }

    /// Hands out every queued entity, in queue order, for a layout pass,
    /// and leaves the queue empty.
    pub fn take(&mut self) -> (pending: Vec<E>)
        ensures
            pending@ == old(self)@,
            final(self)@ == Seq::<E>::empty(),
    {
        let mut pending: Vec<E> = Vec::new();
        std::mem::swap(&mut pending, &mut self.queued);
        pending
    }

    /// Records the outcome of one entity's layout attempt and says what to
    /// do with the entity: store its layout when it was laid out, retry it
    /// in the next pass when a font was missing (it joins the queue again),
    /// skip it when it is no longer a text node. A glyph that cannot be
    /// added to a font atlas is a fatal error, and not an outcome this takes.
    pub fn settle(&mut self, entity: E, outcome: LayoutOutcome) -> (action: LayoutAction)
        requires
            !(outcome is FailedToAddGlyph),
        ensures
            action == layout_action_for(outcome),
            final(self)@ == settled(old(self)@, entity, outcome),
    {
        match outcome {
            LayoutOutcome::NoSuchFont => {
                self.queued.push(entity);
                LayoutAction::Retry
            },
            LayoutOutcome::Laid => LayoutAction::Store,
            _ => LayoutAction::Skip,
        }
    }
}

impl<E> Default for TextQueue<E> {
    /// An empty queue.
    fn default() -> (queue: Self)
        ensures
            queue@ == Seq::<E>::empty(),
    {
        TextQueue::new()
    }
}

/// A layout pass, seen as a whole: settling the entities of a pass in turn
/// adds to the queue exactly those whose font was missing, in the order of
/// the pass; so the next pass never holds more entities than this one, and
/// holds none that this one did not.
pub proof fn lemma_layout_pass<E>(queue: Seq<E>, entities: Seq<E>, outcomes: Seq<LayoutOutcome>)
    requires
        entities.len() == outcomes.len(),
    ensures
        settled_all(queue, entities, outcomes) == queue + missing_font(entities, outcomes),
        missing_font(entities, outcomes).len() <= entities.len(),
        forall|j: int|
            0 <= j < missing_font(entities, outcomes).len() ==> entities.contains(
                #[trigger] missing_font(entities, outcomes)[j],
            ),
    decreases entities.len(),
{
    if entities.len() > 0 {
        let rest = entities.drop_first();
        let rest_outcomes = outcomes.drop_first();
        let next = settled(queue, entities[0], outcomes[0]);
        lemma_layout_pass(next, rest, rest_outcomes);
        let m = missing_font(rest, rest_outcomes);
        if outcomes[0] is NoSuchFont {
            assert(queue.push(entities[0]) + m =~= queue + (seq![entities[0]] + m));
        }
        assert forall|j: int|
            0 <= j < missing_font(entities, outcomes).len() implies entities.contains(
                #[trigger] missing_font(entities, outcomes)[j],
            ) by {
            if outcomes[0] is NoSuchFont {
                if j == 0 {
                    assert(entities[0] == missing_font(entities, outcomes)[j]);
                } else {
                    assert(missing_font(entities, outcomes)[j] == m[j - 1]);
                    let k = choose|k: int| 0 <= k < rest.len() && rest[k] == m[j - 1];
                    assert(entities[k + 1] == rest[k]);
                }
            } else {
                let k = choose|k: int| 0 <= k < rest.len() && rest[k] == m[j];
                assert(entities[k + 1] == rest[k]);
            }
        }
    } else {
        assert(queue + Seq::<E>::empty() =~= queue);
    }
}

} // verus!

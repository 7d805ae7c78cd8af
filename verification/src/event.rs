//! The input-event broadcaster: owns its outgoing message queue and hands
//! each decoded window event to every live entity's input handler, using
//! a consistent id snapshot of the registry.

use vstd::prelude::*;

use crate::entity::{input_applied, EntityRegistry};
use crate::messages::{Message, WindowEvent};

verus! {

/// The subsystem that broadcasts decoded input events to entities.
#[derive(Clone, Debug)]
pub struct EventHandler {
    pub messages: Vec<Message>,
}

impl EventHandler {
    pub fn new() -> (r: Self)
        ensures
            r.messages@ == Seq::<Message>::empty(),
    {
        Self { messages: Vec::new() }
    }

    /// Broadcasts one decoded window event to every live entity's input
    /// handler.  Every entity receives the event exactly once; the
    /// registry's membership and iteration order do not move.
    pub fn send_event(
        &self,
        entities: &mut EntityRegistry,
        window_id: u64,
        event: &WindowEvent,
    )
        requires
            old(entities).wf(),
        ensures
            final(entities).wf(),
            final(entities).order_spec() == old(entities).order_spec(),
            final(entities)@.dom() == old(entities)@.dom(),
            forall|k: u64| #[trigger] old(entities)@.contains_key(k) ==> input_applied(
                old(entities)@[k],
                final(entities)@[k],
                *event,
            ),
    {
        let ids = entities.ids();
        let mut i: usize = 0;
        while i < ids.len()
            invariant
                0 <= i <= ids@.len(),
                ids@ == old(entities).order_spec(),
                old(entities).wf(),
                entities.order_spec() == old(entities).order_spec(),
                entities@.dom() == old(entities)@.dom(),
                forall|j: int| #![auto] i <= j < ids@.len() ==> entities@[ids@[j]] == old(
                    entities,
                )@[ids@[j]],
                forall|j: int| #![auto] 0 <= j < i ==> input_applied(
                    old(entities)@[ids@[j]],
                    entities@[ids@[j]],
                    *event,
                ),
                forall|k: u64| #[trigger] entities@.contains_key(k) ==> entities@[k].id == k,
            decreases ids@.len() - i,
        {
            let id = ids[i];
            proof {
                assert(old(entities).order_spec().contains(id));
                assert(old(entities)@.contains_key(id));
            }
            match entities.take(id) {
                Some(mut e) => {
                    e.input(event);
                    entities.put(e);
                    proof {
                        assert(entities@.dom() =~= old(entities)@.dom());
                        assert forall|j: int| #![auto] i + 1 <= j < ids@.len() implies entities@[ids@[j]]
                            == old(entities)@[ids@[j]] by {
                            assert(ids@.no_duplicates());
                            assert(ids@[j] != ids@[i as int]);
                        }
                        assert forall|j: int| #![auto] 0 <= j < i + 1 implies input_applied(
                            old(entities)@[ids@[j]],
                            entities@[ids@[j]],
                            *event,
                        ) by {
                            assert(ids@.no_duplicates());
                            if j < i as int {
                                assert(ids@[j] != ids@[i as int]);
                            }
                        }
                    }
                },
                None => {
                },
            }
            i += 1;
        }
        proof {
            assert forall|k: u64| #[trigger] old(entities)@.contains_key(k) implies input_applied(
                old(entities)@[k],
                entities@[k],
                *event,
            ) by {
                assert(old(entities).order_spec().contains(k));
                let j = choose|j: int|
                    0 <= j < old(entities).order_spec().len() && old(entities).order_spec()[j] == k;
                assert(input_applied(old(entities)@[ids@[j]], entities@[ids@[j]], *event));
            }
        }
    }

    pub fn get_messages(&self) -> (r: &Vec<Message>)
        ensures
            r@ == self.messages@,
    {
        &self.messages
    }

    /// Mutable access to the queue; the caller's writes land in it.
    pub fn get_messages_mut(&mut self) -> (r: &mut Vec<Message>)
        ensures
            *r == old(self).messages,
            final(self).messages == *final(r),
    {
        &mut self.messages
    }

    pub fn clear_messages(&mut self)
        ensures
            final(self).messages@ == Seq::<Message>::empty(),
    {
        self.messages.clear();
    }
}

} // verus!

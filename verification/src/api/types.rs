//! The latest reading of every device.

use crate::clock::now_millis;
use crate::text_map::{has_key, index_of, lemma_as_map_size, lemma_index_of, TextMap};
use crate::types::{Event, EventView};
use crate::AppError;
use vstd::prelude::*;

verus! {

/// What the query interface shows of a device: its name, its two
/// measurements as IEEE 754 single-precision bit patterns, and when they
/// arrived, in milliseconds since the start of 1970.
#[derive(Debug, PartialEq, Eq)]
pub struct ApiEvent {
    pub name: String,
    pub temperature: u32,
    pub humidity: u32,
    pub updated_at: i64,
}

/// The mathematical value of an [`ApiEvent`].
pub struct ApiEventView {
    pub name: Seq<char>,
    pub temperature: u32,
    pub humidity: u32,
    pub updated_at: i64,
}

impl View for ApiEvent {
    type V = ApiEventView;

    open spec fn view(&self) -> ApiEventView {
        ApiEventView {
            name: self.name@,
            temperature: self.temperature,
            humidity: self.humidity,
            updated_at: self.updated_at,
        }
    }
}

impl Clone for ApiEvent {
    fn clone(&self) -> (copy: Self)
        ensures
            copy == *self,
    {
        ApiEvent {
            name: self.name.clone(),
            temperature: self.temperature,
            humidity: self.humidity,
            updated_at: self.updated_at,
        }
    }
}

impl ApiEvent {
    /// What is shown of an event that arrived at `updated_at`.
    pub open spec fn shown(event: EventView, updated_at: i64) -> ApiEventView {
        ApiEventView {
            name: event.device_name,
            temperature: event.temperature,
            humidity: event.humidity,
            updated_at,
        }
    }
}

/// The sink behind the query interface: for every device that was heard
/// of, the latest reading and the time at which it arrived.
pub struct ApiState {
    contents: TextMap<ApiEvent>,
}

impl View for ApiState {
    type V = Map<Seq<char>, ApiEventView>;

    closed spec fn view(&self) -> Map<Seq<char>, ApiEventView> {
        self.contents@.map_values(|event: ApiEvent| event@)
    }
}

impl Default for ApiState {
    fn default() -> (state: Self)
        ensures
            state.wf(),
            state@ == Map::<Seq<char>, ApiEventView>::empty(),
    {
        let state = ApiState { contents: TextMap::new() };
        assert(state@ =~= Map::<Seq<char>, ApiEventView>::empty());
        state
    }
}

impl ApiState {
    /// Every device stands once, and under its own name.
    pub closed spec fn wf(&self) -> bool {
        &&& self.contents.wf()
        &&& forall|i: int|
            0 <= i < self.contents.entries().len() ==> (#[trigger] self.contents.entries()[i]).1.name@
                == self.contents.entries()[i].0
    }

    /// Every reading is kept under the name of its device.
    pub proof fn lemma_kept_by_name(&self, name: Seq<char>)
        requires
            self.wf(),
            self@.dom().contains(name),
        ensures
            self@[name].name == name,
    {
        let at = index_of(self.contents.entries(), name);
        assert(self.contents.entries()[at].0 == name);
    }

    /// The latest reading of every device, each device once.
    pub fn values(&self) -> (values: Vec<ApiEvent>)
        requires
            self.wf(),
        ensures
            values@.len() == self@.dom().len(),
            forall|i: int|
                0 <= i < values@.len() ==> self@.dom().contains((#[trigger] values@[i]).name@)
                    && self@[values@[i].name@] == values@[i]@,
            forall|i: int, j: int|
                0 <= i < j < values@.len() ==> (#[trigger] values@[i]).name@ != (
                #[trigger] values@[j]).name@,
    {
        let ghost entries = self.contents.entries();
        proof {
            lemma_as_map_size(entries);
            assert(self@.dom() =~= self.contents@.dom());
        }
        let mut values: Vec<ApiEvent> = Vec::new();
        let mut i: usize = 0;
        while i < self.contents.len()
            invariant
                entries == self.contents.entries(),
                i <= entries.len(),
                values@.len() == i,
                forall|j: int| 0 <= j < i ==> #[trigger] values@[j] == entries[j].1,
            decreases entries.len() - i,
        {
            values.push(self.contents.value_at(i).clone());
            i += 1;
        }
        proof {
            assert forall|i: int| 0 <= i < values@.len() implies self@.dom().contains(
                (#[trigger] values@[i]).name@,
            ) && self@[values@[i].name@] == values@[i]@ by {
                assert(values@[i] == entries[i].1);
                lemma_index_of(entries, entries[i].0, i);
            }
            assert forall|i: int, j: int| 0 <= i < j < values@.len() implies (
            #[trigger] values@[i]).name@ != (#[trigger] values@[j]).name@ by {
                assert(entries[i].0 != entries[j].0);
            }
        }
        values
    }

    /// Keeps an event that arrived at `updated_at` as the latest reading of
    /// its device, in place of the one before. No other device is touched.
    pub fn record(&mut self, event: Event, updated_at: i64)
        requires
            old(self).wf(),
        ensures
            final(self).wf(),
            final(self)@ == old(self)@.insert(
                event.device_name@,
                ApiEvent::shown(event@, updated_at),
            ),
    {
        let api_event = ApiEvent {
            name: event.device_name.clone(),
            temperature: event.temperature,
            humidity: event.humidity,
            updated_at,
        };
        let ghost before = self.contents.entries();
        self.contents.insert(event.device_name, api_event);
        proof {
            let after = self.contents.entries();
            let name = event.device_name@;
            assert forall|i: int| 0 <= i < after.len() implies (#[trigger] after[i]).1.name@
                == after[i].0 by {
                if has_key(before, name) {
                    if i != index_of(before, name) {
                        assert(after[i] == before[i]);
                    }
                } else {
                    if i < before.len() {
                        assert(after[i] == before[i]);
                    }
                }
            }
            assert(self@ =~= old(self)@.insert(name, ApiEvent::shown(event@, updated_at)));
        }
    }

    /// Takes an event that arrives now. The sink never fails.
    pub fn sink(&mut self, event: Event) -> (accepted: Result<(), AppError>)
        requires
            old(self).wf(),
        ensures
            accepted is Ok,
            final(self).wf(),
            exists|updated_at: i64|
                final(self)@ == old(self)@.insert(
                    event.device_name@,
                    #[trigger] ApiEvent::shown(event@, updated_at),
                ),
    {
        let updated_at = now_millis();
        let ghost shown = ApiEvent::shown(event@, updated_at);
        self.record(event, updated_at);
        assert(self@ == old(self)@.insert(event.device_name@, shown));
        Ok(())
    }
}

} // verus!

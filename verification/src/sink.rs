use crate::queue::{after_receive, front, BoundedQueue};
use crate::sample::{maps_to, Ytf};
use crate::wire::{csv_line, field_texts};
use vstd::prelude::*;

verus! {

/// Whether `line` is the line of `reading` with its channel values rendered by
/// `render`.
pub open spec fn is_line_of<V, F: Fn(&V) -> Vec<u8>>(
    render: F,
    reading: Ytf<V>,
    line: Seq<u8>,
) -> bool {
    exists|rendered: Ytf<Vec<u8>>|
        #![trigger maps_to(render, reading, rendered)]
        maps_to(render, reading, rendered) && line == csv_line(
            rendered.time,
            rendered.sensory,
            field_texts(rendered.read),
        )
}

/// One round of the sink task: takes the oldest reading out of the queue,
/// renders its channel values with `render` and hands back the line for the
/// transport. With an empty queue there is no line, and the sink waits.
///
/// The sink takes a reading only when it is called: a caller that is held up by
/// its transport leaves the queue to fill, which holds the producers up in
/// turn.
pub fn serve<V, F: Fn(&V) -> Vec<u8>, const C: usize>(
    queue: &mut BoundedQueue<Ytf<V>, C>,
    render: F,
) -> (line: Option<Vec<u8>>)
    requires
        forall|v: V| call_requires(render, (&v,)),
    ensures
        final(queue)@ == after_receive(old(queue)@),
        match front(old(queue)@) {
            Some(reading) => line is Some && is_line_of(render, reading, line->0@),
            None => line is None,
        },
{
    match queue.try_receive() {
        Ok(reading) => {
            let rendered = reading.map(render);
            let line = rendered.to_line();
            assert(maps_to(render, reading, rendered));
            Some(line)
        },
        Err(_) => None,
    }
}

} // verus!

use vstd::prelude::*;
use crate::client::{ActionView, after_line, ClientView, Error, SignalView, is_success, step_spec};
use crate::event::{EventView, empty_event};
use crate::number::parse_u64_spec;
use crate::parser::{event_after, field_name, field_value, first_colon, is_blank};

verus! {

/// The line `name: value`.
pub open spec fn field_line(name: Seq<char>, value: Seq<char>) -> Seq<char> {
    name + ": "@ + value
}

/// No newline character in `s`.
pub open spec fn single_line(s: Seq<char>) -> bool {
    forall|i: int| 0 <= i < s.len() ==> s[i] != '\n'
}

/// Each value followed by a newline, in order.
pub open spec fn joined_data(values: Seq<Seq<char>>) -> Seq<char>
    decreases values.len(),
{
    if values.len() == 0 {
        Seq::empty()
    } else {
        joined_data(values.drop_last()) + values.last() + "\n"@
    }
}

/// The session after each of `lines` has been read, in order.
pub open spec fn feed_lines(c: ClientView, lines: Seq<Seq<char>>) -> ClientView
    decreases lines.len(),
{
    if lines.len() == 0 {
        c
    } else {
        step_spec(feed_lines(c, lines.drop_last()), SignalView::Line(lines.last())).0
    }
}

/// A line `name: value` whose name holds no colon and whose value holds no
/// newline has exactly that name and that value.
pub proof fn lemma_field_line(name: Seq<char>, value: Seq<char>)
    requires
        forall|i: int| 0 <= i < name.len() ==> name[i] != ':',
        single_line(value),
    ensures
        !is_blank(field_line(name, value)),
        field_name(field_line(name, value)) == name,
        field_value(field_line(name, value)) == value,
{
    reveal_strlit(": ");
    let line = field_line(name, value);
    let k = name.len() as int;
    assert(line.last() != '\n') by {
        if value.len() > 0 {
            assert(line.last() == value.last());
        } else {
            assert(line.last() == ' ');
        }
    }
    assert(line[k] == ':');
    assert(first_colon(line, k));
    let c = choose|c: int| first_colon(line, c);
    assert(c == k) by {
        if c < k {
            assert(line[c] == name[c]);
        } else if c > k {
            assert(line[k] != ':');
        }
    }
    assert(line.take(k) =~= name);
    assert(line.skip(k + 1).drop_first() =~= value);
}

proof fn lemma_literals_differ()
    ensures
        "event"@ != "data"@,
        "event"@ != "id"@,
        "event"@ != "retry"@,
        "data"@ != "id"@,
        "data"@ != "retry"@,
        "id"@ != "retry"@,
        forall|i: int| 0 <= i < "data"@.len() ==> "data"@[i] != ':',
        forall|i: int| 0 <= i < "id"@.len() ==> "id"@[i] != ':',
        forall|i: int| 0 <= i < "retry"@.len() ==> "retry"@[i] != ':',
{
    reveal_strlit("event");
    reveal_strlit("data");
    reveal_strlit("id");
    reveal_strlit("retry");
    assert("event"@[0] != "retry"@[0]);
    assert("event"@.len() != "data"@.len() && "event"@.len() != "id"@.len());
    assert("data"@.len() != "id"@.len() && "data"@.len() != "retry"@.len());
    assert("id"@.len() != "retry"@.len());
}

proof fn lemma_data_lines_accumulate(c: ClientView, values: Seq<Seq<char>>)
    requires
        forall|k: int| 0 <= k < values.len() ==> single_line(#[trigger] values[k]),
    ensures
        ({
            let p = feed_lines(
                c,
                values.map_values(|v: Seq<char>| field_line("data"@, v)),
            ).pending;
            p == EventView { data: c.pending.data + joined_data(values), ..c.pending }
        }),
    decreases values.len(),
{
    let lines = values.map_values(|v: Seq<char>| field_line("data"@, v));
    if values.len() == 0 {
        assert(c.pending.data + joined_data(values) =~= c.pending.data);
    } else {
        let front = values.drop_last();
        lemma_data_lines_accumulate(c, front);
        assert(lines.drop_last() =~= front.map_values(|v: Seq<char>| field_line("data"@, v)));
        lemma_literals_differ();
        let l = field_line("data"@, values.last());
        lemma_field_line("data"@, values.last());
        assert(lines.last() == l);
        let prev = feed_lines(c, lines.drop_last());
        assert(feed_lines(c, lines) == step_spec(prev, SignalView::Line(l)).0);
        assert(step_spec(prev, SignalView::Line(l)).0 == after_line(prev, l));
        assert(event_after(prev.pending, l) == EventView {
            data: prev.pending.data + values.last() + "\n"@,
            ..prev.pending
        });
        assert(c.pending.data + joined_data(front) + values.last() + "\n"@ =~= c.pending.data
            + joined_data(values));
    }
}

/// Data lines followed by a blank line hand out an event whose data is each
/// value followed by a newline, in the order the lines came.
pub proof fn law_data_lines_concatenate(c: ClientView, values: Seq<Seq<char>>)
    requires
        forall|k: int| 0 <= k < values.len() ==> single_line(#[trigger] values[k]),
    ensures
        ({
            let start = step_spec(c, SignalView::Pull).0;
            let fed = feed_lines(start, values.map_values(|v: Seq<char>| field_line("data"@, v)));
            step_spec(fed, SignalView::Line(Seq::empty())).1 == ActionView::Emit(
                EventView { id: None, event_type: None, data: joined_data(values) },
            )
        }),
{
    let start = step_spec(c, SignalView::Pull).0;
    lemma_data_lines_accumulate(start, values);
    assert(Seq::<char>::empty() + joined_data(values) =~= joined_data(values));
}

/// An `id` line sets both the event's id and the session's last event id,
/// and the reconnection after a clean end of the stream sends that id.
pub proof fn law_id_persists(c: ClientView, value: Seq<char>)
    requires
        single_line(value),
    ensures
        ({
            let c1 = step_spec(c, SignalView::Line(field_line("id"@, value))).0;
            &&& c1.pending.id == Some(value)
            &&& c1.last_event_id == Some(value)
            &&& ({
                let c2 = step_spec(c1, SignalView::EndOfStream).0;
                &&& step_spec(c2, SignalView::Woke).1 == ActionView::Connect(Some(value))
                &&& step_spec(c2, SignalView::Pull).1 == ActionView::Connect(Some(value))
            })
        }),
{
    lemma_literals_differ();
    lemma_field_line("id"@, value);
}

/// A `retry` line sets the retry interval when its value reads as a
/// non-negative integer, and leaves it alone when the value does not read
/// as one or is missing.
pub proof fn law_retry_update(c: ClientView, value: Seq<char>)
    requires
        single_line(value),
    ensures
        step_spec(c, SignalView::Line(field_line("retry"@, value))).0.retry == match parse_u64_spec(
            value,
        ) {
            Some(n) => n,
            None => c.retry,
        },
        step_spec(c, SignalView::Line("retry"@)).0.retry == c.retry,
{
    lemma_literals_differ();
    lemma_field_line("retry"@, value);
    reveal_strlit("retry");
    let bare = "retry"@;
    assert(!is_blank(bare));
    assert(!exists|i: int| first_colon(bare, i));
    assert(field_name(bare) == bare);
    assert(field_value(bare) =~= Seq::<char>::empty());
}

/// A line whose field name is none of `event`, `data`, `id` and `retry`
/// changes nothing, and reading goes on.
pub proof fn law_unknown_field_ignored(c: ClientView, line: Seq<char>)
    requires
        !is_blank(line),
        field_name(line) != "event"@,
        field_name(line) != "data"@,
        field_name(line) != "id"@,
        field_name(line) != "retry"@,
    ensures
        step_spec(c, SignalView::Line(line)) == (c, ActionView::ReadLine),
{
}

/// A blank line right at the start of a pull hands out an event with no id,
/// no type and empty data.
pub proof fn law_blank_line_empty_event(c: ClientView, line: Seq<char>)
    requires
        is_blank(line),
    ensures
        step_spec(step_spec(c, SignalView::Pull).0, SignalView::Line(line)).1 == ActionView::Emit(
            empty_event(),
        ),
        is_blank(Seq::empty()),
        is_blank(seq!['\n']),
{
    assert(seq!['\n'].drop_last() =~= Seq::<char>::empty());
}

/// A clean end of the stream asks for a pause of the retry interval and then
/// a connection that sends the last known id; a status that is not a success
/// on that connection is handed to the caller as a failure.
pub proof fn law_end_of_stream_reconnects(c: ClientView, status: u16)
    requires
        !is_success(status),
    ensures
        ({
            let (c1, a1) = step_spec(c, SignalView::EndOfStream);
            let (c2, a2) = step_spec(c1, SignalView::Woke);
            let (c3, a3) = step_spec(c2, SignalView::Status(status));
            &&& a1 == ActionView::Sleep(c.retry)
            &&& !c1.connected
            &&& a2 == ActionView::Connect(c.last_event_id)
            &&& a3 == ActionView::Fail(Error::Http(status))
            &&& !c3.connected
            &&& c3.last_event_id == c.last_event_id
        }),
{
}

} // verus!

use vstd::prelude::*;
use crate::text::chars_of;

verus! {

/// One event of the stream: an optional id, an optional type, and its data.
#[derive(Debug)]
pub struct Event {
    pub id: Option<String>,
    pub event_type: Option<String>,
    pub data: String,
}

/// The mathematical value of an `Event`.
pub struct EventView {
    pub id: Option<Seq<char>>,
    pub event_type: Option<Seq<char>>,
    pub data: Seq<char>,
}

/// The characters of an optional string.
pub open spec fn opt_chars(o: Option<String>) -> Option<Seq<char>> {
    match o {
        Some(s) => Some(s@),
        None => None,
    }
}

impl View for Event {
    type V = EventView;

    open spec fn view(&self) -> EventView {
        EventView {
            id: opt_chars(self.id),
            event_type: opt_chars(self.event_type),
            data: self.data@,
        }
    }
}

/// The event that a parse cycle starts from: no id, no type, no data.
pub open spec fn empty_event() -> EventView {
    EventView { id: None, event_type: None, data: Seq::empty() }
}

/// The pieces of `s` between newline characters, in order; there is always
/// one more piece than there are newlines.
pub open spec fn split_segments(s: Seq<char>) -> Seq<Seq<char>>
    decreases s.len(),
{
    if s.len() == 0 {
        seq![Seq::empty()]
    } else {
        let p = split_segments(s.drop_last());
        if s.last() == '\n' {
            p.push(Seq::empty())
        } else {
            p.update(p.len() - 1, p.last().push(s.last()))
        }
    }
}

/// A line ended by `\r\n` loses its carriage return.
pub open spec fn strip_cr(l: Seq<char>) -> Seq<char> {
    if l.len() > 0 && l.last() == '\r' {
        l.drop_last()
    } else {
        l
    }
}

/// The lines of `s` as `str::lines` gives them: every piece followed by a
/// newline, without a carriage return before that newline, and then the
/// final piece if it is not empty.
pub open spec fn data_lines(s: Seq<char>) -> Seq<Seq<char>> {
    let segs = split_segments(s);
    let complete = segs.drop_last().map_values(|l: Seq<char>| strip_cr(l));
    if segs.last().len() == 0 {
        complete
    } else {
        complete.push(segs.last())
    }
}

/// One `data: ` line for each line of the payload.
pub open spec fn data_block(lines: Seq<Seq<char>>) -> Seq<char>
    decreases lines.len(),
{
    if lines.len() == 0 {
        Seq::empty()
    } else {
        data_block(lines.drop_last()) + "data: "@ + lines.last() + "\n"@
    }
}

/// A `name` line carrying `value` when there is one, nothing otherwise.
pub open spec fn optional_line(name: Seq<char>, value: Option<Seq<char>>) -> Seq<char> {
    match value {
        Some(v) => name + v + "\n"@,
        None => Seq::empty(),
    }
}

/// The wire text of an event: its id line, its event line, its data lines.
pub open spec fn rendered(e: EventView) -> Seq<char> {
    optional_line("id: "@, e.id) + optional_line("event: "@, e.event_type) + data_block(
        data_lines(e.data),
    )
}

impl Event {
    /// An event with no id, no type and empty data.
    pub fn new() -> (e: Event)
        ensures
            e@ == empty_event(),
    {
        Event { id: None, event_type: None, data: String::new() }
    }

    /// The wire text of the event: `id: ` and `event: ` lines where those
    /// fields are present, then one `data: ` line for each line of the data.
    pub fn to_string(&self) -> (r: String)
        ensures
            r@ == rendered(self@),
    {
        let mut out = String::new();
        match &self.id {
            Some(id) => {
                out.append("id: ");
                out.append(id.as_str());
                out.append("\n");
            },
            None => {},
        }
        match &self.event_type {
            Some(t) => {
                out.append("event: ");
                out.append(t.as_str());
                out.append("\n");
            },
            None => {},
        }
        let ghost head = out@;
        assert(head == optional_line("id: "@, self@.id) + optional_line(
            "event: "@,
            self@.event_type,
        ));
        let text = self.data.as_str();
        let chars = chars_of(text);
        let n = chars.len();
        let mut start: usize = 0;
        let mut i: usize = 0;
        assert(text@.take(0) =~= Seq::<char>::empty());
        assert(split_segments(text@.take(0)).drop_last() =~= Seq::<Seq<char>>::empty());
        while i < n
            invariant
                chars@ == text@,
                n == text@.len(),
                start <= i <= n,
                split_segments(text@.take(i as int)).len() >= 1,
                split_segments(text@.take(i as int)).last() == text@.subrange(
                    start as int,
                    i as int,
                ),
                out@ == head + data_block(
                    split_segments(text@.take(i as int)).drop_last().map_values(
                        |l: Seq<char>| strip_cr(l),
                    ),
                ),
            decreases n - i,
        {
            let ghost segs = split_segments(text@.take(i as int));
            let ghost done = segs.drop_last().map_values(|l: Seq<char>| strip_cr(l));
            let ghost t1 = text@.take(i + 1);
            assert(t1.drop_last() =~= text@.take(i as int));
            assert(t1.last() == chars@[i as int]);
            if chars[i] == '\n' {
                let mut end = i;
                if i > start && chars[i - 1] == '\r' {
                    end = i - 1;
                }
                let line = text.substring_char(start, end);
                assert(line@ == strip_cr(segs.last()));
                out.append("data: ");
                out.append(line);
                out.append("\n");
                let ghost segs1 = split_segments(t1);
                assert(segs1 == segs.push(Seq::empty()));
                assert(segs1.drop_last() =~= segs);
                assert(segs1.drop_last().map_values(|l: Seq<char>| strip_cr(l)) =~= done.push(
                    strip_cr(segs.last()),
                ));
                assert(done.push(strip_cr(segs.last())).drop_last() =~= done);
                start = i + 1;
                assert(segs1.last() =~= text@.subrange(start as int, i + 1));
            } else {
                let ghost segs1 = split_segments(t1);
                assert(segs1 == segs.update(segs.len() - 1, segs.last().push(chars@[i as int])));
                assert(segs1.drop_last() =~= segs.drop_last());
                assert(segs1.last() =~= text@.subrange(start as int, i + 1));
            }
            i = i + 1;
        }
        assert(text@.take(n as int) =~= text@);
        let ghost segs = split_segments(text@);
        let ghost done = segs.drop_last().map_values(|l: Seq<char>| strip_cr(l));
        if start < n {
            let line = text.substring_char(start, n);
            out.append("data: ");
            out.append(line);
            out.append("\n");
            assert(done.push(segs.last()).drop_last() =~= done);
        }
        out
    }
}

} // verus!

use vstd::prelude::*;
use crate::event::EventView;
use crate::number::parse_u64_spec;

verus! {

/// What one line tells the caller: keep reading, or hand out the event.
#[derive(Debug, Clone, Copy, PartialEq, Eq, Structural)]
pub enum ParseResult {
    Next,
    Dispatch,
}

/// The line without one trailing newline, if it has one.
pub open spec fn strip_newline(line: Seq<char>) -> Seq<char> {
    if line.len() > 0 && line.last() == '\n' {
        line.drop_last()
    } else {
        line
    }
}

/// A line that ends the event being assembled.
pub open spec fn is_blank(line: Seq<char>) -> bool {
    strip_newline(line).len() == 0
}

/// `i` is the position of the first colon of `s`.
pub open spec fn first_colon(s: Seq<char>, i: int) -> bool {
    0 <= i < s.len() && s[i] == ':' && forall|j: int| 0 <= j < i ==> s[j] != ':'
}

/// `v` without one leading space, if it has one.
pub open spec fn drop_one_space(v: Seq<char>) -> Seq<char> {
    if v.len() > 0 && v[0] == ' ' {
        v.drop_first()
    } else {
        v
    }
}

/// The field name of a line: what stands before its first colon, or the
/// whole line when it has none.
pub open spec fn field_name(line: Seq<char>) -> Seq<char> {
    let s = strip_newline(line);
    if exists|i: int| first_colon(s, i) {
        s.take(choose|i: int| first_colon(s, i))
    } else {
        s
    }
}

/// The field value of a line: what follows its first colon less one leading
/// space, or nothing when it has no colon.
pub open spec fn field_value(line: Seq<char>) -> Seq<char> {
    let s = strip_newline(line);
    if exists|i: int| first_colon(s, i) {
        drop_one_space(s.skip((choose|i: int| first_colon(s, i)) + 1))
    } else {
        Seq::empty()
    }
}

/// The event being assembled after `line` has been read into it.
pub open spec fn event_after(e: EventView, line: Seq<char>) -> EventView {
    let name = field_name(line);
    let value = field_value(line);
    if is_blank(line) {
        e
    } else if name == "event"@ {
        EventView { event_type: Some(value), ..e }
    } else if name == "data"@ {
        EventView { data: e.data + value + "\n"@, ..e }
    } else if name == "id"@ {
        EventView { id: Some(value), ..e }
    } else {
        e
    }
}

/// The last event id of the session after `line` has been read.
pub open spec fn last_id_after(last: Option<Seq<char>>, line: Seq<char>) -> Option<Seq<char>> {
    if !is_blank(line) && field_name(line) == "id"@ {
        Some(field_value(line))
    } else {
        last
    }
}

/// The retry interval of the session after `line` has been read.
pub open spec fn retry_after(retry: u64, line: Seq<char>) -> u64 {
    if !is_blank(line) && field_name(line) == "retry"@ {
        match parse_u64_spec(field_value(line)) {
            Some(n) => n,
            None => retry,
        }
    } else {
        retry
    }
}

/// The name and value of a line that is not blank, as ranges of its
/// characters: the name is `[0, name_end)`, the value `[value_start, end)`.
pub fn split_line(chars: &Vec<char>) -> (r: Option<(usize, usize, usize)>)
    ensures
        r is None <==> is_blank(chars@),
        r matches Some((name_end, value_start, end)) ==> name_end <= value_start <= end
            <= chars@.len(),
        r matches Some((name_end, value_start, end)) ==> chars@.subrange(0, name_end as int)
            == field_name(chars@),
        r matches Some((name_end, value_start, end)) ==> chars@.subrange(
            value_start as int,
            end as int,
        ) == field_value(chars@),
{
    let n = chars.len();
    let end = if n > 0 && chars[n - 1] == '\n' {
        n - 1
    } else {
        n
    };
    let ghost s = strip_newline(chars@);
    assert(s == chars@.take(end as int));
    if end == 0 {
        return None;
    }
    let mut i: usize = 0;
    while i < end
        invariant
            i <= end <= n == chars@.len(),
            s == chars@.take(end as int),
            s == strip_newline(chars@),
            forall|j: int| 0 <= j < i ==> s[j] != ':',
        decreases end - i,
    {
        if chars[i] == ':' {
            assert(first_colon(s, i as int));
            let ghost c = choose|c: int| first_colon(s, c);
            assert(c == i) by {
                if c < i {
                    assert(s[c] != ':');
                } else if c > i {
                    assert(s[i as int] != ':');
                }
            }
            let mut value_start = i + 1;
            if value_start < end && chars[value_start] == ' ' {
                value_start = value_start + 1;
            }
            assert(field_name(chars@) == s.take(i as int));
            assert(field_value(chars@) == drop_one_space(s.skip(i + 1)));
            assert(chars@.subrange(0, i as int) =~= s.take(i as int));
            assert(chars@.subrange(value_start as int, end as int) =~= drop_one_space(
                s.skip(i + 1),
            ));
            return Some((i, value_start, end));
        }
        i = i + 1;
    }
    assert(!exists|c: int| first_colon(s, c));
    assert(chars@.subrange(0, end as int) =~= s);
    Some((end, end, end))
}

} // verus!

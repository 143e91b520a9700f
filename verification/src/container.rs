//! What a view keeps for its owner: the rows, and the means to refresh them.

use crate::carrier::execute::{announced, failures, table_lists, ExecuteResult};
use crate::carrier::query::{QueryCarrierView, QueryPoll};
use crate::clock::Timestamp;
use crate::text::chars_of;
use vstd::prelude::*;
use vstd::string::*;

pub mod builder;
pub mod data;
pub mod manual;
pub mod projecting;
pub mod simple;
pub mod tasked;

verus! {

/// What a view finds when it looks around: the changes that the bus
/// reported, the state of the refresh in flight, and the writes that came
/// back.
pub struct TickEvents<Row, E> {
    pub changes: Vec<Timestamp>,
    pub polled: QueryPoll<Row, E>,
    pub executes: Vec<ExecuteResult<E>>,
}

/// What is to be done for a view after it has looked around.
pub struct TickActions<E, J> {
    /// The view's new interest, to be announced to the bus.
    pub publish: Option<Vec<String>>,
    /// The tables of each write that succeeded, to be forwarded to the bus.
    pub tables_changed: Vec<Vec<String>>,
    /// The error of the refresh, if it failed.
    pub query_error: Option<E>,
    /// The errors of the writes that failed.
    pub execute_errors: Vec<E>,
    /// The refresh to run for the view, with what its task needs.
    pub requery: Option<J>,
}

/// The query carrier after a view has looked around: the reported changes
/// are taken in, then the refresh in flight is looked at, then, where the
/// owner wants it and a statement is kept, a view that asks for a refresh
/// starts one at `now`.
pub open spec fn carrier_after_tick<Row, E>(
    carrier: QueryCarrierView,
    events: TickEvents<Row, E>,
    requery: bool,
    now: Timestamp,
) -> QueryCarrierView {
    let resolved = carrier.notified(events.changes@).resolved(events.polled);
    if requery && resolved.state is ShouldUpdate {
        resolved.queried(now)
    } else {
        resolved
    }
}

/// Whether the look of a view brings new rows: the refresh in flight has
/// finished with rows, and the view was waiting for it.
pub open spec fn brings_rows<Row, E>(
    carrier: QueryCarrierView,
    events: TickEvents<Row, E>,
) -> bool {
    carrier.notified(events.changes@).accepts(events.polled)
        && events.polled->Ready_0.query_result is Ok
}


/// What a look hands out, apart from a refresh to run: the view's new
/// interest if the look brought rows; the error of the refresh if it failed
/// and the view was waiting for it; the tables of each write that
/// succeeded, and the errors of the writes that failed, in the order of the
/// reports.
pub open spec fn hands_out<Row, E, J>(
    carrier: QueryCarrierView,
    events: TickEvents<Row, E>,
    actions: TickActions<E, J>,
) -> bool {
    &&& actions.publish is Some <==> brings_rows(carrier, events)
    &&& actions.publish matches Some(tables) ==> tables.deep_view()
        == events.polled->Ready_0.interested_tables.deep_view()
    &&& actions.query_error == (if carrier.notified(events.changes@).accepts(events.polled) {
        match events.polled->Ready_0.query_result {
            Ok(_) => None,
            Err(error) => Some(error),
        }
    } else {
        None
    })
    &&& table_lists(actions.tables_changed@) == announced(events.executes@)
    &&& actions.execute_errors@ == failures(events.executes@)
}

/// How many bytes the character takes in UTF-8.
pub open spec fn utf8_width(c: char) -> nat {
    if (c as u32) < 0x80 {
        1
    } else if (c as u32) < 0x800 {
        2
    } else if (c as u32) < 0x10000 {
        3
    } else {
        4
    }
}

/// How many bytes the text takes in UTF-8.
pub open spec fn utf8_len(text: Seq<char>) -> nat
    decreases text.len(),
{
    if text.len() == 0 {
        0
    } else {
        utf8_len(text.drop_last()) + utf8_width(text.last())
    }
}

/// The position of the first `c` in `text`; the length of `text` where it
/// holds none.
pub open spec fn position_of(text: Seq<char>, c: char) -> nat
    decreases text.len(),
{
    if text.len() == 0 {
        0
    } else if text[0] == c {
        0
    } else {
        1 + position_of(text.drop_first(), c)
    }
}

/// How many characters of the name of a type are kept when its generic
/// arguments are cut off. A name without `<` is kept whole. Of a name with
/// `<`, as many characters are kept as there are bytes before the first
/// `<`: all characters before the `<` where these are ASCII, as they are
/// in the names that the compiler gives to types; more where they are not.
pub open spec fn kept_chars(name: Seq<char>) -> nat {
    let at = position_of(name, '<');
    if at == name.len() {
        name.len()
    } else if utf8_len(name.take(at as int)) < name.len() {
        utf8_len(name.take(at as int))
    } else {
        name.len()
    }
}

/// The name of a type without its generic arguments.
pub open spec fn without_generics(name: Seq<char>) -> Seq<char> {
    name.take(kept_chars(name) as int)
}

/// Where the segments of a path begin that lie behind position `at`: the
/// path is cut at each `::`, read from left to right.
pub open spec fn later_segments(path: Seq<char>, at: int) -> Seq<int>
    decreases path.len() - at,
{
    if at < 0 || at + 1 >= path.len() {
        Seq::empty()
    } else if path[at] == ':' && path[at + 1] == ':' {
        seq![at + 2] + later_segments(path, at + 2)
    } else {
        later_segments(path, at + 1)
    }
}

/// Where the segments of a path begin. The first begins at 0.
pub open spec fn segments(path: Seq<char>) -> Seq<int> {
    seq![0int] + later_segments(path, 0)
}

/// The last `depth` segments of a path, with the `::` between them: the
/// whole path where it has no more segments than that, and nothing at all
/// for a depth of 0.
pub open spec fn last_segments(path: Seq<char>, depth: nat) -> Seq<char> {
    let starts = segments(path);
    if depth == 0 {
        Seq::empty()
    } else if depth >= starts.len() {
        path
    } else {
        path.skip(starts[starts.len() - depth])
    }
}

/// The short name of a type whose full name is `name`: the last
/// `depth_from_back` segments of its path, without generic arguments.
pub open spec fn short_name(name: Seq<char>, depth_from_back: nat) -> Seq<char> {
    last_segments(without_generics(name), depth_from_back)
}

/// The name that a container of the type named `container` gets by default
/// when it holds values of the type named `value`.
pub open spec fn default_name(container: Seq<char>, value: Seq<char>) -> Seq<char> {
    short_name(container, 2) + seq!['<'] + short_name(value, 1) + seq!['>']
}

/// The default name of a container, from the full names of its type and of
/// the type of its values, as `std::any` gives them.
pub fn create_name(container: &str, value: &str) -> (name: String)
    ensures
        name@ == default_name(container@, value@),
{
    proof {
        reveal_strlit("<");
        reveal_strlit(">");
    }
    let mut name = short_type_name(container, 2);
    name.append("<");
    name.append(short_type_name(value, 1).as_str());
    name.append(">");
    assert(name@ =~= default_name(container@, value@));
    name
}

/// How many bytes `c` takes in UTF-8.
fn width_of(c: char) -> (width: usize)
    ensures
        width == utf8_width(c),
{
    let code: u32 = c as u32;
    if code < 0x80 {
        1
    } else if code < 0x800 {
        2
    } else if code < 0x10000 {
        3
    } else {
        4
    }
}

/// How many characters of `name` are kept when its generic arguments are
/// cut off.
fn kept_of(name: &Vec<char>) -> (kept: usize)
    ensures
        kept == kept_chars(name@),
{
    let len = name.len();
    let mut at: usize = 0;
    let mut bytes: usize = 0;
    assert(name@.skip(0) =~= name@);
    while at < len && name[at] != '<'
        invariant
            at <= len,
            len == name.len(),
            bytes <= len,
            position_of(name@, '<') == at + position_of(name@.skip(at as int), '<'),
            bytes == (if utf8_len(name@.take(at as int)) < len {
                utf8_len(name@.take(at as int))
            } else {
                len as nat
            }),
        decreases len - at,
    {
        let width = width_of(name[at]);
        proof {
            assert(name@.skip(at as int).drop_first() =~= name@.skip(at + 1));
            assert(name@.take(at + 1).drop_last() =~= name@.take(at as int));
        }
        bytes = if width >= len - bytes {
            len
        } else {
            bytes + width
        };
        at += 1;
    }
    if at == len {
        assert(name@.skip(at as int).len() == 0);
        len
    } else {
        assert(name@.skip(at as int)[0] == '<');
        bytes
    }
}

/// The short name of a type whose full name is `name`.
pub fn short_type_name(name: &str, depth_from_back: usize) -> (short: String)
    ensures
        short@ == short_name(name@, depth_from_back as nat),
{
    let chars = chars_of(name);
    let kept = kept_of(&chars);
    let ghost path = without_generics(name@);
    let mut starts: Vec<usize> = Vec::new();
    starts.push(0);
    let mut at: usize = 0;
    while at < kept && at + 1 < kept
        invariant
            at <= kept,
            kept <= chars.len(),
            chars@ == name@,
            path == name@.take(kept as int),
            starts@.len() >= 1,
            forall|i: int| 0 <= i < starts@.len() ==> starts@[i] <= kept,
            segments(path) == starts@.map_values(|start: usize| start as int) + later_segments(
                path,
                at as int,
            ),
        decreases kept - at,
    {
        let ghost found = starts@.map_values(|start: usize| start as int);
        if chars[at] == ':' && chars[at + 1] == ':' {
            starts.push(at + 2);
            assert(starts@.map_values(|start: usize| start as int) =~= found.push(at + 2));
            assert(found.push(at + 2) + later_segments(path, at + 2) =~= found + (seq![at + 2]
                + later_segments(path, at + 2)));
            at += 2;
        } else {
            at += 1;
        }
    }
    proof {
        assert(later_segments(path, at as int) =~= Seq::<int>::empty());
        assert(segments(path) =~= starts@.map_values(|start: usize| start as int));
    }
    let start = if depth_from_back == 0 {
        kept
    } else if depth_from_back >= starts.len() {
        0
    } else {
        starts[starts.len() - depth_from_back]
    };
    let short = name.substring_char(start, kept).to_owned();
    proof {
        assert(name@.subrange(start as int, kept as int) =~= path.skip(start as int));
        if depth_from_back == 0 {
            assert(path.skip(kept as int) =~= Seq::<char>::empty());
        } else if depth_from_back >= starts.len() {
            assert(path.skip(0) =~= path);
        }
    }
    short
}

} // verus!

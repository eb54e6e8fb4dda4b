//! What holds of the keys, whatever the state.
use super::{AppMode, AppView, Key, KeyOutcome};
use crate::lines;
use crate::record;
use vstd::prelude::*;

verus! {

/// Every key leads from a valid state to a valid state.
pub proof fn keys_keep_states_valid(v: AppView, key: Key)
    requires
        v.valid(),
    ensures
        v.after(key).valid(),
{
    lines::selection_is_exact(v.bytes, v.starts, vstd::utf8::encode_utf8(v.query));
    lines::selection_is_exact(v.bytes, v.starts, vstd::utf8::encode_utf8(Seq::empty()));
}

/// No key changes the log file, its lines, or which of them have been read.
pub proof fn keys_keep_the_file(v: AppView, key: Key)
    ensures
        v.after(key).bytes == v.bytes,
        v.after(key).starts == v.starts,
        v.after(key).parsed == v.parsed,
{
}

/// A place of the list fits in a machine word.
proof fn lemma_place(v: AppView, i: int)
    requires
        v.valid(),
        0 <= i < v.filtered.len(),
    ensures
        i <= v.filtered[i],
    decreases i,
{
    if i > 0 {
        lemma_place(v, i - 1);
        assert(v.filtered[i - 1] < v.filtered[i]);
    }
}

/// The keys `g` and `G` select the first and the last place of the list.
pub proof fn jumps_reach_the_ends(v: AppView)
    requires
        v.valid(),
        v.mode is Normal,
    ensures
        v.after(Key::Char('g')).place() == 0,
        v.filtered.len() > 0 ==> v.after(Key::Char('G')).place() == v.filtered.len() - 1,
        v.after(Key::Char('g')).filtered == v.filtered,
        v.after(Key::Char('G')).filtered == v.filtered,
{
    if v.filtered.len() > 0 {
        lemma_place(v, v.last_place());
    }
}

/// Where there is a next line, going down and up again leads back.
pub proof fn up_undoes_down(v: AppView)
    requires
        v.valid(),
        v.mode is Normal,
        v.selected is Some,
        v.place() + 1 < v.filtered.len(),
    ensures
        v.after(Key::Down).after(Key::Up) == v,
{
    lemma_place(v, v.place() + 1);
}

/// Each move changes the selected place by at most a page and leaves everything else as it is.
pub proof fn moves_only_move(v: AppView, key: Key)
    requires
        v.valid(),
        v.mode is Normal,
        key is Up || key is Down || key is PageUp || key is PageDown,
    ensures
        v.after(key) == v || v.after(key) == v.at(v.after(key).place()),
        v.place() - 20 <= v.after(key).place() <= v.place() + 20,
{
    if v.filtered.len() > 0 {
        lemma_place(v, v.last_place());
    }
}

/// Letters have the meaning of the arrows.
pub proof fn letters_are_arrows(v: AppView)
    requires
        !(v.mode is Filtering),
    ensures
        v.after(Key::Char('j')) == v.after(Key::Down),
        v.after(Key::Char('k')) == v.after(Key::Up),
{
}

/// Opening the inspector on a line shows that line and changes nothing else; closing it leads
/// back to the list as it was.
pub proof fn inspector_leads_back(v: AppView)
    requires
        v.valid(),
        v.mode is Normal,
        v.selected is Some,
        v.filtered.len() > 0,
    ensures
        v.after(Key::Enter).mode is Inspecting,
        v.after(Key::Enter).inspector == Some(
            record::inspected(v.line(v.filtered[v.place()] as int)),
        ),
        v.after(Key::Enter).after(Key::Esc) == (AppView { scroll: 0, ..v }),
        v.after(Key::Enter).after(Key::Char('q')) == (AppView { scroll: 0, ..v }),
{
}

/// Cancelling a filter leaves the list and the selection as they were.
pub proof fn cancelling_keeps_the_list(v: AppView)
    requires
        v.mode is Filtering,
    ensures
        v.after(Key::Esc).mode is Normal,
        v.after(Key::Esc).filtered == v.filtered,
        v.after(Key::Esc).selected == v.selected,
{
}

/// Taking back a typed character restores the filter.
pub proof fn backspace_undoes_typing(v: AppView, c: char)
    requires
        v.mode is Filtering,
    ensures
        v.after(Key::Char(c)).after(Key::Backspace) == v,
{
    assert(v.query.push(c).drop_last() == v.query);
}

/// The state after the characters `s` have been typed, one by one.
pub open spec fn typed(v: AppView, s: Seq<char>) -> AppView
    decreases s.len(),
{
    if s.len() == 0 {
        v
    } else {
        typed(v, s.drop_last()).after(Key::Char(s.last()))
    }
}

/// Typing in a filter extends the query and nothing else.
proof fn lemma_typed(v: AppView, s: Seq<char>)
    requires
        v.mode is Filtering,
    ensures
        typed(v, s) == (AppView { query: v.query + s, ..v }),
    decreases s.len(),
{
    if s.len() == 0 {
        assert(v.query + s == v.query);
    } else {
        lemma_typed(v, s.drop_last());
        assert((v.query + s.drop_last()).push(s.last()) == v.query + s);
    }
}

/// Typing a filter and applying it lists exactly the lines that hold it, in file order, and selects
/// the first of them.
pub proof fn filter_lists_matching_lines(v: AppView, s: Seq<char>)
    requires
        v.valid(),
        v.mode is Normal,
    ensures
        ({
            let after = typed(v.after(Key::Char('f')), s).after(Key::Enter);
            &&& after.mode is Normal
            &&& after.query == s
            &&& after.selected == Some(0usize)
            &&& after.filtered == lines::matching_lines(
                v.bytes,
                v.starts,
                vstd::utf8::encode_utf8(s),
            )
            &&& forall|n: usize|
                n < v.line_count() ==> (#[trigger] after.filtered.contains(n)
                    <==> lines::occurs_in(v.line(n as int), vstd::utf8::encode_utf8(s)))
        }),
{
    let start = v.after(Key::Char('f'));
    lemma_typed(start, s);
    assert(start.query + s == s);
    lines::selection_is_exact(v.bytes, v.starts, vstd::utf8::encode_utf8(s));
}

/// The escape key on the list drops the filter: every line is listed again.
pub proof fn escape_lists_all_lines(v: AppView)
    requires
        v.mode is Normal,
    ensures
        v.after(Key::Esc).filtered == lines::all_lines(v.line_count()),
        v.after(Key::Esc).query == Seq::<char>::empty(),
        v.after(Key::Esc).selected == Some(0usize),
{
    lines::empty_query_matches_all(
        v.bytes,
        v.starts,
        vstd::utf8::encode_utf8(Seq::<char>::empty()),
    );
}

/// Only a key that filters anew changes which lines are listed.
pub proof fn lists_change_only_by_filtering(v: AppView, key: Key)
    requires
        !(v.outcome(key) is Refiltered),
    ensures
        v.after(key).filtered == v.filtered,
{
}

/// The program ends only by the letter `q` on the list; elsewhere it is typed or closes the
/// inspector.
pub proof fn quitting_is_deliberate(v: AppView, key: Key)
    ensures
        v.outcome(key) is Quit <==> v.mode is Normal && key == Key::Char('q'),
        v.mode is Filtering ==> v.after(Key::Char('q')).query == v.query.push('q'),
        v.mode is Inspecting ==> v.after(Key::Char('q')).mode is Normal,
{
}

/// On the list, the arrows select the next and the previous place, and stop at its ends. Where no
/// place is selected yet, they start from the first.
pub proof fn arrows_move_by_one(v: AppView, i: usize)
    requires
        v.valid(),
        v.mode is Normal,
        v.selected == Some(i) || v.selected is None && i == 0,
    ensures
        i + 1 < v.filtered.len() ==> v.after(Key::Down) == (AppView {
            selected: Some((i + 1) as usize),
            ..v
        }),
        i + 1 >= v.filtered.len() ==> v.after(Key::Down) == v,
        i > 0 ==> v.after(Key::Up) == (AppView { selected: Some((i - 1) as usize), ..v }),
        i == 0 ==> v.after(Key::Up) == v,
{
}

/// On the list, a page is twenty places, as far as the list goes.
pub proof fn pages_move_by_twenty(v: AppView, i: usize)
    requires
        v.valid(),
        v.mode is Normal,
        v.selected == Some(i) || v.selected is None && i == 0,
    ensures
        i + 20 < v.filtered.len() ==> v.after(Key::PageDown) == (AppView {
            selected: Some((i + 20) as usize),
            ..v
        }),
        i + 20 >= v.filtered.len() > 0 ==> v.after(Key::PageDown) == (AppView {
            selected: Some((v.filtered.len() - 1) as usize),
            ..v
        }),
        v.filtered.len() == 0 ==> v.after(Key::PageDown) == (AppView { selected: Some(0), ..v }),
        i >= 20 ==> v.after(Key::PageUp) == (AppView { selected: Some((i - 20) as usize), ..v }),
        i < 20 ==> v.after(Key::PageUp) == (AppView { selected: Some(0), ..v }),
{
}

/// On the list, `g` selects its first place and `G` its last one, and they change nothing else.
pub proof fn jumps_select_the_ends(v: AppView)
    requires
        v.mode is Normal,
    ensures
        v.after(Key::Char('g')) == (AppView { selected: Some(0), ..v }),
        v.filtered.len() > 0 ==> v.after(Key::Char('G')) == (AppView {
            selected: Some((v.filtered.len() - 1) as usize),
            ..v
        }),
        v.filtered.len() == 0 ==> v.after(Key::Char('G')) == (AppView { selected: Some(0), ..v }),
{
}

/// On the list, `f` and the slash open an empty filter, and change nothing else.
pub proof fn filters_open_empty(v: AppView)
    requires
        v.mode is Normal,
    ensures
        v.after(Key::Char('f')) == (AppView {
            mode: AppMode::Filtering,
            query: Seq::empty(),
            ..v
        }),
        v.after(Key::Char('/')) == v.after(Key::Char('f')),
{
}

/// On the list, the enter key opens the inspector, at its top, on the bytes of the selected line, and
/// changes nothing else; without a selected line it does nothing.
pub proof fn enter_inspects_the_selected_line(v: AppView, i: usize)
    requires
        v.mode is Normal,
    ensures
        v.selected == Some(i) && i < v.filtered.len() ==> v.after(Key::Enter) == (AppView {
            mode: AppMode::Inspecting,
            inspector: Some(
                record::inspected(
                    v.bytes.subrange(
                        v.starts[v.filtered[i as int] as int] as int,
                        v.starts[v.filtered[i as int] + 1] as int,
                    ),
                ),
            ),
            scroll: 0,
            ..v
        }),
        v.selected == Some(i) && i >= v.filtered.len() ==> v.after(Key::Enter) == v,
        v.selected is None ==> v.after(Key::Enter) == v,
{
}

/// On the list, the escape key drops the query, lists every line from the first on, and selects the
/// first; it changes nothing else.
pub proof fn escape_drops_the_filter(v: AppView)
    requires
        v.valid(),
        v.mode is Normal,
    ensures
        ({
            let after = v.after(Key::Esc);
            &&& after == (AppView {
                query: Seq::empty(),
                filtered: after.filtered,
                selected: Some(0),
                ..v
            })
            &&& after.filtered.len() == v.starts.len() - 1
            &&& forall|i: int| 0 <= i < after.filtered.len() ==> #[trigger] after.filtered[i] == i
        }),
{
    escape_lists_all_lines(v);
    lines::boundaries_in_file(v.bytes, v.starts);
    lines::lemma_size(v.bytes, v.starts, v.starts.len() - 1);
    let after = v.after(Key::Esc);
    let all = lines::all_lines(v.line_count());
    assert forall|i: int| 0 <= i < after.filtered.len() implies #[trigger] after.filtered[i] == i by {
        assert(all[i] == i as usize);
    }
}

/// On the list, only the keys of the list do anything to it; `q` ends the program and changes
/// nothing.
pub proof fn other_keys_leave_the_list(v: AppView, key: Key)
    requires
        v.mode is Normal,
        key is Backspace || key is Other || (key matches Key::Char(c) && c != 'j' && c != 'k' && c
            != 'g' && c != 'G' && c != 'f' && c != '/'),
    ensures
        v.after(key) == v,
{
}

/// While a filter is typed, a character is put behind it, the backspace key takes the last one away,
/// the escape key only closes it, and keys without a meaning do nothing.
pub proof fn filters_are_typed(v: AppView, c: char)
    requires
        v.mode is Filtering,
    ensures
        v.after(Key::Char(c)) == (AppView { query: v.query + seq![c], ..v }),
        v.query.len() > 0 ==> v.after(Key::Backspace) == (AppView {
            query: v.query.take(v.query.len() - 1),
            ..v
        }),
        v.query.len() == 0 ==> v.after(Key::Backspace) == v,
        v.after(Key::Esc) == (AppView { mode: AppMode::Normal, ..v }),
        v.after(Key::Up) == v,
        v.after(Key::Down) == v,
        v.after(Key::PageUp) == v,
        v.after(Key::PageDown) == v,
        v.after(Key::Other) == v,
{
    assert(v.query.push(c) =~= v.query + seq![c]);
    if v.query.len() > 0 {
        assert(v.query.drop_last() =~= v.query.take(v.query.len() - 1));
    }
}

/// While a filter is typed, the enter key closes it and lists exactly the lines in whose bytes the
/// typed text stands, in file order, with the first of them selected; it changes nothing else.
pub proof fn enter_applies_the_filter(v: AppView)
    requires
        v.valid(),
        v.mode is Filtering,
    ensures
        ({
            let after = v.after(Key::Enter);
            let query = vstd::utf8::encode_utf8(v.query);
            &&& after == (AppView {
                mode: AppMode::Normal,
                filtered: after.filtered,
                selected: Some(0),
                ..v
            })
            &&& forall|i: int, j: int|
                0 <= i < j < after.filtered.len() ==> after.filtered[i] < after.filtered[j]
            &&& forall|n: usize, x: Seq<u8>, y: Seq<u8>|
                n + 1 < v.starts.len() && v.bytes.subrange(
                    v.starts[n as int] as int,
                    v.starts[n + 1] as int,
                ) == #[trigger] (x + query + y) ==> #[trigger] after.filtered.contains(n)
            &&& forall|n: usize| #[trigger]
                after.filtered.contains(n) ==> n + 1 < v.starts.len() && exists|at: int|
                    v.starts[n as int] <= at <= at + query.len() <= v.starts[n + 1]
                        && #[trigger] v.bytes.subrange(at, at + query.len()) == query
        }),
{
    let after = v.after(Key::Enter);
    let query = vstd::utf8::encode_utf8(v.query);
    lines::selection_is_exact(v.bytes, v.starts, query);
    assert forall|n: usize, x: Seq<u8>, y: Seq<u8>|
        n + 1 < v.starts.len() && v.bytes.subrange(
            v.starts[n as int] as int,
            v.starts[n + 1] as int,
        ) == #[trigger] (x + query + y) implies #[trigger] after.filtered.contains(n) by {
        lines::lines_with_the_query_are_selected(v.bytes, v.starts, n, x, query, y);
    }
    assert forall|n: usize| #[trigger] after.filtered.contains(n) implies n + 1 < v.starts.len()
        && exists|at: int|
        v.starts[n as int] <= at <= at + query.len() <= v.starts[n + 1]
            && #[trigger] v.bytes.subrange(at, at + query.len()) == query by {
        let at = lines::selected_lines_hold_the_query(v.bytes, v.starts, query, n);
        assert(v.bytes.subrange(at, at + query.len()) == query);
    }
}

/// In the inspector, the arrows and their letters scroll by one line, between the top and the
/// largest scroll; the escape key and `q` close it; other keys do nothing.
pub proof fn inspector_keys_scroll_and_close(v: AppView, key: Key)
    requires
        v.mode is Inspecting,
    ensures
        ({
            let closes = key is Esc || key == Key::Char('q');
            let down = key is Down || key == Key::Char('j');
            let up = key is Up || key == Key::Char('k');
            &&& closes ==> v.after(key) == (AppView { mode: AppMode::Normal, inspector: None, ..v })
            &&& down && v.scroll < 65535 ==> v.after(key) == (AppView {
                scroll: (v.scroll + 1) as u16,
                ..v
            })
            &&& down && v.scroll == 65535 ==> v.after(key) == v
            &&& up && v.scroll > 0 ==> v.after(key) == (AppView {
                scroll: (v.scroll - 1) as u16,
                ..v
            })
            &&& up && v.scroll == 0 ==> v.after(key) == v
            &&& !closes && !down && !up ==> v.after(key) == v
        }),
{
}

/// What a key leads to: the end of the program by `q` on the list, a new filtering by the escape key
/// on the list or the enter key on a filter, and nothing of the kind otherwise.
pub proof fn outcomes_follow_the_keys(v: AppView, key: Key)
    ensures
        v.outcome(key) == if v.mode is Normal && key == Key::Char('q') {
            KeyOutcome::Quit
        } else if v.mode is Normal && key is Esc || v.mode is Filtering && key is Enter {
            KeyOutcome::Refiltered
        } else {
            KeyOutcome::Continue
        },
{
}

} // verus!

//! The state of the explorer, and what each key does to it.
use crate::lines;
use crate::record;
use crate::record::ParsedLine;
use vstd::prelude::*;
use vstd::slice::slice_subrange;
use vstd::string::*;

pub mod drawing;
pub mod laws;
pub mod screen;

verus! {

/// What the keys act on.
#[derive(Debug, Clone, Copy, PartialEq, Eq, Structural)]
pub enum AppMode {
    Normal,
    Filtering,
    Inspecting,
}

/// A key that the user pressed.
#[derive(Debug, Clone, Copy, PartialEq, Eq, Structural)]
pub enum Key {
    Char(char),
    Enter,
    Esc,
    Backspace,
    Up,
    Down,
    PageUp,
    PageDown,
    Other,
}

/// What a key led to: the list may have been filtered anew, or the program is to end.
#[derive(Debug, Clone, Copy, PartialEq, Eq, Structural)]
pub enum KeyOutcome {
    Continue,
    Refiltered,
    Quit,
}

/// The explorer of one log file, whose bytes are borrowed.
pub struct App<'a> {
    bytes: &'a [u8],
    line_starts: Vec<usize>,
    filtered_indices: Vec<usize>,
    parsed_line_cache: Vec<Option<Box<ParsedLine>>>,
    selected: Option<usize>,
    mode: AppMode,
    search_query: String,
    selected_json: Option<String>,
    popup_scroll: u16,
}

/// The state of an `App`.
pub struct AppView {
    /// The log file.
    pub bytes: Seq<u8>,
    /// Its line boundaries.
    pub starts: Seq<usize>,
    /// The numbers of the listed lines.
    pub filtered: Seq<usize>,
    /// The numbers of the lines whose columns have been read.
    pub parsed: Set<int>,
    /// The selected place in the list.
    pub selected: Option<usize>,
    pub mode: AppMode,
    /// The filter as it has been typed.
    pub query: Seq<char>,
    /// The text in the inspector.
    pub inspector: Option<Seq<char>>,
    /// How far the inspector is scrolled.
    pub scroll: u16,
}

/// `n - k`, but not below zero.
pub open spec fn minus(n: int, k: int) -> int {
    if n < k {
        0
    } else {
        n - k
    }
}

impl AppView {
    /// What holds of every state: the listed lines exist and stand in file order, the selection is
    /// in the list or at its start, and the inspector holds a text exactly while it is open.
    pub open spec fn valid(self) -> bool {
        &&& lines::is_line_index(self.bytes, self.starts)
        &&& forall|i: int|
            0 <= i < self.filtered.len() ==> #[trigger] self.filtered[i] < lines::line_count(
                self.starts,
            )
        &&& forall|i: int, j: int|
            0 <= i < j < self.filtered.len() ==> self.filtered[i] < self.filtered[j]
        &&& forall|n: int| #[trigger]
            self.parsed.contains(n) ==> 0 <= n < lines::line_count(self.starts)
        &&& self.selected matches Some(i) ==> i == 0 || i < self.filtered.len()
        &&& self.mode is Inspecting <==> self.inspector is Some
    }

    /// The bytes of line `n`.
    pub open spec fn line(self, n: int) -> Seq<u8> {
        lines::line(self.bytes, self.starts, n)
    }

    /// The number of lines of the file.
    pub open spec fn line_count(self) -> nat {
        lines::line_count(self.starts)
    }

    /// The selected place, the first one where none is selected.
    pub open spec fn place(self) -> int {
        match self.selected {
            Some(i) => i as int,
            None => 0,
        }
    }

    /// The last place in the list, 0 where the list is empty.
    pub open spec fn last_place(self) -> int {
        minus(self.filtered.len() as int, 1)
    }

    /// The state with place `i` selected.
    pub open spec fn at(self, i: int) -> AppView {
        AppView { selected: Some(i as usize), ..self }
    }

    /// The state with the lines listed that hold the query, and the first of them selected.
    pub open spec fn filtered_by_query(self) -> AppView {
        AppView {
            filtered: lines::matching_lines(
                self.bytes,
                self.starts,
                vstd::utf8::encode_utf8(self.query),
            ),
            selected: Some(0),
            ..self
        }
    }

    /// The state with the selected line in the inspector, if there is one.
    pub open spec fn inspecting(self) -> AppView {
        match self.selected {
            Some(i) if i < self.filtered.len() => AppView {
                inspector: Some(record::inspected(self.line(self.filtered[i as int] as int))),
                scroll: 0,
                mode: AppMode::Inspecting,
                ..self
            },
            _ => self,
        }
    }

    /// Whether `key` ends the program.
    pub open spec fn quits(self, key: Key) -> bool {
        self.mode is Normal && key == Key::Char('q')
    }

    /// Whether `key` filters the list anew.
    pub open spec fn refilters(self, key: Key) -> bool {
        self.mode is Normal && key is Esc || self.mode is Filtering && key is Enter
    }

    /// What `key` leads to.
    pub open spec fn outcome(self, key: Key) -> KeyOutcome {
        if self.quits(key) {
            KeyOutcome::Quit
        } else if self.refilters(key) {
            KeyOutcome::Refiltered
        } else {
            KeyOutcome::Continue
        }
    }

    /// The state after `key` while the list has the keys.
    pub open spec fn after_normal(self, key: Key) -> AppView {
        match key {
            Key::Down | Key::Char('j') => if self.place() < self.last_place() {
                self.at(self.place() + 1)
            } else {
                self
            },
            Key::Up | Key::Char('k') => if self.place() > 0 {
                self.at(self.place() - 1)
            } else {
                self
            },
            Key::PageDown => if self.place() + 20 < self.last_place() {
                self.at(self.place() + 20)
            } else {
                self.at(self.last_place())
            },
            Key::PageUp => self.at(minus(self.place(), 20)),
            Key::Char('g') => self.at(0),
            Key::Char('G') => self.at(self.last_place()),
            Key::Char('f') | Key::Char('/') => AppView {
                mode: AppMode::Filtering,
                query: Seq::empty(),
                ..self
            },
            Key::Enter => self.inspecting(),
            Key::Esc => AppView { query: Seq::empty(), ..self }.filtered_by_query(),
            _ => self,
        }
    }

    /// The state after `key` while a filter is typed.
    pub open spec fn after_filtering(self, key: Key) -> AppView {
        match key {
            Key::Enter => AppView { mode: AppMode::Normal, ..self.filtered_by_query() },
            Key::Esc => AppView { mode: AppMode::Normal, ..self },
            Key::Backspace => if self.query.len() > 0 {
                AppView { query: self.query.drop_last(), ..self }
            } else {
                self
            },
            Key::Char(c) => AppView { query: self.query.push(c), ..self },
            _ => self,
        }
    }

    /// The state after `key` while the inspector is open.
    pub open spec fn after_inspecting(self, key: Key) -> AppView {
        match key {
            Key::Esc | Key::Char('q') => AppView {
                mode: AppMode::Normal,
                inspector: None,
                ..self
            },
            Key::Down | Key::Char('j') => AppView {
                scroll: if self.scroll < u16::MAX {
                    (self.scroll + 1) as u16
                } else {
                    u16::MAX
                },
                ..self
            },
            Key::Up | Key::Char('k') => AppView {
                scroll: minus(self.scroll as int, 1) as u16,
                ..self
            },
            _ => self,
        }
    }

    /// The state after `key`.
    pub open spec fn after(self, key: Key) -> AppView {
        match self.mode {
            AppMode::Normal => self.after_normal(key),
            AppMode::Filtering => self.after_filtering(key),
            AppMode::Inspecting => self.after_inspecting(key),
        }
    }
}

impl<'a> View for App<'a> {
    type V = AppView;

    closed spec fn view(&self) -> AppView {
        AppView {
            bytes: self.bytes@,
            starts: self.line_starts@,
            filtered: self.filtered_indices@,
            parsed: Set::new(
                |n: int|
                    0 <= n < self.parsed_line_cache@.len() && self.parsed_line_cache@[n] is Some,
            ),
            selected: self.selected,
            mode: self.mode,
            query: self.search_query@,
            inspector: match self.selected_json {
                Some(json) => Some(json@),
                None => None,
            },
            scroll: self.popup_scroll,
        }
    }
}

impl<'a> App<'a> {
    /// The state is valid, and the columns that have been kept are those of their lines.
    pub closed spec fn wf(&self) -> bool {
        &&& self@.valid()
        &&& self.parsed_line_cache@.len() == self@.line_count()
        &&& forall|n: int|
            0 <= n < self.parsed_line_cache@.len() ==> (
            #[trigger] self.parsed_line_cache@[n] matches Some(columns) ==> (*columns)@
                == record::line_columns(self@.line(n)))
    }

    /// A well-formed explorer has a valid state.
    pub proof fn wf_is_valid(&self)
        requires
            self.wf(),
        ensures
            self@.valid(),
    {
    }

    /// Opens the log file `bytes`: every line is listed, nothing is selected or read yet.
    pub fn new(bytes: &'a [u8]) -> (app: App<'a>)
        ensures
            app.wf(),
            app@.bytes == bytes@,
            lines::is_line_index(bytes@, app@.starts),
            app@.filtered == lines::all_lines(app@.line_count()),
            app@.parsed == Set::<int>::empty(),
            app@.selected is None,
            app@.mode is Normal,
            app@.query == Seq::<char>::empty(),
            app@.inspector is None,
            app@.scroll == 0,
    {
        let line_starts = lines::build_line_starts(bytes);
        let line_count: usize = line_starts.len().saturating_sub(1);
        let filtered_indices = lines::number_lines(line_count);
        let mut parsed_line_cache: Vec<Option<Box<ParsedLine>>> = Vec::new();
        let mut i: usize = 0;
        while i < line_count
            invariant
                i <= line_count,
                parsed_line_cache@.len() == i,
                forall|n: int| 0 <= n < i ==> #[trigger] parsed_line_cache@[n] is None,
            decreases line_count - i,
        {
            parsed_line_cache.push(None);
            i += 1;
        }
        let app = App {
            bytes,
            line_starts,
            filtered_indices,
            parsed_line_cache,
            selected: None,
            mode: AppMode::Normal,
            search_query: String::new(),
            selected_json: None,
            popup_scroll: 0,
        };
        assert(app@.parsed == Set::<int>::empty());
        app
    }

    /// Lists the lines that hold the query and selects the first.
    pub fn apply_filter(&mut self)
        requires
            old(self).wf(),
        ensures
            final(self).wf(),
            final(self)@ == old(self)@.filtered_by_query(),
    {
        let query = self.search_query.as_str().as_bytes();
        let kept = lines::select_lines(self.bytes, &self.line_starts, query);
        proof {
            lines::selection_is_exact(self.bytes@, self.line_starts@, query@);
        }
        self.filtered_indices = kept;
        self.selected = Some(0);
        assert(self@.parsed == old(self)@.parsed);
    }

    /// The columns of line `line_index`, read on first use and kept.
    pub fn get_or_cache_parsed_line(&mut self, line_index: usize) -> (columns: &ParsedLine)
        requires
            old(self).wf(),
            line_index < old(self)@.line_count(),
        ensures
            final(self).wf(),
            final(self)@ == (AppView {
                parsed: old(self)@.parsed.insert(line_index as int),
                ..old(self)@
            }),
            columns@ == record::line_columns(old(self)@.line(line_index as int)),
    {
        if self.parsed_line_cache[line_index].is_none() {
            let bytes = self.line_bytes(line_index);
            self.parsed_line_cache[line_index] = Some(Box::new(record::parse_line(bytes)));
        }
        assert(self@.parsed == old(self)@.parsed.insert(line_index as int));
        match &self.parsed_line_cache[line_index] {
            Some(columns) => columns,
            None => vstd::pervasive::unreached(),
        }
    }

    /// Selects the first place of the list.
    pub fn select_first(&mut self)
        requires
            old(self).wf(),
        ensures
            final(self).wf(),
            final(self)@ == old(self)@.at(0),
    {
        self.selected = Some(0);
        assert(self@.parsed == old(self)@.parsed);
    }

    /// Does what `key` asks for, and tells what it led to.
    pub fn handle_key(&mut self, key: Key) -> (outcome: KeyOutcome)
        requires
            old(self).wf(),
        ensures
            final(self).wf(),
            final(self)@ == old(self)@.after(key),
            outcome == old(self)@.outcome(key),
    {
        match self.mode {
            AppMode::Normal => {
                if key == Key::Char('q') {
                    return KeyOutcome::Quit;
                }
                self.handle_normal(key);
                if key == Key::Esc {
                    return KeyOutcome::Refiltered;
                }
            },
            AppMode::Filtering => {
                self.handle_filtering(key);
                if key == Key::Enter {
                    return KeyOutcome::Refiltered;
                }
            },
            AppMode::Inspecting => self.handle_inspecting(key),
        }
        KeyOutcome::Continue
    }

    fn handle_normal(&mut self, key: Key)
        requires
            old(self).wf(),
            old(self)@.mode is Normal,
        ensures
            final(self).wf(),
            final(self)@ == old(self)@.after_normal(key),
    {
        let i: usize = match self.selected {
            Some(i) => i,
            None => 0,
        };
        let last: usize = self.filtered_indices.len().saturating_sub(1);
        match key {
            Key::Down | Key::Char('j') => {
                if i < last {
                    self.selected = Some(i + 1);
                }
            },
            Key::Up | Key::Char('k') => {
                if i > 0 {
                    self.selected = Some(i - 1);
                }
            },
            Key::PageDown => {
                self.selected = Some(if last >= 20 && i < last - 20 {
                    i + 20
                } else {
                    last
                });
            },
            Key::PageUp => {
                self.selected = Some(i.saturating_sub(20));
            },
            Key::Char('g') => {
                self.selected = Some(0);
            },
            Key::Char('G') => {
                self.selected = Some(last);
            },
            Key::Char('f') | Key::Char('/') => {
                self.mode = AppMode::Filtering;
                self.search_query = String::new();
            },
            Key::Enter => self.inspect_selected(),
            Key::Esc => {
                self.search_query = String::new();
                assert(self@.parsed == old(self)@.parsed);
                self.apply_filter();
            },
            _ => {},
        }
        assert(self@.parsed == old(self)@.parsed);
    }

    fn inspect_selected(&mut self)
        requires
            old(self).wf(),
            old(self)@.mode is Normal,
        ensures
            final(self).wf(),
            final(self)@ == old(self)@.inspecting(),
    {
        if let Some(i) = self.selected {
            if i < self.filtered_indices.len() {
                let bytes = self.line_bytes(self.filtered_indices[i]);
                self.selected_json = Some(record::inspection_text(bytes));
                self.popup_scroll = 0;
                self.mode = AppMode::Inspecting;
            }
        }
        assert(self@.parsed == old(self)@.parsed);
    }

    fn handle_filtering(&mut self, key: Key)
        requires
            old(self).wf(),
            old(self)@.mode is Filtering,
        ensures
            final(self).wf(),
            final(self)@ == old(self)@.after_filtering(key),
    {
        match key {
            Key::Enter => {
                self.apply_filter();
                self.mode = AppMode::Normal;
            },
            Key::Esc => {
                self.mode = AppMode::Normal;
            },
            Key::Backspace => {
                self.search_query.pop();
            },
            Key::Char(c) => {
                self.search_query.push(c);
            },
            _ => {},
        }
        assert(self@.parsed == old(self)@.parsed);
    }

    fn handle_inspecting(&mut self, key: Key)
        requires
            old(self).wf(),
            old(self)@.mode is Inspecting,
        ensures
            final(self).wf(),
            final(self)@ == old(self)@.after_inspecting(key),
    {
        match key {
            Key::Esc | Key::Char('q') => {
                self.mode = AppMode::Normal;
                self.selected_json = None;
            },
            Key::Down | Key::Char('j') => {
                self.popup_scroll = self.popup_scroll.saturating_add(1);
            },
            Key::Up | Key::Char('k') => {
                self.popup_scroll = self.popup_scroll.saturating_sub(1);
            },
            _ => {},
        }
        assert(self@.parsed == old(self)@.parsed);
    }

    /// The bytes of line `n`.
    fn line_bytes(&self, n: usize) -> (bytes: &'a [u8])
        requires
            self.wf(),
            n < self@.line_count(),
        ensures
            bytes@ == self@.line(n as int),
    {
        proof {
            lines::boundaries_in_file(self.bytes@, self.line_starts@);
        }
        assert(self.line_starts.len() == self.line_starts@.len());
        slice_subrange(self.bytes, self.line_starts[n], self.line_starts[n + 1])
    }
}

} // verus!

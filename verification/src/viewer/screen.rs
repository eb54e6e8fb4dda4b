//! What stands on the screen.
use super::{App, AppMode};
use super::AppView;
use crate::layout;
use crate::layout::Area;
use crate::number;
use crate::record;
use crate::text;
use vstd::prelude::*;
use vstd::string::*;

verus! {

/// The colour of a level.
#[derive(Debug, Clone, Copy, PartialEq, Eq, Structural)]
pub enum LevelColor {
    Red,
    Yellow,
    Green,
    Blue,
    Magenta,
    White,
}

/// The colour in which a level is shown.
pub open spec fn color_of(level: Seq<char>) -> LevelColor {
    if level == "ERROR"@ || level == "ERR"@ || level == "FATAL"@ {
        LevelColor::Red
    } else if level == "WARN"@ || level == "WARNING"@ {
        LevelColor::Yellow
    } else if level == "INFO"@ {
        LevelColor::Green
    } else if level == "DEBUG"@ {
        LevelColor::Blue
    } else if level == "TRACE"@ {
        LevelColor::Magenta
    } else {
        LevelColor::White
    }
}

/// The colour in which a level is shown.
pub fn level_color(level: &str) -> (color: LevelColor)
    ensures
        color == color_of(level@),
{
    if text::same_text(level, "ERROR") || text::same_text(level, "ERR") || text::same_text(
        level,
        "FATAL",
    ) {
        LevelColor::Red
    } else if text::same_text(level, "WARN") || text::same_text(level, "WARNING") {
        LevelColor::Yellow
    } else if text::same_text(level, "INFO") {
        LevelColor::Green
    } else if text::same_text(level, "DEBUG") {
        LevelColor::Blue
    } else if text::same_text(level, "TRACE") {
        LevelColor::Magenta
    } else {
        LevelColor::White
    }
}

/// One row of the table.
#[derive(Debug)]
pub struct LogRow {
    pub timestamp: String,
    pub level: String,
    pub message: String,
    pub color: LevelColor,
}

/// A `LogRow` with its texts as sequences of characters.
pub struct LogRowView {
    pub timestamp: Seq<char>,
    pub level: Seq<char>,
    pub message: Seq<char>,
    pub color: LevelColor,
}

impl View for LogRow {
    type V = LogRowView;

    open spec fn view(&self) -> LogRowView {
        LogRowView {
            timestamp: self.timestamp@,
            level: self.level@,
            message: self.message@,
            color: self.color,
        }
    }
}

/// The row for columns.
pub open spec fn row_of(columns: (Seq<char>, Seq<char>, Seq<char>)) -> LogRowView {
    LogRowView {
        timestamp: columns.0,
        level: columns.1,
        message: columns.2,
        color: color_of(columns.1),
    }
}

/// The inspector.
#[derive(Debug)]
pub struct Popup {
    pub lines: Vec<String>,
    pub scroll: u16,
}

/// What stands on the screen.
#[derive(Debug)]
pub struct Screen {
    pub header: String,
    pub rows: Vec<LogRow>,
    pub highlighted: Option<usize>,
    pub footer: String,
    pub popup: Option<Popup>,
}

/// The place of the list in the first row of a table of `height` rows: the selected place stands
/// in the middle as far as the ends of the list allow.
pub open spec fn first_place(place: int, height: int, total: int) -> int {
    let middle = super::minus(place, height / 2);
    if middle + height > total {
        super::minus(total, height)
    } else {
        middle
    }
}

/// The number of places of the list that a table of `height` rows shows.
pub open spec fn shown_places(height: int, total: int) -> int {
    if height < total {
        height
    } else {
        total
    }
}

/// The place of the list in the first row of the table.
fn first_row(place: usize, height: usize, total: usize) -> (first: usize)
    ensures
        first == first_place(place as int, height as int, total as int),
{
    let middle: usize = place.saturating_sub(height / 2);
    if height > total || middle > total - height {
        total.saturating_sub(height)
    } else {
        middle
    }
}

impl AppView {
    /// The numbers of the lines in a table of `height` rows.
    pub open spec fn shown(self, height: int) -> Seq<usize> {
        let total = self.filtered.len() as int;
        let first = first_place(self.place(), height, total);
        self.filtered.subrange(first, first + shown_places(height, total))
    }

    /// The state once the lines `numbers` have been read.
    pub open spec fn having_read(self, numbers: Seq<usize>) -> AppView {
        AppView {
            parsed: Set::new(
                |n: int|
                    self.parsed.contains(n) || 0 <= n <= usize::MAX && numbers.contains(n as usize),
            ),
            ..self
        }
    }

    /// The rows of a table of `height` rows.
    pub open spec fn rows(self, height: int) -> Seq<LogRowView> {
        self.shown(height).map_values(
            |n: usize| row_of(record::line_columns(self.line(n as int))),
        )
    }

    /// The highlighted row of a table of `height` rows.
    pub open spec fn highlighted(self, height: int) -> Option<usize> {
        let total = self.filtered.len() as int;
        let count = shown_places(height, total);
        let row = super::minus(self.place(), first_place(self.place(), height, total));
        if count == 0 {
            None
        } else if row < count {
            Some(row as usize)
        } else {
            Some((count - 1) as usize)
        }
    }

    /// The text of the header.
    pub open spec fn header(self, load_time: Seq<char>, filter_time: Seq<char>) -> Seq<char> {
        if self.mode is Filtering {
            " Filter: "@ + self.query + "_ "@
        } else {
            " Tachyon | Total Lines: "@ + number::decimal(self.line_count()) + " | Filtered: "@
                + number::decimal(self.filtered.len()) + " | Mmap Time: "@ + load_time
                + " | Filter Time: "@ + filter_time + " "@
        }
    }
}

/// The text of the footer.
pub open spec fn footer_of(mode: AppMode) -> Seq<char> {
    match mode {
        AppMode::Normal =>
            " [q] Quit | [f] Filter | [Enter] Inspect JSON | [g/G] Top/Bottom | [↑/↓] Navigate "@,
        AppMode::Filtering => " [Enter] Apply Filter | [Esc] Cancel "@,
        AppMode::Inspecting => " [Esc] Close Inspector | [↑/↓] Scroll JSON "@,
    }
}

/// The text of the footer.
pub fn footer_text(mode: AppMode) -> (text: String)
    ensures
        text@ == footer_of(mode),
{
    match mode {
        AppMode::Normal =>
            " [q] Quit | [f] Filter | [Enter] Inspect JSON | [g/G] Top/Bottom | [↑/↓] Navigate ".to_string(),
        AppMode::Filtering => " [Enter] Apply Filter | [Esc] Cancel ".to_string(),
        AppMode::Inspecting => " [Esc] Close Inspector | [↑/↓] Scroll JSON ".to_string(),
    }
}

/// What is drawn, and where: header, table and footer, then the inspector while it is open.
#[derive(Debug)]
pub struct Frame {
    pub areas: Vec<Area>,
    pub screen: Screen,
    pub popup_area: Option<Area>,
}

/// The view of an inspector that may be closed: its lines and its scroll.
pub open spec fn popup_view(popup: Option<Popup>) -> Option<(Seq<Seq<char>>, u16)> {
    match popup {
        Some(popup) => Some((popup.lines@.map_values(|l: String| l@), popup.scroll)),
        None => None,
    }
}

impl AppView {
    /// The inspector: its lines and its scroll.
    pub open spec fn popup(self) -> Option<(Seq<Seq<char>>, u16)> {
        match self.inspector {
            Some(text) if self.mode is Inspecting => Some((text::text_lines(text), self.scroll)),
            _ => None,
        }
    }

    /// Whether `screen` shows this state in a table of `height` rows.
    pub open spec fn is_shown_by(
        self,
        screen: Screen,
        height: int,
        load_time: Seq<char>,
        filter_time: Seq<char>,
    ) -> bool {
        &&& screen.header@ == self.header(load_time, filter_time)
        &&& screen.rows@.map_values(|row: LogRow| row@) == self.rows(height)
        &&& screen.highlighted == self.highlighted(height)
        &&& screen.footer@ == footer_of(self.mode)
        &&& popup_view(screen.popup) == self.popup()
    }
}

impl<'a> App<'a> {
    fn header_text(&self, load_time: &str, filter_time: &str) -> (text: String)
        requires
            self.wf(),
        ensures
            text@ == self@.header(load_time@, filter_time@),
    {
        let mut text = String::new();
        if self.mode == AppMode::Filtering {
            text.append(" Filter: ");
            text.append(self.search_query.as_str());
            text.append("_ ");
            assert(text@ == self@.header(load_time@, filter_time@));
            return text;
        }
        text.append(" Tachyon | Total Lines: ");
        number::push_decimal(&mut text, self.line_starts.len().saturating_sub(1) as u64);
        text.append(" | Filtered: ");
        number::push_decimal(&mut text, self.filtered_indices.len() as u64);
        text.append(" | Mmap Time: ");
        text.append(load_time);
        text.append(" | Filter Time: ");
        text.append(filter_time);
        text.append(" ");
        assert(text@ == self@.header(load_time@, filter_time@));
        text
    }

    fn popup_text(&self) -> (popup: Option<Popup>)
        requires
            self.wf(),
        ensures
            popup_view(popup) == self@.popup(),
    {
        if self.mode != AppMode::Inspecting {
            return None;
        }
        match &self.selected_json {
            Some(json) => Some(
                Popup { lines: text::split_lines(json.as_str()), scroll: self.popup_scroll },
            ),
            None => None,
        }
    }

    /// Reads the columns of the lines in a table of `height` rows.
    fn table_rows(&mut self, height: usize) -> (rows: Vec<LogRow>)
        requires
            old(self).wf(),
        ensures
            final(self).wf(),
            final(self)@ == old(self)@.having_read(old(self)@.shown(height as int)),
            rows@.map_values(|row: LogRow| row@) == old(self)@.rows(height as int),
    {
        let place: usize = match self.selected {
            Some(i) => i,
            None => 0,
        };
        let total: usize = self.filtered_indices.len();
        let first: usize = first_row(place, height, total);
        let count: usize = if height < total {
            height
        } else {
            total
        };
        let ghost numbers = self@.shown(height as int);
        let mut rows: Vec<LogRow> = Vec::new();
        let mut i: usize = 0;
        assert(self@.having_read(numbers.take(0)).parsed == self@.parsed);
        while i < count
            invariant
                i <= count,
                old(self).wf(),
                self.wf(),
                total == old(self)@.filtered.len(),
                count == numbers.len(),
                first + count <= total,
                numbers == old(self)@.filtered.subrange(first as int, first + count),
                self@ == old(self)@.having_read(numbers.take(i as int)),
                rows@.len() == i,
                forall|k: int|
                    0 <= k < i ==> #[trigger] rows@[k]@ == row_of(
                        record::line_columns(old(self)@.line(numbers[k] as int)),
                    ),
            decreases count - i,
        {
            let ghost before = self@;
            let real_idx: usize = self.filtered_indices[first + i];
            assert(real_idx == numbers[i as int]);
            let columns = self.get_or_cache_parsed_line(real_idx);
            let row = LogRow {
                timestamp: columns.0.clone(),
                level: columns.1.clone(),
                message: columns.2.clone(),
                color: level_color(columns.1.as_str()),
            };
            rows.push(row);
            proof {
                let done = numbers.take(i as int);
                let grown = numbers.take(i + 1);
                assert(grown == done.push(real_idx));
                assert forall|n: int| before.parsed.insert(real_idx as int).contains(n)
                    == old(self)@.having_read(grown).parsed.contains(n) by {
                    if 0 <= n <= usize::MAX {
                        let m = n as usize;
                        if done.contains(m) {
                            let k = choose|k: int| 0 <= k < done.len() && done[k] == m;
                            assert(grown[k] == m);
                        }
                        if grown.contains(m) && m != real_idx {
                            let k = choose|k: int| 0 <= k < grown.len() && grown[k] == m;
                            assert(done[k] == m);
                        }
                        assert(grown[i as int] == real_idx);
                    }
                }
                assert(before.parsed.insert(real_idx as int) == old(self)@.having_read(
                    grown,
                ).parsed);
            }
            i += 1;
        }
        assert(numbers.take(count as int) == numbers);
        rows
    }

    /// What is drawn on a table of `height` rows.
    pub fn compose(&mut self, height: usize, load_time: &str, filter_time: &str) -> (screen: Screen)
        requires
            old(self).wf(),
        ensures
            final(self).wf(),
            final(self)@ == old(self)@.having_read(old(self)@.shown(height as int)),
            old(self)@.is_shown_by(screen, height as int, load_time@, filter_time@),
    {
        let header = self.header_text(load_time, filter_time);
        let place: usize = match self.selected {
            Some(i) => i,
            None => 0,
        };
        let first: usize = first_row(place, height, self.filtered_indices.len());
        let rows = self.table_rows(height);
        assert(rows@.len() == rows@.map_values(|row: LogRow| row@).len());
        let row: usize = place.saturating_sub(first);
        let highlighted: Option<usize> = if rows.len() == 0 {
            None
        } else if row < rows.len() {
            Some(row)
        } else {
            Some(rows.len() - 1)
        };
        let footer = footer_text(self.mode);
        let popup = self.popup_text();
        Screen { header, rows, highlighted, footer, popup }
    }

    /// Draws the state on a screen of the given area. The table has a border above and below its
    /// rows.
    pub fn draw(&mut self, area: Area, load_time: &str, filter_time: &str) -> (frame: Frame)
        requires
            old(self).wf(),
        ensures
            final(self).wf(),
            layout::are_screen_areas(frame.areas@, area),
            ({
                let height = super::minus(frame.areas@[1].height as int, 2);
                &&& final(self)@ == old(self)@.having_read(old(self)@.shown(height))
                &&& old(self)@.is_shown_by(frame.screen, height, load_time@, filter_time@)
            }),
            frame.popup_area is Some <==> old(self)@.mode is Inspecting,
            frame.popup_area matches Some(inner) ==> layout::is_within(inner, area) && inner
                == layout::centered(80, 80, area),
    {
        let areas = layout::screen_areas(area);
        let height: usize = areas[1].height.saturating_sub(2) as usize;
        let screen = self.compose(height, load_time, filter_time);
        let popup_area = if self.mode == AppMode::Inspecting {
            Some(layout::centered_rect(80, 80, area))
        } else {
            None
        };
        Frame { areas, screen, popup_area }
    }
}

/// With at least one row and a selected line in the list, the selected line is on the screen, and
/// its row is the highlighted one.
pub proof fn selected_line_is_highlighted(v: AppView, height: int)
    requires
        v.valid(),
        height > 0,
        v.filtered.len() > 0,
    ensures
        ({
            let row = v.highlighted(height);
            &&& row is Some
            &&& row->0 < v.shown(height).len()
            &&& v.shown(height)[row->0 as int] == v.filtered[v.place()]
        }),
{
}

/// The lines on the screen stand one after the other in the list, no more than there are rows, and
/// no row stays empty while lines are left out.
pub proof fn screen_is_filled(v: AppView, height: int)
    requires
        v.valid(),
        height >= 0,
    ensures
        v.rows(height).len() <= height,
        v.rows(height).len() <= v.filtered.len(),
        v.rows(height).len() == height || v.rows(height).len() == v.filtered.len(),
{
}

/// Drawing reads only the lines that it shows.
pub proof fn drawing_is_lazy(v: AppView, height: int, n: int)
    requires
        v.valid(),
        height >= 0,
        v.having_read(v.shown(height)).parsed.contains(n),
    ensures
        v.parsed.contains(n) || v.shown(height).contains(n as usize),
{
}

} // verus!

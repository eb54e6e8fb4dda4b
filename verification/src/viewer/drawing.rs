//! What holds of every drawing, on the fields of what is drawn.
use super::screen::Screen;
use super::AppView;
use crate::number;
use crate::record;
use crate::text;
use vstd::prelude::*;

verus! {

/// A row is made of the columns of its line.
proof fn lemma_row(
    v: AppView,
    screen: Screen,
    height: int,
    load_time: Seq<char>,
    filter_time: Seq<char>,
    k: int,
)
    requires
        v.is_shown_by(screen, height, load_time, filter_time),
        0 <= k < screen.rows@.len(),
    ensures
        k < v.shown(height).len(),
        screen.rows@[k]@ == super::screen::row_of(
            record::line_columns(v.line(v.shown(height)[k] as int)),
        ),
{
    let rows = screen.rows@.map_values(|row: super::screen::LogRow| row@);
    assert(rows.len() == v.rows(height).len());
    assert(rows[k] == v.rows(height)[k]);
}

/// The table shows places of the list that follow one another, as many as it has rows or as there
/// are. Each row shows the three columns of the bytes of its line, each in its own cell. The selected
/// place stands half way down, or as near to that as the ends of the list allow, and its row is the
/// highlighted one.
pub proof fn table_shows_the_lines(
    v: AppView,
    screen: Screen,
    height: int,
    load_time: Seq<char>,
    filter_time: Seq<char>,
) -> (first: int)
    requires
        v.valid(),
        height >= 0,
        v.is_shown_by(screen, height, load_time, filter_time),
    ensures
        ({
            let total = v.filtered.len() as int;
            let place: int = match v.selected {
                Some(i) => i as int,
                None => 0,
            };
            &&& 0 <= first
            &&& height < total ==> screen.rows@.len() == height
            &&& height >= total ==> screen.rows@.len() == total
            &&& first + screen.rows@.len() <= total
            &&& height >= total ==> first == 0
            &&& height < total ==> {
                ||| place - first == height / 2
                ||| first == 0 && place <= height / 2
                ||| first + height == total && place - first >= height / 2
            }
            &&& screen.rows@.len() == 0 ==> screen.highlighted is None
            &&& screen.rows@.len() > 0 ==> screen.highlighted == Some((place - first) as usize) && 0
                <= place - first < screen.rows@.len()
            &&& forall|k: int|
                0 <= k < screen.rows@.len() ==> ({
                    let n = v.filtered[first + k] as int;
                    let columns = record::line_columns(
                        v.bytes.subrange(v.starts[n] as int, v.starts[n + 1] as int),
                    );
                    let row = #[trigger] screen.rows@[k];
                    &&& row.timestamp@ == columns.0
                    &&& row.level@ == columns.1
                    &&& row.message@ == columns.2
                })
        }),
{
    let total = v.filtered.len() as int;
    let first = super::screen::first_place(v.place(), height, total);
    let rows = screen.rows@.map_values(|row: super::screen::LogRow| row@);
    assert(rows.len() == v.rows(height).len());
    assert forall|k: int| 0 <= k < screen.rows@.len() implies ({
        let n = v.filtered[first + k] as int;
        let columns = record::line_columns(
            v.bytes.subrange(v.starts[n] as int, v.starts[n + 1] as int),
        );
        let row = #[trigger] screen.rows@[k];
        &&& row.timestamp@ == columns.0
        &&& row.level@ == columns.1
        &&& row.message@ == columns.2
    }) by {
        lemma_row(v, screen, height, load_time, filter_time, k);
        assert(v.shown(height)[k] == v.filtered[first + k]);
    }
    first
}

/// Each row has the colour of the level that it shows: red for errors, yellow for warnings, green,
/// blue and magenta for the levels below, and white for any other.
pub proof fn rows_have_the_colour_of_their_level(
    v: AppView,
    screen: Screen,
    height: int,
    load_time: Seq<char>,
    filter_time: Seq<char>,
    k: int,
)
    requires
        v.is_shown_by(screen, height, load_time, filter_time),
        0 <= k < screen.rows@.len(),
    ensures
        ({
            let row = screen.rows@[k];
            let (red, yellow) = (
                row.level@ == "ERROR"@ || row.level@ == "ERR"@ || row.level@ == "FATAL"@,
                row.level@ == "WARN"@ || row.level@ == "WARNING"@,
            );
            &&& row.color is Red <==> red
            &&& row.color is Yellow <==> yellow
            &&& row.color is Green <==> row.level@ == "INFO"@
            &&& row.color is Blue <==> row.level@ == "DEBUG"@
            &&& row.color is Magenta <==> row.level@ == "TRACE"@
        }),
{
    lemma_row(v, screen, height, load_time, filter_time, k);
    let columns = record::line_columns(v.line(v.shown(height)[k] as int));
    levels_are_told_apart(columns.1);
}

/// The colours of the levels, which exclude one another.
pub proof fn levels_are_told_apart(level: Seq<char>)
    ensures
        ({
            let color = super::screen::color_of(level);
            &&& color is Red <==> level == "ERROR"@ || level == "ERR"@ || level == "FATAL"@
            &&& color is Yellow <==> level == "WARN"@ || level == "WARNING"@
            &&& color is Green <==> level == "INFO"@
            &&& color is Blue <==> level == "DEBUG"@
            &&& color is Magenta <==> level == "TRACE"@
        }),
{
    reveal_strlit("ERROR");
    reveal_strlit("ERR");
    reveal_strlit("FATAL");
    reveal_strlit("WARN");
    reveal_strlit("WARNING");
    reveal_strlit("INFO");
    reveal_strlit("DEBUG");
    reveal_strlit("TRACE");
    assert("ERROR"@[0] == 'E' && "ERR"@[0] == 'E' && "FATAL"@[0] == 'F' && "WARN"@[0] == 'W');
    assert("WARNING"@[0] == 'W' && "INFO"@[0] == 'I' && "DEBUG"@[0] == 'D' && "TRACE"@[0] == 'T');
}

/// The header shows the filter while one is typed, and the numbers of all and of the listed lines
/// with the two times otherwise.
pub proof fn header_counts_the_lines(
    v: AppView,
    screen: Screen,
    height: int,
    load_time: Seq<char>,
    filter_time: Seq<char>,
)
    requires
        v.valid(),
        v.is_shown_by(screen, height, load_time, filter_time),
    ensures
        v.mode is Filtering ==> screen.header@ == " Filter: "@ + v.query + "_ "@,
        !(v.mode is Filtering) ==> screen.header@ == " Tachyon | Total Lines: "@ + number::decimal(
            (v.starts.len() - 1) as nat,
        ) + " | Filtered: "@ + number::decimal(v.filtered.len()) + " | Mmap Time: "@ + load_time
            + " | Filter Time: "@ + filter_time + " "@,
{
    crate::lines::boundaries_in_file(v.bytes, v.starts);
}

/// The footer names the keys of the mode.
pub proof fn footer_names_the_keys(
    v: AppView,
    screen: Screen,
    height: int,
    load_time: Seq<char>,
    filter_time: Seq<char>,
)
    requires
        v.is_shown_by(screen, height, load_time, filter_time),
    ensures
        v.mode is Normal ==> screen.footer@
            == " [q] Quit | [f] Filter | [Enter] Inspect JSON | [g/G] Top/Bottom | [↑/↓] Navigate "@,
        v.mode is Filtering ==> screen.footer@ == " [Enter] Apply Filter | [Esc] Cancel "@,
        v.mode is Inspecting ==> screen.footer@ == " [Esc] Close Inspector | [↑/↓] Scroll JSON "@,
{
}

/// The inspector is drawn exactly while it is open, with all lines of its text in order, and scrolled
/// as far as it has been.
pub proof fn inspector_shows_its_text(
    v: AppView,
    screen: Screen,
    height: int,
    load_time: Seq<char>,
    filter_time: Seq<char>,
)
    requires
        v.valid(),
        v.is_shown_by(screen, height, load_time, filter_time),
    ensures
        screen.popup is Some <==> v.mode is Inspecting,
        screen.popup matches Some(popup) ==> {
            &&& popup.scroll == v.scroll
            &&& v.inspector matches Some(t) && popup.lines@.len() == text::text_lines(t).len()
            &&& forall|i: int|
                0 <= i < popup.lines@.len() ==> (#[trigger] popup.lines@[i])@ == text::text_lines(
                    v.inspector->0,
                )[i]
        },
{
    if let Some(popup) = screen.popup {
        let shown = popup.lines@.map_values(|l: String| l@);
        assert(shown == text::text_lines(v.inspector->0));
        assert forall|i: int| 0 <= i < popup.lines@.len() implies (#[trigger] popup.lines@[i])@
            == text::text_lines(v.inspector->0)[i] by {
            assert(shown[i] == popup.lines@[i]@);
        }
    }
}

/// Drawing changes nothing but which lines have been read: those that were, and those in the table.
pub proof fn drawing_only_reads(v: AppView, height: int, n: int)
    requires
        v.valid(),
        height >= 0,
    ensures
        ({
            let after = v.having_read(v.shown(height));
            &&& after == (AppView { parsed: after.parsed, ..v })
            &&& v.parsed.contains(n) ==> after.parsed.contains(n)
            &&& 0 <= n <= usize::MAX && v.shown(height).contains(n as usize)
                ==> after.parsed.contains(n)
            &&& after.parsed.contains(n) ==> v.parsed.contains(n) || v.shown(height).contains(
                n as usize,
            )
        }),
{
}

} // verus!

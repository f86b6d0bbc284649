//! What the screen shows, as plain texts and sizes: the rows and headers of
//! the container table, the window of the log, the notices and popups. How
//! these are painted is left to the surroundings.

use crate::app_state::{AppState, ConnectionNotice, NOTICE_LIFETIME_SECS};
use crate::format::{
    create_progress_bar, decimal, format_bytes_per_sec, percent_text, push_decimal,
    spec_percent_text, spec_progress_bar, spec_rate_text,
};
use crate::icons::Icons;
use crate::log_state::{floored_difference, LogState};
use crate::text::{truncate_string, truncated};
use crate::time::Timestamp;
use crate::types::{
    get_percentage_style, spec_usage_level, Container, ContainerAction, ContainerState,
    HealthStatus, SortField, SortState, UsageLevel, ViewState,
};
use vstd::prelude::*;
use vstd::string::*;

verus! {

/// Columns of the terminal from which the table shows bars.
pub const PROGRESS_BAR_MIN_WIDTH: u16 = 128;

/// Cells in a bar.
pub const BAR_WIDTH: usize = 20;

/// Characters of an error message that a notice shows at most.
pub const NOTICE_TEXT_MAX: usize = 80;

/// Columns that a notice takes at most.
pub const NOTICE_WIDTH_MAX: usize = 80;

/// Nanoseconds in a second.
pub const NANOS_PER_SEC: u32 = 1000000000;

/// The width of a column of the table.
#[derive(Clone, Copy, Debug, PartialEq, Eq, Structural)]
pub enum ColumnWidth {
    /// Exactly this many cells.
    Length(u16),
    /// This many cells or more.
    Min(u16),
}

/// The colour that a symbol is shown in.
#[derive(Clone, Copy, Debug, PartialEq, Eq, Structural)]
pub enum Tone {
    Green,
    Yellow,
    Red,
    Cyan,
    Gray,
}

/// A part of the screen: a column, a row, a width and a height, in cells.
#[derive(Clone, Copy, Debug, PartialEq, Eq, Structural)]
pub struct Area {
    pub x: u16,
    pub y: u16,
    pub width: u16,
    pub height: u16,
}

/// The lines of the log that are on screen: from `start` up to, not
/// including, `end`.
#[derive(Clone, Copy, Debug, PartialEq, Eq, Structural)]
pub struct LogWindow {
    pub start: usize,
    pub end: usize,
}

/// One row of the container table, as texts.
#[derive(Debug)]
pub struct ContainerRow {
    pub id: String,
    /// The symbol of the container's health or state.
    pub icon: &'static str,
    pub icon_tone: Tone,
    pub name: String,
    /// The host, where the table has a column for it.
    pub host: Option<String>,
    /// CPU usage, empty for a container that does not run.
    pub cpu: String,
    pub cpu_level: Option<UsageLevel>,
    /// Memory usage, empty for a container that does not run.
    pub memory: String,
    pub memory_level: Option<UsageLevel>,
    /// Network rates, empty for a container that does not run.
    pub net_tx: String,
    pub net_rx: String,
    /// Time since the container was created.
    pub uptime: String,
}

/// The words for a span of time, as `timeago` writes them in English.
pub uninterp spec fn timeago_of(secs: int, nanos: int) -> Seq<char>;

/// Calls `timeago::Formatter::convert` on a formatter with default
/// settings. The result is named, not described: it words the span
/// roughly, as in "5 days ago".
#[verifier::external_body]
fn timeago_text(secs: u64, nanos: u32) -> (r: String)
    requires
        nanos < NANOS_PER_SEC,
    ensures
        r@ == timeago_of(secs as int, nanos as int),
{
    timeago::Formatter::new().convert(std::time::Duration::new(secs, nanos))
}

/// Nanoseconds from `from` to `to`.
pub open spec fn nanos_between(from: Timestamp, to: Timestamp) -> int {
    (to.secs - from.secs) * NANOS_PER_SEC + (to.nanos - from.nanos)
}

/// The words for the time since a container was created: `N/A` for a
/// container that does not run, `Unknown` where the time of creation is
/// not known, `???` where it lies in the future, and else the span in
/// words.
pub open spec fn spec_uptime_text(
    created: Option<Timestamp>,
    is_running: bool,
    now: Timestamp,
) -> Seq<char> {
    if !is_running {
        "N/A"@
    } else {
        match created {
            None => "Unknown"@,
            Some(t) => {
                let span = nanos_between(t, now);
                if span < 0 || span / (NANOS_PER_SEC as int) > u64::MAX {
                    "???"@
                } else {
                    timeago_of(span / (NANOS_PER_SEC as int), span % (NANOS_PER_SEC as int))
                }
            },
        }
    }
}

/// Whether the table shows bars, at the given width of the terminal.
pub open spec fn spec_shows_progress_bars(width: u16) -> bool {
    width >= PROGRESS_BAR_MIN_WIDTH
}

/// The widths of the table's columns: identifier, symbol, name, host
/// where shown, CPU, memory, two network rates and uptime.
pub open spec fn spec_column_widths(show_host_column: bool, show_progress_bars: bool) -> Seq<
    ColumnWidth,
> {
    let usage: u16 = if show_progress_bars {
        28
    } else {
        7
    };
    let front = seq![ColumnWidth::Length(12), ColumnWidth::Length(1), ColumnWidth::Min(8)];
    let host = if show_host_column {
        seq![ColumnWidth::Length(20)]
    } else {
        Seq::empty()
    };
    front + host + seq![
        ColumnWidth::Length(usage),
        ColumnWidth::Length(usage),
        ColumnWidth::Length(12),
        ColumnWidth::Length(12),
        ColumnWidth::Length(15),
    ]
}

/// A column title, with the symbol of the sort direction where the table
/// is sorted by that column.
pub open spec fn spec_header(title: Seq<char>, sorted: bool, sort: SortState) -> Seq<char> {
    if sorted {
        title + seq![' '] + match sort.direction {
            crate::types::SortDirection::Ascending => "▲"@,
            crate::types::SortDirection::Descending => "▼"@,
        }
    } else {
        title
    }
}

/// The colour of the symbol that stands for a container: by its health
/// where it has a health check, else by its state.
pub open spec fn spec_status_tone(state: ContainerState, health: Option<HealthStatus>) -> Tone {
    match health {
        Some(HealthStatus::Healthy) => Tone::Green,
        Some(HealthStatus::Unhealthy) => Tone::Red,
        Some(HealthStatus::Starting) => Tone::Yellow,
        None => match state {
            ContainerState::Running => Tone::Green,
            ContainerState::Paused | ContainerState::Restarting | ContainerState::Removing => {
                Tone::Yellow
            },
            ContainerState::Exited | ContainerState::Dead => Tone::Red,
            ContainerState::Created => Tone::Cyan,
            ContainerState::Unknown => Tone::Gray,
        },
    }
}

/// The title of the table.
pub open spec fn spec_table_title(version: Seq<char>, count: usize) -> Seq<char> {
    "dtop v"@ + version + " - "@ + decimal(count as nat)
        + " containers ('?' for help, 'q' to quit)"@
}

/// The text of a notice: a cross, the host and the error message, which
/// is cut after 77 characters where it has more than 80.
pub open spec fn spec_notice_text(host: Seq<char>, message: Seq<char>) -> Seq<char> {
    let shown = if message.len() > NOTICE_TEXT_MAX {
        message.subrange(0, 77) + "..."@
    } else {
        message
    };
    "✗ "@ + host + ": "@ + shown
}

/// A popup of the given size in the middle of the screen.
pub open spec fn spec_centered(screen: Area, width: u16, height: u16) -> Area {
    Area {
        x: (floored_difference(screen.width as usize, width as usize) / 2) as u16,
        y: (floored_difference(screen.height as usize, height as usize) / 2) as u16,
        width,
        height,
    }
}

/// The smaller of two numbers.
pub open spec fn least(a: int, b: int) -> int {
    if a <= b {
        a
    } else {
        b
    }
}

/// The place of the action menu: forty columns wide and as high as its
/// entries and six lines more, as far as the screen has room for that
/// with a margin of two cells all round.
pub open spec fn spec_action_menu_area(screen: Area, entries: usize) -> Area {
    spec_centered(
        screen,
        least(40, floored_difference(screen.width as usize, 4) as int) as u16,
        least(entries + 6, floored_difference(screen.height as usize, 4) as int) as u16,
    )
}

/// The place of the help: six tenths of the screen wide and seven tenths
/// high.
pub open spec fn spec_help_area(screen: Area) -> Area {
    spec_centered(screen, (screen.width * 6 / 10) as u16, (screen.height * 7 / 10) as u16)
}

/// Whether the table shows bars, at the given width of the terminal.
pub fn shows_progress_bars(width: u16) -> (r: bool)
    ensures
        r == spec_shows_progress_bars(width),
{
    width >= PROGRESS_BAR_MIN_WIDTH
}

/// The widths of the table's columns.
pub fn column_widths(show_host_column: bool, show_progress_bars: bool) -> (r: Vec<ColumnWidth>)
    ensures
        r@ == spec_column_widths(show_host_column, show_progress_bars),
{
    let usage: u16 = if show_progress_bars {
        28
    } else {
        7
    };
    let mut r: Vec<ColumnWidth> = Vec::new();
    r.push(ColumnWidth::Length(12));
    r.push(ColumnWidth::Length(1));
    r.push(ColumnWidth::Min(8));
    if show_host_column {
        r.push(ColumnWidth::Length(20));
    }
    r.push(ColumnWidth::Length(usage));
    r.push(ColumnWidth::Length(usage));
    r.push(ColumnWidth::Length(12));
    r.push(ColumnWidth::Length(12));
    r.push(ColumnWidth::Length(15));
    assert(r@ =~= spec_column_widths(show_host_column, show_progress_bars));
    r
}

/// A column title, marked where the table is sorted by that column.
fn header(title: &str, sorted: bool, sort: SortState) -> (r: String)
    ensures
        r@ == spec_header(title@, sorted, sort),
{
    let mut r = String::from_str(title);
    if sorted {
        r.push(' ');
        r.append(sort.direction.symbol());
        assert(r@ =~= spec_header(title@, sorted, sort));
    }
    r
}

/// The titles of the table's columns. The column by which the table is
/// sorted shows the direction; the column of the symbols has no title.
pub fn header_labels(show_host_column: bool, sort_state: SortState) -> (r: Vec<String>)
    ensures
        r@.len() == if show_host_column {
            9int
        } else {
            8int
        },
        r@[0]@ == "ID"@,
        r@[1]@ == ""@,
        r@[2]@ == spec_header("Name"@, sort_state.field == SortField::Name, sort_state),
        show_host_column ==> r@[3]@ == "Host"@,
        r@[r@.len() - 5]@ == spec_header("CPU %"@, sort_state.field == SortField::Cpu, sort_state),
        r@[r@.len() - 4]@ == spec_header(
            "Memory %"@,
            sort_state.field == SortField::Memory,
            sort_state,
        ),
        r@[r@.len() - 3]@ == "Net TX"@,
        r@[r@.len() - 2]@ == "Net RX"@,
        r@[r@.len() - 1]@ == spec_header(
            "Uptime"@,
            sort_state.field == SortField::Uptime,
            sort_state,
        ),
{
    let mut r: Vec<String> = Vec::new();
    r.push(String::from_str("ID"));
    r.push(String::from_str(""));
    r.push(header("Name", sort_state.field == SortField::Name, sort_state));
    if show_host_column {
        r.push(String::from_str("Host"));
    }
    r.push(header("CPU %", sort_state.field == SortField::Cpu, sort_state));
    r.push(header("Memory %", sort_state.field == SortField::Memory, sort_state));
    r.push(String::from_str("Net TX"));
    r.push(String::from_str("Net RX"));
    r.push(header("Uptime", sort_state.field == SortField::Uptime, sort_state));
    r
}

/// The title of the table.
pub fn table_title(version: &str, container_count: usize) -> (r: String)
    ensures
        r@ == spec_table_title(version@, container_count),
{
    let mut r = String::from_str("dtop v");
    r.append(version);
    r.append(" - ");
    push_decimal(&mut r, container_count as u128);
    r.append(" containers ('?' for help, 'q' to quit)");
    r
}

/// The colour of the symbol that stands for a container.
pub fn status_tone(state: &ContainerState, health: &Option<HealthStatus>) -> (r: Tone)
    ensures
        r == spec_status_tone(*state, *health),
{
    match health {
        Some(HealthStatus::Healthy) => Tone::Green,
        Some(HealthStatus::Unhealthy) => Tone::Red,
        Some(HealthStatus::Starting) => Tone::Yellow,
        None => match state {
            ContainerState::Running => Tone::Green,
            ContainerState::Paused | ContainerState::Restarting | ContainerState::Removing => {
                Tone::Yellow
            },
            ContainerState::Exited | ContainerState::Dead => Tone::Red,
            ContainerState::Created => Tone::Cyan,
            ContainerState::Unknown => Tone::Gray,
        },
    }
}

/// The words for the time since a container was created.
pub fn format_time_elapsed(created: &Option<Timestamp>, is_running: bool, now: &Timestamp) -> (r:
    String)
    ensures
        r@ == spec_uptime_text(*created, is_running, *now),
{
    if !is_running {
        return String::from_str("N/A");
    }
    match created {
        None => String::from_str("Unknown"),
        Some(t) => {
            let per_sec: i128 = NANOS_PER_SEC as i128;
            let span: i128 = (now.secs as i128 - t.secs as i128) * per_sec + (now.nanos as i128
                - t.nanos as i128);
            if span < 0 || span / per_sec > u64::MAX as i128 {
                String::from_str("???")
            } else {
                timeago_text((span / per_sec) as u64, (span % per_sec) as u32)
            }
        },
    }
}

/// The usage of a resource as the table shows it: as a bar with figures
/// where the table shows bars, else in figures alone.
pub fn usage_text(value: u32, show_progress_bars: bool) -> (r: String)
    ensures
        r@ == if show_progress_bars {
            spec_progress_bar(value, BAR_WIDTH)
        } else {
            spec_percent_text(value)
        },
{
    if show_progress_bars {
        create_progress_bar(value, BAR_WIDTH)
    } else {
        percent_text(value)
    }
}

/// The row of the table for a container. Usage and rates are shown for
/// running containers only.
pub fn container_row(
    container: &Container,
    icons: &Icons,
    show_host_column: bool,
    show_progress_bars: bool,
    now: &Timestamp,
) -> (row: ContainerRow)
    ensures
        row.id@ == container.id@,
        row.name@ == container.name@,
        row.icon@ == match container.health {
            Some(h) => Icons::spec_health(icons.style(), h),
            None => Icons::spec_state(icons.style(), container.state),
        },
        row.icon_tone == spec_status_tone(container.state, container.health),
        match row.host {
            Some(h) => show_host_column && h@ == container.host_id@,
            None => !show_host_column,
        },
        row.uptime@ == spec_uptime_text(
            container.created,
            container.state == ContainerState::Running,
            *now,
        ),
        if container.state == ContainerState::Running {
            &&& row.cpu@ == if show_progress_bars {
                spec_progress_bar(container.stats.cpu, BAR_WIDTH)
            } else {
                spec_percent_text(container.stats.cpu)
            }
            &&& row.memory@ == if show_progress_bars {
                spec_progress_bar(container.stats.memory, BAR_WIDTH)
            } else {
                spec_percent_text(container.stats.memory)
            }
            &&& row.cpu_level == Some(spec_usage_level(container.stats.cpu))
            &&& row.memory_level == Some(spec_usage_level(container.stats.memory))
            &&& row.net_tx@ == spec_rate_text(container.stats.network_tx_bytes_per_sec)
            &&& row.net_rx@ == spec_rate_text(container.stats.network_rx_bytes_per_sec)
        } else {
            &&& row.cpu@.len() == 0
            &&& row.memory@.len() == 0
            &&& row.cpu_level is None
            &&& row.memory_level is None
            &&& row.net_tx@.len() == 0
            &&& row.net_rx@.len() == 0
        },
{
    let is_running = container.state == ContainerState::Running;
    let host = if show_host_column {
        Some(container.host_id.clone())
    } else {
        None
    };
    let uptime = format_time_elapsed(&container.created, is_running, now);
    let icon = icons.status(&container.state, &container.health);
    let icon_tone = status_tone(&container.state, &container.health);
    if is_running {
        ContainerRow {
            id: container.id.clone(),
            icon,
            icon_tone,
            name: container.name.clone(),
            host,
            cpu: usage_text(container.stats.cpu, show_progress_bars),
            cpu_level: Some(get_percentage_style(container.stats.cpu)),
            memory: usage_text(container.stats.memory, show_progress_bars),
            memory_level: Some(get_percentage_style(container.stats.memory)),
            net_tx: format_bytes_per_sec(container.stats.network_tx_bytes_per_sec),
            net_rx: format_bytes_per_sec(container.stats.network_rx_bytes_per_sec),
            uptime,
        }
    } else {
        ContainerRow {
            id: container.id.clone(),
            icon,
            icon_tone,
            name: container.name.clone(),
            host,
            cpu: String::new(),
            cpu_level: None,
            memory: String::new(),
            memory_level: None,
            net_tx: String::new(),
            net_rx: String::new(),
            uptime,
        }
    }
}

/// The text of the notice for a connection error.
pub fn notice_text(notice: &ConnectionNotice) -> (r: String)
    ensures
        r@ == spec_notice_text(notice.host_id@, notice.message@),
{
    let mut r = String::from_str("✗ ");
    r.append(notice.host_id.as_str());
    r.append(": ");
    let len: usize = notice.message.as_str().unicode_len();
    if len > NOTICE_TEXT_MAX {
        r.append(notice.message.as_str().substring_char(0, 77));
        r.append("...");
        assert(r@ =~= spec_notice_text(notice.host_id@, notice.message@));
    } else {
        r.append(notice.message.as_str());
    }
    r
}

/// The columns that a notice takes: those of its text and four more, up
/// to eighty.
pub fn notice_width(text_len: usize) -> (r: u16)
    ensures
        r == least(text_len + 4, NOTICE_WIDTH_MAX as int),
{
    if text_len >= NOTICE_WIDTH_MAX - 4 {
        NOTICE_WIDTH_MAX as u16
    } else {
        (text_len + 4) as u16
    }
}

/// A popup of the given size in the middle of the screen.
pub fn centered(screen: &Area, width: u16, height: u16) -> (r: Area)
    ensures
        r == spec_centered(*screen, width, height),
{
    Area {
        x: screen.width.saturating_sub(width) / 2,
        y: screen.height.saturating_sub(height) / 2,
        width,
        height,
    }
}

/// The place of the action menu with the given number of entries.
pub fn action_menu_area(screen: &Area, entries: usize) -> (r: Area)
    ensures
        r == spec_action_menu_area(*screen, entries),
{
    let room_w: u16 = screen.width.saturating_sub(4);
    let room_h: u16 = screen.height.saturating_sub(4);
    let width: u16 = if room_w < 40 {
        room_w
    } else {
        40
    };
    let height: u16 = if entries >= room_h as usize || entries + 6 >= room_h as usize {
        room_h
    } else {
        (entries + 6) as u16
    };
    centered(screen, width, height)
}

/// The place of the help.
pub fn help_area(screen: &Area) -> (r: Area)
    ensures
        r == spec_help_area(*screen),
{
    let width: u16 = (screen.width as u32 * 6 / 10) as u16;
    let height: u16 = (screen.height as u32 * 7 / 10) as u16;
    centered(screen, width, height)
}

/// The title of the action menu: the name of the container and its host,
/// cut to twenty and ten characters.
pub fn action_menu_title(name: &str, host: &str) -> (r: String)
    ensures
        r@ == " Actions: "@ + truncated(name@, 20) + " ("@ + truncated(host@, 10) + ") "@,
{
    let mut r = String::from_str(" Actions: ");
    r.append(truncate_string(name, 20).as_str());
    r.append(" (");
    r.append(truncate_string(host, 10).as_str());
    r.append(") ");
    r
}

/// An entry of the action menu: the symbol of the action and its name.
pub fn action_menu_entry(icons: &Icons, action: ContainerAction) -> (r: String)
    ensures
        r@ == " "@ + Icons::spec_action(icons.style(), action) + "  "@ + match action {
            ContainerAction::Start => "Start"@,
            ContainerAction::Stop => "Stop"@,
            ContainerAction::Restart => "Restart"@,
            ContainerAction::Remove => "Remove"@,
        },
{
    let mut r = String::from_str(" ");
    r.append(icons.action(action));
    r.append("  ");
    r.append(action.display_name());
    r
}

impl LogState {
    /// The highest scroll position at which a page is full: the lines
    /// beyond one page of `visible_height` lines.
    pub open spec fn max_scroll(self, visible_height: usize) -> usize {
        floored_difference(self.entries@.len() as usize, visible_height)
    }

    /// The scroll position at which the log is drawn: the end while it
    /// follows the newest line, else the position asked for, held within
    /// the log.
    pub open spec fn settled_scroll(self, visible_height: usize) -> usize {
        let max = self.max_scroll(visible_height);
        if self.is_at_bottom || self.scroll_offset > max {
            max
        } else {
            self.scroll_offset
        }
    }

    /// Fits the scroll position to the log and to a page of
    /// `visible_height` lines, as the log is drawn. A position at the end
    /// makes the view follow the newest line from now on.
    pub fn settle(&mut self, visible_height: usize)
        ensures
            final(self).scroll_offset == old(self).settled_scroll(visible_height),
            final(self).is_at_bottom == (final(self).scroll_offset >= old(self).max_scroll(
                visible_height,
            )),
            *final(self) == (LogState {
                scroll_offset: final(self).scroll_offset,
                is_at_bottom: final(self).is_at_bottom,
                ..*old(self)
            }),
    {
        let lines: usize = self.entries.len();
        let max: usize = lines.saturating_sub(visible_height);
        let actual: usize = if self.is_at_bottom || self.scroll_offset > max {
            max
        } else {
            self.scroll_offset
        };
        self.is_at_bottom = actual >= max;
        self.scroll_offset = actual;
    }

    /// The lines that are on screen in an area of `area_height` lines,
    /// once the scroll position is settled.
    pub fn window(&self, area_height: usize) -> (w: LogWindow)
        ensures
            w.start == least(self.scroll_offset as int, self.entries@.len() as int),
            w.end == least(self.scroll_offset + area_height, self.entries@.len() as int),
            w.start <= w.end <= self.entries@.len(),
    {
        let lines: usize = self.entries.len();
        let start: usize = if self.scroll_offset < lines {
            self.scroll_offset
        } else {
            lines
        };
        let end: usize = if area_height >= lines - start {
            lines
        } else {
            start + area_height
        };
        LogWindow { start, end }
    }
}

impl AppState {
    /// Whether the line of the filter text is on screen: while the text is
    /// edited, and in the container list while a filter is in force.
    pub open spec fn spec_show_search_bar(self) -> bool {
        self.view_state is SearchMode || (self.view_state is ContainerList
            && self.search_text().len() > 0)
    }

    /// Whether the tracked containers belong to more than one host.
    pub open spec fn spec_show_host_column(self) -> bool {
        exists|i: int, j: int|
            0 <= i < self.containers@.len() && 0 <= j < self.containers@.len() && (
            #[trigger] self.containers@[i]).host_id@ != (#[trigger] self.containers@[j]).host_id@
    }

    /// Whether the line of the filter text is on screen.
    pub fn show_search_bar(&self) -> (r: bool)
        ensures
            r == self.spec_show_search_bar(),
    {
        match &self.view_state {
            ViewState::SearchMode => true,
            ViewState::ContainerList => self.search_input.value.as_str().unicode_len() > 0,
            _ => false,
        }
    }

    /// Whether the table has a column for the host: it has one when the
    /// tracked containers belong to more than one host.
    pub fn show_host_column(&self) -> (r: bool)
        ensures
            r == self.spec_show_host_column(),
    {
        if self.containers.len() == 0 {
            return false;
        }
        let mut i: usize = 1;
        while i < self.containers.len()
            invariant
                1 <= i <= self.containers@.len(),
                forall|k: int|
                    0 <= k < i ==> (#[trigger] self.containers@[k]).host_id@
                        == self.containers@[0].host_id@,
            decreases self.containers.len() - i,
        {
            if !crate::text::same_text(
                self.containers[i].host_id.as_str(),
                self.containers[0].host_id.as_str(),
            ) {
                return true;
            }
            i = i + 1;
        }
        false
    }

    /// The line of the filter text: the text after a slash while it is
    /// edited, and after `Filtering: ` while it is in force.
    pub fn search_bar_text(&self) -> (r: String)
        ensures
            r@ == if self.view_state is SearchMode {
                "/"@ + self.search_text()
            } else {
                "Filtering: "@ + self.search_text()
            },
    {
        let mut r = if matches!(self.view_state, ViewState::SearchMode) {
            String::from_str("/")
        } else {
            String::from_str("Filtering: ")
        };
        r.append(self.search_input.value.as_str());
        r
    }

    /// The title of the log view: the container's name, or `Unknown`
    /// where it is tracked no longer, its host, and whether the view
    /// follows the newest line.
    pub fn log_title(&self) -> (r: Option<String>)
        requires
            self.wf(),
        ensures
            r is Some == self.log is Some,
            r matches Some(t) ==> t@ == "Logs: "@ + (if crate::app_state::holds_key(
                self.containers@,
                self.log->0.key@,
            ) {
                self.containers@[crate::app_state::position(
                    self.containers@,
                    self.log->0.key@,
                )].name@
            } else {
                "Unknown"@
            }) + " ("@ + self.log->0.key.host_id@ + ") - Press ESC to return "@ + (if self.log->0.is_at_bottom {
                "[AUTO]"@
            } else {
                "[MANUAL]"@
            }),
    {
        match &self.log {
            Some(log) => {
                let mut r = String::from_str("Logs: ");
                match self.find(&log.key) {
                    Some(i) => {
                        r.append(self.containers[i].name.as_str());
                    },
                    None => {
                        r.append("Unknown");
                    },
                }
                r.append(" (");
                r.append(log.key.host_id.as_str());
                r.append(") - Press ESC to return ");
                if log.is_at_bottom {
                    r.append("[AUTO]");
                } else {
                    r.append("[MANUAL]");
                }
                Some(r)
            },
            None => None,
        }
    }

    /// Gets the log ready to be drawn in an area of `area_height` lines,
    /// of which the first is the title: the height of a page is noted,
    /// the scroll position is settled, and the lines on screen are given.
    /// Outside the log view nothing happens.
    pub fn prepare_log(&mut self, area_height: u16) -> (w: Option<LogWindow>)
        requires
            old(self).wf(),
        ensures
            final(self).wf(),
            w is Some == old(self).log is Some,
            match old(self).log {
                Some(l) => {
                    let page = floored_difference(area_height as usize, 1);
                    &&& final(self).log is Some
                    &&& final(self).log->0.scroll_offset == l.settled_scroll(page)
                    &&& final(self).log->0.is_at_bottom == (l.settled_scroll(page) >= l.max_scroll(
                        page,
                    ))
                    &&& final(self).log->0 == (LogState {
                        scroll_offset: final(self).log->0.scroll_offset,
                        is_at_bottom: final(self).log->0.is_at_bottom,
                        ..l
                    })
                    &&& *final(self) == (AppState {
                        log: final(self).log,
                        last_viewport_height: page,
                        ..*old(self)
                    })
                    &&& w->0.start == least(
                        l.settled_scroll(page) as int,
                        l.entries@.len() as int,
                    )
                    &&& w->0.end == least(
                        l.settled_scroll(page) + area_height,
                        l.entries@.len() as int,
                    )
                },
                None => *final(self) == *old(self),
            },
    {
        match self.log.take() {
            Some(l) => {
                let mut log = l;
                let page: usize = area_height.saturating_sub(1) as usize;
                self.last_viewport_height = page;
                log.settle(page);
                let w = log.window(area_height as usize);
                self.log = Some(log);
                Some(w)
            },
            None => None,
        }
    }

    /// Takes the connection errors that are ten seconds old or older off
    /// the display.
    pub fn expire_connection_errors(&mut self)
        requires
            old(self).wf(),
        ensures
            final(self).wf(),
            final(self).connection_errors@ == unexpired(
                old(self).connection_errors@,
                old(self).clock,
            ),
            *final(self) == (AppState {
                connection_errors: final(self).connection_errors,
                ..*old(self)
            }),
    {
        let clock: u64 = self.clock;
        let mut kept: Vec<ConnectionNotice> = Vec::new();
        let mut i: usize = 0;
        while i < self.connection_errors.len()
            invariant
                i <= self.connection_errors@.len(),
                *self == *old(self),
                clock == self.clock,
                kept@ == unexpired(self.connection_errors@.take(i as int), clock),
            decreases self.connection_errors.len() - i,
        {
            let notice = &self.connection_errors[i];
            proof {
                let next = self.connection_errors@.take(i + 1);
                assert(next.drop_last() =~= self.connection_errors@.take(i as int));
                assert(next.last() == self.connection_errors@[i as int]);
            }
            if notice.at > clock || clock - notice.at < NOTICE_LIFETIME_SECS {
                kept.push(notice.clone());
            }
            i = i + 1;
        }
        proof {
            assert(self.connection_errors@.take(i as int) =~= self.connection_errors@);
        }
        self.connection_errors = kept;
    }
}

/// The notices that are younger than ten seconds at the time `clock`, in
/// their order.
pub open spec fn unexpired(notices: Seq<ConnectionNotice>, clock: u64) -> Seq<ConnectionNotice>
    decreases notices.len(),
{
    if notices.len() == 0 {
        Seq::empty()
    } else if clock - notices.last().at < NOTICE_LIFETIME_SECS {
        unexpired(notices.drop_last(), clock).push(notices.last())
    } else {
        unexpired(notices.drop_last(), clock)
    }
}

} // verus!

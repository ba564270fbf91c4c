//! The picker of a day and a time: six weeks of days around a month, and what the
//! picker writes.

use vstd::prelude::*;
use crate::calendar::{
    date_exists, days_from_ce, first_day_number, last_day_number, law_day_numbers_are_distinct,
    lemma_edges_of_reach, local_today, shifted_date, weekday_from_monday, CalendarDate,
    FIRST_DAY_NUMBER, LAST_DAY_NUMBER,
};
use crate::text::{
    decimal, decimal_text, padded, padded_text, signed_padded, signed_padded_text,
};
use crate::theme::ThemeColor;

verus! {

/// How many days the picker shows.
pub const PICKER_DAY_COUNT: usize = 42;

/// How many days stand in a row.
pub const PICKER_WEEK_LENGTH: usize = 7;

/// What the picker stands at.
#[derive(Clone, Copy, Debug, PartialEq, Eq, Structural)]
pub struct DateTimePickerValue {
    /// The year.
    pub year: i32,
    /// The month.
    pub month: u32,
    /// The day.
    pub day: u32,
    /// The hour.
    pub hour: u32,
    /// The minute.
    pub minute: u32,
    /// The second.
    pub second: u32,
}

/// A day in the picker.
#[derive(Clone, Copy, Debug, PartialEq, Eq, Structural)]
pub struct DateTimePickerDay {
    /// The day.
    pub date: CalendarDate,
    /// Whether it belongs to the month.
    pub is_current_month: bool,
    /// Whether it is the one that the picker stands at.
    pub is_selected: bool,
    /// Whether it is the present day.
    pub is_today: bool,
}

impl DateTimePickerValue {
    /// The day that the picker stands at.
    pub open spec fn date(self) -> CalendarDate {
        CalendarDate { year: self.year, month: self.month, day: self.day }
    }
}

/// The day that the picker shows as chosen: its own, or another where the calendar
/// has no such day.
pub open spec fn chosen_date(value: DateTimePickerValue, fallback: CalendarDate) -> CalendarDate {
    if value.date().is_real() {
        value.date()
    } else {
        fallback
    }
}

/// The number of the first day that is shown: the Monday of the week in which the
/// month begins.
pub open spec fn grid_start(selected: CalendarDate) -> int {
    selected.month_start().day_number() - selected.month_start().days_since_monday()
}

/// Whether the calendar reaches all six weeks.
pub open spec fn grid_fits(selected: CalendarDate) -> bool {
    first_day_number() <= grid_start(selected) && grid_start(selected) + PICKER_DAY_COUNT - 1
        <= last_day_number()
}

/// Whether some days are the six weeks around a chosen day.
pub open spec fn is_grid(
    days: Seq<DateTimePickerDay>,
    selected: CalendarDate,
    today: CalendarDate,
) -> bool {
    &&& days.len() == PICKER_DAY_COUNT
    &&& forall|i: int|
        0 <= i < PICKER_DAY_COUNT ==> {
            let day = #[trigger] days[i];
            &&& day.date.is_real()
            &&& day.date.day_number() == grid_start(selected) + i
            &&& day.is_current_month == (day.date.month == selected.month)
            &&& day.is_selected == (day.date == selected)
            &&& day.is_today == (day.date == today)
        }
}

/// Lays out the six weeks around the day that the picker stands at. `fallback`
/// takes its place where the calendar has no such day.
pub fn datetime_picker_days_on(
    value: &DateTimePickerValue,
    fallback: CalendarDate,
    today: CalendarDate,
) -> (result: Vec<DateTimePickerDay>)
    requires
        fallback.is_real(),
        grid_fits(chosen_date(*value, fallback)),
    ensures
        is_grid(result@, chosen_date(*value, fallback), today),
{
    let own = CalendarDate { year: value.year, month: value.month, day: value.day };
    let selected = if date_exists(own) {
        own
    } else {
        fallback
    };
    let month_start = CalendarDate { year: selected.year, month: selected.month, day: 1 };
    let offset: u32 = weekday_from_monday(month_start);
    let start = shifted_date(month_start, -(offset as i64));
    let mut days: Vec<DateTimePickerDay> = Vec::new();
    let mut i: usize = 0;
    while i < PICKER_DAY_COUNT
        invariant
            i <= PICKER_DAY_COUNT,
            days@.len() == i,
            start.is_real(),
            grid_fits(selected),
            start.day_number() == grid_start(selected),
            forall|k: int|
                0 <= k < i ==> {
                    let day = #[trigger] days@[k];
                    &&& day.date.is_real()
                    &&& day.date.day_number() == grid_start(selected) + k
                    &&& day.is_current_month == (day.date.month == selected.month)
                    &&& day.is_selected == (day.date == selected)
                    &&& day.is_today == (day.date == today)
                },
        decreases PICKER_DAY_COUNT - i,
    {
        let date = shifted_date(start, i as i64);
        days.push(
            DateTimePickerDay {
                date,
                is_current_month: date.month == selected.month,
                is_selected: date == selected,
                is_today: date == today,
            },
        );
        i += 1;
    }
    days
}

/// Whether the six weeks around a day can be laid out.
fn six_weeks_fit(selected: CalendarDate) -> (result: bool)
    requires
        selected.is_real(),
    ensures
        result == grid_fits(selected),
{
    let month_start = CalendarDate { year: selected.year, month: selected.month, day: 1 };
    let offset: u32 = weekday_from_monday(month_start);
    let start: i64 = days_from_ce(month_start) as i64 - offset as i64;
    proof {
        lemma_edges_of_reach();
    }
    FIRST_DAY_NUMBER <= start && start + 41 <= LAST_DAY_NUMBER
}

/// Whether some days, or none, are what the picker shows on a day.
pub open spec fn is_shown_on(
    days: Option<Vec<DateTimePickerDay>>,
    value: DateTimePickerValue,
    fallback: CalendarDate,
    today: CalendarDate,
) -> bool {
    match days {
        Some(grid) => grid_fits(chosen_date(value, fallback)) && is_grid(
            grid@,
            chosen_date(value, fallback),
            today,
        ),
        None => !grid_fits(chosen_date(value, fallback)),
    }
}

/// Lays out the six weeks around the day that the picker stands at; none where the
/// calendar does not reach them all. The present day is read from the clock: what
/// is stated holds whatever day that is.
pub fn datetime_picker_days(value: &DateTimePickerValue) -> (result: Option<
    Vec<DateTimePickerDay>,
>)
    ensures
        exists|fallback: CalendarDate, today: CalendarDate|
            fallback.is_real() && today.is_real() && #[trigger] is_shown_on(
                result,
                *value,
                fallback,
                today,
            ),
        value.date().is_real() ==> (result is Some) == grid_fits(value.date()),
{
    let own = CalendarDate { year: value.year, month: value.month, day: value.day };
    let fallback = local_today();
    let selected = if date_exists(own) {
        own
    } else {
        fallback
    };
    let today = local_today();
    let result = if six_weeks_fit(selected) {
        Some(datetime_picker_days_on(value, fallback, today))
    } else {
        None
    };
    proof {
        assert(is_shown_on(result, *value, fallback, today));
    }
    result
}

/// The six weeks begin with a Monday.
pub proof fn law_grid_begins_on_monday(
    days: Seq<DateTimePickerDay>,
    selected: CalendarDate,
    today: CalendarDate,
)
    requires
        is_grid(days, selected, today),
    ensures
        days[0].date.days_since_monday() == 0,
{
    let start = selected.month_start();
    assert(days[0].date.day_number() == start.day_number() - (start.day_number() - 1) % 7);
}

/// Every day of the month is shown, at the place that its number gives it.
pub proof fn law_whole_month_is_shown(
    days: Seq<DateTimePickerDay>,
    selected: CalendarDate,
    today: CalendarDate,
    date: CalendarDate,
)
    requires
        selected.is_real(),
        is_grid(days, selected, today),
        date.is_real(),
        date.year == selected.year,
        date.month == selected.month,
    ensures
        0 <= date.day_number() - grid_start(selected) < PICKER_DAY_COUNT,
        days[date.day_number() - grid_start(selected)].date == date,
        days[date.day_number() - grid_start(selected)].is_current_month,
{
    let at = date.day_number() - grid_start(selected);
    assert(date.day_number() == selected.month_start().day_number() + date.day - 1);
    law_day_numbers_are_distinct(days[at].date, date);
}

/// The chosen day is shown exactly once.
pub proof fn law_chosen_day_is_shown_once(
    days: Seq<DateTimePickerDay>,
    selected: CalendarDate,
    today: CalendarDate,
)
    requires
        selected.is_real(),
        is_grid(days, selected, today),
    ensures
        0 <= selected.day_number() - grid_start(selected) < PICKER_DAY_COUNT,
        days[selected.day_number() - grid_start(selected)].is_selected,
        forall|i: int|
            0 <= i < PICKER_DAY_COUNT && (#[trigger] days[i]).is_selected ==> i
                == selected.day_number() - grid_start(selected),
{
    law_whole_month_is_shown(days, selected, today, selected);
}

// ---------------------------------------------------------------------------
// What the picker writes
// ---------------------------------------------------------------------------

/// The heading of the picker: its year and month.
pub open spec fn month_heading(value: DateTimePickerValue) -> Seq<char> {
    signed_padded_text(value.year as int, 4) + " 年 "@ + padded_text(value.month as nat, 2)
        + " 月"@
}

/// Writes the heading of the picker.
pub fn month_title(value: &DateTimePickerValue) -> (result: String)
    ensures
        result@ == month_heading(*value),
{
    let mut title = signed_padded(value.year, 4);
    title.push_str(" 年 ");
    title.push_str(padded(value.month as u64, 2).as_str());
    title.push_str(" 月");
    title
}

/// Writes an hour, a minute or a second.
pub fn time_part_text(part: u32) -> (result: String)
    ensures
        result@ == padded_text(part as nat, 2),
{
    padded(part as u64, 2)
}

/// The name of a day of the week, from Monday.
pub open spec fn weekday_name(days_since_monday: int) -> Seq<char> {
    if days_since_monday == 0 {
        "一"@
    } else if days_since_monday == 1 {
        "二"@
    } else if days_since_monday == 2 {
        "三"@
    } else if days_since_monday == 3 {
        "四"@
    } else if days_since_monday == 4 {
        "五"@
    } else if days_since_monday == 5 {
        "六"@
    } else {
        "日"@
    }
}

/// Names a column of the picker.
pub fn weekday_label(column: usize) -> (result: &'static str)
    requires
        column < PICKER_WEEK_LENGTH,
    ensures
        result@ == weekday_name(column as int),
{
    match column {
        0 => "一",
        1 => "二",
        2 => "三",
        3 => "四",
        4 => "五",
        5 => "六",
        _ => "日",
    }
}

/// What a day in the picker shows.
#[derive(Debug, PartialEq, Eq)]
pub struct DayAppearance {
    /// The id of its element.
    pub element_id: String,
    /// What it says.
    pub label: String,
    /// What lies behind it.
    pub background: ThemeColor,
    /// What lies behind it while the pointer is on it.
    pub hover_background: ThemeColor,
    /// The colour of its text.
    pub foreground: ThemeColor,
    /// The colour of its border.
    pub border: ThemeColor,
}

/// The id of a day's element.
pub open spec fn day_element_id(
    analysis_id: usize,
    input_kind: Seq<char>,
    date: CalendarDate,
) -> Seq<char> {
    "runtime-time-day-"@ + decimal_text(analysis_id as nat) + "-"@ + input_kind + "-"@
        + signed_padded_text(date.year as int, 0) + "-"@ + decimal_text(date.month as nat) + "-"@
        + decimal_text(date.day as nat)
}

/// Works out what a day in the picker shows. `input_kind` names the field that the
/// picker belongs to.
pub fn day_appearance(analysis_id: usize, input_kind: &str, day: &DateTimePickerDay) -> (result:
    DayAppearance)
    ensures
        result.element_id@ == day_element_id(analysis_id, input_kind@, day.date),
        result.label@ == decimal_text(day.date.day as nat),
        result.background == (if day.is_selected {
            ThemeColor::Info
        } else if day.is_today {
            ThemeColor::Selection
        } else {
            ThemeColor::Content
        }),
        result.hover_background == (if day.is_selected {
            ThemeColor::Info
        } else {
            ThemeColor::Selection
        }),
        result.foreground == (if day.is_selected {
            ThemeColor::Background
        } else if day.is_current_month {
            ThemeColor::Foreground
        } else {
            ThemeColor::ForegroundMuted
        }),
        result.border == (if day.is_selected || day.is_today {
            ThemeColor::Info
        } else {
            ThemeColor::Content
        }),
{
    let mut element_id = "runtime-time-day-".to_owned();
    element_id.push_str(decimal(analysis_id as u64).as_str());
    element_id.push_str("-");
    element_id.push_str(input_kind);
    element_id.push_str("-");
    element_id.push_str(signed_padded(day.date.year, 0).as_str());
    element_id.push_str("-");
    element_id.push_str(decimal(day.date.month as u64).as_str());
    element_id.push_str("-");
    element_id.push_str(decimal(day.date.day as u64).as_str());
    DayAppearance {
        element_id,
        label: decimal(day.date.day as u64),
        background: if day.is_selected {
            ThemeColor::Info
        } else if day.is_today {
            ThemeColor::Selection
        } else {
            ThemeColor::Content
        },
        hover_background: if day.is_selected {
            ThemeColor::Info
        } else {
            ThemeColor::Selection
        },
        foreground: if day.is_selected {
            ThemeColor::Background
        } else if day.is_current_month {
            ThemeColor::Foreground
        } else {
            ThemeColor::ForegroundMuted
        },
        border: if day.is_selected || day.is_today {
            ThemeColor::Info
        } else {
            ThemeColor::Content
        },
    }
}

/// The id of a control of the picker: what it is, the analysis and the field, and
/// where there is one the part of the time or the action.
pub open spec fn control_id(
    prefix: Seq<char>,
    analysis_id: usize,
    input_kind: Seq<char>,
    detail: Option<Seq<char>>,
) -> Seq<char> {
    prefix + "-"@ + decimal_text(analysis_id as nat) + "-"@ + input_kind + (match detail {
        Some(text) => "-"@ + text,
        None => Seq::empty(),
    })
}

/// Writes the id of a control of the picker.
pub fn control_element_id(
    prefix: &str,
    analysis_id: usize,
    input_kind: &str,
    detail: Option<&str>,
) -> (result: String)
    ensures
        result@ == control_id(
            prefix@,
            analysis_id,
            input_kind@,
            match detail {
                Some(text) => Some(text@),
                None => None,
            },
        ),
{
    let mut id = prefix.to_owned();
    id.push_str("-");
    id.push_str(decimal(analysis_id as u64).as_str());
    id.push_str("-");
    id.push_str(input_kind);
    let ghost head = id@;
    match detail {
        Some(text) => {
            id.push_str("-");
            id.push_str(text);
            proof {
                assert(id@ =~= head + ("-"@ + text@));
            }
        },
        None => {
            proof {
                assert(head =~= head + Seq::<char>::empty());
            }
        },
    }
    id
}

} // verus!

//! What holds of starting an analysis, of the calendar, of lists and menus, and of the numbers
//! and times that are shown.

use vstd::prelude::*;
use crate::agent::AgentBudgetSnapshot;
use crate::agent_dialog::{
    consent_text, is_request_of, shows_launch, LaunchAppearance, LaunchModel, LaunchRequest,
};
use crate::calendar::{days_before_month, days_before_year, month_length, CalendarDate};
use crate::clock::{moment_id, time_of_day, TraceTime};
use crate::context_menu::{action_suffix, list_height, MenuAction};
use crate::datetime_picker::{
    chosen_date, control_id, day_element_id, is_grid, month_heading, weekday_name,
    DateTimePickerDay, DateTimePickerValue,
};
use crate::dropdown::{shows_dropdown, Dropdown, DropdownAppearance};
use crate::keystroke::optional_text;
use crate::metrics::{
    answer_tokens, byte_text, duration_text, short_tokens, token_breakdown, usage_text,
    ScaledBudget,
};
use crate::text::{decimal_text, padded_text, signed_padded_text, trimmed, utf8_len};

verus! {

// ---------------------------------------------------------------------------
// Starting an analysis
// ---------------------------------------------------------------------------

/// A question is put where the dialog can be used, the question is not blank and has at most 4096
/// bytes, and a model is chosen; then it is put as typed, without the space around it, to that
/// model. Else nothing is put, and the dialog says what is wrong where it can be used.
pub proof fn law_question_is_put_to_the_chosen_model(
    dialog: LaunchModel,
    request: Option<LaunchRequest>,
)
    requires
        is_request_of(request, dialog),
    ensures
        ({
            let question = trimmed(dialog.question_input.value);
            let is_usable = dialog.unavailable_reason is None && !dialog.is_preparing;
            let has_model = dialog.selected_model < dialog.models.len();
            let is_put = is_usable && 0 < question.len() && utf8_len(question) <= 4096 && has_model;
            let after = dialog.submitted();
            &&& request is Some <==> is_put
            &&& request is Some ==> request->0.question@ == question
            &&& request is Some ==> request->0.model_profile_id@
                == dialog.models[dialog.selected_model as int].profile_id
            &&& is_put ==> after.is_preparing && after.error_message is None
            &&& !is_usable ==> after == dialog
            &&& is_usable && question.len() == 0 ==> after == (LaunchModel {
                error_message: Some("请输入希望 Agent 分析的问题"@),
                ..dialog
            })
            &&& is_usable && utf8_len(question) > 4096 && 0 < question.len() ==> after
                == (LaunchModel { error_message: Some("问题内容不能超过 4 KiB"@), ..dialog })
            &&& is_usable && 0 < question.len() && utf8_len(question) <= 4096 && !has_model
                ==> after == (LaunchModel {
                error_message: Some("当前没有可用于智能分析的模型"@),
                ..dialog
            })
            &&& after.question_input == dialog.question_input
            &&& after.selected_model == dialog.selected_model
        }),
{
}

/// Switching goes to the next model and from the last to the first, while nothing is prepared and
/// there is more than one; it clears the error.
pub proof fn law_launch_models_are_switched(dialog: LaunchModel)
    requires
        dialog.selected_model < dialog.models.len() <= usize::MAX,
    ensures
        ({
            let after = dialog.next_model_chosen();
            let switches = !dialog.is_preparing && dialog.models.len() > 1;
            &&& !switches ==> after == dialog
            &&& switches && dialog.selected_model + 1 < dialog.models.len() ==> after.selected_model
                == dialog.selected_model + 1
            &&& switches && dialog.selected_model + 1 == dialog.models.len()
                ==> after.selected_model == 0
            &&& switches ==> after.error_message is None && after.question_input
                == dialog.question_input && after.models == dialog.models
        }),
{
    let place = dialog.selected_model as int;
    let count = dialog.models.len() as int;
    if place + 1 < count {
        assert((place + 1) % count == place + 1) by (nonlinear_arith)
            requires
                0 <= place,
                place + 1 < count,
        ;
    } else {
        assert(count % count == 0) by (nonlinear_arith)
            requires
                count > 0,
        ;
    }
}

/// The dialog shows the scope, the chosen model, the consent and the error; while it prepares it
/// says so instead of the consent and takes no second question.
pub proof fn law_launch_dialog_shows_its_state(
    appearance: LaunchAppearance,
    dialog: LaunchModel,
    window: Seq<char>,
)
    requires
        shows_launch(appearance, dialog, window),
    ensures
        optional_text(appearance.unavailable_reason) == dialog.unavailable_reason,
        optional_text(appearance.error) == dialog.error_message,
        appearance.scope_text@ == "分析范围："@ + dialog.scope_label
            + "（开始后会完整扫描该来源根，不依赖树节点展开状态）"@,
        appearance.can_submit == !dialog.is_preparing,
        dialog.is_preparing ==> appearance.submit_label@ == "正在扫描…"@ && !appearance.can_switch
            && appearance.consent is None && appearance.scanning is Some,
        !dialog.is_preparing ==> appearance.submit_label@ == "开始分析"@ && appearance.scanning
            is None && appearance.can_switch == (dialog.models.len() > 1),
        !dialog.is_preparing && dialog.allow_raw_log_content ==> optional_text(appearance.consent)
            == Some(
            "已授权：Agent 可把工具裁剪并脱敏的必要日志片段发送到所选模型服务。"@,
        ),
        !dialog.is_preparing && !dialog.allow_raw_log_content ==> optional_text(appearance.consent)
            == Some("未授权日志原文：Agent 只能使用来源元数据和本地聚合结果。"@),
        dialog.allow_raw_log_content ==> appearance.consent_color is Warning,
        !dialog.allow_raw_log_content ==> appearance.consent_color is ForegroundMuted,
        dialog.selected_model < dialog.models.len() ==> {
            let model = dialog.models[dialog.selected_model as int];
            &&& appearance.model_lines matches Some(lines)
            &&& lines.0@ == "使用模型："@ + model.name
            &&& lines.1@ == model.model + " · 上下文 "@ + window + " · "@ + model.base_url
        },
        dialog.selected_model >= dialog.models.len() ==> appearance.model_lines is None,
        consent_text(true) != consent_text(false),
{
    reveal_strlit("已授权：Agent 可把工具裁剪并脱敏的必要日志片段发送到所选模型服务。");
    reveal_strlit("未授权日志原文：Agent 只能使用来源元数据和本地聚合结果。");
    assert(consent_text(true)[0] == '已');
    assert(consent_text(false)[0] == '未');
}

// ---------------------------------------------------------------------------
// The calendar
// ---------------------------------------------------------------------------

/// The day behind a day has the next number, within a month, across months and across years; the
/// first of January 1970 has number 719163 and is a Thursday; the days of the week follow each
/// other.
pub proof fn law_days_are_counted_one_by_one(date: CalendarDate, next: CalendarDate)
    requires
        date.is_real(),
        next.is_real(),
    ensures
        next.year == date.year && next.month == date.month && next.day == date.day + 1
            ==> next.day_number() == date.day_number() + 1,
        date.day == month_length(date.year as int, date.month as int) && next.year == date.year
            && next.month == date.month + 1 && next.day == 1 ==> next.day_number()
            == date.day_number() + 1,
        date.month == 12 && date.day == 31 && next.year == date.year + 1 && next.month == 1
            && next.day == 1 ==> next.day_number() == date.day_number() + 1,
        next.day_number() == date.day_number() + 1 && date.days_since_monday() < 6
            ==> next.days_since_monday() == date.days_since_monday() + 1,
        next.day_number() == date.day_number() + 1 && date.days_since_monday() == 6
            ==> next.days_since_monday() == 0,
        (CalendarDate { year: 1970, month: 1, day: 1 }).day_number() == 719163,
        (CalendarDate { year: 1970, month: 1, day: 1 }).days_since_monday() == 3,
{
    if date.month == 12 && date.day == 31 {
        lemma_months(date.year as int);
        lemma_year(date.year as int);
    }
    reveal_with_fuel(days_before_month, 2);
}

proof fn lemma_months(year: int)
    ensures
        days_before_month(year, 1) == 0,
        days_before_month(year, 12) == (if (year % 4 == 0 && year % 100 != 0) || year % 400 == 0 {
            335int
        } else {
            334int
        }),
{
    reveal_with_fuel(days_before_month, 13);
}

proof fn lemma_year(year: int)
    ensures
        days_before_year(year + 1) == days_before_year(year) + (if (year % 4 == 0 && year % 100
            != 0) || year % 400 == 0 {
            366int
        } else {
            365int
        }),
{
}

/// How long the months are: the second one has twenty-eight days, and twenty-nine in a leap year,
/// which is every fourth year but not every hundredth, except every four hundredth.
pub proof fn law_months_have_their_length(year: int)
    ensures
        month_length(year, 1) == 31 && month_length(year, 3) == 31 && month_length(year, 5) == 31
            && month_length(year, 7) == 31 && month_length(year, 8) == 31 && month_length(year, 10)
            == 31 && month_length(year, 12) == 31,
        month_length(year, 4) == 30 && month_length(year, 6) == 30 && month_length(year, 9) == 30
            && month_length(year, 11) == 30,
        year % 400 == 0 || (year % 4 == 0 && year % 100 != 0) ==> month_length(year, 2) == 29,
        year % 4 != 0 || (year % 100 == 0 && year % 400 != 0) ==> month_length(year, 2) == 28,
{
}

/// The days of the picker are six whole weeks: they begin on the Monday of the week in which the
/// chosen month begins and follow each other day by day. Each is marked by whether it lies in the
/// chosen month, is the chosen day, and is today.
pub proof fn law_picker_shows_six_weeks(
    days: Seq<DateTimePickerDay>,
    selected: CalendarDate,
    today: CalendarDate,
    i: int,
)
    requires
        is_grid(days, selected, today),
        0 <= i < 42,
    ensures
        days.len() == 42,
        ({
            let first = CalendarDate { year: selected.year, month: selected.month, day: 1 };
            let day = days[i];
            &&& (days[0].date.day_number() - 1) % 7 == 0
            &&& days[0].date.day_number() <= first.day_number() < days[0].date.day_number() + 7
            &&& day.date.day_number() == days[0].date.day_number() + i
            &&& day.date.is_real()
            &&& day.is_current_month <==> day.date.month == selected.month
            &&& day.is_selected <==> day.date == selected
            &&& day.is_today <==> day.date == today
        }),
{
}

/// The chosen day is the one that was given, where there is such a day.
pub proof fn law_given_day_is_chosen(value: DateTimePickerValue, fallback: CalendarDate)
    ensures
        ({
            let own = CalendarDate { year: value.year, month: value.month, day: value.day };
            &&& own.is_real() ==> chosen_date(value, fallback) == own
            &&& !own.is_real() ==> chosen_date(value, fallback) == fallback
        }),
{
}

/// The texts of the picker: its month with four digits for the year and two for the month, the
/// days of the week from Monday to Sunday, and the names of its elements.
pub proof fn law_picker_texts(
    value: DateTimePickerValue,
    analysis_id: usize,
    input_kind: Seq<char>,
    date: CalendarDate,
    prefix: Seq<char>,
    detail: Seq<char>,
)
    ensures
        month_heading(value) == signed_padded_text(value.year as int, 4) + " 年 "@ + padded_text(
            value.month as nat,
            2,
        ) + " 月"@,
        weekday_name(0) == "一"@ && weekday_name(1) == "二"@ && weekday_name(2) == "三"@,
        weekday_name(3) == "四"@ && weekday_name(4) == "五"@ && weekday_name(5) == "六"@,
        weekday_name(6) == "日"@,
        date.year >= 0 ==> day_element_id(analysis_id, input_kind, date) == "runtime-time-day-"@
            + decimal_text(analysis_id as nat) + "-"@ + input_kind + "-"@ + decimal_text(
            date.year as nat,
        ) + "-"@ + decimal_text(date.month as nat) + "-"@ + decimal_text(date.day as nat),
        control_id(prefix, analysis_id, input_kind, None) == prefix + "-"@ + decimal_text(
            analysis_id as nat,
        ) + "-"@ + input_kind,
        control_id(prefix, analysis_id, input_kind, Some(detail)) == control_id(
            prefix,
            analysis_id,
            input_kind,
            None,
        ) + ("-"@ + detail),
{
    let front = prefix + "-"@ + decimal_text(analysis_id as nat) + "-"@ + input_kind;
    assert(front + Seq::<char>::empty() =~= front);
}

// ---------------------------------------------------------------------------
// Lists and menus
// ---------------------------------------------------------------------------

/// A list is as high as its rows together, but at least as one row and at most as its limit.
pub proof fn law_list_is_as_high_as_its_rows(rows: int, height: int, most: int)
    requires
        0 <= rows,
        0 < height <= most,
    ensures
        height <= list_height(rows, height, most) <= most,
        rows == 0 ==> list_height(rows, height, most) == height,
        0 < rows && rows * height <= most ==> list_height(rows, height, most) == rows * height,
        rows * height > most ==> list_height(rows, height, most) == most,
{
    if rows > 0 {
        assert(rows * height >= height) by (nonlinear_arith)
            requires
                rows > 0,
                height > 0,
        ;
    } else {
        assert(rows * height == 0) by (nonlinear_arith)
            requires
                rows == 0,
        ;
    }
}

/// A dropdown shows the chosen label, else its placeholder, and one row for each item in order, of
/// which the chosen one stands out; its list is open where it is open and shows it itself.
pub proof fn law_dropdown_shows_its_items(appearance: DropdownAppearance, dropdown: Dropdown, i: int)
    requires
        shows_dropdown(appearance, dropdown),
        0 <= i < dropdown.items@.len(),
    ensures
        dropdown.selected_label@.len() > 0 ==> appearance.text@ == dropdown.selected_label@,
        dropdown.selected_label@.len() == 0 ==> appearance.text@ == dropdown.placeholder@,
        dropdown.is_open ==> appearance.icon is Collapse,
        !dropdown.is_open ==> appearance.icon is Expand,
        appearance.shows_menu <==> dropdown.is_open && dropdown.show_inline_menu,
        appearance.rows@.len() == dropdown.items@.len(),
        appearance.rows@[i].label@ == dropdown.items@[i].label@,
        appearance.rows@[i].item_id@ == dropdown.items@[i].id@,
        appearance.rows@[i].element_id@ == dropdown.id@ + "-item-"@ + dropdown.items@[i].id@,
        dropdown.items@[i].id@ == dropdown.selected_id@ ==> appearance.rows@[i].background
            is Selection,
        dropdown.items@[i].id@ != dropdown.selected_id@ ==> appearance.rows@[i].background
            is Content,
        dropdown.items@.len() <= 7 ==> appearance.menu_height == dropdown.items@.len() * 30,
        dropdown.items@.len() > 7 ==> appearance.menu_height == 220,
{
}

/// What the entries of a menu are called by.
pub proof fn law_menu_entries_have_their_names(tab_id: usize, source_id: u64)
    ensures
        action_suffix(MenuAction::ActivateTab { tab_id }) == "activate-tab-"@ + decimal_text(
            tab_id as nat,
        ),
        action_suffix(MenuAction::CloseTab { tab_id }) == "close-tab-"@ + decimal_text(
            tab_id as nat,
        ),
        action_suffix(MenuAction::CloseOtherTabs { tab_id }) == "close-other-tabs-"@
            + decimal_text(tab_id as nat),
        action_suffix(MenuAction::CloseAllTabs) == "close-all-tabs"@,
        action_suffix(MenuAction::ExpandAllSearchResults) == "expand-all-search-results"@,
        action_suffix(MenuAction::CollapseAllSearchResults) == "collapse-all-search-results"@,
        action_suffix(MenuAction::OpenJstackAnalysis { source_id }) == "open-jstack-analysis-"@
            + decimal_text(source_id as nat),
{
}

// ---------------------------------------------------------------------------
// Numbers and times
// ---------------------------------------------------------------------------

/// A time span is shown by its hours, minutes and seconds, from the largest that is there on; none
/// at all is shown as less than a second.
pub proof fn law_spans_are_shown_in_parts(span: u64, hours: nat, minutes: nat, seconds: nat)
    requires
        minutes < 60,
        seconds < 60,
        span == hours * 3600 + minutes * 60 + seconds,
    ensures
        span == 0 ==> duration_text(span) == "< 1 秒"@,
        hours == 0 && minutes == 0 && seconds > 0 ==> duration_text(span) == decimal_text(seconds)
            + " 秒"@,
        hours == 0 && minutes > 0 ==> duration_text(span) == decimal_text(minutes) + " 分 "@
            + decimal_text(seconds) + " 秒"@,
        hours > 0 ==> duration_text(span) == decimal_text(hours) + " 小时 "@ + decimal_text(minutes)
            + " 分 "@ + decimal_text(seconds) + " 秒"@,
{
    assert(span as nat / 3600 == hours);
    assert(span as nat % 3600 / 60 == minutes);
    assert(span as nat % 60 == seconds);
    if hours == 0 {
        assert(span as nat / 60 == minutes);
    }
}

/// A moment is shown by the hour, the minute and the second of its day, two digits each.
pub proof fn law_moments_are_shown_by_the_clock(
    moment: TraceTime,
    day: int,
    hour: nat,
    minute: nat,
    second: nat,
)
    requires
        hour < 24,
        minute < 60,
        second < 60,
        moment.seconds == day * 86400 + hour * 3600 + minute * 60 + second,
    ensures
        time_of_day(moment) == padded_text(hour, 2) + seq![':'] + padded_text(minute, 2) + seq![
            ':',
        ] + padded_text(second, 2),
{
    let rest = (hour * 3600 + minute * 60 + second) as int;
    assert(moment.seconds as int % 86400 == rest);
    assert(rest / 3600 == hour);
    assert(rest / 60 % 60 == minute);
    assert(rest % 60 == second);
}

/// A moment is known by its nanoseconds, or by its microseconds where those do not fit in 64 bits.
pub proof fn law_moments_are_known_by_their_time(moment: TraceTime)
    requires
        moment.is_valid(),
    ensures
        ({
            let nanos = moment.seconds * 1_000_000_000 + moment.nanos;
            &&& i64::MIN <= nanos <= i64::MAX ==> moment_id(moment) == nanos
            &&& !(i64::MIN <= nanos <= i64::MAX) ==> moment_id(moment) == moment.seconds
                * 1_000_000 + moment.nanos as int / 1_000
        }),
{
}

/// Tokens are shown one by one below a thousand, in thousands below a million, else in millions.
pub proof fn law_tokens_are_scaled(tokens: u64, scaled: Seq<char>)
    ensures
        tokens < 1000 ==> short_tokens(tokens, scaled) == decimal_text(tokens as nat),
        1000 <= tokens < 1_000_000 ==> short_tokens(tokens, scaled) == scaled + "K"@,
        1_000_000 <= tokens ==> short_tokens(tokens, scaled) == scaled + "M"@,
{
}

/// Bytes are shown in KiB below a MiB, in MiB below a GiB, else in GiB.
pub proof fn law_bytes_are_scaled(bytes: u64, scaled: Seq<char>)
    ensures
        bytes < 1024 * 1024 ==> byte_text(bytes, scaled) == scaled + " KiB"@,
        1024 * 1024 <= bytes < 1024 * 1024 * 1024 ==> byte_text(bytes, scaled) == scaled + " MiB"@,
        1024 * 1024 * 1024 <= bytes ==> byte_text(bytes, scaled) == scaled + " GiB"@,
{
}

/// What an answer took is its total, or, where none was reported, what went in and what came out.
pub proof fn law_answer_tokens(budget: AgentBudgetSnapshot)
    ensures
        budget.total_tokens > 0 ==> answer_tokens(budget) == budget.total_tokens,
        budget.total_tokens == 0 && budget.input_tokens + budget.output_tokens <= u64::MAX
            ==> answer_tokens(budget) == budget.input_tokens + budget.output_tokens,
        budget.total_tokens == 0 && budget.input_tokens + budget.output_tokens > u64::MAX
            ==> answer_tokens(budget) == u64::MAX,
{
}

/// The tokens that went in and came out are told, and those for thinking where there were any.
pub proof fn law_token_parts_are_told(budget: AgentBudgetSnapshot, scaled: ScaledBudget)
    ensures
        ({
            let shared = "入 "@ + short_tokens(budget.input_tokens, scaled.input_tokens@)
                + " · 出 "@ + short_tokens(budget.output_tokens, scaled.output_tokens@);
            &&& budget.reasoning_tokens == 0 ==> token_breakdown(budget, scaled) == shared
            &&& budget.reasoning_tokens > 0 ==> token_breakdown(budget, scaled) == shared
                + " · 思考 "@ + short_tokens(budget.reasoning_tokens, scaled.reasoning_tokens@)
        }),
{
}

/// The line below the assistant shows its error, else its tokens and how full the context is.
pub proof fn law_usage_line(
    budget: AgentBudgetSnapshot,
    context_window: u64,
    error: Option<Seq<char>>,
    total: Seq<char>,
    input: Seq<char>,
    percentage: Seq<char>,
)
    ensures
        ({
            let line = usage_text(budget, context_window, error, total, input, percentage);
            let front = "Token "@ + short_tokens(answer_tokens(budget), total) + " · "@;
            &&& error is Some ==> line == error->0
            &&& error is None && budget.latest_input_tokens is None ==> line == front
                + "上下文 --"@
            &&& error is None && budget.latest_input_tokens is Some && context_window == 0 ==> line
                == front + ("上下文 "@ + short_tokens(budget.latest_input_tokens->0, input))
            &&& error is None && budget.latest_input_tokens is Some && context_window > 0 ==> line
                == front + ("上下文 "@ + percentage + "%"@)
        }),
{
}

} // verus!

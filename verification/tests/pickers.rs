//! The calendar, the menus, the buttons and the icons.

use argus_ui::calendar::CalendarDate;
use argus_ui::context_menu::{
    bounded_list_height, entry_appearance, menu_height, menu_width, ActiveMenuKind, MenuAction,
    MenuEntry,
};
use argus_ui::datetime_picker::{
    control_element_id, datetime_picker_days, datetime_picker_days_on, day_appearance, month_title,
    time_part_text, weekday_label, DateTimePickerValue,
};
use argus_ui::dialogs::{
    activity_button, password_description, text_button_background, title_press,
    ArchivePasswordErrorKind, TitlePress, Workspace,
};
use argus_ui::dropdown::{dropdown_appearance, Dropdown, DropdownItem};
use argus_ui::icon::ArgusIcon;
use argus_ui::icon_button::{icon_button_appearance, IconButtonShape, IconButtonSize};
use argus_ui::placeholders::{
    SearchBoxPlaceholder, SplitPanePlaceholder, TreeViewPlaceholder, VirtualListPlaceholder,
};
use argus_ui::theme::ThemeColor;
use chrono::{Datelike, Local, NaiveDate};

fn date(year: i32, month: u32, day: u32) -> CalendarDate {
    CalendarDate { year, month, day }
}

fn value(year: i32, month: u32, day: u32) -> DateTimePickerValue {
    DateTimePickerValue { year, month, day, hour: 0, minute: 0, second: 0 }
}

#[test]
fn datetime_picker_days_start_on_monday_and_keep_six_weeks() {
    let days = datetime_picker_days(&DateTimePickerValue {
        year: 2026,
        month: 6,
        day: 25,
        hour: 0,
        minute: 0,
        second: 0,
    })
    .unwrap();

    assert_eq!(days.len(), 42);
    assert_eq!(
        days.first().map(|day| {
            NaiveDate::from_ymd_opt(day.date.year, day.date.month, day.date.day).unwrap()
        }),
        NaiveDate::from_ymd_opt(2026, 6, 1)
    );
    assert!(days.iter().any(|day| day.is_selected));
}

#[test]
fn the_grid_goes_on_day_by_day() {
    let days = datetime_picker_days_on(&value(2024, 2, 29), date(2026, 1, 1), date(2024, 3, 1));
    let first = NaiveDate::from_ymd_opt(2024, 1, 29).unwrap();
    for (place, day) in days.iter().enumerate() {
        let expected = first + chrono::Duration::days(place as i64);
        assert_eq!(
            (day.date.year, day.date.month, day.date.day),
            (expected.year(), expected.month(), expected.day())
        );
        assert_eq!(day.is_current_month, expected.month() == 2);
    }
    assert_eq!(days.iter().filter(|day| day.is_selected).count(), 1);
    assert!(days.iter().find(|day| day.is_today).unwrap().date == date(2024, 3, 1));
}

#[test]
fn an_impossible_month_gives_way_to_the_present_one() {
    let days = datetime_picker_days_on(&value(2024, 13, 1), date(2024, 5, 20), date(2024, 5, 20));
    let chosen = days.iter().find(|day| day.is_selected).unwrap();
    assert_eq!(chosen.date, date(2024, 5, 20));
}

#[test]
fn today_is_marked() {
    let before = Local::now().date_naive();
    let shown = value(before.year(), before.month(), before.day());
    let days = datetime_picker_days(&shown).unwrap();
    let after = Local::now().date_naive();
    if before == after {
        let today = days.iter().find(|day| day.is_today).unwrap();
        assert_eq!(today.date, date(before.year(), before.month(), before.day()));
        assert!(today.is_selected);
    }
}

#[test]
fn the_picker_writes_its_parts_with_zeros() {
    assert_eq!(time_part_text(7), "07");
    assert_eq!(month_title(&value(2026, 6, 1)), "2026 年 06 月");
    assert_eq!(weekday_label(0), "一");
    assert_eq!(weekday_label(6), "日");
    let first = control_element_id("datetime", 3, "start", None);
    let second = control_element_id("datetime", 3, "end", None);
    assert_ne!(first, second);
}

#[test]
fn the_chosen_day_stands_out() {
    let days = datetime_picker_days_on(&value(2026, 6, 25), date(2026, 6, 1), date(2026, 6, 2));
    let chosen = days.iter().find(|day| day.is_selected).unwrap();
    let appearance = day_appearance(1, "start", chosen);
    assert_eq!(appearance.label, "25");
    assert_eq!(appearance.background, ThemeColor::Info);
}

#[test]
fn menu_entries_are_told_apart_by_their_action() {
    let close = MenuEntry::new("关闭".to_string(), MenuAction::CloseTab { tab_id: 3 }).danger();
    let appearance = entry_appearance(&close);
    assert_eq!(appearance.element_id, "context-menu-entry-close-tab-3");
    assert_eq!(appearance.foreground, ThemeColor::Error);
    assert_eq!(appearance.background, ThemeColor::Content);
    let chosen = MenuEntry::new("标签".to_string(), MenuAction::CloseAllTabs).selected(true);
    assert_eq!(entry_appearance(&chosen).background, ThemeColor::Selection);
    assert_eq!(MenuAction::OpenJstackAnalysis { source_id: 9 }.id_suffix(), "open-jstack-analysis-9");
}

#[test]
fn menus_are_as_high_as_they_may_be() {
    assert_eq!(menu_width(ActiveMenuKind::TabOverflow), 220);
    assert_eq!(menu_width(ActiveMenuKind::SourceTree { source_id: 1 }), 178);
    assert_eq!(bounded_list_height(0, 30, 220), 30);
    assert_eq!(bounded_list_height(3, 30, 220), 90);
    assert_eq!(bounded_list_height(usize::MAX, 30, 220), 220);
    assert!(menu_height(100) <= 280);
}

#[test]
fn a_dropdown_shows_its_choice() {
    let dropdown = Dropdown {
        id: "encoding",
        selected_id: "utf8".to_string(),
        selected_label: String::new(),
        placeholder: "选择编码",
        is_open: true,
        items: vec![
            DropdownItem { id: "utf8".to_string(), label: "UTF-8".to_string() },
            DropdownItem { id: "gbk".to_string(), label: "GBK".to_string() },
        ],
        show_inline_menu: true,
    };
    let appearance = dropdown_appearance(&dropdown);
    assert_eq!(appearance.text, "选择编码");
    assert_eq!(appearance.button_id, "encoding-button");
    assert!(appearance.shows_menu);
    assert_eq!(appearance.menu_height, 60);
    assert_eq!(appearance.rows[0].background, ThemeColor::Selection);
    assert_eq!(appearance.rows[1].background, ThemeColor::Content);
    assert_eq!(appearance.rows[1].element_id, "encoding-item-gbk");
}

#[test]
fn every_icon_has_a_file_of_its_own() {
    let icons = ArgusIcon::all();
    for icon in &icons {
        assert_eq!(ArgusIcon::from_path(icon.path()), Some(*icon));
        assert!(icon.path().ends_with(icon.file_name()));
        let drawing = icon.to_svg_string();
        assert!(drawing.starts_with("<svg"));
        assert!(drawing.ends_with("</svg>"));
    }
    assert_eq!(ArgusIcon::from_path("icons/none.svg"), None);
}

#[test]
fn icons_are_drawn_from_the_collection() {
    let drawings = [
        (ArgusIcon::Logs, icondata::LuLogs),
        (ArgusIcon::Settings, icondata::LuSettings),
        (ArgusIcon::Info, icondata::LuInfo),
        (ArgusIcon::Open, icondata::LuFolderOpen),
        (ArgusIcon::FolderPlus, icondata::LuFolderPlus),
        (ArgusIcon::Search, icondata::LuSearch),
        (ArgusIcon::QuickSearch, icondata::LuZap),
        (ArgusIcon::SmartAnalysis, icondata::LuSparkles),
        (ArgusIcon::Filter, icondata::LuListFilter),
        (ArgusIcon::Connection, icondata::LuPlug),
        (ArgusIcon::Link, icondata::LuLink),
        (ArgusIcon::GitBranch, icondata::LuGitBranch),
        (ArgusIcon::History, icondata::LuHistory),
        (ArgusIcon::Terminal, icondata::LuTerminal),
        (ArgusIcon::Plus, icondata::LuPlus),
        (ArgusIcon::Minus, icondata::LuMinus),
        (ArgusIcon::Close, icondata::LuX),
        (ArgusIcon::WindowMaximize, icondata::LuSquare),
        (ArgusIcon::WindowRestore, icondata::LuCopy),
        (ArgusIcon::Layout, icondata::LuPanelLeft),
        (ArgusIcon::More, icondata::LuEllipsis),
        (ArgusIcon::ArrowLeft, icondata::LuArrowLeft),
        (ArgusIcon::ArrowUp, icondata::LuArrowUp),
        (ArgusIcon::ArrowRight, icondata::LuArrowRight),
        (ArgusIcon::ArrowDown, icondata::LuArrowDown),
        (ArgusIcon::Refresh, icondata::LuRefreshCw),
        (ArgusIcon::Upload, icondata::LuUpload),
        (ArgusIcon::Download, icondata::LuDownload),
        (ArgusIcon::Save, icondata::LuSave),
        (ArgusIcon::Rename, icondata::LuPencil),
        (ArgusIcon::Trash, icondata::LuTrash2),
        (ArgusIcon::Collapse, icondata::LuChevronDown),
        (ArgusIcon::ListCollapse, icondata::LuListCollapse),
        (ArgusIcon::Expand, icondata::LuChevronRight),
        (ArgusIcon::Wrap, icondata::LuWrapText),
        (ArgusIcon::Folder, icondata::LuFolder),
        (ArgusIcon::FolderOpen, icondata::LuFolderOpen),
        (ArgusIcon::File, icondata::LuFile),
        (ArgusIcon::FileText, icondata::LuFileText),
        (ArgusIcon::Archive, icondata::LuArchive),
        (ArgusIcon::Palette, icondata::LuPalette),
        (ArgusIcon::Type, icondata::LuType),
        (ArgusIcon::Database, icondata::LuDatabase),
        (ArgusIcon::Keyboard, icondata::LuKeyboard),
        (ArgusIcon::Key, icondata::LuKeyRound),
        (ArgusIcon::CaseSensitive, icondata::LuCaseSensitive),
        (ArgusIcon::Regex, icondata::LuRegex),
        (ArgusIcon::WholeWord, icondata::LuWholeWord),
        (ArgusIcon::ToggleLeft, icondata::LuToggleLeft),
        (ArgusIcon::ToggleRight, icondata::LuToggleRight),
    ];
    assert_eq!(drawings.len(), ArgusIcon::all().len());
    for (icon, drawing) in drawings {
        assert!(icon.to_svg_string().contains(drawing.data), "{icon:?}");
    }
}

#[test]
fn buttons_and_bars_look_as_they_should() {
    let small = icon_button_appearance(
        true,
        IconButtonSize::Small,
        IconButtonShape::RoundedRectangle,
    );
    assert_eq!((small.button_size, small.icon_size), (28, 16));
    assert_eq!(small.background, Some(ThemeColor::Selection));
    let tiny = icon_button_appearance(false, IconButtonSize::Tiny, IconButtonShape::Circle);
    assert_eq!((tiny.button_size, tiny.icon_size), (24, 14));
    assert_eq!(tiny.background, None);
    assert!(activity_button(Workspace::Settings, Workspace::Settings).is_active);
    assert_ne!(
        password_description(ArchivePasswordErrorKind::Required),
        password_description(ArchivePasswordErrorKind::Invalid)
    );
    assert_ne!(text_button_background(true), text_button_background(false));
    assert_eq!(title_press(1), TitlePress::Drag);
    assert_eq!(title_press(2), TitlePress::Zoom);
}

#[test]
fn placeholders_say_what_they_are_for() {
    assert!(!SearchBoxPlaceholder.responsibility().is_empty());
    assert!(!SplitPanePlaceholder.responsibility().is_empty());
    assert!(!TreeViewPlaceholder.responsibility().is_empty());
    assert!(!VirtualListPlaceholder.responsibility().is_empty());
}

use vastai_cli::api::{check_list_status, list_call, maintenance_call, unlist_call, Method};
use vastai_cli::config::Config;
use vastai_cli::datetime::{is_stamp_text, parse_start_date, replace_spaces, DateError};
use vastai_cli::confirm::{confirm_reply, confirm_step, ConfirmReply, ConfirmState};
use vastai_cli::handlers::{handle_list, handle_maint, handle_unlist, ListOutcome};
use vastai_cli::models::{saved_machines, Machine, MaintRequest, SavedMachine, UnlistRequest};
use vastai_cli::presenter::{
    earning_cell, fixed_point, header_row, is_rented_upper, machine_row, machine_table, mask_authorization,
    occupancy_counts, occupancy_display, reliability_cell, rule_line, temp_cell,
};
use vastai_cli::prompts::{
    category_at, chosen_machine_id, default_reason, machine_choices, offers_menu,
    DEFAULT_DURATION,
};
use vastai_cli::text::{decimal, decimal_zero_padded, is_whitespace, pad, trim};

fn bare_machine(id: u64, hostname: &str) -> Machine {
    Machine {
        machine_id: id,
        hostname: hostname.to_string(),
        gpu_max_cur_temp: None,
        reliability2: None,
        gpu_occupancy: None,
        earn_hour: None,
        driver_version: None,
    }
}

fn row(cells: [&str; 7]) -> String {
    format!(
        "{:<12} {:<20} {:<12} {:<12} {:<15} {:<12} {:<15}",
        cells[0], cells[1], cells[2], cells[3], cells[4], cells[5], cells[6]
    )
}

#[test]
fn decimal_writes_digits() {
    assert_eq!(decimal(0), "0");
    assert_eq!(decimal(7), "7");
    assert_eq!(decimal(1200), "1200");
    assert_eq!(decimal(u64::MAX), "18446744073709551615");
}

#[test]
fn zero_padding_and_right_padding() {
    assert_eq!(decimal_zero_padded(5, 4), "0005");
    assert_eq!(decimal_zero_padded(12345, 4), "12345");
    assert_eq!(pad("ab", 5), "ab   ");
    assert_eq!(pad("abcdef", 3), "abcdef");
}

#[test]
fn trim_removes_unicode_whitespace() {
    assert_eq!(trim("  key\t\n"), "key");
    assert_eq!(trim("\u{3000}key\u{3000}"), "key");
    assert_eq!(trim(" a b "), "a b");
    assert_eq!(trim("   "), "");
    assert_eq!(trim(""), "");
}

#[test]
fn fixed_point_formats() {
    assert_eq!(fixed_point(415, 1), "41.5");
    assert_eq!(fixed_point(-5, 1), "-0.5");
    assert_eq!(fixed_point(9950, 2), "99.50");
    assert_eq!(fixed_point(2500, 4), "0.2500");
    assert_eq!(fixed_point(0, 2), "0.00");
    assert_eq!(fixed_point(i64::MIN, 1), "-922337203685477580.8");
}

#[test]
fn metric_cells() {
    assert_eq!(temp_cell(Some(415)), "41.5°C");
    assert_eq!(temp_cell(None), "N/A");
    assert_eq!(reliability_cell(Some(9950)), "99.50%");
    assert_eq!(reliability_cell(None), "N/A");
    assert_eq!(earning_cell(Some(2500)), "$0.2500/h");
    assert_eq!(earning_cell(None), "N/A");
}

#[test]
fn occupancy_counts_rented_codes() {
    assert_eq!(occupancy_display(&Some("D I _ _".to_string())), "2/4");
    assert_eq!(occupancy_counts("D I _ _"), (2, 4));
}

#[test]
fn occupancy_ignores_case_and_spacing() {
    assert_eq!(occupancy_counts("  d   i\tx "), (2, 3));
    assert_eq!(occupancy_counts("DD II"), (0, 2));
    assert_eq!(occupancy_counts(""), (0, 0));
    assert_eq!(occupancy_display(&Some(String::new())), "0/0");
    assert_eq!(occupancy_display(&None), "N/A");
}

#[test]
fn mask_keeps_last_four() {
    assert_eq!(mask_authorization("sk_abcd1234"), "Bearer ********1234");
    assert_eq!(mask_authorization("abc"), "Bearer ********abc");
    assert_eq!(mask_authorization(""), "Bearer ********");
}

#[test]
fn header_and_rule() {
    assert_eq!(
        header_row(),
        row(["Machine ID", "Hostname", "GPU Temp", "Reliability", "GPU Occupancy", "Earning", "Driver Ver"])
    );
    assert_eq!(rule_line(), "=".repeat(120));
}

#[test]
fn missing_metrics_render_na() {
    let m = bare_machine(3, "host-3");
    assert_eq!(machine_row(&m), row(["3", "host-3", "N/A", "N/A", "N/A", "N/A", "N/A"]));
}

#[test]
fn full_machine_row() {
    let m = Machine {
        machine_id: 12,
        hostname: "rig".to_string(),
        gpu_max_cur_temp: Some(415),
        reliability2: Some(9950),
        gpu_occupancy: Some("D _ I".to_string()),
        earn_hour: Some(2500),
        driver_version: Some("535.54".to_string()),
    };
    assert_eq!(
        machine_row(&m),
        row(["12", "rig", "41.5°C", "99.50%", "2/3", "$0.2500/h", "535.54"])
    );
}

#[test]
fn table_lines() {
    let machines = vec![bare_machine(1, "a"), bare_machine(2, "b")];
    let lines = machine_table(&machines);
    assert_eq!(lines.len(), 6);
    assert_eq!(lines[0], "=".repeat(120));
    assert_eq!(lines[1], header_row());
    assert_eq!(lines[2], "=".repeat(120));
    assert_eq!(lines[3], machine_row(&machines[0]));
    assert_eq!(lines[4], machine_row(&machines[1]));
    assert_eq!(lines[5], "=".repeat(120));
}

#[test]
fn list_of_one_bare_machine_is_shown_and_cached() {
    let outcome = handle_list(Ok(vec![bare_machine(7, "gpu-7")]));
    match outcome {
        ListOutcome::Shown { table, cache } => {
            assert_eq!(table.len(), 5);
            assert_eq!(table[3], row(["7", "gpu-7", "N/A", "N/A", "N/A", "N/A", "N/A"]));
            assert_eq!(cache.len(), 1);
            assert_eq!(cache[0].machine_id, 7);
            assert_eq!(cache[0].hostname, "gpu-7");
        }
        ListOutcome::Failed { .. } => panic!("listing failed"),
    }
}

#[test]
fn list_failure_is_reported() {
    match handle_list(Err("timeout".to_string())) {
        ListOutcome::Failed { message } => {
            assert_eq!(message, "Failed to list machines: timeout")
        }
        ListOutcome::Shown { .. } => panic!("failure shown as success"),
    }
}

#[test]
fn list_status_check() {
    assert!(check_list_status(200, "200 OK").is_ok());
    assert!(check_list_status(204, "204 No Content").is_ok());
    assert_eq!(
        check_list_status(404, "404 Not Found"),
        Err("Request failed with status: 404 Not Found".to_string())
    );
    assert!(check_list_status(302, "302 Found").is_err());
}

#[test]
fn calls_of_the_three_commands() {
    let c = maintenance_call(5, "k1", "{}".to_string());
    assert_eq!(c.method, Method::Put);
    assert_eq!(c.url, "https://console.vast.ai/api/v0/machines/5/dnotify");
    assert_eq!(c.authorization, "Bearer k1");
    assert_eq!(c.body, Some("{}".to_string()));
    let l = list_call("k2");
    assert_eq!(l.method, Method::Get);
    assert_eq!(l.url, "https://console.vast.ai/api/v0/machines");
    assert_eq!(l.authorization, "Bearer k2");
    assert_eq!(l.body, None);
    let u = unlist_call(9, "k3", "{\"id\":9}".to_string());
    assert_eq!(u.method, Method::Post);
    assert_eq!(u.url, "https://console.vast.ai/api/v0/instances/9/unlist");
    assert_eq!(u.method.name(), "POST");
}

#[test]
fn unlist_accepted_sends_post() {
    let call = handle_unlist(42, "{\"id\":42}".to_string(), true, "sk_abcd1234").unwrap();
    assert_eq!(call.method, Method::Post);
    assert_eq!(call.url, "https://console.vast.ai/api/v0/instances/42/unlist");
    assert_eq!(call.authorization, "Bearer sk_abcd1234");
    assert_eq!(call.body, Some("{\"id\":42}".to_string()));
}

#[test]
fn cancelled_commands_make_no_call() {
    assert!(handle_unlist(42, "{}".to_string(), false, "k").is_none());
    assert!(handle_maint(42, "{}".to_string(), false, "k").is_none());
    let call = handle_maint(42, "{}".to_string(), true, "k").unwrap();
    assert_eq!(call.url, "https://console.vast.ai/api/v0/machines/42/dnotify");
}

#[test]
fn confirmation_replies() {
    assert_eq!(confirm_reply("accept"), ConfirmReply::Accept);
    assert_eq!(confirm_reply("ACCEPT"), ConfirmReply::Accept);
    assert_eq!(confirm_reply("Cancel"), ConfirmReply::Cancel);
    assert_eq!(confirm_reply("yes"), ConfirmReply::Invalid);
    assert_eq!(confirm_reply(" accept"), ConfirmReply::Invalid);
    assert_eq!(confirm_reply(""), ConfirmReply::Invalid);
}

#[test]
fn confirmation_transitions() {
    let s = confirm_step(ConfirmState::Preview, "maybe");
    assert_eq!(s, ConfirmState::Preview);
    assert_eq!(confirm_step(s, "AcCePt"), ConfirmState::Confirmed);
    assert_eq!(confirm_step(ConfirmState::Preview, "CANCEL"), ConfirmState::Cancelled);
    assert_eq!(confirm_step(ConfirmState::Cancelled, "accept"), ConfirmState::Cancelled);
    assert_eq!(confirm_step(ConfirmState::Confirmed, "cancel"), ConfirmState::Confirmed);
}

#[test]
fn valid_start_date_keeps_wall_clock() {
    let out = parse_start_date("2025-12-23 14:30").unwrap();
    assert_eq!(out.len(), 25);
    assert!(out.starts_with("2025-12-23T14:30:00"));
    let offset = &out[19..];
    assert!(offset.starts_with('+') || offset.starts_with('-'));
    assert_eq!(&offset[3..4], ":");
}

#[test]
fn malformed_start_dates_are_rejected() {
    assert_eq!(parse_start_date("13/40/2025"), Err(DateError::InvalidFormat));
    assert_eq!(parse_start_date("notadate"), Err(DateError::InvalidFormat));
    assert_eq!(parse_start_date("2025-02-30 10:00"), Err(DateError::InvalidFormat));
    assert_eq!(parse_start_date("2025-12-23 24:00"), Err(DateError::InvalidFormat));
    assert_eq!(parse_start_date(""), Err(DateError::InvalidFormat));
    assert_eq!(
        DateError::InvalidFormat.message(),
        "Invalid date format! Please use YYYY-MM-DD HH:MM (e.g., 2025-12-23 14:30)"
    );
}

#[test]
fn leap_day_is_accepted() {
    let out = parse_start_date("2024-02-29 00:00").unwrap();
    assert!(out.starts_with("2024-02-29T00:00:00"));
}

#[test]
fn spaces_become_t() {
    assert_eq!(replace_spaces("2025-12-23 14:30"), "2025-12-23T14:30");
    assert_eq!(replace_spaces(" a b"), "TaTb");
}

#[test]
fn config_keys() {
    assert_eq!(Config::new().api_key_path, "vast_key");
    assert_eq!(Config::key_from_file("  sk_x \n"), Some("sk_x".to_string()));
    assert_eq!(Config::key_from_file(" \n"), None);
    assert_eq!(Config::key_from_prompt(" sk_y"), Ok("sk_y".to_string()));
    assert_eq!(Config::key_from_prompt(""), Err("API key cannot be empty".to_string()));
}

#[test]
fn prompt_defaults_and_categories() {
    assert_eq!(DEFAULT_DURATION, 2);
    assert_eq!(default_reason(), "Routine hardware check");
    assert_eq!(category_at(0), Some("software".to_string()));
    assert_eq!(category_at(1), Some("hardware".to_string()));
    assert_eq!(category_at(2), Some("network".to_string()));
    assert_eq!(category_at(3), Some("other".to_string()));
    assert_eq!(category_at(4), None);
}

#[test]
fn selection_menu() {
    let saved = vec![
        SavedMachine { machine_id: 7, hostname: "gpu-7".to_string() },
        SavedMachine { machine_id: 9, hostname: "gpu-9".to_string() },
    ];
    assert_eq!(
        machine_choices(&saved),
        vec!["7 - gpu-7".to_string(), "9 - gpu-9".to_string(), "Enter custom machine ID".to_string()]
    );
    assert_eq!(chosen_machine_id(&saved, 1), Some(9));
    assert_eq!(chosen_machine_id(&saved, 2), None);
    assert!(offers_menu(&Some(saved)));
    assert!(!offers_menu(&Some(Vec::new())));
    assert!(!offers_menu(&None));
}

#[test]
fn requests_keep_their_fields() {
    let r = MaintRequest::new("2025-12-23T14:30:00+00:00".to_string(), 2, "check".to_string(), "software".to_string());
    assert_eq!(r.sdate, "2025-12-23T14:30:00+00:00");
    assert_eq!(r.duration, 2);
    assert_eq!(r.maintenance_reason, "check");
    assert_eq!(r.maintenance_category, "software");
    assert_eq!(UnlistRequest::new(42).id, 42);
}

#[test]
fn projection_keeps_order() {
    let saved = saved_machines(&vec![bare_machine(2, "b"), bare_machine(1, "a")]);
    assert_eq!(saved.len(), 2);
    assert_eq!((saved[0].machine_id, saved[0].hostname.as_str()), (2, "b"));
    assert_eq!((saved[1].machine_id, saved[1].hostname.as_str()), (1, "a"));
}

#[test]
fn whitespace_matches_std() {
    for code in 0u32..=0x10FFFF {
        if let Some(c) = char::from_u32(code) {
            assert_eq!(is_whitespace(c), c.is_whitespace(), "U+{:04X}", code);
        }
    }
}

#[test]
fn rented_codes_in_upper_case() {
    assert!(is_rented_upper("D"));
    assert!(is_rented_upper("I"));
    assert!(!is_rented_upper("_"));
    assert!(!is_rented_upper("d"));
    assert!(!is_rented_upper("DI"));
    assert!(!is_rented_upper(""));
}

#[test]
fn stamp_shape() {
    assert!(is_stamp_text("2025-12-23 14:30"));
    assert!(is_stamp_text("2025-13-40 99:99"));
    assert!(!is_stamp_text("2025-12-23T14:30"));
    assert!(!is_stamp_text("2025-1-23 14:30"));
    assert!(!is_stamp_text("+10000-01-01 00:00"));
    assert!(!is_stamp_text("13/40/2025"));
}

#[test]
fn only_the_typed_shape_is_accepted() {
    assert_eq!(parse_start_date("+10000-01-01 00:00"), Err(DateError::InvalidFormat));
    assert_eq!(parse_start_date("2025-12-23T14:30"), Err(DateError::InvalidFormat));
    assert_eq!(parse_start_date("2025-1-5 3:04"), Err(DateError::InvalidFormat));
    assert_eq!(parse_start_date(" 2025-12-23 14:30"), Err(DateError::InvalidFormat));
    assert_eq!(parse_start_date("2025-13-01 10:00"), Err(DateError::InvalidFormat));
}

#[test]
fn accepted_date_reads_back() {
    let input = "2024-07-01 09:05";
    let out = parse_start_date(input).unwrap();
    assert_eq!(&out[0..16], input.replace(' ', "T"));
    assert_eq!(&out[16..19], ":00");
    assert!(chrono::DateTime::parse_from_rfc3339(&out).is_ok());
}

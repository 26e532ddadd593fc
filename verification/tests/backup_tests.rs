use flashnotes::backup::backup_file_name;
use flashnotes::backup::get_backup_dir;
use flashnotes::backup::get_last_backup_time;
use flashnotes::backup::needs_backup;
use flashnotes::backup::parse_backup_timestamp;
use flashnotes::backup::select_backups_to_remove;
use flashnotes::num::parse_i32;
use flashnotes::num::u64_to_string;

#[test]
fn backup_names_embed_the_timestamp() {
    assert_eq!(backup_file_name(1700000000), "flashnotes_1700000000.db");
    assert_eq!(backup_file_name(0), "flashnotes_0.db");
}

#[test]
fn backup_name_parses_back() {
    for ts in [0u64, 7, 1700000000, u64::MAX] {
        let name = backup_file_name(ts);
        assert_eq!(parse_backup_timestamp(&name), Some(ts));
    }
}

#[test]
fn foreign_names_do_not_parse() {
    assert_eq!(parse_backup_timestamp("flashnotes_.db"), None);
    assert_eq!(parse_backup_timestamp("notes_5.db"), None);
    assert_eq!(parse_backup_timestamp("flashnotes_12x.db"), None);
    assert_eq!(parse_backup_timestamp("flashnotes_premigration_5.db"), None);
    assert_eq!(parse_backup_timestamp("flashnotes_5.db.bak"), None);
    assert_eq!(parse_backup_timestamp(""), None);
    assert_eq!(parse_backup_timestamp("flashnotes_18446744073709551616.db"), None);
}

#[test]
fn timestamp_parsing_matches_std_on_a_leading_plus() {
    assert_eq!("+5".parse::<u64>(), Ok(5));
    assert_eq!(parse_backup_timestamp("flashnotes_+5.db"), Some(5));
}

#[test]
fn last_backup_time_is_the_newest() {
    let names = vec![
        "flashnotes_100.db".to_string(),
        "junk.txt".to_string(),
        "flashnotes_300.db".to_string(),
        "flashnotes_200.db".to_string(),
    ];
    assert_eq!(get_last_backup_time(&names), 300);
    assert_eq!(get_last_backup_time(&Vec::new()), 0);
}

#[test]
fn backup_is_due_after_a_full_day() {
    assert!(needs_backup(2 * 86400, 86400));
    assert!(!needs_backup(2 * 86400 - 1, 86400));
    assert!(needs_backup(86400, 0));
    assert!(!needs_backup(100, 200));
}

#[test]
fn eight_daily_backups_keep_the_seven_newest() {
    let stamps: Vec<u64> = (1..=8).map(|d| d * 86400).collect();
    let removed = select_backups_to_remove(&stamps);
    assert_eq!(removed, vec![0]);
    assert_eq!(stamps.len() - removed.len(), 7);
}

#[test]
fn pruning_keeps_everything_up_to_seven() {
    for n in 0..=7u64 {
        let stamps: Vec<u64> = (0..n).collect();
        assert_eq!(select_backups_to_remove(&stamps), Vec::<usize>::new());
    }
}

#[test]
fn pruning_removes_all_but_the_seven_newest() {
    let stamps: Vec<u64> = vec![50, 10, 90, 20, 80, 30, 70, 40, 60, 100];
    let removed = select_backups_to_remove(&stamps);
    assert_eq!(removed.len(), 3);
    let mut removed_stamps: Vec<u64> = removed.iter().map(|&i| stamps[i]).collect();
    removed_stamps.sort();
    assert_eq!(removed_stamps, vec![10, 20, 30]);
}

#[test]
fn pruning_breaks_timestamp_ties_by_position() {
    let stamps: Vec<u64> = vec![5, 5, 5, 5, 5, 5, 5, 5];
    let removed = select_backups_to_remove(&stamps);
    assert_eq!(removed, vec![7]);
}

#[test]
fn backup_dir_is_under_the_data_dir() {
    assert_eq!(get_backup_dir("/home/someone/.local/share/app"), "/home/someone/.local/share/app/backups");
}

#[test]
fn decimal_rendering_matches_std() {
    for n in [0u64, 9, 10, 1234567890, u64::MAX] {
        assert_eq!(u64_to_string(n), n.to_string());
    }
}

#[test]
fn integer_parsing_matches_std() {
    for s in ["0", "13", "+42", "-42", "2147483647", "-2147483648", "2147483648", "-2147483649",
        "", "+", "-", "12x", " 12", "1.5", "--3", "+-3", "18446744073709551616"] {
        assert_eq!(parse_i32(s), s.parse::<i32>().ok(), "case {:?}", s);
    }
}

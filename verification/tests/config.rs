use pomodorust::config::CfgDTO;
use pomodorust::session::Statistic;

#[test]
fn default_config_values() {
    let dto = CfgDTO::default();
    assert_eq!(dto.working, 25);
    assert_eq!(dto.short_break, 5);
    assert_eq!(dto.long_break, 10);
    assert_eq!(dto.db_path, "pomodorust.db");
}

#[test]
fn minutes_convert_to_milliseconds() {
    let dto = CfgDTO::default();
    let cfg = dto.to_cfg();
    assert_eq!(cfg.working, 1_500_000);
    assert_eq!(cfg.short_break, 300_000);
    assert_eq!(cfg.long_break, 600_000);
    assert_eq!(cfg.pause_key, 'p');
    assert_eq!(cfg.quit_key, 'q');
}

#[test]
fn custom_minutes_convert_exactly() {
    let dto = CfgDTO {
        working: 1,
        short_break: 2,
        long_break: 90,
        db_path: "elsewhere.db".to_string(),
    };
    let cfg = dto.to_cfg();
    assert_eq!(cfg.working, 60_000);
    assert_eq!(cfg.short_break, 120_000);
    assert_eq!(cfg.long_break, 5_400_000);
}

#[test]
fn new_statistic_has_no_ticket_or_note() {
    let s = Statistic::new(25);
    assert_eq!(s.duration, 25);
    assert_eq!(s.ticket_id, None);
    assert_eq!(s.note, None);
}

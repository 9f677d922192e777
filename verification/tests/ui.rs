use klex::ui::Settings;

#[test]
fn settings_keep_the_refresh_rate() {
    assert_eq!(Settings::new(30).target_refresh_rate(), 30);
    assert_eq!(Settings::new(0).target_refresh_rate(), 0);
    assert_eq!(Settings::new(u64::MAX).target_refresh_rate(), u64::MAX);
}

#[test]
fn default_settings_refresh_sixty_times_a_second() {
    assert_eq!(Settings::default().target_refresh_rate(), 60);
}

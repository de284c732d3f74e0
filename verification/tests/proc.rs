use wado_compositor::proc::{cpu_weight, DEFAULT_APP_CPU_WEIGHT, MAX_APP_CPU_WEIGHT};

#[test]
fn cpu_weight_reads_the_env_and_treats_zero_as_off() {
    assert_eq!(cpu_weight(Some("0")), None);
    assert_eq!(cpu_weight(Some("25")), Some(25));
    assert_eq!(cpu_weight(Some("not a number")), Some(DEFAULT_APP_CPU_WEIGHT));
    assert_eq!(cpu_weight(None), Some(DEFAULT_APP_CPU_WEIGHT));
}

#[test]
fn a_weight_is_read_the_way_the_standard_parser_reads_it() {
    assert_eq!(cpu_weight(Some("  75 \n")), Some(75));
    assert_eq!(cpu_weight(Some("+10")), Some(10));
    assert_eq!(cpu_weight(Some("-10")), Some(DEFAULT_APP_CPU_WEIGHT));
    assert_eq!(cpu_weight(Some("")), Some(DEFAULT_APP_CPU_WEIGHT));
    assert_eq!(cpu_weight(Some("1 2")), Some(DEFAULT_APP_CPU_WEIGHT));
    assert_eq!(cpu_weight(Some("000")), None);
}

#[test]
fn a_weight_is_clamped_to_what_the_scope_accepts() {
    assert_eq!(cpu_weight(Some("10000")), Some(MAX_APP_CPU_WEIGHT));
    assert_eq!(cpu_weight(Some("99999")), Some(MAX_APP_CPU_WEIGHT));
    assert_eq!(cpu_weight(Some("4294967295")), Some(MAX_APP_CPU_WEIGHT));
    // One past u32::MAX does not parse at all.
    assert_eq!(cpu_weight(Some("4294967296")), Some(DEFAULT_APP_CPU_WEIGHT));
    assert_eq!(cpu_weight(Some("1")), Some(1));
}
